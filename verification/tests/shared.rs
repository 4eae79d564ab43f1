use globed_state::config::ConfigEdit;
use globed_state::config::ConfigError;
use globed_state::config::ConfigSnapshot;
use globed_state::mirror::reload_and_publish;
use globed_state::mirror::FlagMirror;
use globed_state::shared::DerivedFlags;
use globed_state::shared::ReloadAttempt;
use globed_state::shared::ReloadError;
use globed_state::shared::SharedState;
use globed_state::shared::DEBOUNCE_WINDOW_SECS;
use globed_state::shared::SETTLE_TIMEOUT_SECS;

fn s0() -> ConfigSnapshot {
    ConfigSnapshot::new(
        String::from("/"),
        String::from("alpha"),
        String::from("beta"),
        false,
        true,
        30,
        600,
    )
    .unwrap()
}

fn fresh_state() -> SharedState {
    SharedState::new(String::from("/etc/central-conf.json"), s0())
}

fn assert_consistent(state: &SharedState) {
    let (config, flags) = state.observe();
    assert_eq!(flags.maintenance, config.maintenance());
    assert_eq!(flags.verification_enabled, config.use_external_verification());
    assert_eq!(state.flags(), flags);
    assert_eq!(state.maintenance(), config.maintenance());
}

#[test]
fn new_state_holds_the_initial_snapshot() {
    let state = fresh_state();
    assert_eq!(state.config_path(), "/etc/central-conf.json");
    assert_eq!(state.config(), &s0());
    assert_eq!(state.flags(), DerivedFlags { maintenance: false, verification_enabled: true });
    assert_consistent(&state);
}

#[test]
fn unparseable_edit_leaves_snapshot_and_flags() {
    let mut state = fresh_state();
    let r = state.reload(&ReloadAttempt::Malformed);
    assert_eq!(r, Err(ReloadError::Parse));
    assert_eq!(state.config(), &s0());
    assert!(!state.flags().maintenance);
    assert!(!state.maintenance());
    assert_eq!(state.flags(), DerivedFlags { maintenance: false, verification_enabled: true });
}

#[test]
fn unreadable_file_leaves_snapshot_and_flags() {
    let mut state = fresh_state();
    let r = state.reload(&ReloadAttempt::Unreadable);
    assert_eq!(r, Err(ReloadError::Io));
    assert_eq!(state.config(), &s0());
    assert_eq!(state.flags(), DerivedFlags { maintenance: false, verification_enabled: true });
    assert_eq!(state.config_path(), "/etc/central-conf.json");
}

#[test]
fn invalid_edit_is_refused_as_a_whole() {
    let mut state = fresh_state();
    let mut edit = ConfigEdit::empty();
    edit.maintenance = Some(true);
    edit.use_external_verification = Some(false);
    edit.secret_key = Some(String::new());
    let r = state.reload(&ReloadAttempt::Parsed(edit));
    assert_eq!(r, Err(ReloadError::Invalid(ConfigError::EmptySecretKey)));
    assert_eq!(state.config(), &s0());
    assert_eq!(state.flags(), DerivedFlags { maintenance: false, verification_enabled: true });
}

#[test]
fn valid_edit_installs_snapshot_and_flags_together() {
    let mut state = fresh_state();
    let mut edit = ConfigEdit::empty();
    edit.maintenance = Some(true);
    edit.use_external_verification = Some(false);
    edit.web_mountpoint = Some(String::from("/central"));
    let r = state.reload(&ReloadAttempt::Parsed(edit));
    assert_eq!(r, Ok(DerivedFlags { maintenance: true, verification_enabled: false }));
    let expected = ConfigSnapshot::new(
        String::from("/central"),
        String::from("alpha"),
        String::from("beta"),
        true,
        false,
        30,
        600,
    )
    .unwrap();
    assert_eq!(state.config(), &expected);
    assert_eq!(state.flags(), DerivedFlags { maintenance: true, verification_enabled: false });
    assert!(state.maintenance());
    assert_eq!(state.config_path(), "/etc/central-conf.json");
    assert_consistent(&state);
}

#[test]
fn empty_edit_is_accepted_and_changes_nothing() {
    let mut state = fresh_state();
    let r = state.reload(&ReloadAttempt::Parsed(ConfigEdit::empty()));
    assert_eq!(r, Ok(DerivedFlags { maintenance: false, verification_enabled: true }));
    assert_eq!(state.config(), &s0());
}

#[test]
fn run_of_edits_is_atomic_at_every_step() {
    let mut state = fresh_state();
    let mut on = ConfigEdit::empty();
    on.maintenance = Some(true);
    let mut broken = ConfigEdit::empty();
    broken.maintenance = Some(false);
    broken.web_mountpoint = Some(String::from("relative"));
    let mut retune = ConfigEdit::empty();
    retune.challenge_expiry = Some(99);
    retune.use_external_verification = Some(false);
    let attempts = vec![
        ReloadAttempt::Parsed(on),
        ReloadAttempt::Malformed,
        ReloadAttempt::Parsed(broken),
        ReloadAttempt::Unreadable,
        ReloadAttempt::Parsed(retune),
    ];
    let accepted = vec![true, false, false, false, true];
    for (attempt, expect_ok) in attempts.iter().zip(accepted) {
        let before = state.config().clone();
        let outcome = state.reload(attempt);
        assert_eq!(outcome.is_ok(), expect_ok);
        match attempt {
            ReloadAttempt::Parsed(edit) if expect_ok => {
                assert_eq!(state.config(), &before.merged(edit).unwrap());
            }
            _ => assert_eq!(state.config(), &before),
        }
        assert_consistent(&state);
    }
    let expected = ConfigSnapshot::new(
        String::from("/"),
        String::from("alpha"),
        String::from("beta"),
        true,
        false,
        99,
        600,
    )
    .unwrap();
    assert_eq!(state.config(), &expected);
    assert_eq!(state.flags(), DerivedFlags { maintenance: true, verification_enabled: false });
}

#[test]
fn watcher_windows_are_one_second() {
    assert_eq!(DEBOUNCE_WINDOW_SECS, 1);
    assert_eq!(SETTLE_TIMEOUT_SECS, 1);
}

#[test]
fn mirror_shows_what_was_published() {
    let mirror = FlagMirror::new(DerivedFlags { maintenance: false, verification_enabled: true });
    assert!(!mirror.maintenance());
    assert!(mirror.verification_enabled());
    mirror.publish(DerivedFlags { maintenance: true, verification_enabled: false });
    assert!(mirror.maintenance());
    assert!(!mirror.verification_enabled());
}

#[test]
fn mirror_follows_an_accepted_reload_only() {
    let mut state = fresh_state();
    let mirror = FlagMirror::new(state.flags());
    if let Ok(flags) = state.reload(&ReloadAttempt::Malformed) {
        mirror.publish(flags);
    }
    assert!(!mirror.maintenance());
    assert!(mirror.verification_enabled());
    let mut edit = ConfigEdit::empty();
    edit.maintenance = Some(true);
    if let Ok(flags) = state.reload(&ReloadAttempt::Parsed(edit)) {
        mirror.publish(flags);
    }
    assert!(mirror.maintenance());
    assert!(mirror.verification_enabled());
    assert_eq!(mirror.maintenance(), state.config().maintenance());
    assert_eq!(mirror.verification_enabled(), state.config().use_external_verification());
}

#[test]
fn reload_and_publish_moves_state_and_mirror_together() {
    let mut state = fresh_state();
    let mirror = FlagMirror::new(state.flags());
    let mut edit = ConfigEdit::empty();
    edit.maintenance = Some(true);
    edit.use_external_verification = Some(false);
    let r = reload_and_publish(&mut state, &mirror, &ReloadAttempt::Parsed(edit));
    assert_eq!(r, Ok(DerivedFlags { maintenance: true, verification_enabled: false }));
    assert!(mirror.maintenance());
    assert!(!mirror.verification_enabled());
    assert_eq!(state.flags(), DerivedFlags { maintenance: true, verification_enabled: false });
}

#[test]
fn reload_and_publish_leaves_both_alone_on_refusal() {
    let mut state = fresh_state();
    let mirror = FlagMirror::new(state.flags());
    let mut edit = ConfigEdit::empty();
    edit.maintenance = Some(true);
    edit.secret_key2 = Some(String::new());
    let attempts = [ReloadAttempt::Malformed, ReloadAttempt::Unreadable, ReloadAttempt::Parsed(edit)];
    let errors = [
        ReloadError::Parse,
        ReloadError::Io,
        ReloadError::Invalid(ConfigError::EmptySecondarySecretKey),
    ];
    for (attempt, error) in attempts.iter().zip(errors) {
        assert_eq!(reload_and_publish(&mut state, &mirror, attempt), Err(error));
        assert!(!mirror.maintenance());
        assert!(mirror.verification_enabled());
        assert_eq!(state.config(), &s0());
    }
}

#[test]
fn startup_without_a_file_installs_the_template() {
    let state = SharedState::at_startup(String::from("conf.json"), s0(), None).unwrap();
    assert_eq!(state.config(), &s0());
    assert_eq!(state.config_path(), "conf.json");
    assert_eq!(state.flags(), DerivedFlags { maintenance: false, verification_enabled: true });
}

#[test]
fn startup_applies_the_file_on_top_of_the_template() {
    let mut edit = ConfigEdit::empty();
    edit.secret_key = Some(String::from("from-file"));
    edit.maintenance = Some(true);
    let attempt = ReloadAttempt::Parsed(edit);
    let state = SharedState::at_startup(String::from("conf.json"), s0(), Some(&attempt)).unwrap();
    assert_eq!(state.config().secret_key(), "from-file");
    assert_eq!(state.config().secret_key2(), "beta");
    assert!(state.maintenance());
    assert_eq!(state.flags(), DerivedFlags { maintenance: true, verification_enabled: true });
}

#[test]
fn startup_fails_on_a_file_that_cannot_be_used() {
    let r = SharedState::at_startup(String::from("conf.json"), s0(), Some(&ReloadAttempt::Unreadable));
    assert_eq!(r.err(), Some(ReloadError::Io));
    let r = SharedState::at_startup(String::from("conf.json"), s0(), Some(&ReloadAttempt::Malformed));
    assert_eq!(r.err(), Some(ReloadError::Parse));
    let mut edit = ConfigEdit::empty();
    edit.web_mountpoint = Some(String::new());
    let attempt = ReloadAttempt::Parsed(edit);
    let r = SharedState::at_startup(String::from("conf.json"), s0(), Some(&attempt));
    assert_eq!(r.err(), Some(ReloadError::Invalid(ConfigError::BadMountpoint)));
}

#[test]
fn clone_of_an_attempt_is_the_same_attempt() {
    let mut edit = ConfigEdit::empty();
    edit.maintenance = Some(true);
    let attempt = ReloadAttempt::Parsed(edit);
    assert_eq!(attempt.clone(), attempt);
    assert_eq!(ReloadAttempt::Malformed.clone(), ReloadAttempt::Malformed);
    assert_eq!(ReloadAttempt::Unreadable.clone(), ReloadAttempt::Unreadable);
}
