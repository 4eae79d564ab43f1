//! The shared server state of the central server: the installed
//! configuration snapshot, the flags derived from it, and the reload that
//! replaces both at once or neither.

use crate::config::merge;
use crate::config::merge_result;
use crate::config::ConfigEdit;
use crate::config::ConfigError;
use crate::config::ConfigSnapshot;
use crate::config::ConfigView;
use crate::config::EditView;
use vstd::prelude::*;

verus! {

/// Seconds over which a burst of change notifications is gathered into one
/// batch.
pub const DEBOUNCE_WINDOW_SECS: u64 = 1;

/// Seconds after which the gathered notifications are looked at again, so
/// that a file still being written is left to settle. It is never longer
/// than the debounce window.
pub const SETTLE_TIMEOUT_SECS: u64 = 1;

/// The booleans that are mirrored outside the state lock for fast reads.
#[derive(Clone, Copy, Debug, PartialEq, Eq, Structural)]
pub struct DerivedFlags {
    pub maintenance: bool,
    pub verification_enabled: bool,
}

/// The flags that belong to the configuration `c`.
pub open spec fn derive_flags(c: ConfigView) -> DerivedFlags {
    DerivedFlags {
        maintenance: c.maintenance,
        verification_enabled: c.use_external_verification,
    }
}

/// Why a reload left the installed snapshot in place.
#[derive(Clone, Copy, Debug, PartialEq, Eq, Structural)]
pub enum ReloadError {
    /// The configuration file could not be read.
    Io,
    /// The file's content is not a configuration document.
    Parse,
    /// The document was read, but the configuration it asks for breaks a rule.
    Invalid(ConfigError),
}

/// What one attempt to read the configuration file brought.
#[derive(Debug, PartialEq, Eq)]
pub enum ReloadAttempt {
    /// The file could not be read.
    Unreadable,
    /// The file was read and its content is not a configuration document.
    Malformed,
    /// The file was read and parsed into the fields it names.
    Parsed(ConfigEdit),
}

/// The mathematical content of a reload attempt.
pub ghost enum AttemptView {
    Unreadable,
    Malformed,
    Parsed(EditView),
}

impl View for ReloadAttempt {
    type V = AttemptView;

    open spec fn view(&self) -> AttemptView {
        match self {
            ReloadAttempt::Unreadable => AttemptView::Unreadable,
            ReloadAttempt::Malformed => AttemptView::Malformed,
            ReloadAttempt::Parsed(edit) => AttemptView::Parsed(edit@),
        }
    }
}

impl Clone for ReloadAttempt {
    fn clone(&self) -> (copy: ReloadAttempt)
        ensures
            copy@ == self@,
    {
        match self {
            ReloadAttempt::Unreadable => ReloadAttempt::Unreadable,
            ReloadAttempt::Malformed => ReloadAttempt::Malformed,
            ReloadAttempt::Parsed(edit) => ReloadAttempt::Parsed(edit.clone()),
        }
    }
}

/// The mathematical content of the shared state.
pub ghost struct SharedView {
    pub config_path: Seq<char>,
    pub config: ConfigView,
    pub flags: DerivedFlags,
}

impl SharedView {
    /// The flags are those of the installed snapshot, and the snapshot is
    /// valid.
    pub open spec fn consistent(self) -> bool {
        &&& self.flags == derive_flags(self.config)
        &&& self.config.is_valid()
    }
}

/// What a reload attempt decides against the snapshot `current`: the
/// snapshot to install, or the reason for keeping `current`.
pub open spec fn reload_result(current: ConfigView, attempt: AttemptView) -> Result<
    ConfigView,
    ReloadError,
> {
    match attempt {
        AttemptView::Unreadable => Err(ReloadError::Io),
        AttemptView::Malformed => Err(ReloadError::Parse),
        AttemptView::Parsed(edit) => match merge_result(current, edit) {
            Ok(c) => Ok(c),
            Err(e) => Err(ReloadError::Invalid(e)),
        },
    }
}

/// The state after one reload attempt: the new snapshot with its flags, or
/// the state as it was.
pub open spec fn after_reload(state: SharedView, attempt: AttemptView) -> SharedView {
    match reload_result(state.config, attempt) {
        Ok(c) => SharedView { config_path: state.config_path, config: c, flags: derive_flags(c) },
        Err(_) => state,
    }
}

/// The mathematical content of what was found at startup.
pub open spec fn found_view(found: Option<&ReloadAttempt>) -> Option<AttemptView> {
    match found {
        Some(attempt) => Some(attempt@),
        None => None,
    }
}

/// What the server starts with: the template where no file was found, else
/// what the file's attempt decides against the template.
pub open spec fn startup_result(template: ConfigView, found: Option<AttemptView>) -> Result<
    ConfigView,
    ReloadError,
> {
    match found {
        None => Ok(template),
        Some(attempt) => reload_result(template, attempt),
    }
}

/// The state after a run of reload attempts, applied in order.
pub open spec fn after_reloads(state: SharedView, attempts: Seq<AttemptView>) -> SharedView
    decreases attempts.len(),
{
    if attempts.len() == 0 {
        state
    } else {
        after_reload(after_reloads(state, attempts.drop_last()), attempts.last())
    }
}

/// A snapshot together with the flags derived from it. The two are only ever
/// made, and so only ever replaced, as one value.
struct Installed {
    config: ConfigSnapshot,
    flags: DerivedFlags,
}

impl Installed {
    #[verifier::type_invariant]
    spec fn flags_match(self) -> bool {
        self.flags == derive_flags(self.config@)
    }

    fn new(config: ConfigSnapshot) -> (r: Installed)
        ensures
            r.config@ == config@,
            r.flags == derive_flags(config@),
    {
        let flags = DerivedFlags {
            maintenance: config.maintenance(),
            verification_enabled: config.use_external_verification(),
        };
        Installed { config, flags }
    }
}

/// The state that request handlers read and the configuration watcher
/// writes. It owns the one installed snapshot, the flags derived from it and
/// the path of the file that backs it.
pub struct SharedState {
    config_path: String,
    installed: Installed,
}

impl View for SharedState {
    type V = SharedView;

    closed spec fn view(&self) -> SharedView {
        SharedView {
            config_path: self.config_path@,
            config: self.installed.config@,
            flags: self.installed.flags,
        }
    }
}

impl SharedState {
    /// The state at startup: `config` installed, its flags derived.
    pub fn new(config_path: String, config: ConfigSnapshot) -> (state: SharedState)
        ensures
            state@.config_path == config_path@,
            state@.config == config@,
            state@.flags == derive_flags(config@),
            state@.consistent(),
    {
        proof {
            use_type_invariant(&config);
        }
        SharedState { config_path, installed: Installed::new(config) }
    }

    /// The state that the server starts with. `found` is what reading the
    /// configuration file brought, or `None` where there is no file yet.
    /// Without a file the template is installed as it is. With one, the
    /// file's edit is applied on top of the template, and a file that
    /// cannot be read, parsed or accepted is an error: the server must not
    /// start on it.
    pub fn at_startup(
        config_path: String,
        template: ConfigSnapshot,
        found: Option<&ReloadAttempt>,
    ) -> (r: Result<SharedState, ReloadError>)
        ensures
            match r {
                Ok(state) => {
                    &&& startup_result(template@, found_view(found)) == Ok::<
                        ConfigView,
                        ReloadError,
                    >(state@.config)
                    &&& state@.config_path == config_path@
                    &&& state@.consistent()
                },
                Err(e) => startup_result(template@, found_view(found)) == Err::<
                    ConfigView,
                    ReloadError,
                >(e),
            },
    {
        let mut state = SharedState::new(config_path, template);
        match found {
            None => Ok(state),
            Some(attempt) => match state.reload(attempt) {
                Ok(_) => Ok(state),
                Err(e) => Err(e),
            },
        }
    }

    /// One reload, as the watcher runs it under the write lock. A parsed
    /// edit is merged into the installed snapshot and validated; where that
    /// succeeds, the new snapshot and its flags are installed together and
    /// the flags are returned for the mirrors. In every other case the state
    /// is left exactly as it was and the reason is returned.
    pub fn reload(&mut self, attempt: &ReloadAttempt) -> (r: Result<DerivedFlags, ReloadError>)
        ensures
            final(self)@ == after_reload(old(self)@, attempt@),
            final(self)@.consistent(),
            match r {
                Ok(flags) => {
                    &&& reload_result(old(self)@.config, attempt@) is Ok
                    &&& flags == final(self)@.flags
                },
                Err(e) => reload_result(old(self)@.config, attempt@) == Err::<
                    ConfigView,
                    ReloadError,
                >(e),
            },
    {
        proof {
            use_type_invariant(&self.installed);
            use_type_invariant(&self.installed.config);
        }
        match attempt {
            ReloadAttempt::Unreadable => Err(ReloadError::Io),
            ReloadAttempt::Malformed => Err(ReloadError::Parse),
            ReloadAttempt::Parsed(edit) => match self.installed.config.merged(edit) {
                Ok(config) => {
                    proof {
                        use_type_invariant(&config);
                    }
                    let next = Installed::new(config);
                    let flags = next.flags;
                    self.installed = next;
                    Ok(flags)
                },
                Err(e) => Err(ReloadError::Invalid(e)),
            },
        }
    }

    /// The installed snapshot and its flags, read together. The flags are
    /// always those of the snapshot.
    pub fn observe(&self) -> (r: (&ConfigSnapshot, DerivedFlags))
        ensures
            r.0@ == self@.config,
            r.1 == self@.flags,
            r.1.maintenance == r.0@.maintenance,
            r.1.verification_enabled == r.0@.use_external_verification,
            self@.consistent(),
    {
        proof {
            use_type_invariant(&self.installed);
            use_type_invariant(&self.installed.config);
        }
        (&self.installed.config, self.installed.flags)
    }

    /// The installed snapshot.
    pub fn config(&self) -> (r: &ConfigSnapshot)
        ensures
            r@ == self@.config,
    {
        &self.installed.config
    }

    /// The flags of the installed snapshot.
    pub fn flags(&self) -> (r: DerivedFlags)
        ensures
            r == self@.flags,
            r == derive_flags(self@.config),
    {
        proof {
            use_type_invariant(&self.installed);
        }
        self.installed.flags
    }

    /// Whether the installed snapshot puts the service in maintenance mode.
    pub fn maintenance(&self) -> (r: bool)
        ensures
            r == self@.config.maintenance,
    {
        proof {
            use_type_invariant(&self.installed);
        }
        self.installed.flags.maintenance
    }

    /// The path of the file that backs the configuration.
    pub fn config_path(&self) -> (r: &str)
        ensures
            r@ == self@.config_path,
    {
        self.config_path.as_str()
    }
}

/// A reload installs the merged configuration in full or changes nothing:
/// the state after an attempt is the state before it, or it holds exactly
/// the merge of the prior snapshot with the edit, and never anything else.
pub proof fn law_reload_is_atomic(state: SharedView, attempt: AttemptView)
    ensures
        after_reload(state, attempt) == state || (attempt matches AttemptView::Parsed(edit)
            && after_reload(state, attempt).config == merge(state.config, edit)),
        reload_result(state.config, attempt) is Err ==> after_reload(state, attempt) == state,
        after_reload(state, attempt).config_path == state.config_path,
{
}

/// A reload from a document that names every field installs exactly the
/// configuration that the document names, or changes nothing.
pub proof fn law_full_document_replaces_or_nothing(state: SharedView, document: ConfigView)
    ensures
        ({
            let after = after_reload(state, AttemptView::Parsed(EditView::full(document)));
            if document.is_valid() {
                after.config == document && after.flags == derive_flags(document)
            } else {
                after == state
            }
        }),
{
}

/// A reload keeps the flags equal to those of the installed snapshot, and
/// the installed snapshot valid.
pub proof fn law_reload_keeps_flags_consistent(state: SharedView, attempt: AttemptView)
    requires
        state.consistent(),
    ensures
        after_reload(state, attempt).consistent(),
        after_reload(state, attempt).flags.maintenance == after_reload(
            state,
            attempt,
        ).config.maintenance,
        after_reload(state, attempt).flags.verification_enabled == after_reload(
            state,
            attempt,
        ).config.use_external_verification,
{
}

/// Over any run of attempts, each single step is atomic and leaves the
/// flags consistent: the state after the first `k + 1` attempts is the state
/// after the first `k` with attempt `k` applied.
pub proof fn law_every_reload_in_a_run_is_atomic(
    state: SharedView,
    attempts: Seq<AttemptView>,
    k: int,
)
    requires
        state.consistent(),
        0 <= k < attempts.len(),
    ensures
        after_reloads(state, attempts.take(k)).consistent(),
        after_reloads(state, attempts.take(k + 1)).consistent(),
        after_reloads(state, attempts.take(k + 1)) == after_reload(
            after_reloads(state, attempts.take(k)),
            attempts[k],
        ),
        after_reloads(state, attempts.take(k + 1)) == after_reloads(state, attempts.take(k)) || (
        attempts[k] matches AttemptView::Parsed(edit) && after_reloads(
            state,
            attempts.take(k + 1),
        ).config == merge(after_reloads(state, attempts.take(k)).config, edit)),
{
    lemma_run_consistent(state, attempts.take(k));
    lemma_run_consistent(state, attempts.take(k + 1));
    assert(attempts.take(k + 1).drop_last() =~= attempts.take(k));
    assert(attempts.take(k + 1).last() == attempts[k]);
}

/// A run of attempts keeps a consistent state consistent.
pub proof fn lemma_run_consistent(state: SharedView, attempts: Seq<AttemptView>)
    requires
        state.consistent(),
    ensures
        after_reloads(state, attempts).consistent(),
        after_reloads(state, attempts).config_path == state.config_path,
    decreases attempts.len(),
{
    if attempts.len() > 0 {
        lemma_run_consistent(state, attempts.drop_last());
    }
}

} // verus!
