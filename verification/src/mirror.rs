//! The derived flags as they are mirrored outside the state lock, for
//! readers that must not wait for it.
//!
//! The watcher publishes the flags of a new snapshot while it still holds
//! the write lock of the shared state, so that the mirror never shows the
//! flags of a snapshot that is not installed. The mirror is written nowhere
//! else.

use crate::config::ConfigView;
use crate::shared::after_reload;
use crate::shared::reload_result;
use crate::shared::DerivedFlags;
use crate::shared::ReloadAttempt;
use crate::shared::ReloadError;
use crate::shared::SharedState;
use std::sync::atomic::AtomicBool;
use std::sync::atomic::Ordering;
use vstd::prelude::*;

verus! {

/// Two atomic booleans that follow the flags of the installed snapshot.
pub struct FlagMirror {
    maintenance: AtomicBool,
    verification_enabled: AtomicBool,
}

impl FlagMirror {
    /// A mirror that shows `flags`.
    pub fn new(flags: DerivedFlags) -> Self {
        Self {
            maintenance: AtomicBool::new(flags.maintenance),
            verification_enabled: AtomicBool::new(flags.verification_enabled),
        }
    }

    /// Shows `flags` from now on. To be called with the flags that `reload`
    /// returned, before the write lock is let go.
    pub fn publish(&self, flags: DerivedFlags) {
        self.maintenance.store(flags.maintenance, Ordering::Relaxed);
        self.verification_enabled.store(flags.verification_enabled, Ordering::Relaxed);
    }

    /// The maintenance flag as last published.
    pub fn maintenance(&self) -> bool {
        self.maintenance.load(Ordering::Relaxed)
    }

    /// The verification flag as last published. The refresher reads it anew
    /// at every tick.
    pub fn verification_enabled(&self) -> bool {
        self.verification_enabled.load(Ordering::Relaxed)
    }
}

/// The whole of the watcher's critical section, to be run while the write
/// lock of `state` is held: one reload, and where it installs a new snapshot
/// the flags of that snapshot are published to `mirror` before the function
/// returns. A refused reload leaves both the state and the mirror alone.
pub fn reload_and_publish(state: &mut SharedState, mirror: &FlagMirror, attempt: &ReloadAttempt) -> (r:
    Result<DerivedFlags, ReloadError>)
    ensures
        final(state)@ == after_reload(old(state)@, attempt@),
        final(state)@.consistent(),
        match r {
            Ok(flags) => {
                &&& reload_result(old(state)@.config, attempt@) is Ok
                &&& flags == final(state)@.flags
            },
            Err(e) => reload_result(old(state)@.config, attempt@) == Err::<ConfigView, ReloadError>(
                e,
            ),
        },
{
    let r = state.reload(attempt);
    match r {
        Ok(flags) => mirror.publish(flags),
        Err(_) => {},
    }
    r
}

} // verus!
