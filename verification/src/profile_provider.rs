//! The calibration that the streamer works under, and when it is replaced.
//!
//! The streamer keeps the transform of the profile it last read. When the
//! profile's file has changed it is read again. A file that cannot be read or
//! parsed must not disturb the stream: the transform in use stays, whole,
//! until a later reading succeeds.
//!
//! Watching the file and reading it are the caller's part. The caller says
//! how many change notices have come in and, where it did read the file, what
//! came of it.

use vstd::prelude::*;
use crate::calibration::Profile;
use crate::geometry::{Quaternion, Vector3};

verus! {

/// What a check for a changed profile came to.
#[derive(Clone, Copy, Debug, PartialEq, Eq, Structural)]
pub enum Reload {
    /// No change was noticed; the file was not to be read.
    NotNeeded,
    /// The file was read and its transform is now in use.
    Reloaded,
    /// The file had changed but gave no profile; the transform stays.
    Failed,
}

/// The transform in use.
#[derive(Clone, Copy, Debug, PartialEq, Eq, Structural)]
pub struct ProfileProvider {
    pub wfd_rotation: Quaternion,
    pub wfd_translation: Vector3,
}

/// Whether the file is to be read again after `events` change notices.
pub open spec fn reload_wanted(events: usize) -> bool {
    events > 0
}

impl ProfileProvider {
    /// The provider that serves the transform of `profile`.
    pub open spec fn serving(profile: Profile) -> ProfileProvider {
        ProfileProvider {
            wfd_rotation: profile.spec_wfd_rotation(),
            wfd_translation: profile.spec_wfd_translation(),
        }
    }

    /// The provider after a check: the transform of the profile that was
    /// read, where one was wanted and one came; else the provider as it was.
    pub open spec fn after_check(self, events: usize, loaded: Option<Profile>) -> ProfileProvider {
        if reload_wanted(events) && loaded is Some {
            ProfileProvider::serving(loaded->Some_0)
        } else {
            self
        }
    }

    /// What a check reports.
    pub open spec fn outcome(events: usize, loaded: Option<Profile>) -> Reload {
        if !reload_wanted(events) {
            Reload::NotNeeded
        } else if loaded is Some {
            Reload::Reloaded
        } else {
            Reload::Failed
        }
    }

    /// Starts with the profile that was read when the process began.
    pub fn new(profile: &Profile) -> (provider: ProfileProvider)
        ensures
            provider == ProfileProvider::serving(*profile),
    {
        ProfileProvider {
            wfd_rotation: profile.wfd_rotation(),
            wfd_translation: profile.wfd_translation(),
        }
    }

    /// Whether the caller is to read the file: it is, as soon as one change
    /// notice has come in since the last check.
    pub fn wants_reload(events: usize) -> (wanted: bool)
        ensures
            wanted == reload_wanted(events),
    {
        events > 0
    }

    /// Ends a check. `events` is the number of change notices since the last
    /// check. `loaded` is the profile read from the file, or `None` where the
    /// file was not read or gave no profile.
    ///
    /// The transform is replaced as a whole or not at all.
    pub fn reload_if_updated(&mut self, events: usize, loaded: Option<Profile>) -> (report: Reload)
        ensures
            *final(self) == old(self).after_check(events, loaded),
            report == ProfileProvider::outcome(events, loaded),
            report != Reload::Reloaded ==> *final(self) == *old(self),
    {
        if events > 0 {
            match loaded {
                Some(profile) => {
                    self.wfd_rotation = profile.wfd_rotation();
                    self.wfd_translation = profile.wfd_translation();
                    Reload::Reloaded
                },
                None => Reload::Failed,
            }
        } else {
            Reload::NotNeeded
        }
    }
}

/// A reading that fails leaves the transform as it was, and the next reading
/// that succeeds puts its profile in use.
pub proof fn law_reload_isolation(
    provider: ProfileProvider,
    first_events: usize,
    second_events: usize,
    profile: Profile,
)
    requires
        reload_wanted(second_events),
    ensures
        provider.after_check(first_events, None) == provider,
        provider.after_check(first_events, None).after_check(second_events, Some(profile))
            == ProfileProvider::serving(profile),
{
}

} // verus!
