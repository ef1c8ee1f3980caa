//! The platform-independent visibility-duration policy of a notification.

use vstd::prelude::*;

verus! {

/// How long a notification should remain visible.
///
/// Platforms without millisecond granularity coarse-map `Milliseconds` into
/// their nearest duration class using a fixed threshold.
#[derive(Clone, Copy, PartialEq, Eq, Structural, Debug)]
pub enum Timeout {
    /// Use the platform's default duration.
    Default,
    /// Persist until dismissed; platforms without a true "never" map this to
    /// their longest duration class.
    Never,
    /// An explicit duration in milliseconds.
    Milliseconds(u32),
}

impl Default for Timeout {
    fn default() -> (r: Self)
        ensures
            r == Timeout::Default,
    {
        Timeout::Default
    }
}

} // verus!
