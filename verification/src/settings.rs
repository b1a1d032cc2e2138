//! The producer-facing settings object.
//!
//! Settings updates are delivered over the control channel and observed
//! only: nothing is persisted and no behaviour changes at runtime.

use vstd::prelude::*;

verus! {

/// The settings a producer may announce.
#[derive(Debug, Clone, Copy, PartialEq, Eq, Structural)]
pub struct Settings {
    pub enabled: bool,
    pub auto_launch: bool,
    pub media_keys: bool,
    pub title_menubar: bool,
}

} // verus!
