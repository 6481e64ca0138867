use vstd::prelude::*;

use crate::time::Timestamp;

verus! {

/// Deferred execution of one action of the application.
#[derive(Clone, Debug)]
pub enum AppAction {
    /// Nothing to do.
    Idle,
    /// The absolute-timestamp dialog is open, holding the text typed so far.
    TimestampAbsRequest(String),
    /// The relative-timestamp dialog is open, holding the text typed so far.
    TimestampRelRequest(String),
    SetTimestamp(Timestamp),
    ResTimestamp,
    Toggle12Hour,
    RefreshBorderless,
    Exit,
}

impl Default for AppAction {
    fn default() -> (r: AppAction)
        ensures
            r is Idle,
    {
        AppAction::Idle
    }
}

} // verus!
