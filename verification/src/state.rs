use vstd::prelude::*;

use crate::time::Timestamp;

verus! {

/// What the persistent state holds.
#[derive(Clone, Copy, Debug, PartialEq, Eq, Structural)]
pub struct AppStateView {
    pub timestamp: Option<Timestamp>,
    pub borderless: bool,
    pub display_12hr: bool,
}

/// Persistent application state, including user preferences: the target
/// timestamp (if any), whether the window is borderless, and whether the clock shows
/// 12-hour time.
#[derive(Clone, Copy, Debug)]
pub struct AppState {
    timestamp: StoredTimestamp,
    borderless: bool,
    display_12hr: bool,
}

/// A target timestamp, kept only while it lies in the representable range.
#[derive(Clone, Copy, Debug)]
struct StoredTimestamp {
    value: Option<Timestamp>,
}

impl StoredTimestamp {
    #[verifier::type_invariant]
    spec fn inv(self) -> bool {
        self.value matches Some(t) ==> t.wf()
    }
}

impl View for AppState {
    type V = AppStateView;

    closed spec fn view(&self) -> AppStateView {
        AppStateView {
            timestamp: self.timestamp.value,
            borderless: self.borderless,
            display_12hr: self.display_12hr,
        }
    }
}

/// A stored timestamp is always an instant the calendar can represent.
pub open spec fn state_wf(s: AppStateView) -> bool {
    s.timestamp matches Some(t) ==> t.wf()
}

/// The `strftime` pattern of the clock: 24-hour, or 12-hour with am/pm.
pub open spec fn format_pattern(display_12hr: bool) -> Seq<char> {
    if display_12hr {
        "%I:%M:%S %P"@
    } else {
        "%H:%M:%S"@
    }
}

/// The state with the borderless flag flipped.
pub open spec fn borderless_toggled(s: AppStateView) -> AppStateView {
    AppStateView { borderless: !s.borderless, ..s }
}

/// The state with the 12-hour flag flipped.
pub open spec fn display_12hr_toggled(s: AppStateView) -> AppStateView {
    AppStateView { display_12hr: !s.display_12hr, ..s }
}

/// The state with the target timestamp replaced.
pub open spec fn with_timestamp(s: AppStateView, t: Option<Timestamp>) -> AppStateView {
    AppStateView { timestamp: t, ..s }
}

/// The state a fresh start has: no timestamp, decorated window, 24-hour clock.
pub open spec fn default_state() -> AppStateView {
    AppStateView { timestamp: None, borderless: false, display_12hr: false }
}

impl AppState {
    /// The state as loaded from its parts; a timestamp outside the representable
    /// range is refused.
    pub fn from_parts(timestamp: Option<Timestamp>, borderless: bool, display_12hr: bool) -> (r:
        Option<AppState>)
        ensures
            r matches Some(s) ==> s@ == (AppStateView { timestamp, borderless, display_12hr }),
            r is Some <==> state_wf(AppStateView { timestamp, borderless, display_12hr }),
    {
        match timestamp {
            Some(t) => {
                if -crate::time::TIMESTAMP_BOUND <= t.secs && t.secs <= crate::time::TIMESTAMP_BOUND
                    && t.nanos < crate::time::NANOS_PER_SEC {
                    Some(AppState { timestamp: StoredTimestamp { value: timestamp }, borderless, display_12hr })
                } else {
                    None
                }
            },
            None => Some(
                AppState { timestamp: StoredTimestamp { value: None }, borderless, display_12hr },
            ),
        }
    }

    /// A mutable handle on the borderless flag (for a checkbox to edit).
    pub fn get_borderless_mut(&mut self) -> (r: &mut bool)
        ensures
            *r == old(self)@.borderless,
            final(self)@ == (AppStateView { borderless: *final(r), ..old(self)@ }),
    {
        &mut self.borderless
    }

    pub fn get_borderless(&self) -> (r: bool)
        ensures
            r == self@.borderless,
    {
        self.borderless
    }

    pub fn toggle_borderless(&mut self)
        ensures
            final(self)@ == borderless_toggled(old(self)@),
    {
        self.borderless = !self.borderless;
    }

    pub fn get_12hr(&self) -> (r: bool)
        ensures
            r == self@.display_12hr,
    {
        self.display_12hr
    }

    pub fn toggle_12hr(&mut self)
        ensures
            final(self)@ == display_12hr_toggled(old(self)@),
    {
        self.display_12hr = !self.display_12hr;
    }

    /// The `strftime` pattern the clock is shown with.
    pub fn timestamp_format_string(&self) -> (r: &'static str)
        ensures
            r@ == format_pattern(self@.display_12hr),
    {
        match self.get_12hr() {
            false => "%H:%M:%S",
            true => "%I:%M:%S %P",
        }
    }

    pub fn get_timestamp(&self) -> (r: Option<Timestamp>)
        ensures
            r == self@.timestamp,
            r matches Some(t) ==> t.wf(),
    {
        proof {
            use_type_invariant(&self.timestamp);
        }
        self.timestamp.value
    }

    pub fn set_timestamp(&mut self, timestamp: Timestamp)
        requires
            timestamp.wf(),
        ensures
            final(self)@ == with_timestamp(old(self)@, Some(timestamp)),
    {
        self.timestamp = StoredTimestamp { value: Some(timestamp) };
    }

    pub fn reset_timestamp(&mut self)
        ensures
            final(self)@ == with_timestamp(old(self)@, None),
    {
        self.timestamp = StoredTimestamp { value: None };
    }
}

impl Default for AppState {
    fn default() -> (r: AppState)
        ensures
            r@ == default_state(),
    {
        AppState {
            timestamp: StoredTimestamp { value: None },
            borderless: false,
            display_12hr: false,
        }
    }
}

} // verus!
