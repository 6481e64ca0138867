use vstd::prelude::*;
use vstd::std_specs::cmp::PartialEqSpec;

verus! {

/// Managed default focus: the widget that should hold the keyboard focus, and
/// whether focus still has to be requested for it.
pub type FocusManager<K> = Option<(K, bool)>;

/// The focus state after `id` is named the default: unchanged when `id` already is
/// the default, else `id` with a pending request.
pub open spec fn after_default_focus<K: PartialEq>(s: FocusManager<K>, id: K) -> FocusManager<K> {
    match s {
        Some((cur, pending)) => if cur.eq_spec(&id) {
            s
        } else {
            Some((id, true))
        },
        None => Some((id, true)),
    }
}

/// The focus state after focus is applied: a pending request is marked done.
pub open spec fn after_apply_focus<K>(s: FocusManager<K>) -> FocusManager<K> {
    match s {
        Some((cur, true)) => Some((cur, false)),
        _ => s,
    }
}

/// The widget to request focus for when focus is applied: the default, if its
/// request is still pending.
pub open spec fn focus_request<K>(s: FocusManager<K>) -> Option<K> {
    match s {
        Some((cur, true)) => Some(cur),
        _ => None,
    }
}

/// Management of a default keyboard focus.
pub trait ManagedFocus<K: Copy + PartialEq>: Sized {
    /// The focus state this value holds.
    spec fn focus_state(&self) -> FocusManager<K>;

    /// A mutable handle on the focus state.
    fn focus_state_mut(&mut self) -> (r: &mut FocusManager<K>)
        ensures
            *r == old(self).focus_state(),
            final(self).focus_state() == *final(r),
    ;

    /// Names `id` the default focus; when it is not the default yet, focus is to be
    /// requested for it.
    fn default_focus(&mut self, id: &K)
        ensures
            K::obeys_eq_spec() ==> final(self).focus_state() == after_default_focus(
                old(self).focus_state(),
                *id,
            ),
            final(self).focus_state() == old(self).focus_state() || final(self).focus_state()
                == Some((*id, true)),
    {
        let curr = self.focus_state_mut();
        // in the event that the new id matches the old one, make no changes.
        let same = match curr {
            Some(v) => v.0 == *id,
            None => false,
        };
        if same {
            return ;
        }
        // otherwise, cache this id with the signal to focus it
        *curr = Some((*id, true));
    }

    /// Forgets the default focus.
    fn reset_focus(&mut self)
        ensures
            final(self).focus_state() is None,
    {
        let curr = self.focus_state_mut();
        if curr.is_some() {
            *curr = None;
        }
    }

    /// Applies the focus state: returns the widget to request focus for, if a
    /// request is pending, and marks the request done.
    fn apply_focus(&mut self) -> (r: Option<K>)
        ensures
            r == focus_request(old(self).focus_state()),
            final(self).focus_state() == after_apply_focus(old(self).focus_state()),
    {
        let curr = self.focus_state_mut();
        match curr {
            Some(v) => {
                if v.1 == true {
                    v.1 = false;
                    Some(v.0)
                } else {
                    None
                }
            },
            None => None,
        }
    }
}

impl<K: Copy + PartialEq> ManagedFocus<K> for FocusManager<K> {
    open spec fn focus_state(&self) -> FocusManager<K> {
        *self
    }

    fn focus_state_mut(&mut self) -> (r: &mut FocusManager<K>) {
        self
    }
}

} // verus!
