//! The portal protocol backend's shared-state logic. Two sources of
//! truth exist for the current binding: the configuration database and
//! the protocol's own bind response. Both are kept in independent
//! optional fields, and the protocol value overwrites the database value
//! when both are available.

use vstd::prelude::*;
use vstd::string::StrSliceExecFns;

use crate::machine::AppState;
use crate::settings::opt_key_view;
use crate::text;
use crate::toggle_shortcut_id;

verus! {

impl AppState {
    /// Publishes a binding recovered from the configuration database, so
    /// the UI has something to show even if the protocol bind fails.
    /// An absent value changes nothing.
    pub fn apply_dconf_shortcut(&mut self, found: Option<String>)
        ensures
            opt_key_view(final(self).portal_shortcut) == (match found {
                Option::Some(ref v) => Option::Some(v@),
                Option::None => opt_key_view(old(self).portal_shortcut),
            }),
            final(self).state == old(self).state,
            final(self).recorder_present == old(self).recorder_present,
            final(self).api_key == old(self).api_key,
            final(self).settings == old(self).settings,
            final(self).portal_bind_error == old(self).portal_bind_error,
    {
        match found {
            Option::Some(v) => {
                self.portal_shortcut = Option::Some(v);
            },
            Option::None => {},
        }
    }

    /// Applies a successful bind response: a non-empty trigger
    /// description is protocol truth and overwrites the database value;
    /// an empty one leaves the database value as the best available.
    pub fn apply_bind_response(&mut self, trigger: String)
        ensures
            trigger@.len() > 0 ==> opt_key_view(final(self).portal_shortcut) == Option::Some(
                trigger@,
            ),
            trigger@.len() == 0 ==> final(self).portal_shortcut == old(self).portal_shortcut,
            final(self).state == old(self).state,
            final(self).recorder_present == old(self).recorder_present,
            final(self).api_key == old(self).api_key,
            final(self).settings == old(self).settings,
            final(self).portal_bind_error == old(self).portal_bind_error,
    {
        if trigger.as_str().unicode_len() > 0 {
            self.portal_shortcut = Option::Some(trigger);
        }
    }

    /// Records a failed or rejected bind. The failure is not fatal: the
    /// database-derived display value, if any, is retained.
    pub fn record_bind_failure(&mut self, message: String)
        ensures
            opt_key_view(final(self).portal_bind_error) == Option::Some(message@),
            final(self).state == old(self).state,
            final(self).recorder_present == old(self).recorder_present,
            final(self).api_key == old(self).api_key,
            final(self).settings == old(self).settings,
            final(self).portal_shortcut == old(self).portal_shortcut,
    {
        self.portal_bind_error = Option::Some(message);
    }
}

/// An activation event is dispatched exactly when it names the toggle
/// shortcut identifier.
pub fn should_dispatch_activation(shortcut_id: &str) -> (r: bool)
    ensures
        r == (shortcut_id@ == toggle_shortcut_id()),
{
    text::str_eq(shortcut_id, "toggle-recording")
}

/// The caller-facing binding value: the cached protocol value wins, the
/// configuration-database value is the fallback.
pub fn pick_portal_shortcut(cached: Option<String>, from_dconf: Option<String>) -> (r: Option<
    String,
>)
    ensures
        opt_key_view(r) == (match cached {
            Option::Some(ref v) => Option::Some(v@),
            Option::None => opt_key_view(from_dconf),
        }),
{
    match cached {
        Option::Some(v) => Option::Some(v),
        Option::None => from_dconf,
    }
}

/// The trigger description of the first listed shortcut naming the
/// toggle identifier.
pub open spec fn spec_find_trigger(list: Seq<(String, String)>) -> Option<Seq<char>>
    decreases list.len(),
{
    if list.len() == 0 {
        Option::None
    } else if list[0].0@ == toggle_shortcut_id() {
        Option::Some(list[0].1@)
    } else {
        spec_find_trigger(list.drop_first())
    }
}

/// Picks the toggle shortcut's trigger description out of a listed
/// binding set, as the configuration dialog flow re-queries it.
pub fn pick_toggle_trigger(list: &Vec<(String, String)>) -> (r: Option<String>)
    ensures
        match r {
            Option::Some(t) => spec_find_trigger(list@) == Option::Some(t@),
            Option::None => spec_find_trigger(list@) is None,
        },
{
    let n = list.len();
    let mut i: usize = 0;
    proof {
        assert(list@.skip(0) =~= list@);
    }
    while i < n
        invariant
            0 <= i <= n,
            n == list@.len(),
            spec_find_trigger(list@) == spec_find_trigger(list@.skip(i as int)),
        decreases n - i,
    {
        let entry = &list[i];
        proof {
            assert(list@.skip(i as int)[0] == list@[i as int]);
            assert(list@.skip(i as int).drop_first() =~= list@.skip(i + 1));
        }
        if text::str_eq(entry.0.as_str(), "toggle-recording") {
            return Option::Some(entry.1.clone());
        }
        i += 1;
    }
    proof {
        assert(list@.skip(n as int) =~= Seq::<(String, String)>::empty());
    }
    Option::None
}

} // verus!
