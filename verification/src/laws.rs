//! Properties of the library as a whole, proved over the specifications that the
//! functions' contracts use.
use vstd::prelude::*;

use crate::controller::{finishes, instant_effect, menubar_bind_order_spec, MenubarBind, ViewportCommand};
use crate::display::{abs_int, decimal, delta_text, digit_char, pad2};
use crate::focus::{after_apply_focus, after_default_focus, focus_request, FocusManager};
use crate::input::{
    absolute_target, absolute_time_of_day, abs_component, rel_component, relative_offset_secs, relative_sign, time_of_day, SECONDS_PER_DAY,
};
use crate::state::{borderless_toggled, display_12hr_toggled, with_timestamp, AppStateView};
use crate::local::{local_secs, LocalDateTime, UNIX_EPOCH_DAY};
use crate::text::{
    all_digits, digit_value, digits_value, field_from_end, lemma_split_at_sep,
    lemma_split_without_sep, parse_i64_spec, parse_u32_spec, split_on,
};
use crate::time::{TimeDelta, Timestamp, NANOS_PER_SEC};
use crate::action::AppAction;
use vstd::std_specs::cmp::PartialEqSpec;

verus! {

/// Flipping the borderless flag twice gives back the state it started from, and
/// flipping it touches nothing else.
pub proof fn law_toggle_borderless_twice(s: AppStateView)
    ensures
        borderless_toggled(borderless_toggled(s)) == s,
        borderless_toggled(s).borderless != s.borderless,
        borderless_toggled(s).display_12hr == s.display_12hr,
        borderless_toggled(s).timestamp == s.timestamp,
{
}

/// Flipping the 12-hour flag twice gives back the state it started from, and
/// flipping it touches nothing else.
pub proof fn law_toggle_12hr_twice(s: AppStateView)
    ensures
        display_12hr_toggled(display_12hr_toggled(s)) == s,
        display_12hr_toggled(s).display_12hr != s.display_12hr,
        display_12hr_toggled(s).borderless == s.borderless,
        display_12hr_toggled(s).timestamp == s.timestamp,
{
}

/// The timestamp that was set is the one read back; after a reset there is none;
/// neither touches the preferences.
pub proof fn law_timestamp_read_after_write(s: AppStateView, t: Timestamp)
    ensures
        with_timestamp(s, Some(t)).timestamp == Some(t),
        with_timestamp(s, None).timestamp is None,
        with_timestamp(s, Some(t)).borderless == s.borderless,
        with_timestamp(s, Some(t)).display_12hr == s.display_12hr,
        with_timestamp(with_timestamp(s, Some(t)), None) == with_timestamp(s, None),
{
}

/// Naming the same default focus a second time changes nothing, for any id type
/// whose `==` holds of an id and itself.
pub proof fn law_default_focus_idempotent<K: PartialEq>(s: FocusManager<K>, id: K)
    requires
        id.eq_spec(&id),
    ensures
        after_default_focus(after_default_focus(s, id), id) == after_default_focus(s, id),
{
}

/// A new default focus is requested exactly once: the next application of focus
/// asks for it, the one after asks for nothing.
pub proof fn law_new_default_focused_once<K: PartialEq>(s: FocusManager<K>, id: K)
    requires
        forall|x: K, y: K| x.eq_spec(&y) <==> x == y,
        !(s matches Some((cur, _)) && cur == id),
    ensures
        focus_request(after_default_focus(s, id)) == Some(id),
        focus_request(after_apply_focus(after_default_focus(s, id))) is None,
{
}

/// Applying focus is one-shot: afterwards nothing is pending, and applying it
/// again changes nothing.
pub proof fn law_apply_focus_once<K>(s: FocusManager<K>)
    ensures
        focus_request(after_apply_focus(s)) is None,
        after_apply_focus(after_apply_focus(s)) == after_apply_focus(s),
{
}

/// An action that carrying out does not finish (no action, an open dialog, or
/// exit) leaves the state unchanged.
pub proof fn law_unfinished_action_keeps_state(s: AppStateView, a: AppAction)
    ensures
        !finishes(a) ==> instant_effect(s, a).0 == s,
{
}

/// Actions settle: carrying out the pending action a second time leaves the state
/// as the first time left it.
pub proof fn law_instant_action_settles(s: AppStateView, a: AppAction)
    ensures
        ({
            let s1 = instant_effect(s, a).0;
            let a1 = if finishes(a) { AppAction::Idle } else { a };
            instant_effect(s1, a1).0 == s1
        }),
{
}

/// Carrying out `Toggle12Hour` switches the clock between 24-hour and 12-hour time
/// whichever it showed, and touches nothing else; doing it twice gives back the
/// state it started from.
pub proof fn law_toggle_12hr_action_flips(s: AppStateView)
    ensures
        instant_effect(s, AppAction::Toggle12Hour).0.display_12hr == !s.display_12hr,
        instant_effect(s, AppAction::Toggle12Hour).0.borderless == s.borderless,
        instant_effect(s, AppAction::Toggle12Hour).0.timestamp == s.timestamp,
        instant_effect(instant_effect(s, AppAction::Toggle12Hour).0, AppAction::Toggle12Hour).0
            == s,
{
}

/// Carrying out `SetTimestamp(t)` makes `t` the target whatever target was set
/// before, and touches nothing else; of two targets set in turn the later one
/// stays. `ResTimestamp` removes the target.
pub proof fn law_set_timestamp_action_overwrites(s: AppStateView, t: Timestamp, u: Timestamp)
    ensures
        instant_effect(s, AppAction::SetTimestamp(t)).0.timestamp == Some(t),
        instant_effect(s, AppAction::SetTimestamp(t)).0.borderless == s.borderless,
        instant_effect(s, AppAction::SetTimestamp(t)).0.display_12hr == s.display_12hr,
        instant_effect(instant_effect(s, AppAction::SetTimestamp(u)).0, AppAction::SetTimestamp(t)).0.timestamp
            == Some(t),
        instant_effect(s, AppAction::ResTimestamp).0.timestamp is None,
        instant_effect(instant_effect(s, AppAction::ResTimestamp).0, AppAction::SetTimestamp(t)).0.timestamp
            == Some(t),
{
}

/// Refreshing the borderless setting shows the window decorations exactly when
/// the window is not borderless; exit closes the window.
pub proof fn law_decorations_follow_borderless(s: AppStateView)
    ensures
        instant_effect(s, AppAction::RefreshBorderless).1 == ViewportCommand::Decorations(
            !s.borderless,
        ),
        instant_effect(s, AppAction::Exit).1 == ViewportCommand::Close,
{
}

/// Exit is checked first among the menu-bar shortcuts, and every shortcut is
/// checked exactly once.
pub proof fn law_menubar_order(b: MenubarBind)
    ensures
        menubar_bind_order_spec()[0] == MenubarBind::Exit,
        menubar_bind_order_spec().contains(b),
        forall|i: int, j: int|
            0 <= i < j < menubar_bind_order_spec().len() ==> menubar_bind_order_spec()[i]
                != menubar_bind_order_spec()[j],
{
    let o = menubar_bind_order_spec();
    match b {
        MenubarBind::Exit => assert(o[0] == b),
        MenubarBind::NewAbsolute => assert(o[1] == b),
        MenubarBind::NewRelative => assert(o[2] == b),
        MenubarBind::ResetTime => assert(o[3] == b),
        MenubarBind::Borderless => assert(o[4] == b),
    }
}

/// The components of an absolute timestamp never exceed their caps.
pub proof fn law_absolute_components_capped(s: Seq<char>)
    ensures
        abs_component(s, 2, 23) <= 23,
        abs_component(s, 1, 59) <= 59,
        abs_component(s, 0, 59) <= 59,
{
}

/// An absolute timestamp always lies ahead: the wait from the current clock time
/// until the planned one (tomorrow's when it is taken the next day) is at least
/// zero and less than a day.
pub proof fn law_absolute_plan_lies_ahead(hour: u32, minute: u32, second: u32, now: u32)
    requires
        hour <= 23,
        minute <= 59,
        second <= 59,
        now < SECONDS_PER_DAY,
    ensures
        ({
            let next_day = time_of_day(hour, minute, second) < now;
            let wait = time_of_day(hour, minute, second) + (if next_day {
                86_400int
            } else {
                0int
            }) - now;
            0 <= wait < 86_400
        }),
{
}

/// A relative timestamp points backwards exactly when its text starts with `-`
/// (or it is zero), and never more than a day away.
pub proof fn law_relative_offset_sign(s: Seq<char>)
    ensures
        relative_sign(s) < 0 ==> relative_offset_secs(s) <= 0,
        relative_sign(s) > 0 ==> relative_offset_secs(s) >= 0,
        -86_400 < relative_offset_secs(s) < 86_400,
{
    let t = rel_component(s, 0, 59) + 60 * rel_component(s, 1, 59) + 3600 * rel_component(s, 2, 23);
    assert(0 <= t <= 86_399);
    if relative_sign(s) < 0 {
        assert(relative_sign(s) == -1);
        assert(relative_offset_secs(s) == -1 * t);
    } else {
        assert(relative_sign(s) == 1);
        assert(relative_offset_secs(s) == 1 * t);
    }
}

/// The span from now until a relative target, in whole seconds, is exactly the
/// offset the text stands for.
pub proof fn law_relative_span_is_offset(now: Timestamp, target: Timestamp, d: TimeDelta, offset: int)
    requires
        target.secs == now.secs + offset,
        target.nanos == now.nanos,
        d.wf(),
        d.total_nanos() == target.total_nanos() - now.total_nanos(),
    ensures
        d.whole_seconds() == offset,
{
    assert(d.secs * NANOS_PER_SEC + d.nanos == offset * NANOS_PER_SEC) by (nonlinear_arith)
        requires
            d.secs * NANOS_PER_SEC + d.nanos == (now.secs + offset) * NANOS_PER_SEC + now.nanos
                - (now.secs * NANOS_PER_SEC + now.nanos),
    ;
    lemma_unique_split(d.secs as int, d.nanos as int, offset);
}

proof fn lemma_unique_split(secs: int, nanos: int, offset: int)
    requires
        0 <= nanos < 1_000_000_000,
        secs * 1_000_000_000 + nanos == offset * 1_000_000_000,
    ensures
        nanos == 0,
        secs == offset,
{
    assert(nanos == (offset - secs) * 1_000_000_000) by (nonlinear_arith)
        requires secs * 1_000_000_000 + nanos == offset * 1_000_000_000;
    if offset - secs >= 1 {
        assert((offset - secs) * 1_000_000_000 >= 1_000_000_000) by (nonlinear_arith)
            requires offset - secs >= 1;
    } else if offset - secs <= -1 {
        assert((offset - secs) * 1_000_000_000 <= -1_000_000_000) by (nonlinear_arith)
            requires offset - secs <= -1;
    }
}

/// A countdown to a time ahead (or now) reads `t-`; one to a time passed reads
/// `t+`.
pub proof fn law_countdown_sign(s: int)
    ensures
        delta_text(s)[1] == (if s < 0 {
            '+'
        } else {
            '-'
        }),
        delta_text(s)[0] == 't',
{
}

/// A time passed by `s` seconds reads as a time `s` seconds ahead with `+` in place
/// of `-`.
pub proof fn law_countdown_mirror(s: int)
    requires
        s > 0,
    ensures
        delta_text(-s) == delta_text(s).update(1, '+'),
{
    assert(abs_int(-s) == abs_int(s));
    assert(delta_text(-s) =~= delta_text(s).update(1, '+'));
}

proof fn lemma_digit_char_value(d: nat)
    requires
        d < 10,
    ensures
        digit_value(digit_char(d)) == d,
        '0' <= digit_char(d) <= '9',
{
}

proof fn lemma_decimal_reads_back(n: nat)
    ensures
        decimal(n).len() > 0,
        all_digits(decimal(n)),
        digits_value(decimal(n)) == n,
    decreases n,
{
    if n < 10 {
        lemma_digit_char_value(n);
        assert(decimal(n).drop_last() =~= Seq::<char>::empty());
        assert(digits_value(Seq::<char>::empty()) == 0);
        assert(digits_value(decimal(n)) == digits_value(Seq::<char>::empty()) * 10 + digit_value(
            digit_char(n),
        ));
    } else {
        lemma_decimal_reads_back(n / 10);
        lemma_digit_char_value(n % 10);
        let x = decimal(n / 10);
        assert(decimal(n).drop_last() =~= x);
        assert(forall|i: int| 0 <= i < x.len() ==> decimal(n)[i] == x[i]);
        assert(digits_value(decimal(n)) == digits_value(x) * 10 + digit_value(digit_char(n % 10)));
        assert((n / 10) * 10 + n % 10 == n) by (nonlinear_arith);
    }
}

/// A field of the countdown text reads back as the number it shows: the two-digit
/// notation of `n` parses (as `str::parse::<u32>` does) to `n`.
pub proof fn law_padded_field_reads_back(n: nat)
    requires
        n <= u32::MAX,
    ensures
        parse_u32_spec(pad2(n)) == Some(n as u32),
{
    if n < 10 {
        lemma_digit_char_value(n);
        let p = pad2(n);
        assert(p.drop_last() =~= seq!['0']);
        assert(seq!['0'].drop_last() =~= Seq::<char>::empty());
        assert(seq!['0'].last() == '0');
        assert(digits_value(Seq::<char>::empty()) == 0);
        assert(digits_value(seq!['0']) == 0);
        assert(all_digits(p));
    } else {
        lemma_decimal_reads_back(n);
    }
}


/// The absolute target is the next time the local clock shows the named clock time:
/// it shows that clock time, lies at or after today's reading and less than a day
/// after it, and no local date and time that shows the same clock time at or after
/// today's reading comes before it.
pub proof fn law_absolute_target_is_next_occurrence(
    s: Seq<char>,
    today: LocalDateTime,
    other: LocalDateTime,
)
    requires
        today.wf(),
        other.secs == absolute_time_of_day(s),
        local_secs(other) >= local_secs(today),
    ensures
        absolute_target(s, today).secs == absolute_time_of_day(s),
        0 <= local_secs(absolute_target(s, today)) - local_secs(today) < 86_400,
        local_secs(absolute_target(s, today)) <= local_secs(other),
{
    let tod = absolute_time_of_day(s);
    assert(0 <= tod < 86_400);
    let e = UNIX_EPOCH_DAY as int;
    let td = today.day as int;
    let od = other.day as int;
    if tod >= today.secs {
        if od < td {
            assert((od - e) * 86_400 <= (td - e) * 86_400 - 86_400);
        }
    } else {
        if od <= td {
            assert((od - e) * 86_400 <= (td - e) * 86_400);
        }
    }
}

/// In a relative timestamp `hh:mm:ss` the fields count hours, minutes and seconds:
/// the offset is `3600 * hh + 60 * mm + ss` (fields within their caps, no leading
/// `-`).
pub proof fn law_relative_fields_weigh_hours_minutes_seconds(
    a: Seq<char>,
    b: Seq<char>,
    c: Seq<char>,
    h: i64,
    m: i64,
    x: i64,
)
    requires
        !a.contains(':') && !b.contains(':') && !c.contains(':'),
        a.len() > 0 && a[0] != '-',
        parse_i64_spec(a) == Some(h) && 0 <= h <= 23,
        parse_i64_spec(b) == Some(m) && 0 <= m <= 59,
        parse_i64_spec(c) == Some(x) && 0 <= x <= 59,
    ensures
        relative_offset_secs(a + seq![':'] + b + seq![':'] + c) == 3600 * h + 60 * m + x,
{
    let bc = b + seq![':'] + c;
    let s = a + seq![':'] + b + seq![':'] + c;
    assert(s =~= a + seq![':'] + bc);
    lemma_split_at_sep(a, ':', bc);
    lemma_split_at_sep(b, ':', c);
    lemma_split_without_sep(a, ':');
    lemma_split_without_sep(b, ':');
    lemma_split_without_sep(c, ':');
    let f = split_on(s, ':');
    assert(f =~= seq![a, b, c]);
    assert(field_from_end(s, 0) == Some(c));
    assert(field_from_end(s, 1) == Some(b));
    assert(field_from_end(s, 2) == Some(a));
    assert(s[0] == a[0]);
    assert(relative_sign(s) == 1);
}

/// A target passed at least a second ago reads `t+` on the countdown: the span
/// from the clock reading to it is negative, and so are its whole seconds.
pub proof fn law_passed_target_reads_plus(from: Timestamp, now: Timestamp, d: TimeDelta)
    requires
        d.wf(),
        d.total_nanos() == from.total_nanos() - now.total_nanos(),
        from.total_nanos() + NANOS_PER_SEC <= now.total_nanos(),
    ensures
        d.total_nanos() < 0,
        d.whole_seconds() <= -1,
        delta_text(d.whole_seconds())[1] == '+',
{
    assert(d.secs <= -1) by (nonlinear_arith)
        requires
            d.secs * 1_000_000_000 + d.nanos <= -1_000_000_000,
            0 <= d.nanos < 1_000_000_000,
    ;
    if d.nanos > 0 {
        assert(d.secs <= -2) by (nonlinear_arith)
            requires
                d.secs * 1_000_000_000 + d.nanos <= -1_000_000_000,
                0 < d.nanos < 1_000_000_000,
        ;
    }
}

} // verus!
