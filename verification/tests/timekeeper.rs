use timekeeper::action::AppAction;
use timekeeper::controller::{
    get_theme_cols, menubar_bind_order, App, MenubarBind, Rgb, ThemeKind, TimestampDialog,
    ViewportCommand,
};
use timekeeper::display::{format_delta_time, sigabs};
use timekeeper::focus::{FocusManager, ManagedFocus};
use timekeeper::input::{
    absolute_fields, parse_user_timestamp_rel, plan_user_timestamp_abs, relative_input_accepted,
    relative_offset, relative_timestamp, AbsolutePlan,
};
use timekeeper::input::parse_user_timestamp_abs;
use timekeeper::local::{with_hour, with_minute, with_second, LocalDateTime};
use timekeeper::controller::dialog_transition;
use timekeeper::state::AppState;
use chrono::{Datelike, Timelike};
use timekeeper::text::{chars_of, parse_i64, parse_u32, split_chars};
use timekeeper::time::{delta_now, timenow, trunc_div_i64, trunc_rem_i64, TimeDelta, Timestamp};

fn s(text: &str) -> String {
    text.to_string()
}

fn chars(text: &str) -> Vec<char> {
    text.chars().collect()
}

// ---- parsing of numbers and fields ----

#[test]
fn parse_u32_matches_std() {
    for text in ["0", "59", "+7", "-7", "", "+", "007", "4294967295", "4294967296", "12a", " 1", "٣"] {
        assert_eq!(parse_u32(&chars(text)), text.parse::<u32>().ok(), "input {:?}", text);
    }
}

#[test]
fn parse_i64_matches_std() {
    for text in [
        "0", "-0", "+5", "-5", "", "-", "+", "--5", "+-5", "9223372036854775807",
        "9223372036854775808", "-9223372036854775808", "-9223372036854775809", "00000000000000000000001",
    ] {
        assert_eq!(parse_i64(&chars(text)), text.parse::<i64>().ok(), "input {:?}", text);
    }
}

#[test]
fn split_matches_std() {
    for text in ["", ":", "a:b", "1:2:3:", "::x", "no colon"] {
        let expected: Vec<Vec<char>> = text.split(':').map(|f| f.chars().collect()).collect();
        assert_eq!(split_chars(&chars(text), ':'), expected, "input {:?}", text);
    }
}

#[test]
fn chars_of_reads_every_char() {
    assert_eq!(chars_of("héllo:1"), vec!['h', 'é', 'l', 'l', 'o', ':', '1']);
}

// ---- absolute timestamps ----

#[test]
fn absolute_fields_read_from_the_end() {
    assert_eq!(absolute_fields(&s("12:34:56")), (12, 34, 56));
    assert_eq!(absolute_fields(&s("34:56")), (0, 34, 56));
    assert_eq!(absolute_fields(&s("5")), (0, 0, 5));
    assert_eq!(absolute_fields(&s("")), (0, 0, 0));
    assert_eq!(absolute_fields(&s("1:2:3:4")), (2, 3, 4));
}

#[test]
fn absolute_fields_are_capped_and_forgiving() {
    assert_eq!(absolute_fields(&s("99:99:99")), (23, 59, 59));
    assert_eq!(absolute_fields(&s("a:-3:+7")), (0, 0, 7));
    assert_eq!(absolute_fields(&s("4294967295:4294967296")), (0, 59, 0));
}

#[test]
fn absolute_plan_rolls_to_next_day_when_passed() {
    let eleven = 11 * 3600;
    assert_eq!(
        plan_user_timestamp_abs(&s("10:00:00"), eleven),
        AbsolutePlan { hour: 10, minute: 0, second: 0, next_day: true }
    );
    assert_eq!(
        plan_user_timestamp_abs(&s("12:00:00"), eleven),
        AbsolutePlan { hour: 12, minute: 0, second: 0, next_day: false }
    );
    // the current second itself is not in the past
    assert_eq!(
        plan_user_timestamp_abs(&s("11:00:00"), eleven),
        AbsolutePlan { hour: 11, minute: 0, second: 0, next_day: false }
    );
    assert!(plan_user_timestamp_abs(&s("0"), 1).next_day);
    assert!(!plan_user_timestamp_abs(&s("23:59:59"), 86_399).next_day);
}

#[test]
fn absolute_plan_always_lies_ahead() {
    for now in [0u32, 1, 3600, 43_210, 86_399] {
        for text in ["0", "30", "12:00", "23:59:59", "99:99:99", "6:07:08"] {
            let p = plan_user_timestamp_abs(&s(text), now);
            let tod = (p.hour * 3600 + p.minute * 60 + p.second) as i64;
            let wait = tod + if p.next_day { 86_400 } else { 0 } - now as i64;
            assert!((0..86_400).contains(&wait), "{} at {}", text, now);
        }
    }
}

// ---- relative timestamps ----

#[test]
fn relative_offsets() {
    assert_eq!(relative_offset(&s("-5:30")), -330);
    assert_eq!(relative_offset(&s("+1:00:00")), 3600);
    assert_eq!(relative_offset(&s("1:-2:3")), 3723);
    assert_eq!(relative_offset(&s("99:99:99")), 86_399);
    assert_eq!(relative_offset(&s("-99:99:99")), -86_399);
    assert_eq!(relative_offset(&s("")), 0);
    assert_eq!(relative_offset(&s("-")), 0);
    assert_eq!(relative_offset(&s("--5")), 0);
    assert_eq!(relative_offset(&s("9223372036854775807")), 59);
    assert_eq!(relative_offset(&s("5:-9223372036854775807")), 5 * 60 + 59);
}

#[test]
fn relative_offset_sign_follows_first_char() {
    for text in ["-1", "-0:1", "-1:0:0", "-x:5", "-"] {
        assert!(relative_offset(&s(text)) <= 0, "{}", text);
    }
    for text in ["1", "+0:1", "x:-5", "0:-1:-1"] {
        assert!(relative_offset(&s(text)) >= 0, "{}", text);
    }
}

#[test]
fn relative_input_refuses_i64_min_fields() {
    assert!(relative_input_accepted(&s("1:2:3")));
    assert!(relative_input_accepted(&s("-9223372036854775807")));
    assert!(!relative_input_accepted(&s("-9223372036854775808")));
    assert!(!relative_input_accepted(&s("-9223372036854775808:00")));
    assert!(!relative_input_accepted(&s("-9223372036854775808:0:0")));
    // a fourth field from the end is never read
    assert!(relative_input_accepted(&s("-9223372036854775808:0:0:0")));
}

#[test]
fn relative_timestamp_from_given_now() {
    let now = Timestamp { secs: 1_000, nanos: 5 };
    assert_eq!(relative_timestamp(&s("-1:00"), now), Timestamp { secs: 940, nanos: 5 });
    assert_eq!(relative_timestamp(&s("1:00:00"), now), Timestamp { secs: 4_600, nanos: 5 });
    assert_eq!(relative_timestamp(&s("junk"), now), now);
}

#[test]
fn relative_span_is_the_offset() {
    let now = Timestamp { secs: 1_700_000_000, nanos: 123_456_789 };
    for text in ["-5:30", "+2:00:01", "0", "-0:0:1", "12:34"] {
        let t = relative_timestamp(&s(text), now);
        let d = t.signed_duration_since(now);
        assert_eq!(d.num_seconds(), relative_offset(&s(text)), "{}", text);
        assert_eq!(d.nanos, 0);
    }
}

#[test]
fn parse_relative_counts_from_the_clock() {
    let before = timenow();
    let t = parse_user_timestamp_rel(s("+10"));
    let after = timenow();
    assert!(before.secs + 10 <= t.secs && t.secs <= after.secs + 10);
    let t = parse_user_timestamp_rel(s("-1:00"));
    let after2 = timenow();
    assert!(t.secs <= after2.secs - 60);
}

// ---- time ----

#[test]
fn clock_reads_the_present() {
    let now = timenow();
    // later than 2023-01-01 and before year 3000
    assert!(now.secs > 1_672_531_200 && now.secs < 32_503_680_000);
    assert!(now.nanos < 1_000_000_000);
    assert_eq!(Timestamp::new(now.secs, now.nanos), Some(now));
}

#[test]
fn timestamp_new_checks_the_range() {
    assert_eq!(Timestamp::new(0, 0), Some(Timestamp { secs: 0, nanos: 0 }));
    assert_eq!(Timestamp::new(0, 1_000_000_000), None);
    assert_eq!(Timestamp::new(9_000_000_000_000, 0), None);
    assert_eq!(Timestamp::new(-8_400_000_000_000, 999_999_999).is_some(), true);
}

#[test]
fn duration_borrows_a_second() {
    let a = Timestamp { secs: 10, nanos: 100 };
    let b = Timestamp { secs: 5, nanos: 200 };
    assert_eq!(a.signed_duration_since(b), TimeDelta { secs: 4, nanos: 999_999_900 });
    assert_eq!(b.signed_duration_since(a), TimeDelta { secs: -5, nanos: 100 });
    assert_eq!(b.signed_duration_since(a).num_seconds(), -4);
}

#[test]
fn delta_units_round_toward_zero() {
    let d = TimeDelta::seconds(-3599);
    assert_eq!(d.num_seconds(), -3599);
    assert_eq!(d.num_minutes(), -59);
    assert_eq!(d.num_hours(), 0);
    let d = TimeDelta::seconds(7322);
    assert_eq!((d.num_hours(), d.num_minutes(), d.num_seconds()), (2, 122, 7322));
    let d = TimeDelta { secs: -1, nanos: 500_000_000 };
    assert_eq!(d.num_seconds(), 0);
}

#[test]
fn truncating_division_matches_rust() {
    for a in [i64::MIN, -7201, -60, -59, -1, 0, 1, 59, 60, 7201, i64::MAX] {
        for b in [1i64, 60, 3600] {
            assert_eq!(trunc_div_i64(a, b), a / b);
            assert_eq!(trunc_rem_i64(a, b), a % b);
        }
    }
}

#[test]
fn delta_now_points_ahead_for_future() {
    let now = timenow();
    let from = Timestamp { secs: now.secs + 3600, nanos: 0 };
    let d = delta_now(from);
    assert!(d.num_seconds() > 3500 && d.num_seconds() <= 3600);
}

// ---- countdown text ----

#[test]
fn format_counts_down_to_the_future() {
    assert_eq!(format_delta_time(TimeDelta::seconds(3723)), "t-01:02:03");
    assert_eq!(format_delta_time(TimeDelta::seconds(0)), "t-00:00:00");
    assert_eq!(format_delta_time(TimeDelta::seconds(59)), "t-00:00:59");
    assert_eq!(format_delta_time(TimeDelta::seconds(360_000)), "t-100:00:00");
}

#[test]
fn format_counts_up_from_the_past() {
    assert_eq!(format_delta_time(TimeDelta::seconds(-3723)), "t+01:02:03");
    assert_eq!(format_delta_time(TimeDelta::seconds(-1)), "t+00:00:01");
    // a whole number of minutes behind still reads as passed
    assert_eq!(format_delta_time(TimeDelta::seconds(-120)), "t+00:02:00");
    assert_ne!(format_delta_time(TimeDelta::seconds(-120)), format_delta_time(TimeDelta::seconds(120)));
}

#[test]
fn format_uses_whole_seconds() {
    assert_eq!(format_delta_time(TimeDelta { secs: -1, nanos: 500_000_000 }), "t-00:00:00");
    assert_eq!(format_delta_time(TimeDelta { secs: -2, nanos: 1 }), "t+00:00:01");
    assert_eq!(format_delta_time(TimeDelta { secs: -61, nanos: 0 }), "t+00:01:01");
    assert_eq!(format_delta_time(TimeDelta { secs: 5, nanos: 999_999_999 }), "t-00:00:05");
}

#[test]
fn format_matches_the_std_formatting() {
    for secs in [-90_061i64, -3600, -61, 0, 9, 600, 86_399, 1_000_000] {
        let h = (secs / 3600).abs();
        let m = ((secs / 60) % 60).abs();
        let sec = (secs % 60).abs();
        let expected = format!("t{}{:02}:{:02}:{:02}", if secs < 0 { "+" } else { "-" }, h, m, sec);
        assert_eq!(format_delta_time(TimeDelta::seconds(secs)), expected);
    }
}

#[test]
fn countdown_fields_read_back() {
    let text = format_delta_time(TimeDelta::seconds(3723));
    let parts: Vec<&str> = text[2..].split(':').collect();
    assert_eq!(parts.iter().map(|p| p.parse::<u32>().unwrap()).collect::<Vec<_>>(), vec![1, 2, 3]);
}

#[test]
fn sigabs_splits_sign_and_magnitude() {
    assert_eq!(sigabs(-5), (-1, 5));
    assert_eq!(sigabs(0), (0, 0));
    assert_eq!(sigabs(7), (1, 7));
    assert_eq!(sigabs(i64::MAX), (1, i64::MAX));
}

// ---- persistent state ----

#[test]
fn state_defaults_and_toggles() {
    let mut st = AppState::default();
    assert!(!st.get_borderless());
    assert!(!st.get_12hr());
    assert_eq!(st.get_timestamp(), None);
    st.toggle_borderless();
    assert!(st.get_borderless());
    st.toggle_borderless();
    assert!(!st.get_borderless());
    st.toggle_12hr();
    assert!(st.get_12hr());
    assert!(!st.get_borderless());
}

#[test]
fn state_format_string_follows_12hr_flag() {
    let mut st = AppState::default();
    assert_eq!(st.timestamp_format_string(), "%H:%M:%S");
    st.toggle_12hr();
    assert_eq!(st.timestamp_format_string(), "%I:%M:%S %P");
}

#[test]
fn state_timestamp_read_after_write() {
    let mut st = AppState::default();
    let t = Timestamp { secs: 1_700_000_000, nanos: 42 };
    st.set_timestamp(t);
    assert_eq!(st.get_timestamp(), Some(t));
    st.reset_timestamp();
    assert_eq!(st.get_timestamp(), None);
}

#[test]
fn state_borderless_handle_edits_the_flag() {
    let mut st = AppState::default();
    *st.get_borderless_mut() = true;
    assert!(st.get_borderless());
}

#[test]
fn state_from_parts_checks_the_timestamp() {
    let t = Timestamp { secs: 5, nanos: 6 };
    let st = AppState::from_parts(Some(t), true, false).unwrap();
    assert_eq!((st.get_timestamp(), st.get_borderless(), st.get_12hr()), (Some(t), true, false));
    assert!(AppState::from_parts(Some(Timestamp { secs: 5, nanos: 1_500_000_000 }), false, false).is_none());
    assert!(AppState::from_parts(None, false, true).unwrap().get_12hr());
}

// ---- focus ----

#[test]
fn focus_new_default_is_requested_once() {
    let mut f: FocusManager<u64> = None;
    f.default_focus(&7);
    assert_eq!(f, Some((7, true)));
    assert_eq!(f.apply_focus(), Some(7));
    assert_eq!(f.apply_focus(), None);
    // naming the same default again changes nothing
    f.default_focus(&7);
    assert_eq!(f, Some((7, false)));
    assert_eq!(f.apply_focus(), None);
    // a different default is requested again
    f.default_focus(&8);
    assert_eq!(f.apply_focus(), Some(8));
    f.reset_focus();
    assert_eq!(f, None);
    assert_eq!(f.apply_focus(), None);
}

// ---- the application ----

#[test]
fn action_default_is_idle() {
    assert!(matches!(AppAction::default(), AppAction::Idle));
}

#[test]
fn app_starts_idle() {
    let app: App<u64> = App::new();
    assert!(matches!(app.action(), AppAction::Idle));
    assert_eq!(app.open_dialog(), None);
    assert!(!app.state().get_borderless());
}

#[test]
fn app_instant_actions() {
    let mut app: App<u64> = App::new();
    let t = Timestamp { secs: 1_700_000_000, nanos: 0 };
    app.set_action(AppAction::SetTimestamp(t));
    assert_eq!(app.apply_instant_action(), ViewportCommand::Nothing);
    assert_eq!(app.state().get_timestamp(), Some(t));
    assert!(matches!(app.action(), AppAction::Idle));

    app.set_action(AppAction::Toggle12Hour);
    assert_eq!(app.apply_instant_action(), ViewportCommand::Nothing);
    assert!(app.state().get_12hr());
    assert!(matches!(app.action(), AppAction::Idle));

    app.set_action(AppAction::ResTimestamp);
    app.apply_instant_action();
    assert_eq!(app.state().get_timestamp(), None);

    app.set_action(AppAction::RefreshBorderless);
    assert_eq!(app.apply_instant_action(), ViewportCommand::Decorations(true));
    assert!(matches!(app.action(), AppAction::Idle));

    app.set_action(AppAction::Exit);
    assert_eq!(app.apply_instant_action(), ViewportCommand::Close);
    assert!(matches!(app.action(), AppAction::Exit));
    assert_eq!(app.apply_instant_action(), ViewportCommand::Close);

    app.reset_action();
    assert_eq!(app.apply_instant_action(), ViewportCommand::Nothing);
}

#[test]
fn app_menubar_binds() {
    let mut app: App<u64> = App::new();
    app.check_menubar_binds(Some(MenubarBind::NewRelative));
    assert_eq!(app.open_dialog(), Some((TimestampDialog::Relative, String::new())));
    app.check_menubar_binds(Some(MenubarBind::NewAbsolute));
    assert_eq!(app.open_dialog(), Some((TimestampDialog::Absolute, String::new())));
    app.check_menubar_binds(Some(MenubarBind::ResetTime));
    assert!(matches!(app.action(), AppAction::ResTimestamp));
    app.check_menubar_binds(None);
    assert!(matches!(app.action(), AppAction::ResTimestamp));
    app.check_menubar_binds(Some(MenubarBind::Borderless));
    assert!(app.state().get_borderless());
    assert!(matches!(app.action(), AppAction::RefreshBorderless));
    assert_eq!(app.apply_instant_action(), ViewportCommand::Decorations(false));
    app.on_menubar_bind(MenubarBind::Exit);
    assert!(matches!(app.action(), AppAction::Exit));
    assert_eq!(
        menubar_bind_order(),
        vec![
            MenubarBind::Exit,
            MenubarBind::NewAbsolute,
            MenubarBind::NewRelative,
            MenubarBind::ResetTime,
            MenubarBind::Borderless
        ]
    );
}

#[test]
fn app_dialog_flow() {
    let mut app: App<u64> = App::new();
    app.on_menubar_bind(MenubarBind::NewRelative);
    app.default_focus(&3);
    app.set_dialog_text(s("-5:00"));
    assert_eq!(app.open_dialog(), Some((TimestampDialog::Relative, s("-5:00"))));
    // focus is requested once for the dialog's text box
    assert_eq!(app.apply_focus(), Some(3));
    assert_eq!(app.apply_focus(), None);
    // nothing decided: the dialog stays
    app.finish_dialogs(None);
    assert_eq!(app.open_dialog(), Some((TimestampDialog::Relative, s("-5:00"))));
    // the dialog applies a timestamp
    let t = relative_timestamp(&s("-5:00"), Timestamp { secs: 10_000, nanos: 0 });
    app.finish_dialogs(Some(AppAction::SetTimestamp(t)));
    assert_eq!(app.open_dialog(), None);
    app.apply_instant_action();
    assert_eq!(app.state().get_timestamp(), Some(Timestamp { secs: 9_700, nanos: 0 }));
    // without a dialog the focus is forgotten and the transition ignored
    app.default_focus(&4);
    app.finish_dialogs(Some(AppAction::Exit));
    assert!(matches!(app.action(), AppAction::Idle));
    assert_eq!(app.apply_focus(), None);
}

#[test]
fn app_dialog_text_without_dialog_is_ignored() {
    let mut app: App<u64> = App::new();
    app.set_dialog_text(s("12"));
    assert!(matches!(app.action(), AppAction::Idle));
}

#[test]
fn app_restore_keeps_state() {
    let st = AppState::from_parts(Some(Timestamp { secs: 1, nanos: 2 }), true, true).unwrap();
    let app: App<u64> = App::restore(st);
    assert_eq!(app.state().get_timestamp(), Some(Timestamp { secs: 1, nanos: 2 }));
    assert!(app.state().get_borderless() && app.state().get_12hr());
    assert!(matches!(app.action(), AppAction::Idle));
}

#[test]
fn app_state_mut_edits_state() {
    let mut app: App<u64> = App::new();
    app.state_mut().toggle_12hr();
    assert!(app.state().get_12hr());
}

#[test]
fn theme_colours() {
    assert_eq!(
        get_theme_cols(ThemeKind::Dark),
        (Rgb { r: 0x1B, g: 0x1B, b: 0x1B }, Rgb { r: 0x30, g: 0x30, b: 0x30 })
    );
    assert_eq!(
        get_theme_cols(ThemeKind::Light),
        (Rgb { r: 0xFF, g: 0xFF, b: 0xFF }, Rgb { r: 0xF8, g: 0xF8, b: 0xF8 })
    );
}

// ---- local clock times ----

fn local_clock(t: Timestamp) -> (u32, u32, u32) {
    let local = chrono::DateTime::from_timestamp(t.secs, t.nanos).unwrap().with_timezone(&chrono::Local);
    (local.hour(), local.minute(), local.second())
}

#[test]
fn absolute_timestamp_lands_on_the_clock_time_ahead() {
    let before = timenow();
    let today = local_clock_day(before);
    let (t, shown) = parse_user_timestamp_abs(s("12:34:56")).unwrap();
    assert_eq!(local_clock(t), (12, 34, 56));
    assert_eq!(shown.secs, 12 * 3600 + 34 * 60 + 56);
    assert_eq!(shown.nanos, t.nanos);
    assert_eq!(local_clock_day(t), shown.day);
    assert!(shown.day == today || shown.day == today + 1);
    assert!(t.secs + 1 >= before.secs && t.secs < before.secs + 90_000);
    let local_secs = (shown.day as i64 - 719_163) * 86_400 + shown.secs as i64;
    assert!((local_secs - t.secs).abs() < 86_400);
    let (t, shown) = parse_user_timestamp_abs(s("99:99:99")).unwrap();
    assert_eq!(local_clock(t), (23, 59, 59));
    assert_eq!(shown.secs, 86_399);
    let (t, shown) = parse_user_timestamp_abs(s("")).unwrap();
    assert_eq!(local_clock(t), (0, 0, 0));
    assert!(t.secs > before.secs);
    // midnight has passed today, so it is tomorrow's
    assert_eq!(shown.day, local_clock_day(before) + 1);
}

fn local_clock_day(t: Timestamp) -> i32 {
    chrono::DateTime::from_timestamp(t.secs, t.nanos).unwrap().with_timezone(&chrono::Local).num_days_from_ce()
}

#[test]
fn state_parts_round_trip() {
    let mut st = AppState::default();
    st.set_timestamp(Timestamp { secs: 1_700_000_000, nanos: 9 });
    st.toggle_borderless();
    let back = AppState::from_parts(st.get_timestamp(), st.get_borderless(), st.get_12hr()).unwrap();
    assert_eq!(
        (back.get_timestamp(), back.get_borderless(), back.get_12hr()),
        (st.get_timestamp(), st.get_borderless(), st.get_12hr())
    );
}

#[test]
fn local_edits_set_one_field() {
    let d = LocalDateTime { day: 738_000, secs: 10 * 3600 + 20 * 60 + 30, nanos: 5 };
    assert_eq!(with_hour(d, 3), LocalDateTime { secs: 3 * 3600 + 20 * 60 + 30, ..d });
    assert_eq!(with_minute(d, 4), LocalDateTime { secs: 10 * 3600 + 4 * 60 + 30, ..d });
    assert_eq!(with_second(d, 5), LocalDateTime { secs: 10 * 3600 + 20 * 60 + 5, ..d });
}

#[test]
fn dialog_dismiss_wins_over_apply() {
    let t = Timestamp { secs: 100, nanos: 0 };
    assert!(matches!(dialog_transition(Some(t), true), Some(AppAction::Idle)));
    assert!(matches!(dialog_transition(None, true), Some(AppAction::Idle)));
    assert!(matches!(dialog_transition(Some(t), false), Some(AppAction::SetTimestamp(u)) if u == t));
    assert!(dialog_transition(None, false).is_none());
}
