use vstd::prelude::*;

use crate::action::AppAction;
use crate::time::Timestamp;
use crate::focus::{after_apply_focus, after_default_focus, focus_request, FocusManager, ManagedFocus};
use crate::state::{
    borderless_toggled, default_state, display_12hr_toggled, with_timestamp, AppState, AppStateView,
};
use vstd::std_specs::cmp::PartialEqSpec;

verus! {

/// An action that can be carried out: a timestamp it sets is in the representable
/// range.
pub open spec fn action_wf(a: AppAction) -> bool {
    a matches AppAction::SetTimestamp(t) ==> t.wf()
}

/// The pending action, kept carrying only timestamps in the representable range.
#[derive(Debug)]
struct ActionSlot {
    action: AppAction,
}

impl ActionSlot {
    #[verifier::type_invariant]
    spec fn inv(self) -> bool {
        action_wf(self.action)
    }
}

/// What the application holds.
pub struct AppView<K> {
    pub state: AppStateView,
    pub action: AppAction,
    pub focus: FocusManager<K>,
}

/// The application: its persistent state, the action it is carrying out, and the
/// managed default focus of its dialogs (keyed by the widget identifier `K`).
#[derive(Debug)]
pub struct App<K> {
    state: AppState,
    action: ActionSlot,
    managed_focus: FocusManager<K>,
}

/// Which timestamp dialog is open.
#[derive(Clone, Copy, Debug, PartialEq, Eq, Structural)]
pub enum TimestampDialog {
    Absolute,
    Relative,
}

/// What the window has to be told after an action is carried out.
#[derive(Clone, Copy, Debug, PartialEq, Eq, Structural)]
pub enum ViewportCommand {
    Nothing,
    /// Close the window.
    Close,
    /// Show (`true`) or hide (`false`) the window decorations.
    Decorations(bool),
}

/// The keyboard shortcuts of the menu bar.
#[derive(Clone, Copy, Debug, PartialEq, Eq, Structural)]
pub enum MenubarBind {
    Exit,
    NewAbsolute,
    NewRelative,
    ResetTime,
    Borderless,
}

/// The theme the window is drawn in.
#[derive(Clone, Copy, Debug, PartialEq, Eq, Structural)]
pub enum ThemeKind {
    Dark,
    Light,
}

/// A colour as red, green and blue components.
#[derive(Clone, Copy, Debug, PartialEq, Eq, Structural)]
pub struct Rgb {
    pub r: u8,
    pub g: u8,
    pub b: u8,
}

/// The open dialog that an action stands for, and the text typed into it.
pub open spec fn dialog_of(a: AppAction) -> Option<(TimestampDialog, Seq<char>)> {
    match a {
        AppAction::TimestampAbsRequest(text) => Some((TimestampDialog::Absolute, text@)),
        AppAction::TimestampRelRequest(text) => Some((TimestampDialog::Relative, text@)),
        _ => None,
    }
}

/// `a` is the action that a menu-bar shortcut or its menu entry starts: a dialog
/// opens empty.
pub open spec fn is_bind_action(bind: MenubarBind, a: AppAction) -> bool {
    match bind {
        MenubarBind::Exit => a is Exit,
        MenubarBind::NewAbsolute => dialog_of(a) == Some(
            (TimestampDialog::Absolute, Seq::<char>::empty()),
        ),
        MenubarBind::NewRelative => dialog_of(a) == Some(
            (TimestampDialog::Relative, Seq::<char>::empty()),
        ),
        MenubarBind::ResetTime => a is ResTimestamp,
        MenubarBind::Borderless => a is RefreshBorderless,
    }
}

/// The state and the window command once the pending action is carried out.
pub open spec fn instant_effect(s: AppStateView, a: AppAction) -> (AppStateView, ViewportCommand) {
    match a {
        AppAction::SetTimestamp(t) => (
            with_timestamp(s, Some(t)),
            ViewportCommand::Nothing,
        ),
        AppAction::ResTimestamp => (with_timestamp(s, None), ViewportCommand::Nothing),
        AppAction::Toggle12Hour => (display_12hr_toggled(s), ViewportCommand::Nothing),
        AppAction::RefreshBorderless => (s, ViewportCommand::Decorations(!s.borderless)),
        AppAction::Exit => (s, ViewportCommand::Close),
        _ => (s, ViewportCommand::Nothing),
    }
}

/// Whether carrying out the action finishes it (it is then replaced by `Idle`).
/// `Exit` stays until the window closes, and open dialogs stay open.
pub open spec fn finishes(a: AppAction) -> bool {
    match a {
        AppAction::SetTimestamp(_) | AppAction::ResTimestamp | AppAction::Toggle12Hour
        | AppAction::RefreshBorderless => true,
        _ => false,
    }
}

/// Background and highlight colours of a theme.
pub open spec fn theme_colors(theme: ThemeKind) -> (Rgb, Rgb) {
    match theme {
        ThemeKind::Dark => (Rgb { r: 0x1B, g: 0x1B, b: 0x1B }, Rgb { r: 0x30, g: 0x30, b: 0x30 }),
        ThemeKind::Light => (Rgb { r: 0xFF, g: 0xFF, b: 0xFF }, Rgb { r: 0xF8, g: 0xF8, b: 0xF8 }),
    }
}

impl<K> View for App<K> {
    type V = AppView<K>;

    closed spec fn view(&self) -> AppView<K> {
        AppView { state: self.state@, action: self.action.action, focus: self.managed_focus }
    }
}

impl<K: Copy + PartialEq> App<K> {
    /// The application as it starts: default state, no action, no focus.
    pub fn new() -> (a: App<K>)
        ensures
            a@.state == default_state(),
            a@.action is Idle,
            a@.focus is None,
    {
        App { state: AppState::default(), action: ActionSlot { action: AppAction::Idle }, managed_focus: None }
    }

    /// The application restarted from persisted state: no action, no focus.
    pub fn restore(state: AppState) -> (a: App<K>)
        ensures
            a@.state == state@,
            a@.action is Idle,
            a@.focus is None,
    {
        App { state, action: ActionSlot { action: AppAction::Idle }, managed_focus: None }
    }

    /// The pending action carries only timestamps in the representable range.
    pub fn action(&self) -> (r: &AppAction)
        ensures
            *r == self@.action,
            action_wf(*r),
    {
        proof {
            use_type_invariant(&self.action);
        }
        &self.action.action
    }

    pub fn state(&self) -> (r: &AppState)
        ensures
            r@ == self@.state,
    {
        &self.state
    }

    /// A mutable handle on the persistent state.
    pub fn state_mut(&mut self) -> (r: &mut AppState)
        ensures
            r@ == old(self)@.state,
            final(self)@ == (AppView { state: final(r)@, ..old(self)@ }),
    {
        &mut self.state
    }

    /// Replaces the current action with a new one.
    pub fn set_action(&mut self, newact: AppAction)
        requires
            action_wf(newact),
        ensures
            final(self)@ == (AppView { action: newact, ..old(self)@ }),
    {
        self.action = ActionSlot { action: newact };
    }

    /// Shorthand for `set_action(AppAction::Idle)`.
    pub fn reset_action(&mut self)
        ensures
            final(self)@ == (AppView { action: AppAction::Idle, ..old(self)@ }),
    {
        self.action = ActionSlot { action: AppAction::Idle };
    }

    /// The timestamp dialog that is open, and the text typed into it so far.
    pub fn open_dialog(&self) -> (r: Option<(TimestampDialog, String)>)
        ensures
            match r {
                Some((d, text)) => dialog_of(self@.action) == Some((d, text@)),
                None => dialog_of(self@.action) is None,
            },
    {
        match &self.action.action {
            AppAction::TimestampAbsRequest(text) => Some((TimestampDialog::Absolute, text.clone())),
            AppAction::TimestampRelRequest(text) => Some((TimestampDialog::Relative, text.clone())),
            _ => None,
        }
    }

    /// Puts the edited text back into the open dialog; without one, nothing changes.
    pub fn set_dialog_text(&mut self, text: String)
        ensures
            final(self)@.state == old(self)@.state,
            final(self)@.focus == old(self)@.focus,
            match old(self)@.action {
                AppAction::TimestampAbsRequest(_) => final(self)@.action
                    == AppAction::TimestampAbsRequest(text),
                AppAction::TimestampRelRequest(_) => final(self)@.action
                    == AppAction::TimestampRelRequest(text),
                _ => final(self)@.action == old(self)@.action,
            },
    {
        let is_abs = match &self.action.action {
            AppAction::TimestampAbsRequest(_) => Some(true),
            AppAction::TimestampRelRequest(_) => Some(false),
            _ => None,
        };
        match is_abs {
            Some(true) => {
                self.action = ActionSlot { action: AppAction::TimestampAbsRequest(text) };
            },
            Some(false) => {
                self.action = ActionSlot { action: AppAction::TimestampRelRequest(text) };
            },
            None => {},
        }
    }

    /// Ends the dialog step of a frame. With a dialog open, the action becomes what
    /// the dialog decided (`transition`), if it decided anything; without one, the
    /// default focus is forgotten and `transition` is not looked at.
    pub fn finish_dialogs(&mut self, transition: Option<AppAction>)
        requires
            transition matches Some(a) ==> action_wf(a),
        ensures
            final(self)@.state == old(self)@.state,
            dialog_of(old(self)@.action) is Some ==> {
                &&& final(self)@.focus == old(self)@.focus
                &&& final(self)@.action == (match transition {
                    Some(a) => a,
                    None => old(self)@.action,
                })
            },
            dialog_of(old(self)@.action) is None ==> {
                &&& final(self)@.focus is None
                &&& final(self)@.action == old(self)@.action
            },
    {
        let dialog_open = match &self.action.action {
            AppAction::TimestampAbsRequest(_) | AppAction::TimestampRelRequest(_) => true,
            _ => false,
        };
        let v = if dialog_open {
            transition
        } else {
            // if no dialog is present, reset the focus management
            self.managed_focus.reset_focus();
            None
        };
        if let Some(v) = v {
            self.action = ActionSlot { action: v };
        }
    }

    /// Carries out an action that takes effect at once, and says what the window
    /// has to be told. A finished action is replaced by `Idle`.
    pub fn apply_instant_action(&mut self) -> (cmd: ViewportCommand)
        ensures
            (final(self)@.state, cmd) == instant_effect(old(self)@.state, old(self)@.action),
            old(self)@.action matches AppAction::SetTimestamp(t) ==> final(self)@.state
                == (AppStateView { timestamp: Some(t), ..old(self)@.state }),
            old(self)@.action is ResTimestamp ==> final(self)@.state == (AppStateView {
                timestamp: None,
                ..old(self)@.state
            }),
            old(self)@.action is Toggle12Hour ==> final(self)@.state == (AppStateView {
                display_12hr: !old(self)@.state.display_12hr,
                ..old(self)@.state
            }),
            final(self)@.action == (if finishes(old(self)@.action) {
                AppAction::Idle
            } else {
                old(self)@.action
            }),
            final(self)@.focus == old(self)@.focus,
    {
        proof {
            use_type_invariant(&self.action);
        }
        let mut cmd = ViewportCommand::Nothing;
        match &self.action.action {
            AppAction::Exit => {
                cmd = ViewportCommand::Close;
            },
            AppAction::SetTimestamp(v) => {
                let v = *v;
                self.state.set_timestamp(v);
                self.reset_action();
            },
            AppAction::ResTimestamp => {
                // reset the timestamp
                self.state.reset_timestamp();
                self.reset_action();
            },
            AppAction::Toggle12Hour => {
                self.state.toggle_12hr();
                self.reset_action();
            },
            AppAction::RefreshBorderless => {
                cmd = ViewportCommand::Decorations(!self.state.get_borderless());
                self.reset_action();
            },
            _ => {},
        }
        cmd
    }

    /// Names `id` the default focus of the open dialog.
    pub fn default_focus(&mut self, id: &K)
        ensures
            final(self)@.state == old(self)@.state,
            final(self)@.action == old(self)@.action,
            K::obeys_eq_spec() ==> final(self)@.focus == after_default_focus(old(self)@.focus, *id),
            final(self)@.focus == old(self)@.focus || final(self)@.focus == Some((*id, true)),
    {
        self.managed_focus.default_focus(id);
    }

    /// Applies the focus state: the widget to request focus for, if a request is
    /// pending (the request is then marked done).
    pub fn apply_focus(&mut self) -> (r: Option<K>)
        ensures
            r == focus_request(old(self)@.focus),
            final(self)@ == (AppView { focus: after_apply_focus(old(self)@.focus), ..old(self)@ }),
    {
        self.managed_focus.apply_focus()
    }

    /// Carries out a menu-bar shortcut: it starts its action; the borderless
    /// shortcut also flips the borderless flag.
    pub fn on_menubar_bind(&mut self, bind: MenubarBind)
        ensures
            is_bind_action(bind, final(self)@.action),
            final(self)@.focus == old(self)@.focus,
            final(self)@.state == (if bind == MenubarBind::Borderless {
                borderless_toggled(old(self)@.state)
            } else {
                old(self)@.state
            }),
    {
        let newact = match bind {
            MenubarBind::Exit => AppAction::Exit,
            MenubarBind::NewAbsolute => AppAction::TimestampAbsRequest(String::new()),
            MenubarBind::NewRelative => AppAction::TimestampRelRequest(String::new()),
            MenubarBind::ResetTime => AppAction::ResTimestamp,
            MenubarBind::Borderless => {
                self.state.toggle_borderless();
                AppAction::RefreshBorderless
            },
        };
        self.set_action(newact);
    }

    /// Checks the menu-bar shortcuts: the first one pressed, in the order of
    /// `menubar_bind_order`, is carried out.
    pub fn check_menubar_binds(&mut self, pressed: Option<MenubarBind>)
        ensures
            pressed is None ==> final(self)@ == old(self)@,
            pressed matches Some(bind) ==> {
                &&& is_bind_action(bind, final(self)@.action)
                &&& final(self)@.focus == old(self)@.focus
                &&& final(self)@.state == (if bind == MenubarBind::Borderless {
                    borderless_toggled(old(self)@.state)
                } else {
                    old(self)@.state
                })
            },
    {
        if let Some(bind) = pressed {
            self.on_menubar_bind(bind);
        }
    }
}

/// What a timestamp dialog decides in a frame: dismissing it wins over applying a
/// timestamp; with neither, nothing is decided.
pub fn dialog_transition(applied: Option<Timestamp>, dismissed: bool) -> (r: Option<AppAction>)
    requires
        applied matches Some(t) ==> t.wf(),
    ensures
        dismissed ==> r matches Some(AppAction::Idle),
        !dismissed ==> match applied {
            Some(t) => r == Some(AppAction::SetTimestamp(t)),
            None => r is None,
        },
        r matches Some(a) ==> action_wf(a),
{
    let mut transition = None;
    if let Some(t) = applied {
        transition = Some(AppAction::SetTimestamp(t));
    }
    if dismissed {
        transition = Some(AppAction::Idle);
    }
    transition
}

/// The order in which menu-bar shortcuts are checked.
pub open spec fn menubar_bind_order_spec() -> Seq<MenubarBind> {
    seq![
        MenubarBind::Exit,
        MenubarBind::NewAbsolute,
        MenubarBind::NewRelative,
        MenubarBind::ResetTime,
        MenubarBind::Borderless,
    ]
}

/// The order in which menu-bar shortcuts are checked; the first pressed one wins.
pub fn menubar_bind_order() -> (r: Vec<MenubarBind>)
    ensures
        r@ == menubar_bind_order_spec(),
{
    vec![
        MenubarBind::Exit,
        MenubarBind::NewAbsolute,
        MenubarBind::NewRelative,
        MenubarBind::ResetTime,
        MenubarBind::Borderless,
    ]
}

/// Background and highlight colours for the current theme.
pub fn get_theme_cols(theme: ThemeKind) -> (r: (Rgb, Rgb))
    ensures
        r == theme_colors(theme),
{
    match theme {
        ThemeKind::Dark => (Rgb { r: 0x1B, g: 0x1B, b: 0x1B }, Rgb { r: 0x30, g: 0x30, b: 0x30 }),
        ThemeKind::Light => (Rgb { r: 0xFF, g: 0xFF, b: 0xFF }, Rgb { r: 0xF8, g: 0xF8, b: 0xF8 }),
    }
}

} // verus!
