//! What the overlay reads of the configuration.

use crate::text;
use vstd::prelude::*;
use vstd::string::*;

verus! {

/// A bindable action.
///
/// Actions without a row of their own in the overlay and without a default title are `Other`;
/// equal actions carry equal numbers.
#[derive(Debug)]
pub enum Action {
    Quit(bool),
    MoveColumnToWorkspaceDown(bool),
    MoveColumnToWorkspaceUp(bool),
    MoveWindowToWorkspaceDown(bool),
    MoveWindowToWorkspaceUp(bool),
    ShowHotkeyOverlay,
    CloseWindow,
    FocusColumnLeft,
    FocusColumnRight,
    MoveColumnLeft,
    MoveColumnRight,
    FocusWorkspaceDown,
    FocusWorkspaceUp,
    SwitchPresetColumnWidth,
    MaximizeColumn,
    ConsumeOrExpelWindowLeft,
    ConsumeOrExpelWindowRight,
    ToggleWindowFloating,
    SwitchFocusBetweenFloatingAndTiling,
    ToggleOverview,
    Screenshot(bool, Option<String>),
    Spawn(Vec<String>),
    SpawnSh(String),
    Other(u64),
}

/// An action as a mathematical value.
pub enum ActionView {
    Quit(bool),
    MoveColumnToWorkspaceDown(bool),
    MoveColumnToWorkspaceUp(bool),
    MoveWindowToWorkspaceDown(bool),
    MoveWindowToWorkspaceUp(bool),
    ShowHotkeyOverlay,
    CloseWindow,
    FocusColumnLeft,
    FocusColumnRight,
    MoveColumnLeft,
    MoveColumnRight,
    FocusWorkspaceDown,
    FocusWorkspaceUp,
    SwitchPresetColumnWidth,
    MaximizeColumn,
    ConsumeOrExpelWindowLeft,
    ConsumeOrExpelWindowRight,
    ToggleWindowFloating,
    SwitchFocusBetweenFloatingAndTiling,
    ToggleOverview,
    Screenshot(bool, Option<Seq<char>>),
    Spawn(Seq<Seq<char>>),
    SpawnSh(Seq<char>),
    Other(u64),
}

/// The text of an optional string.
pub open spec fn opt_text(s: Option<String>) -> Option<Seq<char>> {
    match s {
        Some(s) => Some(s@),
        None => None,
    }
}

impl View for Action {
    type V = ActionView;

    open spec fn view(&self) -> ActionView {
        match self {
            Action::Quit(b) => ActionView::Quit(*b),
            Action::MoveColumnToWorkspaceDown(b) => ActionView::MoveColumnToWorkspaceDown(*b),
            Action::MoveColumnToWorkspaceUp(b) => ActionView::MoveColumnToWorkspaceUp(*b),
            Action::MoveWindowToWorkspaceDown(b) => ActionView::MoveWindowToWorkspaceDown(*b),
            Action::MoveWindowToWorkspaceUp(b) => ActionView::MoveWindowToWorkspaceUp(*b),
            Action::ShowHotkeyOverlay => ActionView::ShowHotkeyOverlay,
            Action::CloseWindow => ActionView::CloseWindow,
            Action::FocusColumnLeft => ActionView::FocusColumnLeft,
            Action::FocusColumnRight => ActionView::FocusColumnRight,
            Action::MoveColumnLeft => ActionView::MoveColumnLeft,
            Action::MoveColumnRight => ActionView::MoveColumnRight,
            Action::FocusWorkspaceDown => ActionView::FocusWorkspaceDown,
            Action::FocusWorkspaceUp => ActionView::FocusWorkspaceUp,
            Action::SwitchPresetColumnWidth => ActionView::SwitchPresetColumnWidth,
            Action::MaximizeColumn => ActionView::MaximizeColumn,
            Action::ConsumeOrExpelWindowLeft => ActionView::ConsumeOrExpelWindowLeft,
            Action::ConsumeOrExpelWindowRight => ActionView::ConsumeOrExpelWindowRight,
            Action::ToggleWindowFloating => ActionView::ToggleWindowFloating,
            Action::SwitchFocusBetweenFloatingAndTiling => ActionView::SwitchFocusBetweenFloatingAndTiling,
            Action::ToggleOverview => ActionView::ToggleOverview,
            Action::Screenshot(b, path) => ActionView::Screenshot(*b, opt_text(*path)),
            Action::Spawn(args) => ActionView::Spawn(text::texts(args@)),
            Action::SpawnSh(command) => ActionView::SpawnSh(command@),
            Action::Other(n) => ActionView::Other(*n),
        }
    }
}

impl ActionView {
    /// The action runs a program.
    pub open spec fn spawns(self) -> bool {
        self is Spawn || self is SpawnSh
    }
}

fn same_strings(a: &Vec<String>, b: &Vec<String>) -> (r: bool)
    ensures
        r == (text::texts(a@) == text::texts(b@)),
{
    let n: usize = a.len();
    if n != b.len() {
        assert(text::texts(a@).len() != text::texts(b@).len());
        return false;
    }
    let mut i: usize = 0;
    while i < n
        invariant
            n == a@.len(),
            n == b@.len(),
            i <= n,
            forall|j: int| 0 <= j < i ==> a@[j]@ == b@[j]@,
        decreases n - i,
    {
        if a[i] != b[i] {
            assert(text::texts(a@)[i as int] != text::texts(b@)[i as int]);
            return false;
        }
        i = i + 1;
    }
    assert(text::texts(a@) =~= text::texts(b@));
    true
}

fn dup_strings(a: &Vec<String>) -> (r: Vec<String>)
    ensures
        text::texts(r@) == text::texts(a@),
{
    let mut r: Vec<String> = Vec::new();
    let n: usize = a.len();
    let mut i: usize = 0;
    while i < n
        invariant
            n == a@.len(),
            i <= n,
            r@.len() == i,
            forall|j: int| 0 <= j < i ==> r@[j]@ == a@[j]@,
        decreases n - i,
    {
        r.push(a[i].clone());
        i = i + 1;
    }
    assert(text::texts(r@) =~= text::texts(a@));
    r
}

fn same_opt(a: &Option<String>, b: &Option<String>) -> (r: bool)
    ensures
        r == (opt_text(*a) == opt_text(*b)),
{
    match (a, b) {
        (Some(a), Some(b)) => *a == *b,
        (None, None) => true,
        _ => false,
    }
}

fn dup_opt(a: &Option<String>) -> (r: Option<String>)
    ensures
        opt_text(r) == opt_text(*a),
{
    match a {
        Some(s) => Some(s.clone()),
        None => None,
    }
}

impl Action {
    /// Whether two actions are equal.
    pub fn same(&self, other: &Action) -> (r: bool)
        ensures
            r == (self@ == other@),
    {
        match (self, other) {
            (Action::Quit(a), Action::Quit(b)) => *a == *b,
            (Action::MoveColumnToWorkspaceDown(a), Action::MoveColumnToWorkspaceDown(b)) => *a == *b,
            (Action::MoveColumnToWorkspaceUp(a), Action::MoveColumnToWorkspaceUp(b)) => *a == *b,
            (Action::MoveWindowToWorkspaceDown(a), Action::MoveWindowToWorkspaceDown(b)) => *a == *b,
            (Action::MoveWindowToWorkspaceUp(a), Action::MoveWindowToWorkspaceUp(b)) => *a == *b,
            (Action::ShowHotkeyOverlay, Action::ShowHotkeyOverlay) => true,
            (Action::CloseWindow, Action::CloseWindow) => true,
            (Action::FocusColumnLeft, Action::FocusColumnLeft) => true,
            (Action::FocusColumnRight, Action::FocusColumnRight) => true,
            (Action::MoveColumnLeft, Action::MoveColumnLeft) => true,
            (Action::MoveColumnRight, Action::MoveColumnRight) => true,
            (Action::FocusWorkspaceDown, Action::FocusWorkspaceDown) => true,
            (Action::FocusWorkspaceUp, Action::FocusWorkspaceUp) => true,
            (Action::SwitchPresetColumnWidth, Action::SwitchPresetColumnWidth) => true,
            (Action::MaximizeColumn, Action::MaximizeColumn) => true,
            (Action::ConsumeOrExpelWindowLeft, Action::ConsumeOrExpelWindowLeft) => true,
            (Action::ConsumeOrExpelWindowRight, Action::ConsumeOrExpelWindowRight) => true,
            (Action::ToggleWindowFloating, Action::ToggleWindowFloating) => true,
            (Action::SwitchFocusBetweenFloatingAndTiling, Action::SwitchFocusBetweenFloatingAndTiling) => true,
            (Action::ToggleOverview, Action::ToggleOverview) => true,
            (Action::Screenshot(a, path_a), Action::Screenshot(b, path_b)) => *a == *b && same_opt(
                path_a,
                path_b,
            ),
            (Action::Spawn(a), Action::Spawn(b)) => same_strings(a, b),
            (Action::SpawnSh(a), Action::SpawnSh(b)) => *a == *b,
            (Action::Other(a), Action::Other(b)) => *a == *b,
            _ => false,
        }
    }

    /// An equal action.
    pub fn dup(&self) -> (r: Action)
        ensures
            r@ == self@,
    {
        match self {
            Action::Quit(b) => Action::Quit(*b),
            Action::MoveColumnToWorkspaceDown(b) => Action::MoveColumnToWorkspaceDown(*b),
            Action::MoveColumnToWorkspaceUp(b) => Action::MoveColumnToWorkspaceUp(*b),
            Action::MoveWindowToWorkspaceDown(b) => Action::MoveWindowToWorkspaceDown(*b),
            Action::MoveWindowToWorkspaceUp(b) => Action::MoveWindowToWorkspaceUp(*b),
            Action::ShowHotkeyOverlay => Action::ShowHotkeyOverlay,
            Action::CloseWindow => Action::CloseWindow,
            Action::FocusColumnLeft => Action::FocusColumnLeft,
            Action::FocusColumnRight => Action::FocusColumnRight,
            Action::MoveColumnLeft => Action::MoveColumnLeft,
            Action::MoveColumnRight => Action::MoveColumnRight,
            Action::FocusWorkspaceDown => Action::FocusWorkspaceDown,
            Action::FocusWorkspaceUp => Action::FocusWorkspaceUp,
            Action::SwitchPresetColumnWidth => Action::SwitchPresetColumnWidth,
            Action::MaximizeColumn => Action::MaximizeColumn,
            Action::ConsumeOrExpelWindowLeft => Action::ConsumeOrExpelWindowLeft,
            Action::ConsumeOrExpelWindowRight => Action::ConsumeOrExpelWindowRight,
            Action::ToggleWindowFloating => Action::ToggleWindowFloating,
            Action::SwitchFocusBetweenFloatingAndTiling => Action::SwitchFocusBetweenFloatingAndTiling,
            Action::ToggleOverview => Action::ToggleOverview,
            Action::Screenshot(b, path) => Action::Screenshot(*b, dup_opt(path)),
            Action::Spawn(args) => Action::Spawn(dup_strings(args)),
            Action::SpawnSh(command) => Action::SpawnSh(command.clone()),
            Action::Other(n) => Action::Other(*n),
        }
    }

    /// Whether the action runs a program.
    pub fn is_spawn(&self) -> (r: bool)
        ensures
            r == self@.spawns(),
    {
        match self {
            Action::Spawn(_) | Action::SpawnSh(_) => true,
            _ => false,
        }
    }
}

/// What presses a bind.
#[derive(Debug)]
pub enum Trigger {
    /// A key, by the name of its keysym.
    Keysym(String),
    MouseLeft,
    MouseRight,
    MouseMiddle,
    MouseBack,
    MouseForward,
    WheelScrollDown,
    WheelScrollUp,
    WheelScrollLeft,
    WheelScrollRight,
    TouchpadScrollDown,
    TouchpadScrollUp,
    TouchpadScrollLeft,
    TouchpadScrollRight,
    TabletStylusButton1,
    TabletStylusButton2,
    TabletStylusButton3,
}

/// A trigger as a mathematical value.
pub enum TriggerView {
    Keysym(Seq<char>),
    MouseLeft,
    MouseRight,
    MouseMiddle,
    MouseBack,
    MouseForward,
    WheelScrollDown,
    WheelScrollUp,
    WheelScrollLeft,
    WheelScrollRight,
    TouchpadScrollDown,
    TouchpadScrollUp,
    TouchpadScrollLeft,
    TouchpadScrollRight,
    TabletStylusButton1,
    TabletStylusButton2,
    TabletStylusButton3,
}

impl View for Trigger {
    type V = TriggerView;

    open spec fn view(&self) -> TriggerView {
        match self {
            Trigger::Keysym(name) => TriggerView::Keysym(name@),
            Trigger::MouseLeft => TriggerView::MouseLeft,
            Trigger::MouseRight => TriggerView::MouseRight,
            Trigger::MouseMiddle => TriggerView::MouseMiddle,
            Trigger::MouseBack => TriggerView::MouseBack,
            Trigger::MouseForward => TriggerView::MouseForward,
            Trigger::WheelScrollDown => TriggerView::WheelScrollDown,
            Trigger::WheelScrollUp => TriggerView::WheelScrollUp,
            Trigger::WheelScrollLeft => TriggerView::WheelScrollLeft,
            Trigger::WheelScrollRight => TriggerView::WheelScrollRight,
            Trigger::TouchpadScrollDown => TriggerView::TouchpadScrollDown,
            Trigger::TouchpadScrollUp => TriggerView::TouchpadScrollUp,
            Trigger::TouchpadScrollLeft => TriggerView::TouchpadScrollLeft,
            Trigger::TouchpadScrollRight => TriggerView::TouchpadScrollRight,
            Trigger::TabletStylusButton1 => TriggerView::TabletStylusButton1,
            Trigger::TabletStylusButton2 => TriggerView::TabletStylusButton2,
            Trigger::TabletStylusButton3 => TriggerView::TabletStylusButton3,
        }
    }
}

/// The modifiers that a bind asks for.
#[derive(Debug, Clone, Copy, PartialEq, Eq, Structural)]
pub struct Modifiers {
    /// Whatever the compositor's own modifier is.
    pub compositor: bool,
    pub super_: bool,
    pub ctrl: bool,
    pub shift: bool,
    pub alt: bool,
    pub iso_level3_shift: bool,
    pub iso_level5_shift: bool,
}

/// The compositor's own modifier.
#[derive(Debug, Clone, Copy, PartialEq, Eq, Structural)]
pub enum ModKey {
    Ctrl,
    Shift,
    Alt,
    Super,
    IsoLevel3Shift,
    IsoLevel5Shift,
}

/// A trigger with its modifiers.
#[derive(Debug)]
pub struct Key {
    pub trigger: Trigger,
    pub modifiers: Modifiers,
}

/// A key as a mathematical value.
pub struct KeyView {
    pub trigger: TriggerView,
    pub modifiers: Modifiers,
}

impl View for Key {
    type V = KeyView;

    open spec fn view(&self) -> KeyView {
        KeyView { trigger: self.trigger@, modifiers: self.modifiers }
    }
}

impl Key {
    /// An equal key.
    pub fn dup(&self) -> (r: Key)
        ensures
            r@ == self@,
    {
        let trigger = match &self.trigger {
            Trigger::Keysym(name) => Trigger::Keysym(name.clone()),
            Trigger::MouseLeft => Trigger::MouseLeft,
            Trigger::MouseRight => Trigger::MouseRight,
            Trigger::MouseMiddle => Trigger::MouseMiddle,
            Trigger::MouseBack => Trigger::MouseBack,
            Trigger::MouseForward => Trigger::MouseForward,
            Trigger::WheelScrollDown => Trigger::WheelScrollDown,
            Trigger::WheelScrollUp => Trigger::WheelScrollUp,
            Trigger::WheelScrollLeft => Trigger::WheelScrollLeft,
            Trigger::WheelScrollRight => Trigger::WheelScrollRight,
            Trigger::TouchpadScrollDown => Trigger::TouchpadScrollDown,
            Trigger::TouchpadScrollUp => Trigger::TouchpadScrollUp,
            Trigger::TouchpadScrollLeft => Trigger::TouchpadScrollLeft,
            Trigger::TouchpadScrollRight => Trigger::TouchpadScrollRight,
            Trigger::TabletStylusButton1 => Trigger::TabletStylusButton1,
            Trigger::TabletStylusButton2 => Trigger::TabletStylusButton2,
            Trigger::TabletStylusButton3 => Trigger::TabletStylusButton3,
        };
        Key { trigger, modifiers: self.modifiers }
    }
}

/// One configured bind.
#[derive(Debug)]
pub struct Bind {
    pub key: Key,
    pub action: Action,
    /// A custom title, `Some(None)` for an explicitly hidden bind, `None` for the default title.
    pub hotkey_overlay_title: Option<Option<String>>,
}

/// A bind as a mathematical value.
pub struct BindView {
    pub key: KeyView,
    pub action: ActionView,
    pub title: Option<Option<Seq<char>>>,
}

impl View for Bind {
    type V = BindView;

    open spec fn view(&self) -> BindView {
        BindView {
            key: self.key@,
            action: self.action@,
            title: match self.hotkey_overlay_title {
                Some(title) => Some(opt_text(title)),
                None => None,
            },
        }
    }
}

impl BindView {
    /// The bind has a title of its own.
    pub open spec fn titled(self) -> bool {
        self.title matches Some(Some(_))
    }

    /// The bind is explicitly hidden.
    pub open spec fn hidden(self) -> bool {
        self.title matches Some(None)
    }
}

impl Bind {
    pub fn is_titled(&self) -> (r: bool)
        ensures
            r == self@.titled(),
    {
        match &self.hotkey_overlay_title {
            Some(Some(_)) => true,
            _ => false,
        }
    }
}

/// Binds as mathematical values.
pub open spec fn bind_views(binds: Seq<Bind>) -> Seq<BindView> {
    Seq::new(binds.len(), |i: int| binds[i]@)
}

/// The configuration that the overlay shows.
#[derive(Debug)]
pub struct Config {
    pub binds: Vec<Bind>,
    /// `hotkey-overlay { hide-not-bound }`.
    pub hide_not_bound: bool,
}

/// The view of an action is the same action, with the same particulars.
pub proof fn action_views_are_faithful(action: Action)
    ensures
        action is Quit <==> action@ is Quit,
        action is MoveColumnToWorkspaceDown <==> action@ is MoveColumnToWorkspaceDown,
        action is MoveColumnToWorkspaceUp <==> action@ is MoveColumnToWorkspaceUp,
        action is MoveWindowToWorkspaceDown <==> action@ is MoveWindowToWorkspaceDown,
        action is MoveWindowToWorkspaceUp <==> action@ is MoveWindowToWorkspaceUp,
        action is ShowHotkeyOverlay <==> action@ is ShowHotkeyOverlay,
        action is CloseWindow <==> action@ is CloseWindow,
        action is FocusColumnLeft <==> action@ is FocusColumnLeft,
        action is FocusColumnRight <==> action@ is FocusColumnRight,
        action is MoveColumnLeft <==> action@ is MoveColumnLeft,
        action is MoveColumnRight <==> action@ is MoveColumnRight,
        action is FocusWorkspaceDown <==> action@ is FocusWorkspaceDown,
        action is FocusWorkspaceUp <==> action@ is FocusWorkspaceUp,
        action is SwitchPresetColumnWidth <==> action@ is SwitchPresetColumnWidth,
        action is MaximizeColumn <==> action@ is MaximizeColumn,
        action is ConsumeOrExpelWindowLeft <==> action@ is ConsumeOrExpelWindowLeft,
        action is ConsumeOrExpelWindowRight <==> action@ is ConsumeOrExpelWindowRight,
        action is ToggleWindowFloating <==> action@ is ToggleWindowFloating,
        action is SwitchFocusBetweenFloatingAndTiling <==> action@ is SwitchFocusBetweenFloatingAndTiling,
        action is ToggleOverview <==> action@ is ToggleOverview,
        action is Screenshot <==> action@ is Screenshot,
        action is Spawn <==> action@ is Spawn,
        action is SpawnSh <==> action@ is SpawnSh,
        action is Other <==> action@ is Other,
        action matches Action::Quit(b) ==> action@ == ActionView::Quit(b),
        action matches Action::MoveColumnToWorkspaceDown(b) ==> action@
            == ActionView::MoveColumnToWorkspaceDown(b),
        action matches Action::MoveColumnToWorkspaceUp(b) ==> action@
            == ActionView::MoveColumnToWorkspaceUp(b),
        action matches Action::MoveWindowToWorkspaceDown(b) ==> action@
            == ActionView::MoveWindowToWorkspaceDown(b),
        action matches Action::MoveWindowToWorkspaceUp(b) ==> action@
            == ActionView::MoveWindowToWorkspaceUp(b),
        action matches Action::SpawnSh(command) ==> action@ == ActionView::SpawnSh(command@),
        action matches Action::Spawn(args) ==> action@ == ActionView::Spawn(text::texts(args@)),
        action matches Action::Other(n) ==> action@ == ActionView::Other(n),
{
}

/// The views of a list of binds are those of its binds, one for one.
pub proof fn views_are_those_of_the_binds(binds: Seq<Bind>)
    ensures
        bind_views(binds).len() == binds.len(),
        forall|i: int| 0 <= i < binds.len() ==> #[trigger] bind_views(binds)[i] == binds[i]@,
{
}

/// The view of a bind has the bind's trigger, modifiers and title.
pub proof fn bind_views_are_faithful(bind: Bind)
    ensures
        bind.key.trigger is Keysym <==> bind@.key.trigger is Keysym,
        bind.key.trigger is MouseLeft <==> bind@.key.trigger is MouseLeft,
        bind.key.trigger is MouseRight <==> bind@.key.trigger is MouseRight,
        bind.key.trigger is MouseMiddle <==> bind@.key.trigger is MouseMiddle,
        bind.key.trigger is MouseBack <==> bind@.key.trigger is MouseBack,
        bind.key.trigger is MouseForward <==> bind@.key.trigger is MouseForward,
        bind.key.trigger is WheelScrollDown <==> bind@.key.trigger is WheelScrollDown,
        bind.key.trigger is WheelScrollUp <==> bind@.key.trigger is WheelScrollUp,
        bind.key.trigger is WheelScrollLeft <==> bind@.key.trigger is WheelScrollLeft,
        bind.key.trigger is WheelScrollRight <==> bind@.key.trigger is WheelScrollRight,
        bind.key.trigger is TouchpadScrollDown <==> bind@.key.trigger is TouchpadScrollDown,
        bind.key.trigger is TouchpadScrollUp <==> bind@.key.trigger is TouchpadScrollUp,
        bind.key.trigger is TouchpadScrollLeft <==> bind@.key.trigger is TouchpadScrollLeft,
        bind.key.trigger is TouchpadScrollRight <==> bind@.key.trigger is TouchpadScrollRight,
        bind.key.trigger is TabletStylusButton1 <==> bind@.key.trigger is TabletStylusButton1,
        bind.key.trigger is TabletStylusButton2 <==> bind@.key.trigger is TabletStylusButton2,
        bind.key.trigger is TabletStylusButton3 <==> bind@.key.trigger is TabletStylusButton3,
        bind.key.trigger matches Trigger::Keysym(name) ==> bind@.key.trigger == TriggerView::Keysym(
            name@,
        ),
        bind@.key.modifiers == bind.key.modifiers,
        bind@.action == bind.action@,
        bind.hotkey_overlay_title is None <==> bind@.title is None,
        bind.hotkey_overlay_title matches Some(Some(title)) ==> bind@.title == Some(Some(title@)),
        bind.hotkey_overlay_title == Some(None::<String>) ==> bind@.title == Some(
            None::<Seq<char>>,
        ),
{
}

} // verus!
