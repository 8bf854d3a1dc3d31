//! Which actions the overlay lists, and how each is shown.

use crate::hotkey_overlay::binds;
use crate::hotkey_overlay::binds::{Action, ActionView, Bind, BindView, Config, Key, KeyView, Trigger};
use crate::hotkey_overlay::names;
use vstd::prelude::*;
use vstd::string::*;

verus! {

/// Position of the first bind for which `p` holds.
pub open spec fn position(binds: Seq<BindView>, p: spec_fn(BindView) -> bool) -> Option<int>
    decreases binds.len(),
{
    if binds.len() == 0 {
        None
    } else {
        match position(binds.drop_last(), p) {
            Some(i) => Some(i),
            None => if p(binds.last()) {
                Some(binds.len() - 1)
            } else {
                None
            },
        }
    }
}

/// Some bind is for the action.
pub open spec fn bound(binds: Seq<BindView>, action: ActionView) -> bool {
    exists|i: int| 0 <= i < binds.len() && (#[trigger] binds[i]).action == action
}

pub open spec fn titled_bind_of(action: ActionView) -> spec_fn(BindView) -> bool {
    |b: BindView| b.action == action && b.titled()
}

pub open spec fn untitled_bind_of(action: ActionView) -> spec_fn(BindView) -> bool {
    |b: BindView| b.action == action && b.title is None
}

pub open spec fn hidden_bind_of(action: ActionView) -> spec_fn(BindView) -> bool {
    |b: BindView| b.action == action && b.hidden()
}

/// How an action is shown: the key of the bind that stands for it, and a title. The first bind
/// with a title of its own is preferred; failing that, a hidden bind hides the action, and else
/// the first bind with the default title stands for it.
pub open spec fn shown_as(binds: Seq<BindView>, action: ActionView) -> Option<
    (Option<KeyView>, Seq<char>),
> {
    match position(binds, titled_bind_of(action)) {
        Some(i) => Some((Some(binds[i].key), binds[i].title->0->0)),
        None => if position(binds, hidden_bind_of(action)) is Some {
            None
        } else {
            match position(binds, untitled_bind_of(action)) {
                Some(i) => Some((Some(binds[i].key), names::title_of(action))),
                None => Some((None, names::title_of(action))),
            }
        },
    }
}

/// A shown action as a mathematical value.
pub open spec fn shown_view(shown: Option<(Option<Key>, String)>) -> Option<
    (Option<KeyView>, Seq<char>),
> {
    match shown {
        Some((Some(key), title)) => Some((Some(key@), title@)),
        Some((None, title)) => Some((None, title@)),
        None => None,
    }
}

/// How an action is shown, if it is not hidden.
pub fn format_bind(binds: &Vec<Bind>, action: &Action) -> (shown: Option<(Option<Key>, String)>)
    ensures
        shown_view(shown) == shown_as(binds::bind_views(binds@), action@),
{
    let ghost views = binds::bind_views(binds@);
    let mut bind_with_default_title: Option<usize> = None;
    let mut bind_with_custom_title: Option<usize> = None;
    let mut found_null_title = false;
    let n: usize = binds.len();
    let mut i: usize = 0;
    while i < n
        invariant
            n == binds@.len(),
            i <= n,
            views == binds::bind_views(binds@),
            at(bind_with_custom_title) == position(
                views.take(i as int),
                titled_bind_of(action@),
            ),
            at(bind_with_default_title) == position(
                views.take(i as int),
                untitled_bind_of(action@),
            ),
            found_null_title == (position(
                views.take(i as int),
                hidden_bind_of(action@),
            ) is Some),
            bind_with_custom_title matches Some(k) ==> k < i && views[k as int].titled(),
            bind_with_default_title matches Some(k) ==> k < i && views[k as int].title is None,
        decreases n - i,
    {
        assert(views.take(i + 1).drop_last() =~= views.take(i as int));
        assert(views.take(i + 1).last() == binds@[i as int]@);
        let bind: &Bind = &binds[i];
        if bind.action.same(action) {
            match &bind.hotkey_overlay_title {
                Some(Some(_)) => {
                    if bind_with_custom_title.is_none() {
                        bind_with_custom_title = Some(i);
                    }
                },
                Some(None) => {
                    found_null_title = true;
                },
                None => {
                    if bind_with_default_title.is_none() {
                        bind_with_default_title = Some(i);
                    }
                },
            }
        }
        i = i + 1;
    }
    assert(views.take(n as int) =~= views);
    if let Some(k) = bind_with_custom_title {
        if let Some(Some(custom)) = &binds[k].hotkey_overlay_title {
            return Some((Some(binds[k].key.dup()), custom.clone()));
        }
    }
    if found_null_title {
        return None;
    }
    let title = names::action_name(action);
    match bind_with_default_title {
        Some(k) => Some((Some(binds[k].key.dup()), title)),
        None => Some((None, title)),
    }
}

/// A position as a mathematical value.
spec fn at(i: Option<usize>) -> Option<int> {
    match i {
        Some(i) => Some(i as int),
        None => None,
    }
}

/// Actions of which any one may be meant.
#[derive(Clone, Copy)]
enum Family {
    Screenshot,
    ColumnDown,
    ColumnUp,
    WindowDown,
    WindowUp,
}

spec fn in_family(family: Family) -> spec_fn(BindView) -> bool {
    match family {
        Family::Screenshot => |b: BindView| b.action is Screenshot,
        Family::ColumnDown => |b: BindView| b.action is MoveColumnToWorkspaceDown,
        Family::ColumnUp => |b: BindView| b.action is MoveColumnToWorkspaceUp,
        Family::WindowDown => |b: BindView| b.action is MoveWindowToWorkspaceDown,
        Family::WindowUp => |b: BindView| b.action is MoveWindowToWorkspaceUp,
    }
}

/// Position of the first bind for an action of the family.
fn find_family(binds: &Vec<Bind>, family: Family) -> (found: Option<usize>)
    ensures
        at(found) == position(binds::bind_views(binds@), in_family(family)),
        found matches Some(i) ==> i < binds@.len() && in_family(family)(binds@[i as int]@),
{
    let ghost views = binds::bind_views(binds@);
    let n: usize = binds.len();
    let mut i: usize = 0;
    while i < n
        invariant
            n == binds@.len(),
            i <= n,
            views == binds::bind_views(binds@),
            position(views.take(i as int), in_family(family)) is None,
        decreases n - i,
    {
        assert(views.take(i + 1).drop_last() =~= views.take(i as int));
        let hit = match (family, &binds[i].action) {
            (Family::Screenshot, Action::Screenshot(_, _)) => true,
            (Family::ColumnDown, Action::MoveColumnToWorkspaceDown(_)) => true,
            (Family::ColumnUp, Action::MoveColumnToWorkspaceUp(_)) => true,
            (Family::WindowDown, Action::MoveWindowToWorkspaceDown(_)) => true,
            (Family::WindowUp, Action::MoveWindowToWorkspaceUp(_)) => true,
            _ => false,
        };
        assert(hit == in_family(family)(binds@[i as int]@));
        if hit {
            proof {
                position_in_prefix(views, i + 1, in_family(family));
            }
            return Some(i);
        }
        i = i + 1;
    }
    assert(views.take(n as int) =~= views);
    None
}

/// A first position within a prefix is the first position.
proof fn position_in_prefix(binds: Seq<BindView>, n: int, p: spec_fn(BindView) -> bool)
    requires
        0 <= n <= binds.len(),
        position(binds.take(n), p) is Some,
    ensures
        position(binds, p) == position(binds.take(n), p),
    decreases binds.len(),
{
    if n < binds.len() {
        assert(binds.drop_last().take(n) =~= binds.take(n));
        position_in_prefix(binds.drop_last(), n, p);
    } else {
        assert(binds.take(n) =~= binds);
    }
}

/// `Quit(false)` is preferred; `Quit(true)` takes its place if only that is bound.
pub open spec fn quit_action(binds: Seq<BindView>) -> ActionView {
    if bound(binds, ActionView::Quit(true)) && !bound(binds, ActionView::Quit(false)) {
        ActionView::Quit(true)
    } else {
        ActionView::Quit(false)
    }
}

/// Compositor-level actions. A screenshot is not as important: it is left out if not bound.
pub open spec fn compositor_actions(binds: Seq<BindView>) -> Seq<ActionView> {
    seq![ActionView::ShowHotkeyOverlay, quit_action(binds), ActionView::ToggleOverview]
        + match position(binds, |b: BindView| b.action is Screenshot) {
        Some(i) => seq![binds[i].action],
        None => seq![],
    }
}

/// Moving focus around.
pub open spec fn navigation_actions() -> Seq<ActionView> {
    seq![
        ActionView::FocusColumnLeft,
        ActionView::FocusColumnRight,
        ActionView::FocusWorkspaceDown,
        ActionView::FocusWorkspaceUp,
    ]
}

/// The bound way of moving a column down a workspace; if there is none but windows can be moved
/// down, that.
pub open spec fn move_down_action(binds: Seq<BindView>) -> ActionView {
    match position(binds, |b: BindView| b.action is MoveColumnToWorkspaceDown) {
        Some(i) => binds[i].action,
        None => if position(binds, |b: BindView| b.action is MoveWindowToWorkspaceDown) is Some {
            ActionView::MoveWindowToWorkspaceDown(true)
        } else {
            ActionView::MoveColumnToWorkspaceDown(true)
        },
    }
}

/// Same for up.
pub open spec fn move_up_action(binds: Seq<BindView>) -> ActionView {
    match position(binds, |b: BindView| b.action is MoveColumnToWorkspaceUp) {
        Some(i) => binds[i].action,
        None => if position(binds, |b: BindView| b.action is MoveWindowToWorkspaceUp) is Some {
            ActionView::MoveWindowToWorkspaceUp(true)
        } else {
            ActionView::MoveColumnToWorkspaceUp(true)
        },
    }
}

/// Manipulating windows and columns.
pub open spec fn window_actions(binds: Seq<BindView>) -> Seq<ActionView> {
    seq![
        ActionView::CloseWindow,
        ActionView::MoveColumnLeft,
        ActionView::MoveColumnRight,
        move_down_action(binds),
        move_up_action(binds),
        ActionView::SwitchPresetColumnWidth,
        ActionView::MaximizeColumn,
        ActionView::ConsumeOrExpelWindowLeft,
        ActionView::ConsumeOrExpelWindowRight,
        ActionView::ToggleWindowFloating,
        ActionView::SwitchFocusBetweenFloatingAndTiling,
    ]
}

/// The action has a place of its own in the overlay.
pub open spec fn has_fixed_place(binds: Seq<BindView>, action: ActionView) -> bool {
    ||| compositor_actions(binds).contains(action)
    ||| navigation_actions().contains(action)
    ||| window_actions(binds).contains(action)
}

/// The actions of the binds for which `p` holds, in order.
pub open spec fn actions_where(binds: Seq<BindView>, p: spec_fn(BindView) -> bool) -> Seq<
    ActionView,
>
    decreases binds.len(),
{
    if binds.len() == 0 {
        seq![]
    } else if p(binds.last()) {
        actions_where(binds.drop_last(), p).push(binds.last().action)
    } else {
        actions_where(binds.drop_last(), p)
    }
}

/// The first occurrence of every action.
pub open spec fn distinct(actions: Seq<ActionView>) -> Seq<ActionView>
    decreases actions.len(),
{
    if actions.len() == 0 {
        seq![]
    } else {
        let before = distinct(actions.drop_last());
        if before.contains(actions.last()) {
            before
        } else {
            before.push(actions.last())
        }
    }
}

/// A bind that starts a program and has a title of its own.
pub open spec fn titled_spawn() -> spec_fn(BindView) -> bool {
    |b: BindView| b.titled() && b.action.spawns()
}

/// A bind that starts a program from a key with Mod or Super: not volume keys and the like, and
/// not wheel or touchpad scrolling.
pub open spec fn shortcut_spawn() -> spec_fn(BindView) -> bool {
    |b: BindView|
        {
            &&& b.action.spawns()
            &&& b.key.modifiers.compositor || b.key.modifiers.super_
            &&& b.key.trigger is Keysym
        }
}

/// A bind with a title of its own whose action starts no program and has no fixed place.
pub open spec fn titled_other(binds: Seq<BindView>) -> spec_fn(BindView) -> bool {
    |b: BindView| b.titled() && !b.action.spawns() && !has_fixed_place(binds, b.action)
}

/// Programs: those with a title of their own first.
pub open spec fn app_actions(binds: Seq<BindView>) -> Seq<ActionView> {
    distinct(actions_where(binds, titled_spawn()) + actions_where(binds, shortcut_spawn()))
}

/// Other actions with a title of their own.
pub open spec fn other_actions(binds: Seq<BindView>) -> Seq<ActionView> {
    distinct(actions_where(binds, titled_other(binds)))
}

/// A section as a mathematical value.
pub struct SectionView {
    pub title: Seq<char>,
    pub actions: Seq<ActionView>,
}

/// All sections, before anything is left out.
pub open spec fn all_sections(binds: Seq<BindView>) -> Seq<SectionView> {
    seq![
        SectionView { title: "Compositor"@, actions: compositor_actions(binds) },
        SectionView { title: "Navigation"@, actions: navigation_actions() },
        SectionView { title: "Windows"@, actions: window_actions(binds) },
        SectionView { title: "Apps"@, actions: app_actions(binds) },
        SectionView { title: "Other"@, actions: other_actions(binds) },
    ]
}

/// The actions that are listed: all, or only those that are bound.
pub open spec fn listed(binds: Seq<BindView>, hide_not_bound: bool, actions: Seq<ActionView>) -> Seq<
    ActionView,
>
    decreases actions.len(),
{
    if !hide_not_bound {
        actions
    } else if actions.len() == 0 {
        seq![]
    } else {
        let before = listed(binds, hide_not_bound, actions.drop_last());
        if bound(binds, actions.last()) {
            before.push(actions.last())
        } else {
            before
        }
    }
}

/// The sections that list something.
pub open spec fn listed_sections(
    binds: Seq<BindView>,
    hide_not_bound: bool,
    sections: Seq<SectionView>,
) -> Seq<SectionView>
    decreases sections.len(),
{
    if sections.len() == 0 {
        seq![]
    } else {
        let before = listed_sections(binds, hide_not_bound, sections.drop_last());
        let actions = listed(binds, hide_not_bound, sections.last().actions);
        if actions.len() > 0 {
            before.push(SectionView { title: sections.last().title, actions })
        } else {
            before
        }
    }
}

/// The sections of the overlay.
pub open spec fn sections_of(binds: Seq<BindView>, hide_not_bound: bool) -> Seq<SectionView> {
    listed_sections(binds, hide_not_bound, all_sections(binds))
}

/// A titled list of actions.
#[derive(Debug)]
pub struct Section {
    pub title: &'static str,
    pub actions: Vec<Action>,
}

/// Actions as mathematical values.
pub open spec fn action_views(actions: Seq<Action>) -> Seq<ActionView> {
    Seq::new(actions.len(), |i: int| actions[i]@)
}

impl View for Section {
    type V = SectionView;

    open spec fn view(&self) -> SectionView {
        SectionView { title: self.title@, actions: action_views(self.actions@) }
    }
}

/// Sections as mathematical values.
pub open spec fn section_views(sections: Seq<Section>) -> Seq<SectionView> {
    Seq::new(sections.len(), |i: int| sections[i]@)
}

fn push_action(actions: &mut Vec<Action>, action: Action)
    ensures
        action_views(final(actions)@) == action_views(old(actions)@).push(action@),
{
    actions.push(action);
    assert(action_views(actions@) =~= action_views(old(actions)@).push(action@));
}

fn has_action(actions: &Vec<Action>, action: &Action) -> (r: bool)
    ensures
        r == action_views(actions@).contains(action@),
{
    let n: usize = actions.len();
    let mut i: usize = 0;
    while i < n
        invariant
            n == actions@.len(),
            i <= n,
            forall|j: int| 0 <= j < i ==> action_views(actions@)[j] != action@,
        decreases n - i,
    {
        if actions[i].same(action) {
            assert(action_views(actions@)[i as int] == action@);
            return true;
        }
        i = i + 1;
    }
    false
}

fn is_bound(binds: &Vec<Bind>, action: &Action) -> (r: bool)
    ensures
        r == bound(binds::bind_views(binds@), action@),
{
    let n: usize = binds.len();
    let mut i: usize = 0;
    while i < n
        invariant
            n == binds@.len(),
            i <= n,
            forall|j: int|
                0 <= j < i ==> (#[trigger] binds::bind_views(binds@)[j]).action != action@,
        decreases n - i,
    {
        if binds[i].action.same(action) {
            assert(binds::bind_views(binds@)[i as int].action == action@);
            return true;
        }
        i = i + 1;
    }
    false
}

fn compositor_section(binds: &Vec<Bind>) -> (actions: Vec<Action>)
    ensures
        action_views(actions@) == compositor_actions(binds::bind_views(binds@)),
{
    let ghost views = binds::bind_views(binds@);
    let mut actions: Vec<Action> = Vec::new();
    actions.push(Action::ShowHotkeyOverlay);
    if is_bound(binds, &Action::Quit(false)) {
        actions.push(Action::Quit(false));
    } else if is_bound(binds, &Action::Quit(true)) {
        actions.push(Action::Quit(true));
    } else {
        actions.push(Action::Quit(false));
    }
    actions.push(Action::ToggleOverview);
    if let Some(i) = find_family(binds, Family::Screenshot) {
        actions.push(binds[i].action.dup());
    }
    assert(in_family(Family::Screenshot) == (|b: BindView| b.action is Screenshot));
    assert(action_views(actions@) =~= compositor_actions(views));
    actions
}

fn navigation_section() -> (actions: Vec<Action>)
    ensures
        action_views(actions@) == navigation_actions(),
{
    let mut actions: Vec<Action> = Vec::new();
    actions.push(Action::FocusColumnLeft);
    actions.push(Action::FocusColumnRight);
    actions.push(Action::FocusWorkspaceDown);
    actions.push(Action::FocusWorkspaceUp);
    assert(action_views(actions@) =~= navigation_actions());
    actions
}

fn move_down(binds: &Vec<Bind>) -> (action: Action)
    ensures
        action@ == move_down_action(binds::bind_views(binds@)),
{
    assert(in_family(Family::ColumnDown) == (|b: BindView|
        b.action is MoveColumnToWorkspaceDown));
    assert(in_family(Family::WindowDown) == (|b: BindView|
        b.action is MoveWindowToWorkspaceDown));
    if let Some(i) = find_family(binds, Family::ColumnDown) {
        binds[i].action.dup()
    } else if find_family(binds, Family::WindowDown).is_some() {
        Action::MoveWindowToWorkspaceDown(true)
    } else {
        Action::MoveColumnToWorkspaceDown(true)
    }
}

fn move_up(binds: &Vec<Bind>) -> (action: Action)
    ensures
        action@ == move_up_action(binds::bind_views(binds@)),
{
    assert(in_family(Family::ColumnUp) == (|b: BindView| b.action is MoveColumnToWorkspaceUp));
    assert(in_family(Family::WindowUp) == (|b: BindView| b.action is MoveWindowToWorkspaceUp));
    if let Some(i) = find_family(binds, Family::ColumnUp) {
        binds[i].action.dup()
    } else if find_family(binds, Family::WindowUp).is_some() {
        Action::MoveWindowToWorkspaceUp(true)
    } else {
        Action::MoveColumnToWorkspaceUp(true)
    }
}

fn windows_section(binds: &Vec<Bind>) -> (actions: Vec<Action>)
    ensures
        action_views(actions@) == window_actions(binds::bind_views(binds@)),
{
    let mut actions: Vec<Action> = Vec::new();
    actions.push(Action::CloseWindow);
    actions.push(Action::MoveColumnLeft);
    actions.push(Action::MoveColumnRight);
    actions.push(move_down(binds));
    actions.push(move_up(binds));
    actions.push(Action::SwitchPresetColumnWidth);
    actions.push(Action::MaximizeColumn);
    actions.push(Action::ConsumeOrExpelWindowLeft);
    actions.push(Action::ConsumeOrExpelWindowRight);
    actions.push(Action::ToggleWindowFloating);
    actions.push(Action::SwitchFocusBetweenFloatingAndTiling);
    assert(action_views(actions@) =~= window_actions(binds::bind_views(binds@)));
    actions
}

/// One more action is appended unless it is there already.
proof fn distinct_push(actions: Seq<ActionView>, action: ActionView)
    ensures
        distinct(actions.push(action)) == if distinct(actions).contains(action) {
            distinct(actions)
        } else {
            distinct(actions).push(action)
        },
{
    assert(actions.push(action).drop_last() =~= actions);
}

/// The programs, and the other actions with a title of their own.
fn app_and_other_sections(
    binds: &Vec<Bind>,
    compositor: &Vec<Action>,
    navigation: &Vec<Action>,
    windows: &Vec<Action>,
) -> (r: (Vec<Action>, Vec<Action>))
    requires
        action_views(compositor@) == compositor_actions(binds::bind_views(binds@)),
        action_views(navigation@) == navigation_actions(),
        action_views(windows@) == window_actions(binds::bind_views(binds@)),
    ensures
        action_views(r.0@) == app_actions(binds::bind_views(binds@)),
        action_views(r.1@) == other_actions(binds::bind_views(binds@)),
{
    let ghost views = binds::bind_views(binds@);
    let n: usize = binds.len();
    let mut apps: Vec<Action> = Vec::new();
    let mut other: Vec<Action> = Vec::new();
    assert(views.take(0) =~= Seq::<BindView>::empty());
    assert(action_views(apps@) =~= Seq::<ActionView>::empty());
    assert(action_views(other@) =~= Seq::<ActionView>::empty());

    // Actions with a custom hotkey-overlay-title.
    let mut i: usize = 0;
    while i < n
        invariant
            n == binds@.len(),
            i <= n,
            views == binds::bind_views(binds@),
            action_views(compositor@) == compositor_actions(views),
            action_views(navigation@) == navigation_actions(),
            action_views(windows@) == window_actions(views),
            action_views(apps@) == distinct(
                actions_where(views.take(i as int), titled_spawn()),
            ),
            action_views(other@) == distinct(
                actions_where(views.take(i as int), titled_other(views)),
            ),
        decreases n - i,
    {
        let ghost prefix = views.take(i as int);
        assert(views.take(i + 1).drop_last() =~= prefix);
        assert(views.take(i + 1).last() == binds@[i as int]@);
        let bind: &Bind = &binds[i];
        if bind.is_titled() {
            let action: &Action = &bind.action;
            // Avoid duplicate actions.
            if action.is_spawn() {
                proof {
                    distinct_push(actions_where(prefix, titled_spawn()), action@);
                }
                if !has_action(&apps, action) {
                    push_action(&mut apps, action.dup());
                }
            } else if !has_action(compositor, action) && !has_action(navigation, action)
                && !has_action(windows, action) {
                proof {
                    distinct_push(actions_where(prefix, titled_other(views)), action@);
                }
                if !has_action(&other, action) {
                    push_action(&mut other, action.dup());
                }
            }
        }
        i = i + 1;
    }
    assert(views.take(n as int) =~= views);

    // Programs started from a key with Mod or Super.
    let ghost titled = actions_where(views, titled_spawn());
    assert(views.take(0) =~= Seq::<BindView>::empty());
    assert(titled + actions_where(views.take(0), shortcut_spawn()) =~= titled);
    let mut k: usize = 0;
    while k < n
        invariant
            n == binds@.len(),
            k <= n,
            views == binds::bind_views(binds@),
            action_views(apps@) == distinct(
                titled + actions_where(views.take(k as int), shortcut_spawn()),
            ),
        decreases n - k,
    {
        let ghost prefix = views.take(k as int);
        assert(views.take(k + 1).drop_last() =~= prefix);
        assert(views.take(k + 1).last() == binds@[k as int]@);
        let bind: &Bind = &binds[k];
        let modifiers = bind.key.modifiers;
        let on_key = match &bind.key.trigger {
            Trigger::Keysym(_) => true,
            _ => false,
        };
        if bind.action.is_spawn() && (modifiers.compositor || modifiers.super_) && on_key {
            let action: &Action = &bind.action;
            proof {
                distinct_push(titled + actions_where(prefix, shortcut_spawn()), action@);
                assert(titled + actions_where(prefix, shortcut_spawn()).push(action@) =~= (titled
                    + actions_where(prefix, shortcut_spawn())).push(action@));
            }
            if !has_action(&apps, action) {
                push_action(&mut apps, action.dup());
            }
        }
        k = k + 1;
    }
    assert(views.take(n as int) =~= views);
    (apps, other)
}

/// The actions that are listed.
fn keep_listed(binds: &Vec<Bind>, hide_not_bound: bool, actions: Vec<Action>) -> (kept: Vec<Action>)
    ensures
        action_views(kept@) == listed(
            binds::bind_views(binds@),
            hide_not_bound,
            action_views(actions@),
        ),
{
    if !hide_not_bound {
        return actions;
    }
    let ghost views = binds::bind_views(binds@);
    let ghost all = action_views(actions@);
    let mut kept: Vec<Action> = Vec::new();
    assert(action_views(kept@) =~= Seq::<ActionView>::empty());
    assert(all.take(0) =~= Seq::<ActionView>::empty());
    let n: usize = actions.len();
    let mut i: usize = 0;
    while i < n
        invariant
            n == actions@.len(),
            i <= n,
            all == action_views(actions@),
            views == binds::bind_views(binds@),
            action_views(kept@) == listed(views, true, all.take(i as int)),
        decreases n - i,
    {
        assert(all.take(i + 1).drop_last() =~= all.take(i as int));
        if is_bound(binds, &actions[i]) {
            push_action(&mut kept, actions[i].dup());
        }
        i = i + 1;
    }
    assert(all.take(n as int) =~= all);
    kept
}

/// Appends a section if it lists something.
fn push_section(
    sections: &mut Vec<Section>,
    binds: &Vec<Bind>,
    hide_not_bound: bool,
    title: &'static str,
    actions: Vec<Action>,
)
    ensures
        ({
            let kept = listed(binds::bind_views(binds@), hide_not_bound, action_views(actions@));
            section_views(final(sections)@) == if kept.len() > 0 {
                section_views(old(sections)@).push(SectionView { title: title@, actions: kept })
            } else {
                section_views(old(sections)@)
            }
        }),
{
    let kept = keep_listed(binds, hide_not_bound, actions);
    if kept.len() > 0 {
        sections.push(Section { title, actions: kept });
        assert(section_views(sections@) =~= section_views(old(sections)@).push(
            SectionView { title: title@, actions: action_views(kept@) },
        ));
    }
}

/// The sections of the overlay.
pub fn collect_sections(config: &Config) -> (sections: Vec<Section>)
    ensures
        section_views(sections@) == sections_of(
            binds::bind_views(config.binds@),
            config.hide_not_bound,
        ),
{
    let binds: &Vec<Bind> = &config.binds;
    let hide: bool = config.hide_not_bound;
    let compositor = compositor_section(binds);
    let navigation = navigation_section();
    let windows = windows_section(binds);
    let (apps, other) = app_and_other_sections(binds, &compositor, &navigation, &windows);
    let ghost all = all_sections(binds::bind_views(binds@));
    let mut sections: Vec<Section> = Vec::new();
    assert(section_views(sections@) =~= Seq::<SectionView>::empty());
    push_section(&mut sections, binds, hide, "Compositor", compositor);
    push_section(&mut sections, binds, hide, "Navigation", navigation);
    push_section(&mut sections, binds, hide, "Windows", windows);
    push_section(&mut sections, binds, hide, "Apps", apps);
    push_section(&mut sections, binds, hide, "Other", other);
    proof {
        let views = binds::bind_views(binds@);
        assert(all.drop_last() =~= all.take(4));
        assert(all.take(4).drop_last() =~= all.take(3));
        assert(all.take(3).drop_last() =~= all.take(2));
        assert(all.take(2).drop_last() =~= all.take(1));
        assert(all.take(1).drop_last() =~= Seq::<SectionView>::empty());
        reveal_with_fuel(listed_sections, 6);
    }
    sections
}

} // verus!
