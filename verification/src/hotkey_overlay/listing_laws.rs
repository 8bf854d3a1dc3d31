//! What the overlay lists for given binds, and how it shows it.

use crate::hotkey_overlay::binds::{ActionView, BindView, Key};
use crate::hotkey_overlay::names;
use crate::hotkey_overlay::section_laws;
use crate::hotkey_overlay::sections;
use crate::hotkey_overlay::sections::{Section, SectionView};
use vstd::prelude::*;
use vstd::string::*;

verus! {

/// Some bind is for the action.
pub open spec fn has_bind(binds: Seq<BindView>, action: ActionView) -> bool {
    exists|i: int| 0 <= i < binds.len() && #[trigger] binds[i].action == action
}

proof fn position_is_first(binds: Seq<BindView>, p: spec_fn(BindView) -> bool)
    ensures
        sections::position(binds, p) matches Some(i) ==> 0 <= i < binds.len() && p(binds[i])
            && forall|k: int| 0 <= k < i ==> !p(#[trigger] binds[k]),
        sections::position(binds, p) is None ==> forall|k: int|
            0 <= k < binds.len() ==> !p(#[trigger] binds[k]),
    decreases binds.len(),
{
    if binds.len() > 0 {
        let shorter = binds.drop_last();
        position_is_first(shorter, p);
        match sections::position(shorter, p) {
            Some(i) => {
                assert forall|k: int| 0 <= k < i implies !p(#[trigger] binds[k]) by {
                    assert(binds[k] == shorter[k]);
                }
            },
            None => {
                assert forall|k: int| 0 <= k < binds.len() - 1 implies !p(#[trigger] binds[k]) by {
                    assert(binds[k] == shorter[k]);
                }
            },
        }
    }
}

/// An action that has a bind with a title of its own is shown by the first such bind: its key and
/// its title.
pub proof fn first_titled_bind_shows_the_action(
    binds: Seq<BindView>,
    action: ActionView,
    i: int,
    title: Seq<char>,
)
    requires
        0 <= i < binds.len(),
        binds[i].action == action,
        binds[i].title == Some(Some(title)),
        forall|k: int|
            0 <= k < i && (#[trigger] binds[k]).action == action ==> !(binds[k].title matches Some(
                Some(_),
            )),
    ensures
        sections::shown_as(binds, action) == Some((Some(binds[i].key), title)),
{
    let p = sections::titled_bind_of(action);
    position_is_first(binds, p);
    assert(p(binds[i]));
    match sections::position(binds, p) {
        Some(k) => {
            if k < i {
                assert(p(binds[k]));
            } else if k > i {
                assert(!p(binds[i]));
            }
        },
        None => {},
    }
}

/// An action without such a bind is hidden if any of its binds hides it; else its first bind shows
/// it, with the default title; and without any bind it is shown without a key.
pub proof fn untitled_action_is_shown_by_its_first_bind(binds: Seq<BindView>, action: ActionView)
    requires
        forall|k: int|
            0 <= k < binds.len() && (#[trigger] binds[k]).action == action ==> !(
            binds[k].title matches Some(Some(_))),
    ensures
        (exists|k: int|
            0 <= k < binds.len() && (#[trigger] binds[k]).action == action && binds[k].title
                == Some(None::<Seq<char>>)) ==> sections::shown_as(binds, action) is None,
        !has_bind(binds, action) ==> (sections::shown_as(binds, action) matches Some((key, title))
            && key is None && title == names::title_of(action)),
        forall|i: int|
            0 <= i < binds.len() && (#[trigger] binds[i]).action == action && (forall|k: int|
                0 <= k < i ==> (#[trigger] binds[k]).action != action) && (forall|k: int|
                0 <= k < binds.len() && (#[trigger] binds[k]).action == action ==> binds[k].title
                    is None) ==> sections::shown_as(binds, action) == Some(
                (Some(binds[i].key), names::title_of(action)),
            ),
{
    let titled = sections::titled_bind_of(action);
    let hidden = sections::hidden_bind_of(action);
    let untitled = sections::untitled_bind_of(action);
    position_is_first(binds, titled);
    position_is_first(binds, hidden);
    position_is_first(binds, untitled);
    if let Some(i) = sections::position(binds, titled) {
        assert(titled(binds[i]));
    }
    if exists|k: int|
        0 <= k < binds.len() && (#[trigger] binds[k]).action == action && binds[k].title == Some(
            None::<Seq<char>>,
        ) {
        let k = choose|k: int|
            0 <= k < binds.len() && (#[trigger] binds[k]).action == action && binds[k].title
                == Some(None::<Seq<char>>);
        assert(hidden(binds[k]));
    }
    assert forall|i: int|
        0 <= i < binds.len() && (#[trigger] binds[i]).action == action && (forall|k: int|
            0 <= k < i ==> (#[trigger] binds[k]).action != action) && (forall|k: int|
            0 <= k < binds.len() && (#[trigger] binds[k]).action == action ==> binds[k].title
                is None) implies sections::shown_as(binds, action) == Some(
        (Some(binds[i].key), names::title_of(action)),
    ) by {
        if let Some(k) = sections::position(binds, hidden) {
            assert(hidden(binds[k]));
        }
        assert(untitled(binds[i]));
        if let Some(k) = sections::position(binds, untitled) {
            assert(untitled(binds[k]));
        }
    }
}

/// What is left of a section: only the bound actions, if the others are to be hidden, and nothing
/// of a section without actions.
pub open spec fn left_of(binds: Seq<BindView>, hide_not_bound: bool, section: SectionView) -> Seq<
    SectionView,
> {
    let actions = if hide_not_bound {
        section.actions.filter(|action: ActionView| has_bind(binds, action))
    } else {
        section.actions
    };
    if actions.len() > 0 {
        seq![SectionView { title: section.title, actions }]
    } else {
        seq![]
    }
}

proof fn listed_is_filtered(binds: Seq<BindView>, actions: Seq<ActionView>)
    ensures
        sections::listed(binds, true, actions) == actions.filter(
            |action: ActionView| has_bind(binds, action),
        ),
    decreases actions.len(),
{
    reveal(Seq::filter);
    if actions.len() > 0 {
        listed_is_filtered(binds, actions.drop_last());
        let action = actions.last();
        if sections::bound(binds, action) {
            let i = choose|i: int| 0 <= i < binds.len() && (#[trigger] binds[i]).action == action;
            assert(has_bind(binds, action)) by {
                assert(binds[i].action == action);
            }
        }
        if has_bind(binds, action) {
            let i = choose|i: int| 0 <= i < binds.len() && #[trigger] binds[i].action == action;
            assert(binds[i].action == action);
        }
    }
}

/// The overlay has five sections in a fixed order, each with the actions that are to be listed in
/// their order, less the sections that list nothing.
pub proof fn sections_come_in_order(binds: Seq<BindView>, hide_not_bound: bool)
    ensures
        ({
            let all = sections::all_sections(binds);
            &&& all.len() == 5
            &&& all[0].title == "Compositor"@
            &&& all[1].title == "Navigation"@
            &&& all[2].title == "Windows"@
            &&& all[3].title == "Apps"@
            &&& all[4].title == "Other"@
            &&& sections::sections_of(binds, hide_not_bound) == left_of(
                binds,
                hide_not_bound,
                all[0],
            ) + left_of(binds, hide_not_bound, all[1]) + left_of(binds, hide_not_bound, all[2])
                + left_of(binds, hide_not_bound, all[3]) + left_of(binds, hide_not_bound, all[4])
        }),
{
    let all = sections::all_sections(binds);
    reveal_with_fuel(sections::listed_sections, 6);
    assert forall|k: int| 0 <= k < 5 implies (if hide_not_bound {
        (#[trigger] all[k]).actions.filter(|action: ActionView| has_bind(binds, action))
    } else {
        all[k].actions
    }) == sections::listed(binds, hide_not_bound, all[k].actions) by {
        listed_is_filtered(binds, all[k].actions);
    }
    let four = all.drop_last();
    let three = four.drop_last();
    let two = three.drop_last();
    let one = two.drop_last();
    let none = one.drop_last();
    assert(four.last() == all[3] && three.last() == all[2] && two.last() == all[1] && one.last()
        == all[0]);
    section_appended(binds, hide_not_bound, none, all[0], one);
    section_appended(binds, hide_not_bound, one, all[1], two);
    section_appended(binds, hide_not_bound, two, all[2], three);
    section_appended(binds, hide_not_bound, three, all[3], four);
    section_appended(binds, hide_not_bound, four, all[4], all);
    assert(sections::listed_sections(binds, hide_not_bound, none) =~= Seq::<SectionView>::empty());
    assert(Seq::<SectionView>::empty() + left_of(binds, hide_not_bound, all[0]) =~= left_of(
        binds,
        hide_not_bound,
        all[0],
    ));
}

proof fn section_appended(
    binds: Seq<BindView>,
    hide_not_bound: bool,
    before: Seq<SectionView>,
    section: SectionView,
    after: Seq<SectionView>,
)
    requires
        after.len() > 0,
        after.drop_last() == before,
        after.last() == section,
    ensures
        sections::listed_sections(binds, hide_not_bound, after) == sections::listed_sections(
            binds,
            hide_not_bound,
            before,
        ) + left_of(binds, hide_not_bound, section),
{
    listed_is_filtered(binds, section.actions);
    assert(sections::listed_sections(binds, hide_not_bound, after)
        =~= sections::listed_sections(binds, hide_not_bound, before) + left_of(
        binds,
        hide_not_bound,
        section,
    ));
}

/// The compositor's section has the overlay itself, quitting, the overview and, if one is bound,
/// the first screenshot. Quitting is with confirmation unless only quitting without is bound.
pub proof fn compositor_section_lists(binds: Seq<BindView>)
    ensures
        ({
            let actions = sections::all_sections(binds)[0].actions;
            &&& 3 <= actions.len() <= 4
            &&& actions[0] is ShowHotkeyOverlay
            &&& actions[1] matches ActionView::Quit(skip_confirmation) && (skip_confirmation
                <==> has_bind(binds, ActionView::Quit(true)) && !has_bind(
                binds,
                ActionView::Quit(false),
            ))
            &&& actions[2] is ToggleOverview
            &&& actions.len() == 4 <==> exists|i: int|
                0 <= i < binds.len() && (#[trigger] binds[i]).action is Screenshot
            &&& actions.len() == 4 ==> exists|i: int|
                0 <= i < binds.len() && (#[trigger] binds[i]).action is Screenshot && binds[i].action
                    == actions[3] && forall|k: int|
                    0 <= k < i ==> !((#[trigger] binds[k]).action is Screenshot)
        }),
{
    let p = |b: BindView| b.action is Screenshot;
    position_is_first(binds, p);
    bound_is_has_bind(binds, ActionView::Quit(true));
    bound_is_has_bind(binds, ActionView::Quit(false));
    match sections::position(binds, p) {
        Some(i) => {
            assert(binds[i].action is Screenshot);
            assert forall|k: int| 0 <= k < i implies !((#[trigger] binds[k]).action is Screenshot) by {
                assert(!p(binds[k]));
            }
        },
        None => {
            assert forall|k: int| 0 <= k < binds.len() implies !((
            #[trigger] binds[k]).action is Screenshot) by {
                assert(!p(binds[k]));
            }
        },
    }
}

proof fn bound_is_has_bind(binds: Seq<BindView>, action: ActionView)
    ensures
        sections::bound(binds, action) == has_bind(binds, action),
{
    if sections::bound(binds, action) {
        let i = choose|i: int| 0 <= i < binds.len() && (#[trigger] binds[i]).action == action;
        assert(binds[i].action == action);
    }
    if has_bind(binds, action) {
        let i = choose|i: int| 0 <= i < binds.len() && #[trigger] binds[i].action == action;
        assert(binds[i].action == action);
    }
}

/// The navigation section has the four ways of moving focus.
pub proof fn navigation_section_lists(binds: Seq<BindView>)
    ensures
        ({
            let actions = sections::all_sections(binds)[1].actions;
            &&& actions.len() == 4
            &&& actions[0] is FocusColumnLeft
            &&& actions[1] is FocusColumnRight
            &&& actions[2] is FocusWorkspaceDown
            &&& actions[3] is FocusWorkspaceUp
        }),
{
}

/// The windows section has eleven actions. Among them, moving down a workspace is that of the
/// first bind that moves a column there; if no bind does but some bind moves a window, it is moving
/// a window with focus following; and else it is moving a column with focus following. Moving up
/// goes by the same rule.
pub proof fn windows_section_lists(binds: Seq<BindView>)
    ensures
        ({
            let actions = sections::all_sections(binds)[2].actions;
            &&& actions.len() == 11
            &&& actions[0] is CloseWindow
            &&& actions[1] is MoveColumnLeft
            &&& actions[2] is MoveColumnRight
            &&& if exists|i: int|
                0 <= i < binds.len() && (#[trigger] binds[i]).action is MoveColumnToWorkspaceDown {
                exists|i: int|
                    0 <= i < binds.len() && (#[trigger] binds[i]).action is MoveColumnToWorkspaceDown
                        && binds[i].action == actions[3] && forall|k: int|
                        0 <= k < i ==> !((#[trigger] binds[k]).action is MoveColumnToWorkspaceDown)
            } else if exists|i: int|
                0 <= i < binds.len() && (#[trigger] binds[i]).action is MoveWindowToWorkspaceDown {
                actions[3] == ActionView::MoveWindowToWorkspaceDown(true)
            } else {
                actions[3] == ActionView::MoveColumnToWorkspaceDown(true)
            }
            &&& if exists|i: int|
                0 <= i < binds.len() && (#[trigger] binds[i]).action is MoveColumnToWorkspaceUp {
                exists|i: int|
                    0 <= i < binds.len() && (#[trigger] binds[i]).action is MoveColumnToWorkspaceUp
                        && binds[i].action == actions[4] && forall|k: int|
                        0 <= k < i ==> !((#[trigger] binds[k]).action is MoveColumnToWorkspaceUp)
            } else if exists|i: int|
                0 <= i < binds.len() && (#[trigger] binds[i]).action is MoveWindowToWorkspaceUp {
                actions[4] == ActionView::MoveWindowToWorkspaceUp(true)
            } else {
                actions[4] == ActionView::MoveColumnToWorkspaceUp(true)
            }
            &&& actions[5] is SwitchPresetColumnWidth
            &&& actions[6] is MaximizeColumn
            &&& actions[7] is ConsumeOrExpelWindowLeft
            &&& actions[8] is ConsumeOrExpelWindowRight
            &&& actions[9] is ToggleWindowFloating
            &&& actions[10] is SwitchFocusBetweenFloatingAndTiling
        }),
{
    let column_down = |b: BindView| b.action is MoveColumnToWorkspaceDown;
    let window_down = |b: BindView| b.action is MoveWindowToWorkspaceDown;
    let column_up = |b: BindView| b.action is MoveColumnToWorkspaceUp;
    let window_up = |b: BindView| b.action is MoveWindowToWorkspaceUp;
    position_is_first(binds, column_down);
    position_is_first(binds, window_down);
    position_is_first(binds, column_up);
    position_is_first(binds, window_up);
    assert forall|k: int| 0 <= k < binds.len() implies column_down(#[trigger] binds[k])
        == binds[k].action is MoveColumnToWorkspaceDown && window_down(binds[k])
        == binds[k].action is MoveWindowToWorkspaceDown && column_up(binds[k])
        == binds[k].action is MoveColumnToWorkspaceUp && window_up(binds[k])
        == binds[k].action is MoveWindowToWorkspaceUp by {
    }
    if let Some(i) = sections::position(binds, column_down) {
        assert(binds[i].action is MoveColumnToWorkspaceDown);
        assert forall|k: int| 0 <= k < i implies !((
        #[trigger] binds[k]).action is MoveColumnToWorkspaceDown) by {
            assert(!column_down(binds[k]));
        }
    }
    if let Some(i) = sections::position(binds, column_up) {
        assert(binds[i].action is MoveColumnToWorkspaceUp);
        assert forall|k: int| 0 <= k < i implies !((
        #[trigger] binds[k]).action is MoveColumnToWorkspaceUp) by {
            assert(!column_up(binds[k]));
        }
    }
    if let Some(i) = sections::position(binds, window_down) {
        assert(binds[i].action is MoveWindowToWorkspaceDown);
    }
    if let Some(i) = sections::position(binds, window_up) {
        assert(binds[i].action is MoveWindowToWorkspaceUp);
    }
}

/// The section with the title lists the action.
pub open spec fn section_lists(
    list: Seq<SectionView>,
    title: Seq<char>,
    action: ActionView,
) -> bool {
    exists|a: int|
        0 <= a < list.len() && (#[trigger] list[a]).title == title && list[a].actions.contains(
            action,
        )
}

proof fn bound_action_is_left(
    binds: Seq<BindView>,
    hide_not_bound: bool,
    s: int,
    j: int,
)
    requires
        0 <= s < 5,
        0 <= j < sections::all_sections(binds)[s].actions.len(),
        hide_not_bound ==> has_bind(binds, sections::all_sections(binds)[s].actions[j]),
    ensures
        section_lists(
            sections::sections_of(binds, hide_not_bound),
            sections::all_sections(binds)[s].title,
            sections::all_sections(binds)[s].actions[j],
        ),
{
    let all = sections::all_sections(binds);
    let action = all[s].actions[j];
    sections_come_in_order(binds, hide_not_bound);
    let p = |action: ActionView| has_bind(binds, action);
    all[s].actions.filter_lemma(p);
    if hide_not_bound {
        assert(p(all[s].actions[j]));
        assert(all[s].actions.filter(p).contains(action));
    } else {
        assert(all[s].actions.contains(action));
    }
    let l0 = left_of(binds, hide_not_bound, all[0]);
    let l1 = left_of(binds, hide_not_bound, all[1]);
    let l2 = left_of(binds, hide_not_bound, all[2]);
    let l3 = left_of(binds, hide_not_bound, all[3]);
    let l4 = left_of(binds, hide_not_bound, all[4]);
    let list = sections::sections_of(binds, hide_not_bound);
    let own = left_of(binds, hide_not_bound, all[s]);
    assert(own.len() == 1 && own[0].title == all[s].title && own[0].actions.contains(action));
    let a: int = if s == 0 {
        0
    } else if s == 1 {
        l0.len() as int
    } else if s == 2 {
        (l0.len() + l1.len()) as int
    } else if s == 3 {
        (l0.len() + l1.len() + l2.len()) as int
    } else {
        (l0.len() + l1.len() + l2.len() + l3.len()) as int
    };
    assert(list[a] == own[0]);
}

/// With no bind that moves a column down a workspace, the action of a bind that moves a window there
/// with focus following is listed under Windows. The same holds for up. No action that has a bind
/// is shown without a key.
pub proof fn moving_a_window_is_listed_and_bound(
    binds: Seq<BindView>,
    hide_not_bound: bool,
    i: int,
)
    requires
        0 <= i < binds.len(),
    ensures
        binds[i].action == ActionView::MoveWindowToWorkspaceDown(true) && (forall|k: int|
            0 <= k < binds.len() ==> !((
            #[trigger] binds[k]).action is MoveColumnToWorkspaceDown)) ==> section_lists(
            sections::sections_of(binds, hide_not_bound),
            "Windows"@,
            binds[i].action,
        ),
        binds[i].action == ActionView::MoveWindowToWorkspaceUp(true) && (forall|k: int|
            0 <= k < binds.len() ==> !((
            #[trigger] binds[k]).action is MoveColumnToWorkspaceUp)) ==> section_lists(
            sections::sections_of(binds, hide_not_bound),
            "Windows"@,
            binds[i].action,
        ),
        sections::shown_as(binds, binds[i].action) matches Some((key, _)) ==> key is Some,
{
    let action = binds[i].action;
    windows_section_lists(binds);
    assert(has_bind(binds, action)) by {
        assert(binds[i].action == action);
    }
    if action == ActionView::MoveWindowToWorkspaceDown(true) && (forall|k: int|
        0 <= k < binds.len() ==> !((#[trigger] binds[k]).action is MoveColumnToWorkspaceDown)) {
        bound_action_is_left(binds, hide_not_bound, 2, 3);
    }
    if action == ActionView::MoveWindowToWorkspaceUp(true) && (forall|k: int|
        0 <= k < binds.len() ==> !((#[trigger] binds[k]).action is MoveColumnToWorkspaceUp)) {
        bound_action_is_left(binds, hide_not_bound, 2, 4);
    }
    let titled = sections::titled_bind_of(action);
    let hidden = sections::hidden_bind_of(action);
    let untitled = sections::untitled_bind_of(action);
    position_is_first(binds, titled);
    position_is_first(binds, hidden);
    position_is_first(binds, untitled);
    assert(titled(binds[i]) || hidden(binds[i]) || untitled(binds[i]));
}

/// A bind that puts its action into the programs' section: it starts a program, and has a title of
/// its own, or is a key with Mod or Super.
pub open spec fn starts_listed_program(b: BindView) -> bool {
    &&& b.action is Spawn || b.action is SpawnSh
    &&& has_own_title(b) || (b.key.modifiers.compositor || b.key.modifiers.super_)
        && b.key.trigger is Keysym
}

pub open spec fn has_own_title(b: BindView) -> bool {
    match b.title {
        Some(Some(_)) => true,
        _ => false,
    }
}

/// The programs' section lists exactly the actions of such binds.
pub proof fn programs_section_lists(binds: Seq<BindView>, action: ActionView)
    ensures
        sections::all_sections(binds)[3].actions.contains(action) <==> exists|i: int|
            0 <= i < binds.len() && (#[trigger] binds[i]).action == action
                && starts_listed_program(binds[i]),
{
    let titled = sections::actions_where(binds, sections::titled_spawn());
    let shortcuts = sections::actions_where(binds, sections::shortcut_spawn());
    section_laws::actions_where_contains(binds, sections::titled_spawn(), action);
    section_laws::actions_where_contains(binds, sections::shortcut_spawn(), action);
    section_laws::distinct_has_no_duplicates(titled + shortcuts);
    if (titled + shortcuts).contains(action) {
        let k = choose|k: int|
            0 <= k < (titled + shortcuts).len() && (titled + shortcuts)[k] == action;
        if k < titled.len() {
            assert(titled[k] == action);
            let i = choose|i: int|
                0 <= i < binds.len() && sections::titled_spawn()(binds[i]) && (
                #[trigger] binds[i]).action == action;
            assert(starts_listed_program(binds[i]));
        } else {
            assert(shortcuts[k - titled.len()] == action);
            let i = choose|i: int|
                0 <= i < binds.len() && sections::shortcut_spawn()(binds[i]) && (
                #[trigger] binds[i]).action == action;
            assert(starts_listed_program(binds[i]));
        }
    }
    if exists|i: int|
        0 <= i < binds.len() && (#[trigger] binds[i]).action == action && starts_listed_program(
            binds[i],
        ) {
        let i = choose|i: int|
            0 <= i < binds.len() && (#[trigger] binds[i]).action == action
                && starts_listed_program(binds[i]);
        if has_own_title(binds[i]) {
            assert(sections::titled_spawn()(binds[i]));
            let k = choose|k: int| 0 <= k < titled.len() && titled[k] == action;
            assert((titled + shortcuts)[k] == action);
        } else {
            assert(sections::shortcut_spawn()(binds[i]));
            let k = choose|k: int| 0 <= k < shortcuts.len() && shortcuts[k] == action;
            assert((titled + shortcuts)[titled.len() + k] == action);
        }
    }
}

/// The last section lists exactly the actions that have a bind with a title of its own, start no
/// program, and stand in none of the first three sections.
pub proof fn other_section_lists(binds: Seq<BindView>, action: ActionView)
    ensures
        sections::all_sections(binds)[4].actions.contains(action) <==> (exists|i: int|
            0 <= i < binds.len() && (#[trigger] binds[i]).action == action && has_own_title(
                binds[i],
            )) && !(action is Spawn || action is SpawnSh)
            && !sections::all_sections(binds)[0].actions.contains(action)
            && !sections::all_sections(binds)[1].actions.contains(action)
            && !sections::all_sections(binds)[2].actions.contains(action),
{
    let p = sections::titled_other(binds);
    let others = sections::actions_where(binds, p);
    section_laws::actions_where_contains(binds, p, action);
    section_laws::distinct_has_no_duplicates(others);
    if others.contains(action) {
        let i = choose|i: int|
            0 <= i < binds.len() && p(binds[i]) && (#[trigger] binds[i]).action == action;
        assert(has_own_title(binds[i]));
    }
    if exists|i: int|
        0 <= i < binds.len() && (#[trigger] binds[i]).action == action && has_own_title(binds[i]) {
        let i = choose|i: int|
            0 <= i < binds.len() && (#[trigger] binds[i]).action == action && has_own_title(
                binds[i],
            );
        assert(binds[i].titled());
    }
}

/// The action occurs before position `m`.
spec fn occurs_before(all: Seq<ActionView>, action: ActionView, m: int) -> bool {
    exists|k: int| 0 <= k < m && #[trigger] all[k] == action
}

proof fn distinct_keeps_order(all: Seq<ActionView>, i: int, j: int, m: int)
    requires
        0 <= i < j < sections::distinct(all).len(),
        0 <= m < all.len(),
        all[m] == sections::distinct(all)[j],
    ensures
        occurs_before(all, sections::distinct(all)[i], m),
    decreases all.len(),
{
    let shorter = all.drop_last();
    let before = sections::distinct(shorter);
    let after = sections::distinct(all);
    section_laws::distinct_has_no_duplicates(shorter);
    if m < shorter.len() {
        assert(shorter[m] == all[m]);
        if j < before.len() {
            distinct_keeps_order(shorter, i, j, m);
            let k = choose|k: int| 0 <= k < m && #[trigger] shorter[k] == before[i];
            assert(all[k] == after[i]);
        } else {
            assert(before.contains(all[m])) by {
                assert(shorter.contains(shorter[m]));
            }
        }
    } else {
        assert(before.contains(before[i]));
        assert(shorter.contains(before[i]));
        let k = choose|k: int| 0 <= k < shorter.len() && shorter[k] == before[i];
        assert(all[k] == after[i]);
    }
}

/// A bind's action stands among the actions behind only what earlier binds put there.
proof fn chosen_in_order(
    binds: Seq<BindView>,
    p: spec_fn(BindView) -> bool,
    m: int,
) -> (q: int)
    requires
        0 <= m < binds.len(),
        p(binds[m]),
    ensures
        0 <= q < sections::actions_where(binds, p).len(),
        sections::actions_where(binds, p)[q] == binds[m].action,
        forall|r: int|
            0 <= r < q ==> chosen_before(
                binds,
                p,
                #[trigger] sections::actions_where(binds, p)[r],
                m,
            ),
    decreases binds.len(),
{
    let shorter = binds.drop_last();
    let before = sections::actions_where(shorter, p);
    let after = sections::actions_where(binds, p);
    if m < shorter.len() {
        assert(shorter[m] == binds[m]);
        let q = chosen_in_order(shorter, p, m);
        assert forall|r: int| 0 <= r < q implies chosen_before(
            binds,
            p,
            #[trigger] after[r],
            m,
        ) by {
            assert(after[r] == before[r]);
            let k = choose|k: int|
                0 <= k < m && p(shorter[k]) && (#[trigger] shorter[k]).action == before[r];
            assert(binds[k] == shorter[k]);
        }
        q
    } else {
        let q = before.len() as int;
        assert forall|r: int| 0 <= r < q implies chosen_before(
            binds,
            p,
            #[trigger] after[r],
            m,
        ) by {
            assert(after[r] == before[r]);
            section_laws::actions_where_contains(shorter, p, before[r]);
            assert(before.contains(before[r]));
            let k = choose|k: int|
                0 <= k < shorter.len() && p(shorter[k]) && (#[trigger] shorter[k]).action
                    == before[r];
            assert(binds[k] == shorter[k]);
        }
        q
    }
}

spec fn chosen_before(
    binds: Seq<BindView>,
    p: spec_fn(BindView) -> bool,
    action: ActionView,
    m: int,
) -> bool {
    exists|k: int| 0 <= k < m && p(binds[k]) && (#[trigger] binds[k]).action == action
}

/// Of two programs, the one listed first has its first bind with a title of its own before the
/// other's; if neither has one, its first key with Mod or Super comes before the other's.
pub proof fn programs_are_listed_in_order(binds: Seq<BindView>, i: int, j: int, m: int)
    requires
        0 <= i < j < sections::all_sections(binds)[3].actions.len(),
        0 <= m < binds.len(),
        binds[m].action == sections::all_sections(binds)[3].actions[j],
        starts_listed_program(binds[m]),
    ensures
        has_own_title(binds[m]) ==> exists|k: int|
            0 <= k < m && (#[trigger] binds[k]).action
                == sections::all_sections(binds)[3].actions[i] && has_own_title(binds[k]),
        !has_own_title(binds[m]) ==> (exists|k: int|
            0 <= k < binds.len() && (#[trigger] binds[k]).action
                == sections::all_sections(binds)[3].actions[i] && has_own_title(binds[k])) || (
        exists|k: int|
            0 <= k < m && (#[trigger] binds[k]).action
                == sections::all_sections(binds)[3].actions[i] && starts_listed_program(binds[k])),
{
    let first = sections::all_sections(binds)[3].actions[i];
    let titled_p = sections::titled_spawn();
    let shortcut_p = sections::shortcut_spawn();
    let titled = sections::actions_where(binds, titled_p);
    let shortcuts = sections::actions_where(binds, shortcut_p);
    let all = titled + shortcuts;
    if has_own_title(binds[m]) {
        assert(titled_p(binds[m]));
        let q = chosen_in_order(binds, titled_p, m);
        assert(all[q] == binds[m].action);
        distinct_keeps_order(all, i, j, q);
        let r = choose|r: int| 0 <= r < q && #[trigger] all[r] == first;
        assert(titled[r] == first);
        assert(chosen_before(binds, titled_p, titled[r], m));
        let k = choose|k: int|
            0 <= k < m && titled_p(binds[k]) && (#[trigger] binds[k]).action == first;
        assert(has_own_title(binds[k]));
    } else {
        assert(shortcut_p(binds[m]));
        let q = chosen_in_order(binds, shortcut_p, m);
        assert(all[titled.len() + q] == binds[m].action);
        distinct_keeps_order(all, i, j, titled.len() + q);
        let r = choose|r: int| 0 <= r < titled.len() + q && #[trigger] all[r] == first;
        if r < titled.len() {
            assert(titled[r] == first);
            section_laws::actions_where_contains(binds, titled_p, first);
            assert(titled.contains(first));
            let k = choose|k: int|
                0 <= k < binds.len() && titled_p(binds[k]) && (#[trigger] binds[k]).action == first;
            assert(has_own_title(binds[k]));
        } else {
            assert(shortcuts[r - titled.len()] == first);
            assert(chosen_before(binds, shortcut_p, shortcuts[r - titled.len()], m));
            let k = choose|k: int|
                0 <= k < m && shortcut_p(binds[k]) && (#[trigger] binds[k]).action == first;
            assert(starts_listed_program(binds[k]));
        }
    }
}

/// Of two actions in the last section, the one listed first has its first bind with a title of its
/// own before the other's.
pub proof fn other_actions_are_listed_in_order(binds: Seq<BindView>, i: int, j: int, m: int)
    requires
        0 <= i < j < sections::all_sections(binds)[4].actions.len(),
        0 <= m < binds.len(),
        binds[m].action == sections::all_sections(binds)[4].actions[j],
        has_own_title(binds[m]),
    ensures
        exists|k: int|
            0 <= k < m && (#[trigger] binds[k]).action
                == sections::all_sections(binds)[4].actions[i] && has_own_title(binds[k]),
{
    let p = sections::titled_other(binds);
    let all = sections::actions_where(binds, p);
    let list = sections::all_sections(binds)[4].actions;
    assert(list.contains(list[j]));
    other_section_lists(binds, list[j]);
    assert(p(binds[m]));
    let q = chosen_in_order(binds, p, m);
    distinct_keeps_order(all, i, j, q);
    let r = choose|r: int| 0 <= r < q && #[trigger] all[r] == list[i];
    assert(chosen_before(binds, p, all[r], m));
    let k = choose|k: int| 0 <= k < m && p(binds[k]) && (#[trigger] binds[k]).action == list[i];
    assert(has_own_title(binds[k]));
}

/// The views of sections have the sections' titles and, one for one, the views of their actions.
pub proof fn section_views_are_faithful(list: Seq<Section>, s: int, i: int)
    requires
        0 <= s < list.len(),
    ensures
        sections::section_views(list).len() == list.len(),
        sections::section_views(list)[s].title == list[s].title@,
        sections::section_views(list)[s].actions.len() == list[s].actions@.len(),
        0 <= i < list[s].actions@.len() ==> sections::section_views(list)[s].actions[i]
            == list[s].actions@[i]@,
{
}

/// With unbound actions listed, binds that move neither columns nor windows down a workspace leave
/// moving a column there with focus following under Windows; and binds that move windows only put
/// moving a window in its place. The same holds for up.
pub proof fn unbound_moves_are_listed(binds: Seq<BindView>)
    ensures
        (forall|k: int|
            0 <= k < binds.len() ==> !((#[trigger] binds[k]).action is MoveColumnToWorkspaceDown)
                && !(binds[k].action is MoveWindowToWorkspaceDown)) ==> section_lists(
            sections::sections_of(binds, false),
            "Windows"@,
            ActionView::MoveColumnToWorkspaceDown(true),
        ),
        (forall|k: int|
            0 <= k < binds.len() ==> !((#[trigger] binds[k]).action is MoveColumnToWorkspaceUp)
                && !(binds[k].action is MoveWindowToWorkspaceUp)) ==> section_lists(
            sections::sections_of(binds, false),
            "Windows"@,
            ActionView::MoveColumnToWorkspaceUp(true),
        ),
        (forall|k: int|
            0 <= k < binds.len() ==> !((#[trigger] binds[k]).action is MoveColumnToWorkspaceDown))
            && (exists|k: int|
            0 <= k < binds.len() && (#[trigger] binds[k]).action is MoveWindowToWorkspaceDown)
            ==> section_lists(
            sections::sections_of(binds, false),
            "Windows"@,
            ActionView::MoveWindowToWorkspaceDown(true),
        ),
        (forall|k: int|
            0 <= k < binds.len() ==> !((#[trigger] binds[k]).action is MoveColumnToWorkspaceUp))
            && (exists|k: int|
            0 <= k < binds.len() && (#[trigger] binds[k]).action is MoveWindowToWorkspaceUp)
            ==> section_lists(
            sections::sections_of(binds, false),
            "Windows"@,
            ActionView::MoveWindowToWorkspaceUp(true),
        ),
{
    windows_section_lists(binds);
    sections_come_in_order(binds, false);
    bound_action_is_left(binds, false, 2, 3);
    bound_action_is_left(binds, false, 2, 4);
}

/// The view of a shown action has its key, if there is one, and its title.
pub proof fn shown_views_are_faithful(key: Key, title: String)
    ensures
        sections::shown_view(Some((Some(key), title))) == Some((Some(key@), title@)),
        sections::shown_view(Some((None, title))) matches Some((none, said)) && none is None && said
            == title@,
        sections::shown_view(None) is None,
{
}

} // verus!
