//! What the overlay promises about the actions it lists.

use crate::hotkey_overlay::binds::{ActionView, BindView};
use crate::hotkey_overlay::sections;
use crate::hotkey_overlay::sections::SectionView;
use vstd::prelude::*;

verus! {

/// No action stands at two places.
pub open spec fn each_once(list: Seq<SectionView>) -> bool {
    forall|a: int, i: int, b: int, j: int|
        #![trigger list[a].actions[i], list[b].actions[j]]
        0 <= a < list.len() && 0 <= i < list[a].actions.len() && 0 <= b < list.len() && 0 <= j
            < list[b].actions.len() && list[a].actions[i] == list[b].actions[j] ==> a == b && i == j
}

pub(crate) proof fn distinct_has_no_duplicates(actions: Seq<ActionView>)
    ensures
        sections::distinct(actions).no_duplicates(),
        forall|x: ActionView|
            #[trigger] sections::distinct(actions).contains(x) <==> actions.contains(x),
    decreases actions.len(),
{
    if actions.len() > 0 {
        let shorter = actions.drop_last();
        let last = actions.last();
        distinct_has_no_duplicates(shorter);
        let before = sections::distinct(shorter);
        let after = sections::distinct(actions);
        assert forall|x: ActionView| #[trigger] after.contains(x) <==> actions.contains(x) by {
            if after.contains(x) {
                let k = choose|k: int| 0 <= k < after.len() && after[k] == x;
                if k < before.len() {
                    assert(before.contains(x)) by {
                        assert(before[k] == x);
                    }
                    let m = choose|m: int| 0 <= m < shorter.len() && shorter[m] == x;
                    assert(actions[m] == x);
                } else {
                    assert(actions[actions.len() - 1] == x);
                }
            }
            if actions.contains(x) {
                let m = choose|m: int| 0 <= m < actions.len() && actions[m] == x;
                if m < shorter.len() {
                    assert(shorter[m] == x);
                    assert(shorter.contains(x));
                    assert(before.contains(x));
                    let k = choose|k: int| 0 <= k < before.len() && before[k] == x;
                    assert(after[k] == x);
                } else if before.contains(last) {
                } else {
                    assert(after[before.len() as int] == x);
                }
            }
        }
    }
}

pub(crate) proof fn actions_where_contains(binds: Seq<BindView>, p: spec_fn(BindView) -> bool, x: ActionView)
    ensures
        sections::actions_where(binds, p).contains(x) <==> exists|i: int|
            0 <= i < binds.len() && p(binds[i]) && (#[trigger] binds[i]).action == x,
    decreases binds.len(),
{
    if binds.len() > 0 {
        let shorter = binds.drop_last();
        let before = sections::actions_where(shorter, p);
        let after = sections::actions_where(binds, p);
        actions_where_contains(shorter, p, x);
        if after.contains(x) {
            let k = choose|k: int| 0 <= k < after.len() && after[k] == x;
            if k < before.len() {
                assert(before[k] == x);
                let i = choose|i: int|
                    0 <= i < shorter.len() && p(shorter[i]) && (#[trigger] shorter[i]).action == x;
                assert(binds[i] == shorter[i]);
            } else {
                assert(binds[binds.len() - 1].action == x);
            }
        }
        if exists|i: int| 0 <= i < binds.len() && p(binds[i]) && (#[trigger] binds[i]).action == x {
            let i = choose|i: int|
                0 <= i < binds.len() && p(binds[i]) && (#[trigger] binds[i]).action == x;
            if i < shorter.len() {
                assert(shorter[i] == binds[i]);
                let k = choose|k: int| 0 <= k < before.len() && before[k] == x;
                assert(after[k] == x);
            } else {
                assert(after[before.len() as int] == x);
            }
        }
    }
}

/// A found position holds what was looked for.
proof fn position_holds(binds: Seq<BindView>, p: spec_fn(BindView) -> bool)
    ensures
        sections::position(binds, p) matches Some(i) ==> 0 <= i < binds.len() && p(binds[i]),
    decreases binds.len(),
{
    if binds.len() > 0 {
        position_holds(binds.drop_last(), p);
    }
}

/// What the lists with a fixed place hold.
proof fn fixed_lists(binds: Seq<BindView>)
    ensures
        sections::compositor_actions(binds).no_duplicates(),
        sections::navigation_actions().no_duplicates(),
        sections::window_actions(binds).no_duplicates(),
        forall|x: ActionView| #[trigger]
            sections::compositor_actions(binds).contains(x) ==> x is ShowHotkeyOverlay || x is Quit
                || x is ToggleOverview || x is Screenshot,
        forall|x: ActionView| #[trigger]
            sections::navigation_actions().contains(x) ==> x is FocusColumnLeft
                || x is FocusColumnRight || x is FocusWorkspaceDown || x is FocusWorkspaceUp,
        forall|x: ActionView| #[trigger]
            sections::window_actions(binds).contains(x) ==> !(x is ShowHotkeyOverlay) && !(
            x is Quit) && !(x is ToggleOverview) && !(x is Screenshot) && !(x is FocusColumnLeft)
                && !(x is FocusColumnRight) && !(x is FocusWorkspaceDown) && !(
            x is FocusWorkspaceUp) && !x.spawns(),
{
    position_holds(binds, |b: BindView| b.action is Screenshot);
    position_holds(binds, |b: BindView| b.action is MoveColumnToWorkspaceDown);
    position_holds(binds, |b: BindView| b.action is MoveColumnToWorkspaceUp);
    position_holds(binds, |b: BindView| b.action is MoveWindowToWorkspaceDown);
    position_holds(binds, |b: BindView| b.action is MoveWindowToWorkspaceUp);
    let down = sections::move_down_action(binds);
    let up = sections::move_up_action(binds);
    assert(down is MoveColumnToWorkspaceDown || down is MoveWindowToWorkspaceDown);
    assert(up is MoveColumnToWorkspaceUp || up is MoveWindowToWorkspaceUp);
}

proof fn app_and_other_lists(binds: Seq<BindView>)
    ensures
        sections::app_actions(binds).no_duplicates(),
        sections::other_actions(binds).no_duplicates(),
        forall|x: ActionView| #[trigger] sections::app_actions(binds).contains(x) ==> x.spawns(),
        forall|x: ActionView| #[trigger]
            sections::other_actions(binds).contains(x) ==> !x.spawns()
                && !sections::has_fixed_place(binds, x),
{
    let titled = sections::actions_where(binds, sections::titled_spawn());
    let shortcuts = sections::actions_where(binds, sections::shortcut_spawn());
    let others = sections::actions_where(binds, sections::titled_other(binds));
    distinct_has_no_duplicates(titled + shortcuts);
    distinct_has_no_duplicates(others);
    assert forall|x: ActionView| #[trigger]
        sections::app_actions(binds).contains(x) implies x.spawns() by {
        let k = choose|k: int|
            0 <= k < (titled + shortcuts).len() && (titled + shortcuts)[k] == x;
        actions_where_contains(binds, sections::titled_spawn(), x);
        actions_where_contains(binds, sections::shortcut_spawn(), x);
        if k < titled.len() {
            assert(titled[k] == x);
            assert(titled.contains(x));
        } else {
            assert(shortcuts[k - titled.len()] == x);
            assert(shortcuts.contains(x));
        }
    }
    assert forall|x: ActionView| #[trigger]
        sections::other_actions(binds).contains(x) implies !x.spawns()
        && !sections::has_fixed_place(binds, x) by {
        actions_where_contains(binds, sections::titled_other(binds), x);
    }
}

proof fn all_each_once(binds: Seq<BindView>)
    ensures
        each_once(sections::all_sections(binds)),
{
    let all = sections::all_sections(binds);
    fixed_lists(binds);
    app_and_other_lists(binds);
    assert forall|a: int, i: int, b: int, j: int|
        #![trigger all[a].actions[i], all[b].actions[j]]
        0 <= a < all.len() && 0 <= i < all[a].actions.len() && 0 <= b < all.len() && 0 <= j
            < all[b].actions.len() && all[a].actions[i] == all[b].actions[j] implies a == b && i
        == j by {
        let x = all[a].actions[i];
        assert(all[a].actions.contains(x));
        assert(all[b].actions.contains(x));
        if a == b {
            assert(all[a].actions.no_duplicates());
        }
    }
}

/// What `listed` keeps.
proof fn listed_facts(binds: Seq<BindView>, hide_not_bound: bool, actions: Seq<ActionView>)
    ensures
        actions.no_duplicates() ==> sections::listed(
            binds,
            hide_not_bound,
            actions,
        ).no_duplicates(),
        forall|x: ActionView| #[trigger]
            sections::listed(binds, hide_not_bound, actions).contains(x) <==> actions.contains(x)
                && (hide_not_bound ==> sections::bound(binds, x)),
    decreases actions.len(),
{
    if hide_not_bound && actions.len() > 0 {
        let shorter = actions.drop_last();
        listed_facts(binds, hide_not_bound, shorter);
        let before = sections::listed(binds, hide_not_bound, shorter);
        let after = sections::listed(binds, hide_not_bound, actions);
        let last = actions.last();
        assert forall|x: ActionView| #[trigger] after.contains(x) <==> actions.contains(x)
            && sections::bound(binds, x) by {
            if after.contains(x) {
                let k = choose|k: int| 0 <= k < after.len() && after[k] == x;
                if k < before.len() {
                    assert(before[k] == x);
                    assert(before.contains(x));
                    let m = choose|m: int| 0 <= m < shorter.len() && shorter[m] == x;
                    assert(actions[m] == x);
                } else {
                    assert(actions[actions.len() - 1] == x);
                }
            }
            if actions.contains(x) && sections::bound(binds, x) {
                let m = choose|m: int| 0 <= m < actions.len() && actions[m] == x;
                if m < shorter.len() {
                    assert(shorter[m] == x);
                    assert(shorter.contains(x));
                    assert(before.contains(x));
                    let k = choose|k: int| 0 <= k < before.len() && before[k] == x;
                    assert(after[k] == x);
                } else {
                    assert(after[before.len() as int] == x);
                }
            }
        }
        if actions.no_duplicates() {
            assert(shorter.no_duplicates()) by {
                assert forall|i: int, j: int|
                    0 <= i < shorter.len() && 0 <= j < shorter.len() && i != j implies shorter[i]
                    != shorter[j] by {
                    assert(actions[i] != actions[j]);
                }
            }
            assert(!before.contains(last)) by {
                if before.contains(last) {
                    let m = choose|m: int| 0 <= m < shorter.len() && shorter[m] == last;
                    assert(actions[m] == actions[actions.len() - 1]);
                }
            }
        }
    }
}

/// What `listed_sections` keeps: every action it lists comes from a section, and no section is
/// empty.
proof fn listed_sections_facts(
    binds: Seq<BindView>,
    hide_not_bound: bool,
    all: Seq<SectionView>,
)
    ensures
        ({
            let kept = sections::listed_sections(binds, hide_not_bound, all);
            &&& each_once(all) ==> each_once(kept)
            &&& forall|a: int|
                0 <= a < kept.len() ==> (#[trigger] kept[a]).actions.len() > 0
            &&& forall|a: int, x: ActionView|
                0 <= a < kept.len() && #[trigger] kept[a].actions.contains(x) ==> (hide_not_bound
                    ==> sections::bound(binds, x)) && exists|q: int|
                    0 <= q < all.len() && #[trigger] all[q].actions.contains(x)
            &&& forall|q: int, x: ActionView|
                0 <= q < all.len() && #[trigger] all[q].actions.contains(x) && (hide_not_bound
                    ==> sections::bound(binds, x)) ==> exists|a: int|
                    0 <= a < kept.len() && #[trigger] kept[a].actions.contains(x)
        }),
    decreases all.len(),
{
    if all.len() > 0 {
        let shorter = all.drop_last();
        let n = all.len() - 1;
        listed_sections_facts(binds, hide_not_bound, shorter);
        let before = sections::listed_sections(binds, hide_not_bound, shorter);
        let kept = sections::listed_sections(binds, hide_not_bound, all);
        let actions = sections::listed(binds, hide_not_bound, all.last().actions);
        listed_facts(binds, hide_not_bound, all.last().actions);
        assert forall|a: int, x: ActionView|
            0 <= a < kept.len() && #[trigger] kept[a].actions.contains(x) implies (hide_not_bound
            ==> sections::bound(binds, x)) && exists|q: int|
            0 <= q < all.len() && #[trigger] all[q].actions.contains(x) by {
            if a < before.len() {
                assert(before[a].actions.contains(x));
                let q = choose|q: int|
                    0 <= q < shorter.len() && #[trigger] shorter[q].actions.contains(x);
                assert(all[q].actions.contains(x));
            } else {
                assert(all[n].actions.contains(x));
            }
        }
        assert forall|q: int, x: ActionView|
            0 <= q < all.len() && #[trigger] all[q].actions.contains(x) && (hide_not_bound
                ==> sections::bound(binds, x)) implies exists|a: int|
            0 <= a < kept.len() && #[trigger] kept[a].actions.contains(x) by {
            if q < n {
                assert(shorter[q].actions.contains(x));
                let a = choose|a: int|
                    0 <= a < before.len() && #[trigger] before[a].actions.contains(x);
                assert(kept[a].actions.contains(x));
            } else {
                assert(actions.contains(x));
                assert(kept[before.len() as int].actions.contains(x));
            }
        }
        if each_once(all) {
            assert(each_once(shorter)) by {
                assert forall|a: int, i: int, b: int, j: int|
                    #![trigger shorter[a].actions[i], shorter[b].actions[j]]
                    0 <= a < shorter.len() && 0 <= i < shorter[a].actions.len() && 0 <= b
                        < shorter.len() && 0 <= j < shorter[b].actions.len()
                        && shorter[a].actions[i] == shorter[b].actions[j] implies a == b && i
                    == j by {
                    assert(all[a].actions[i] == all[b].actions[j]);
                }
            }
            assert(all.last().actions.no_duplicates()) by {
                assert forall|i: int, j: int|
                    0 <= i < all.last().actions.len() && 0 <= j < all.last().actions.len() && i
                        != j implies all.last().actions[i] != all.last().actions[j] by {
                    assert(all[n].actions[i] != all[n].actions[j]);
                }
            }
            // What the last section lists stands in none of the earlier ones.
            assert forall|a: int, x: ActionView|
                0 <= a < before.len() && #[trigger] before[a].actions.contains(
                    x,
                ) implies !actions.contains(x) by {
                if actions.contains(x) {
                    let q = choose|q: int|
                        0 <= q < shorter.len() && #[trigger] shorter[q].actions.contains(x);
                    let i = choose|i: int|
                        0 <= i < shorter[q].actions.len() && shorter[q].actions[i] == x;
                    let j = choose|j: int|
                        0 <= j < all.last().actions.len() && all.last().actions[j] == x;
                    assert(all[q].actions[i] == all[n].actions[j]);
                }
            }
            assert forall|a: int, i: int, b: int, j: int|
                #![trigger kept[a].actions[i], kept[b].actions[j]]
                0 <= a < kept.len() && 0 <= i < kept[a].actions.len() && 0 <= b < kept.len() && 0
                    <= j < kept[b].actions.len() && kept[a].actions[i]
                    == kept[b].actions[j] implies a == b && i == j by {
                let x = kept[a].actions[i];
                assert(kept[a].actions.contains(x));
                assert(kept[b].actions.contains(x));
                if a < before.len() && b < before.len() {
                    assert(before[a].actions[i] == before[b].actions[j]);
                } else if a < before.len() {
                    assert(before[a].actions.contains(x));
                } else if b < before.len() {
                    assert(before[b].actions.contains(x));
                }
            }
        }
    }
}

/// The overlay lists every action at one place only.
pub proof fn actions_are_listed_once(binds: Seq<BindView>, hide_not_bound: bool)
    ensures
        each_once(sections::sections_of(binds, hide_not_bound)),
{
    all_each_once(binds);
    listed_sections_facts(binds, hide_not_bound, sections::all_sections(binds));
}

/// No section of the overlay is empty.
pub proof fn no_section_is_empty(binds: Seq<BindView>, hide_not_bound: bool)
    ensures
        forall|a: int|
            0 <= a < sections::sections_of(binds, hide_not_bound).len() ==> (
            #[trigger] sections::sections_of(binds, hide_not_bound)[a]).actions.len() > 0,
{
    listed_sections_facts(binds, hide_not_bound, sections::all_sections(binds));
}

/// With `hide-not-bound`, every listed action is bound.
pub proof fn hide_not_bound_lists_bound_actions(binds: Seq<BindView>, a: int, i: int)
    requires
        0 <= a < sections::sections_of(binds, true).len(),
        0 <= i < sections::sections_of(binds, true)[a].actions.len(),
    ensures
        sections::bound(binds, sections::sections_of(binds, true)[a].actions[i]),
{
    let list = sections::sections_of(binds, true);
    listed_sections_facts(binds, true, sections::all_sections(binds));
    assert(list[a].actions.contains(list[a].actions[i]));
}

/// Some section lists the action.
pub open spec fn lists(list: Seq<SectionView>, action: ActionView) -> bool {
    exists|a: int| 0 <= a < list.len() && (#[trigger] list[a]).actions.contains(action)
}

/// The action of every bind with a title of its own is listed, and so is every program that is
/// started from a key with Mod or Super.
pub proof fn titled_and_shortcut_binds_are_listed(
    binds: Seq<BindView>,
    hide_not_bound: bool,
    i: int,
)
    requires
        0 <= i < binds.len(),
        binds[i].titled() || sections::shortcut_spawn()(binds[i]),
    ensures
        lists(sections::sections_of(binds, hide_not_bound), binds[i].action),
{
    let x = binds[i].action;
    let all = sections::all_sections(binds);
    let titled = sections::actions_where(binds, sections::titled_spawn());
    let shortcuts = sections::actions_where(binds, sections::shortcut_spawn());
    let others = sections::actions_where(binds, sections::titled_other(binds));
    actions_where_contains(binds, sections::titled_spawn(), x);
    actions_where_contains(binds, sections::shortcut_spawn(), x);
    actions_where_contains(binds, sections::titled_other(binds), x);
    distinct_has_no_duplicates(titled + shortcuts);
    distinct_has_no_duplicates(others);
    if x.spawns() {
        if binds[i].titled() {
            let k = choose|k: int| 0 <= k < titled.len() && titled[k] == x;
            assert((titled + shortcuts)[k] == x);
        } else {
            let k = choose|k: int| 0 <= k < shortcuts.len() && shortcuts[k] == x;
            assert((titled + shortcuts)[titled.len() + k] == x);
        }
        assert((titled + shortcuts).contains(x));
        assert(all[3].actions.contains(x));
    } else if sections::has_fixed_place(binds, x) {
        assert(all[0].actions.contains(x) || all[1].actions.contains(x)
            || all[2].actions.contains(x));
    } else {
        assert(others.contains(x));
        assert(all[4].actions.contains(x));
    }
    assert(sections::bound(binds, x));
    listed_sections_facts(binds, hide_not_bound, all);
}

/// Binds decide how an action is shown only if they are for that action; a hidden bind hides it
/// unless some bind for it has a title of its own, and an action without binds is shown without a
/// key.
pub proof fn hidden_bind_hides_unless_titled(binds: Seq<BindView>, action: ActionView)
    ensures
        sections::shown_as(binds, action) is None <==> (exists|i: int|
            0 <= i < binds.len() && (#[trigger] binds[i]).action == action && binds[i].hidden())
            && !(exists|i: int|
            0 <= i < binds.len() && (#[trigger] binds[i]).action == action && binds[i].titled()),
        !sections::bound(binds, action) ==> sections::shown_as(binds, action) == Some(
            (
                None::<crate::hotkey_overlay::binds::KeyView>,
                crate::hotkey_overlay::names::title_of(action),
            ),
        ),
{
    position_finds(binds, sections::titled_bind_of(action));
    position_finds(binds, sections::hidden_bind_of(action));
    position_finds(binds, sections::untitled_bind_of(action));
    position_holds(binds, sections::titled_bind_of(action));
    position_holds(binds, sections::hidden_bind_of(action));
    position_holds(binds, sections::untitled_bind_of(action));
}

/// A position is found exactly if there is one.
proof fn position_finds(binds: Seq<BindView>, p: spec_fn(BindView) -> bool)
    ensures
        sections::position(binds, p) is Some <==> exists|i: int|
            0 <= i < binds.len() && p(#[trigger] binds[i]),
    decreases binds.len(),
{
    if binds.len() > 0 {
        let shorter = binds.drop_last();
        position_finds(shorter, p);
        position_holds(binds, p);
        if exists|i: int| 0 <= i < binds.len() && p(#[trigger] binds[i]) {
            let i = choose|i: int| 0 <= i < binds.len() && p(#[trigger] binds[i]);
            if i < shorter.len() {
                assert(p(shorter[i]));
            }
        }
    }
}

} // verus!
