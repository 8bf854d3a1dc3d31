//! How sections flow into columns.

use niri_core::hotkey_overlay::flow::{flow_into_columns, Item};

#[test]
fn test_flow_single_column() {
    // Everything fits: one column, sections in order.
    let sections = vec![(10, vec![20, 20]), (10, vec![20])];
    let columns = flow_into_columns(&sections, 5, 1000);
    assert_eq!(
        columns,
        vec![vec![
            Item::Header(0),
            Item::Row(0, 0),
            Item::Row(0, 1),
            Item::Header(1),
            Item::Row(1, 0),
        ]],
    );
}

#[test]
fn test_flow_section_continues_in_next_column() {
    // The second section starts below the first and overflows mid-section; the remaining
    // rows continue at the top of the next column without a repeated header.
    let sections = vec![(10, vec![20, 20]), (10, vec![20, 20])];
    let columns = flow_into_columns(&sections, 5, 100);
    assert_eq!(
        columns,
        vec![
            vec![
                Item::Header(0),
                Item::Row(0, 0),
                Item::Row(0, 1),
                Item::Header(1),
                Item::Row(1, 0),
            ],
            vec![Item::Row(1, 1)],
        ],
    );
}

#[test]
fn test_flow_header_keeps_first_row() {
    // The second header would fit at the bottom of the column, but not together with its
    // first row; it moves to the next column instead of being orphaned.
    let sections = vec![(10, vec![20, 20]), (10, vec![20, 20])];
    let columns = flow_into_columns(&sections, 5, 70);
    assert_eq!(
        columns,
        vec![
            vec![Item::Header(0), Item::Row(0, 0), Item::Row(0, 1)],
            vec![Item::Header(1), Item::Row(1, 0), Item::Row(1, 1)],
        ],
    );
}

#[test]
fn test_flow_giant_section_splits() {
    // A section taller than the budget flows its rows across columns without repeating the
    // header.
    let sections = vec![(10, vec![20, 20, 20, 20, 20])];
    let columns = flow_into_columns(&sections, 5, 50);
    assert_eq!(
        columns,
        vec![
            vec![Item::Header(0), Item::Row(0, 0), Item::Row(0, 1)],
            vec![Item::Row(0, 2), Item::Row(0, 3)],
            vec![Item::Row(0, 4)],
        ],
    );
}

#[test]
fn test_flow_tiny_budget_makes_progress() {
    // A row taller than the whole budget still gets placed; no infinite columns.
    let sections = vec![(10, vec![100, 100])];
    let columns = flow_into_columns(&sections, 5, 50);
    assert_eq!(
        columns,
        vec![
            vec![Item::Header(0)],
            vec![Item::Row(0, 0)],
            vec![Item::Row(0, 1)],
        ],
    );
}

#[test]
fn nothing_flows_into_one_empty_column() {
    assert_eq!(flow_into_columns(&[], 5, 100), vec![vec![]]);
}

#[test]
fn lonely_header_needs_room_for_itself_only() {
    let sections = vec![(10, vec![20]), (10, vec![])];
    assert_eq!(
        flow_into_columns(&sections, 5, 45),
        vec![vec![Item::Header(0), Item::Row(0, 0), Item::Header(1)]],
    );
    assert_eq!(
        flow_into_columns(&sections, 5, 44),
        vec![vec![Item::Header(0), Item::Row(0, 0)], vec![Item::Header(1)]],
    );
}

#[test]
fn columns_stay_within_the_budget_exactly() {
    // 10 + 20 + 20 = 50 fits a budget of 50, but not one of 49.
    let sections = vec![(10, vec![20, 20])];
    assert_eq!(flow_into_columns(&sections, 5, 50).len(), 1);
    assert_eq!(
        flow_into_columns(&sections, 5, 49),
        vec![vec![Item::Header(0), Item::Row(0, 0)], vec![Item::Row(0, 1)]],
    );
}

#[test]
fn extreme_heights_do_not_overflow() {
    let sections = vec![(i32::MAX, vec![i32::MAX, i32::MAX]), (i32::MAX, vec![i32::MAX])];
    let columns = flow_into_columns(&sections, i32::MAX, i32::MAX);
    assert_eq!(columns.len(), 5);
}

#[test]
fn larger_budgets_need_no_more_columns() {
    let sections = vec![(10, vec![20, 35, 20]), (12, vec![8]), (10, vec![]), (9, vec![50, 7])];
    let mut columns = usize::MAX;
    for budget in 0..300 {
        let needed = flow_into_columns(&sections, 5, budget).len();
        assert!(needed <= columns);
        columns = needed;
    }
    assert_eq!(columns, 1);
}

#[test]
fn header_below_other_lines_keeps_its_first_row() {
    let sections = vec![(10, vec![20]), (10, vec![100])];
    for budget in 0..200 {
        for column in flow_into_columns(&sections, 5, budget) {
            for j in 1..column.len() {
                if column[j] == Item::Header(1) {
                    assert_eq!(column[j + 1], Item::Row(1, 0));
                }
            }
        }
    }
}
