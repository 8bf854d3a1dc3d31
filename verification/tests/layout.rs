//! Where the overlay's parts go.

use niri_core::hotkey_overlay::flow::Item;
use niri_core::hotkey_overlay::layout::{
    lay_out, Placed, RowSizes, SectionSizes, Spacing, TextSize,
};

fn text(w: i32, h: i32) -> TextSize {
    TextSize { w, h }
}

fn row(key: TextSize, action: TextSize) -> RowSizes {
    RowSizes { key, action }
}

const SPACING: Spacing = Spacing { margin: 16, padding: 8, line_interval: 2, target_h: 1000 };

fn two_sections() -> Vec<SectionSizes> {
    vec![
        SectionSizes {
            header: text(50, 18),
            rows: vec![row(text(40, 20), text(100, 18)), row(text(60, 18), text(90, 24))],
        },
        SectionSizes { header: text(70, 18), rows: vec![row(text(30, 18), text(120, 18))] },
    ]
}

#[test]
fn one_column_is_placed_below_the_title() {
    let layout = lay_out(&two_sections(), SPACING, text(80, 20)).unwrap();
    // Widest key 60, padding 8, widest action 120.
    assert_eq!(layout.width, 188 + 16);
    // Title 20 and padding 8, then 20 + 22 + 26 + 8 + 20 + 20 lines, then the padding.
    assert_eq!(layout.height, 20 + 8 + 116 + 16);
    assert_eq!((layout.title_x, layout.title_y), ((204 - 80) / 2, 8));
    let header = |item, y| Placed { item, x: 8, action_x: 8, y };
    let line = |item, y| Placed { item, x: 8, action_x: 76, y };
    assert_eq!(
        layout.columns,
        vec![vec![
            header(Item::Header(0), 36),
            line(Item::Row(0, 0), 56),
            line(Item::Row(0, 1), 78),
            header(Item::Header(1), 112),
            line(Item::Row(1, 0), 132),
        ]]
    );
}

#[test]
fn small_output_gets_more_columns() {
    // Room below the title: 176 - 32 - 16 - 20 - 8 = 100.
    let spacing = Spacing { target_h: 176, ..SPACING };
    let layout = lay_out(&two_sections(), spacing, text(80, 20)).unwrap();
    assert_eq!(layout.columns.len(), 2);
    assert_eq!(layout.columns[1][0].item, Item::Header(1));
    // Columns are 188 wide and 24 apart.
    assert_eq!(layout.columns[1][0].x, 8 + 188 + 24);
    assert_eq!(layout.columns[1][0].y, 36);
    assert_eq!(layout.columns[1][1].action_x, 8 + 188 + 24 + 68);
    assert_eq!(layout.width, 188 * 2 + 24 + 16);
    assert_eq!(layout.height, 20 + 8 + 68 + 16);
    assert!(layout.height <= 176 - 32);
}

#[test]
fn wide_title_or_header_widens_the_overlay() {
    let layout = lay_out(&two_sections(), SPACING, text(501, 20)).unwrap();
    assert_eq!(layout.width, 501 + 16);
    assert_eq!(layout.title_x, 8);
    let sections = vec![SectionSizes { header: text(300, 18), rows: vec![] }];
    let layout = lay_out(&sections, SPACING, text(80, 20)).unwrap();
    assert_eq!(layout.width, 300 + 16);
}

#[test]
fn empty_overlay_holds_the_title() {
    let layout = lay_out(&vec![], SPACING, text(80, 20)).unwrap();
    // One empty column, as wide as the padding between its cells.
    assert_eq!(layout.width, 80 + 16);
    assert_eq!(layout.height, 20 + 8 + 16);
    assert_eq!(layout.columns, vec![vec![]]);
}

#[test]
fn numbers_that_do_not_fit_are_refused() {
    let tall = vec![SectionSizes { header: text(1, i32::MAX), rows: vec![] }];
    assert!(lay_out(&tall, SPACING, text(80, 20)).is_none());
    let wide = vec![SectionSizes {
        header: text(1, 1),
        rows: vec![row(text(i32::MAX, 1), text(1, 1))],
    }];
    assert!(lay_out(&wide, SPACING, text(80, 20)).is_none());
    assert!(lay_out(&two_sections(), SPACING, text(i32::MAX, 20)).is_none());
    let far = Spacing { target_h: i32::MAX, margin: -1, ..SPACING };
    assert!(lay_out(&two_sections(), far, text(1, -1000)).is_none());
}
