//! What the overlay's rows say, on screen and read out.

use crate::hotkey_overlay::binds::{ActionView, BindView};
use crate::hotkey_overlay::names;
use crate::hotkey_overlay::rows;
use crate::hotkey_overlay::rows::{Reader, Row, RowView, SectionRows, SectionRowsView};
use crate::hotkey_overlay::sections;
use crate::hotkey_overlay::sections::SectionView;
use vstd::prelude::*;
use vstd::string::*;

verus! {

/// The row of an action: what its key is called, if it has one, and its title; none if it is
/// hidden.
pub open spec fn row_for(binds: Seq<BindView>, reader: Reader, action: ActionView) -> Seq<RowView> {
    match sections::shown_as(binds, action) {
        None => seq![],
        Some((Some(key), title)) => seq![
            RowView {
                key: Some(names::key_label(reader.screen_reader, reader.mod_key, key)),
                title,
            },
        ],
        Some((None, title)) => seq![RowView { key: None, title }],
    }
}

/// Rows follow their actions: the rows of a list of actions are those of its parts, and a hidden
/// action has none.
pub proof fn rows_follow_their_actions(
    binds: Seq<BindView>,
    reader: Reader,
    a: Seq<ActionView>,
    action: ActionView,
    b: Seq<ActionView>,
)
    ensures
        rows::rows_of(binds, reader, a + seq![action] + b) == rows::rows_of(binds, reader, a)
            + row_for(binds, reader, action) + rows::rows_of(binds, reader, b),
        rows::rows_of(binds, reader, Seq::empty()).len() == 0,
    decreases b.len(),
{
    if b.len() == 0 {
        assert(a + seq![action] + b =~= a.push(action));
        assert(a.push(action).drop_last() =~= a);
        assert(rows::rows_of(binds, reader, a.push(action)) =~= rows::rows_of(binds, reader, a)
            + row_for(binds, reader, action) + rows::rows_of(binds, reader, b));
    } else {
        rows_follow_their_actions(binds, reader, a, action, b.drop_last());
        let all = a + seq![action] + b;
        assert(all.drop_last() =~= a + seq![action] + b.drop_last());
        assert(all.last() == b.last());
        assert(rows::rows_of(binds, reader, all) =~= rows::rows_of(binds, reader, a) + row_for(
            binds,
            reader,
            action,
        ) + rows::rows_of(binds, reader, b));
    }
}

/// What is shown of a section: its title and rows, or nothing without rows.
pub open spec fn shown_of(binds: Seq<BindView>, reader: Reader, section: SectionView) -> Seq<
    SectionRowsView,
> {
    let rows = rows::rows_of(binds, reader, section.actions);
    if rows.len() > 0 {
        seq![SectionRowsView { title: section.title, rows }]
    } else {
        seq![]
    }
}

/// Sections are shown one after the other, each with its own title and rows.
pub proof fn shown_sections_follow_their_sections(
    binds: Seq<BindView>,
    reader: Reader,
    list: Seq<SectionView>,
    section: SectionView,
    hide_not_bound: bool,
)
    ensures
        rows::with_rows(binds, reader, list.push(section)) == rows::with_rows(binds, reader, list)
            + shown_of(binds, reader, section),
        rows::with_rows(binds, reader, Seq::empty()).len() == 0,
        rows::overlay_rows_of(binds, hide_not_bound, reader) == rows::with_rows(
            binds,
            reader,
            sections::sections_of(binds, hide_not_bound),
        ),
{
    assert(list.push(section).drop_last() =~= list);
    assert(rows::with_rows(binds, reader, list.push(section)) =~= rows::with_rows(
        binds,
        reader,
        list,
    ) + shown_of(binds, reader, section));
}

/// On screen a key stands between spaces, and an action without one is marked as not bound.
pub proof fn key_cells_are_padded(key: Seq<char>, title: Seq<char>)
    ensures
        rows::key_cell_of(RowView { key: Some(key), title }) == " "@ + key + " "@,
        rows::key_cell_of(RowView { key: None, title }) == " "@ + "(not bound)"@ + " "@,
{
}

/// A row is read out as its key, or that it is not bound, and its title without markup, or the
/// title itself where that is not known.
pub open spec fn said_of(row: RowView, plain: Option<String>) -> Seq<char> {
    (match row.key {
        Some(key) => key,
        None => "not bound"@,
    }) + " "@ + (match plain {
        Some(title) => title@,
        None => row.title,
    }) + "\n"@
}

/// Rows are read out one after the other, each on a line of its own and each with its own plain
/// title.
pub proof fn rows_are_read_out_in_order(
    rows: Seq<RowView>,
    row: RowView,
    plain: Seq<Option<String>>,
    k: nat,
)
    ensures
        rows::a11y_lines(rows.push(row), plain, k) == rows::a11y_lines(rows, plain, k) + said_of(
            row,
            if k + rows.len() < plain.len() {
                plain[(k + rows.len()) as int]
            } else {
                None
            },
        ),
        rows::a11y_lines(Seq::empty(), plain, k).len() == 0,
{
    assert(rows.push(row).drop_last() =~= rows);
}

/// The overlay is read out as its title, then section by section: the section's title on a line of
/// its own, then its rows. The plain titles are counted through over all sections.
pub proof fn sections_are_read_out_in_order(
    list: Seq<SectionRowsView>,
    section: SectionRowsView,
    plain: Seq<Option<String>>,
)
    ensures
        rows::a11y_of(Seq::empty(), plain) == "Important Hotkeys"@ + "\n"@,
        rows::a11y_of(list.push(section), plain) == rows::a11y_of(list, plain) + (section.title
            + "\n"@ + rows::a11y_lines(section.rows, plain, rows::count_rows(list))),
        rows::count_rows(list.push(section)) == rows::count_rows(list) + section.rows.len(),
        rows::count_rows(Seq::empty()) == 0,
{
    let longer = list.push(section);
    assert(longer.drop_last() =~= list);
    let heading = "Important Hotkeys"@ + "\n"@;
    assert(rows::a11y_of(Seq::empty(), plain) =~= heading);
    assert(rows::a11y_of(longer, plain) =~= rows::a11y_of(list, plain) + (section.title + "\n"@
        + rows::a11y_lines(section.rows, plain, rows::count_rows(list))));
}

/// The titles to be turned into plain text are those of the rows, in the order in which they are
/// read out.
pub proof fn titles_come_in_reading_order(list: Seq<SectionRowsView>, section: SectionRowsView)
    ensures
        rows::titles_of(Seq::empty()).len() == 0,
        rows::titles_of(list.push(section)) == rows::titles_of(list) + Seq::new(
            section.rows.len(),
            |i: int| section.rows[i].title,
        ),
{
    assert(list.push(section).drop_last() =~= list);
    assert(rows::row_titles(section.rows) =~= Seq::new(
        section.rows.len(),
        |i: int| section.rows[i].title,
    ));
}

/// The views of sections are theirs, row by row: the same titles, and the same keys where there
/// are any.
pub proof fn row_views_are_faithful(list: Seq<SectionRows>, s: int, r: int)
    requires
        0 <= s < list.len(),
    ensures
        rows::section_rows_views(list).len() == list.len(),
        rows::section_rows_views(list)[s].title == list[s].title@,
        rows::section_rows_views(list)[s].rows.len() == list[s].rows@.len(),
        0 <= r < list[s].rows@.len() ==> ({
            let row: Row = list[s].rows@[r];
            let view = rows::section_rows_views(list)[s].rows[r];
            &&& view.title == row.title@
            &&& view.key is Some <==> row.key is Some
            &&& row.key matches Some(key) ==> view.key == Some(key@)
        }),
{
}

} // verus!
