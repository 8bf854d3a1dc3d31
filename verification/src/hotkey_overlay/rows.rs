//! The rows of the overlay, on screen and for screen readers.

use crate::hotkey_overlay::binds;
use crate::hotkey_overlay::binds::{Action, ActionView, Bind, BindView, Config, ModKey};
use crate::hotkey_overlay::names;
use crate::hotkey_overlay::sections;
use crate::hotkey_overlay::sections::{Section, SectionView};
use crate::text;
use vstd::prelude::*;
use vstd::string::*;

verus! {

/// Title of the overlay.
pub const TITLE: &'static str = "Important Hotkeys";

/// A row as a mathematical value.
pub struct RowView {
    /// How the key is called, if there is one.
    pub key: Option<Seq<char>>,
    /// What it does, as markup.
    pub title: Seq<char>,
}

/// A section's rows as a mathematical value.
pub struct SectionRowsView {
    pub title: Seq<char>,
    pub rows: Seq<RowView>,
}

/// Who the rows are for, and what the compositor's modifier is.
#[derive(Clone, Copy)]
pub struct Reader {
    pub screen_reader: bool,
    pub mod_key: ModKey,
}

/// The rows of the actions that are not hidden.
pub open spec fn rows_of(binds: Seq<BindView>, reader: Reader, actions: Seq<ActionView>) -> Seq<
    RowView,
>
    decreases actions.len(),
{
    if actions.len() == 0 {
        seq![]
    } else {
        let before = rows_of(binds, reader, actions.drop_last());
        match sections::shown_as(binds, actions.last()) {
            Some((Some(key), title)) => before.push(
                RowView {
                    key: Some(names::key_label(reader.screen_reader, reader.mod_key, key)),
                    title,
                },
            ),
            Some((None, title)) => before.push(RowView { key: None, title }),
            None => before,
        }
    }
}

/// The sections that have rows.
pub open spec fn with_rows(binds: Seq<BindView>, reader: Reader, list: Seq<SectionView>) -> Seq<
    SectionRowsView,
>
    decreases list.len(),
{
    if list.len() == 0 {
        seq![]
    } else {
        let before = with_rows(binds, reader, list.drop_last());
        let rows = rows_of(binds, reader, list.last().actions);
        if rows.len() > 0 {
            before.push(SectionRowsView { title: list.last().title, rows })
        } else {
            before
        }
    }
}

/// All rows of the overlay.
pub open spec fn overlay_rows_of(
    binds: Seq<BindView>,
    hide_not_bound: bool,
    reader: Reader,
) -> Seq<SectionRowsView> {
    with_rows(binds, reader, sections::sections_of(binds, hide_not_bound))
}

/// A row of the overlay.
#[derive(Debug)]
pub struct Row {
    pub key: Option<String>,
    pub title: String,
}

impl View for Row {
    type V = RowView;

    open spec fn view(&self) -> RowView {
        RowView { key: binds::opt_text(self.key), title: self.title@ }
    }
}

pub open spec fn row_views(rows: Seq<Row>) -> Seq<RowView> {
    Seq::new(rows.len(), |i: int| rows[i]@)
}

/// A titled list of rows.
#[derive(Debug)]
pub struct SectionRows {
    pub title: &'static str,
    pub rows: Vec<Row>,
}

impl View for SectionRows {
    type V = SectionRowsView;

    open spec fn view(&self) -> SectionRowsView {
        SectionRowsView { title: self.title@, rows: row_views(self.rows@) }
    }
}

pub open spec fn section_rows_views(list: Seq<SectionRows>) -> Seq<SectionRowsView> {
    Seq::new(list.len(), |i: int| list[i]@)
}

fn rows_of_actions(binds: &Vec<Bind>, reader: Reader, actions: &Vec<Action>) -> (rows: Vec<Row>)
    ensures
        row_views(rows@) == rows_of(
            binds::bind_views(binds@),
            reader,
            sections::action_views(actions@),
        ),
{
    let ghost all = sections::action_views(actions@);
    let ghost views = binds::bind_views(binds@);
    let mut rows: Vec<Row> = Vec::new();
    assert(row_views(rows@) =~= Seq::<RowView>::empty());
    assert(all.take(0) =~= Seq::<ActionView>::empty());
    let n: usize = actions.len();
    let mut i: usize = 0;
    while i < n
        invariant
            n == actions@.len(),
            i <= n,
            all == sections::action_views(actions@),
            views == binds::bind_views(binds@),
            row_views(rows@) == rows_of(views, reader, all.take(i as int)),
        decreases n - i,
    {
        assert(all.take(i + 1).drop_last() =~= all.take(i as int));
        assert(all.take(i + 1).last() == actions@[i as int]@);
        let ghost before = row_views(rows@);
        if let Some((key, title)) = sections::format_bind(binds, &actions[i]) {
            let key: Option<String> = match key {
                Some(key) => Some(names::key_name(reader.screen_reader, reader.mod_key, &key)),
                None => None,
            };
            let row = Row { key, title };
            rows.push(row);
            assert(row_views(rows@) =~= before.push(row@));
        }
        i = i + 1;
    }
    assert(all.take(n as int) =~= all);
    rows
}

/// All rows of the overlay.
pub fn overlay_rows(config: &Config, reader: Reader) -> (list: Vec<SectionRows>)
    ensures
        section_rows_views(list@) == overlay_rows_of(
            binds::bind_views(config.binds@),
            config.hide_not_bound,
            reader,
        ),
{
    let found: Vec<Section> = sections::collect_sections(config);
    let ghost all = sections::section_views(found@);
    let ghost views = binds::bind_views(config.binds@);
    let mut list: Vec<SectionRows> = Vec::new();
    assert(section_rows_views(list@) =~= Seq::<SectionRowsView>::empty());
    assert(all.take(0) =~= Seq::<SectionView>::empty());
    let n: usize = found.len();
    let mut i: usize = 0;
    while i < n
        invariant
            n == found@.len(),
            i <= n,
            all == sections::section_views(found@),
            views == binds::bind_views(config.binds@),
            section_rows_views(list@) == with_rows(views, reader, all.take(i as int)),
        decreases n - i,
    {
        assert(all.take(i + 1).drop_last() =~= all.take(i as int));
        assert(all.take(i + 1).last() == found@[i as int]@);
        let ghost before = section_rows_views(list@);
        let rows = rows_of_actions(&config.binds, reader, &found[i].actions);
        if rows.len() > 0 {
            let section = SectionRows { title: found[i].title, rows };
            list.push(section);
            assert(section_rows_views(list@) =~= before.push(section@));
        }
        i = i + 1;
    }
    assert(all.take(n as int) =~= all);
    list
}

/// The key column's text of a row on screen.
pub open spec fn key_cell_of(row: RowView) -> Seq<char> {
    " "@ + match row.key {
        Some(key) => key,
        None => "(not bound)"@,
    } + " "@
}

/// The key column's text of a row on screen.
pub fn key_cell(row: &Row) -> (cell: String)
    ensures
        cell@ == key_cell_of(row@),
{
    let mut cell = " ".to_owned();
    match &row.key {
        Some(key) => cell.append(key.as_str()),
        None => cell.append("(not bound)"),
    }
    cell.append(" ");
    cell
}

/// How many rows there are.
pub open spec fn count_rows(list: Seq<SectionRowsView>) -> nat
    decreases list.len(),
{
    if list.len() == 0 {
        0
    } else {
        count_rows(list.drop_last()) + list.last().rows.len()
    }
}

/// The titles of all rows, as markup.
pub open spec fn titles_of(list: Seq<SectionRowsView>) -> Seq<Seq<char>>
    decreases list.len(),
{
    if list.len() == 0 {
        seq![]
    } else {
        titles_of(list.drop_last()) + row_titles(list.last().rows)
    }
}

pub open spec fn row_titles(rows: Seq<RowView>) -> Seq<Seq<char>> {
    Seq::new(rows.len(), |i: int| rows[i].title)
}

/// The titles of all rows, as markup, in the order in which [`a11y_text`] wants them as plain
/// text.
pub fn markup_titles(list: &Vec<SectionRows>) -> (titles: Vec<String>)
    ensures
        text::texts(titles@) == titles_of(section_rows_views(list@)),
{
    let ghost all = section_rows_views(list@);
    let mut titles: Vec<String> = Vec::new();
    assert(text::texts(titles@) =~= Seq::<Seq<char>>::empty());
    assert(all.take(0) =~= Seq::<SectionRowsView>::empty());
    let n: usize = list.len();
    let mut i: usize = 0;
    while i < n
        invariant
            n == list@.len(),
            i <= n,
            all == section_rows_views(list@),
            text::texts(titles@) == titles_of(all.take(i as int)),
        decreases n - i,
    {
        assert(all.take(i + 1).drop_last() =~= all.take(i as int));
        let ghost before = text::texts(titles@);
        let ghost rows = all[i as int].rows;
        let m: usize = list[i].rows.len();
        let mut k: usize = 0;
        assert(row_titles(rows.take(0)) =~= Seq::<Seq<char>>::empty());
        while k < m
            invariant
                i < list@.len(),
                m == list@[i as int].rows@.len(),
                k <= m,
                rows == row_views(list@[i as int].rows@),
                text::texts(titles@) == before + row_titles(rows.take(k as int)),
            decreases m - k,
        {
            let ghost sofar = text::texts(titles@);
            titles.push(list[i].rows[k].title.clone());
            assert(text::texts(titles@) =~= sofar.push(rows[k as int].title));
            assert(row_titles(rows.take(k + 1)) =~= row_titles(rows.take(k as int)).push(
                rows[k as int].title,
            ));
            k = k + 1;
            assert(text::texts(titles@) =~= before + row_titles(rows.take(k as int)));
        }
        assert(rows.take(m as int) =~= rows);
        i = i + 1;
    }
    assert(all.take(n as int) =~= all);
    titles
}

/// The text of row `k` without markup: as given, or the markup itself where none is given.
pub open spec fn plain_title(row: RowView, plain: Seq<Option<String>>, k: nat) -> Seq<char> {
    if k < plain.len() {
        match plain[k as int] {
            Some(title) => title@,
            None => row.title,
        }
    } else {
        row.title
    }
}

/// A row for a screen reader.
pub open spec fn a11y_line(row: RowView, plain: Seq<Option<String>>, k: nat) -> Seq<char> {
    let key = match row.key {
        Some(key) => key,
        None => "not bound"@,
    };
    key + " "@ + plain_title(row, plain, k) + "\n"@
}

/// Rows for a screen reader, the first of them being row `k` of all.
pub open spec fn a11y_lines(rows: Seq<RowView>, plain: Seq<Option<String>>, k: nat) -> Seq<char>
    decreases rows.len(),
{
    if rows.len() == 0 {
        seq![]
    } else {
        a11y_lines(rows.drop_last(), plain, k) + a11y_line(
            rows.last(),
            plain,
            (k + rows.len() - 1) as nat,
        )
    }
}

/// Sections for a screen reader: each title on a line of its own, then the rows.
pub open spec fn a11y_sections(list: Seq<SectionRowsView>, plain: Seq<Option<String>>) -> Seq<char>
    decreases list.len(),
{
    if list.len() == 0 {
        seq![]
    } else {
        let before = list.drop_last();
        a11y_sections(before, plain) + list.last().title + "\n"@ + a11y_lines(
            list.last().rows,
            plain,
            count_rows(before),
        )
    }
}

/// The overlay for a screen reader.
pub open spec fn a11y_of(list: Seq<SectionRowsView>, plain: Seq<Option<String>>) -> Seq<char> {
    TITLE@ + "\n"@ + a11y_sections(list, plain)
}

/// The overlay for a screen reader. `plain` holds, row by row, what a row's title reads without
/// its markup; where it holds nothing, the markup could not be parsed and is read as it is.
pub fn a11y_text(list: &Vec<SectionRows>, plain: &Vec<Option<String>>) -> (said: String)
    ensures
        said@ == a11y_of(section_rows_views(list@), plain@),
{
    let ghost all = section_rows_views(list@);
    let mut said = TITLE.to_owned();
    said.append("\n");
    let ghost heading = said@;
    // Row counter; it stays at the end of `plain` once there.
    let mut next: usize = 0;
    assert(all.take(0) =~= Seq::<SectionRowsView>::empty());
    assert(said@ =~= heading + a11y_sections(all.take(0), plain@));
    let n: usize = list.len();
    let mut i: usize = 0;
    while i < n
        invariant
            n == list@.len(),
            i <= n,
            all == section_rows_views(list@),
            heading == TITLE@ + "\n"@,
            said@ == heading + a11y_sections(all.take(i as int), plain@),
            next <= plain@.len(),
            next == count_rows(all.take(i as int)) || next == plain@.len() && count_rows(
                all.take(i as int),
            ) > next,
        decreases n - i,
    {
        let ghost before = said@;
        let ghost done = count_rows(all.take(i as int));
        let ghost rows = all[i as int].rows;
        assert(all.take(i + 1).drop_last() =~= all.take(i as int));
        said.append(list[i].title);
        said.append("\n");
        let ghost titled = said@;
        let m: usize = list[i].rows.len();
        let mut k: usize = 0;
        assert(rows.take(0) =~= Seq::<RowView>::empty());
        assert(said@ =~= titled + a11y_lines(rows.take(0), plain@, done));
        while k < m
            invariant
                i < list@.len(),
                m == list@[i as int].rows@.len(),
                k <= m,
                rows == row_views(list@[i as int].rows@),
                said@ == titled + a11y_lines(rows.take(k as int), plain@, done),
                next <= plain@.len(),
                next == done + k || next == plain@.len() && done + k > next,
            decreases m - k,
        {
            assert(rows.take(k + 1).drop_last() =~= rows.take(k as int));
            let ghost sofar = said@;
            let row: &Row = &list[i].rows[k];
            match &row.key {
                Some(key) => said.append(key.as_str()),
                None => said.append("not bound"),
            }
            said.append(" ");
            let mut given: Option<&String> = None;
            if next < plain.len() {
                if let Some(title) = &plain[next] {
                    given = Some(title);
                }
                next = next + 1;
            }
            match given {
                Some(title) => said.append(title.as_str()),
                None => said.append(row.title.as_str()),
            }
            said.append("\n");
            assert(said@ =~= sofar + a11y_line(rows[k as int], plain@, (done + k) as nat));
            k = k + 1;
            assert(said@ =~= titled + a11y_lines(rows.take(k as int), plain@, done));
        }
        assert(rows.take(m as int) =~= rows);
        i = i + 1;
        assert(said@ =~= heading + a11y_sections(all.take(i as int), plain@));
    }
    assert(all.take(n as int) =~= all);
    said
}

/// Every row has one title to be read out, and no other titles are.
pub proof fn every_row_has_a_title(list: Seq<SectionRowsView>)
    ensures
        titles_of(list).len() == count_rows(list),
    decreases list.len(),
{
    if list.len() > 0 {
        every_row_has_a_title(list.drop_last());
    }
}

proof fn with_rows_fills(binds: Seq<BindView>, reader: Reader, list: Seq<SectionView>)
    ensures
        forall|i: int|
            0 <= i < with_rows(binds, reader, list).len() ==> (#[trigger] with_rows(
                binds,
                reader,
                list,
            )[i]).rows.len() > 0,
    decreases list.len(),
{
    if list.len() > 0 {
        with_rows_fills(binds, reader, list.drop_last());
        let before = with_rows(binds, reader, list.drop_last());
        let all = with_rows(binds, reader, list);
        assert forall|i: int| 0 <= i < all.len() implies (#[trigger] all[i]).rows.len() > 0 by {
            if i < before.len() {
                assert(all[i] == before[i]);
            }
        }
    }
}

/// A section without rows is neither shown nor read out: not even its title.
pub proof fn shown_sections_have_rows(binds: Seq<BindView>, hide_not_bound: bool, reader: Reader)
    ensures
        forall|i: int|
            0 <= i < overlay_rows_of(binds, hide_not_bound, reader).len() ==> (
            #[trigger] overlay_rows_of(binds, hide_not_bound, reader)[i]).rows.len() > 0,
{
    with_rows_fills(binds, reader, sections::sections_of(binds, hide_not_bound));
}

} // verus!
