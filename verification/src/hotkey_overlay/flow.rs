//! Flowing sections into columns.

use vstd::prelude::*;

verus! {

/// A line of the overlay.
#[derive(Debug, Clone, Copy, PartialEq, Eq, Structural)]
pub enum Item {
    /// Header of section `.0`.
    Header(usize),
    /// Row `.1` of section `.0`.
    Row(usize, usize),
}

/// Heights of one section's lines.
pub struct Dims {
    pub header: int,
    pub rows: Seq<int>,
}

/// Heights of all sections' lines.
pub open spec fn dims_of(sections: Seq<(i32, Vec<i32>)>) -> Seq<Dims> {
    Seq::new(
        sections.len(),
        |s: int|
            Dims {
                header: sections[s].0 as int,
                rows: Seq::new(sections[s].1@.len(), |r: int| sections[s].1@[r] as int),
            },
    )
}

/// Columns filled so far, and the height of the last one.
pub struct Flow {
    pub columns: Seq<Seq<Item>>,
    pub height: int,
}

/// Nothing placed yet.
pub open spec fn no_flow() -> Flow {
    Flow { columns: seq![seq![]], height: 0 }
}

/// A new column is opened.
pub open spec fn opened(f: Flow) -> Flow {
    Flow { columns: f.columns.push(seq![]), height: 0 }
}

/// A line is put at the bottom of the last column.
pub open spec fn placed(f: Flow, item: Item, height: int) -> Flow {
    Flow {
        columns: f.columns.drop_last().push(f.columns.last().push(item)),
        height: f.height + height,
    }
}

/// What has to fit below a header: the header itself and its first row.
pub open spec fn keep_height(dims: Dims) -> int {
    dims.header + if dims.rows.len() > 0 { dims.rows[0] } else { 0 }
}

/// A header goes below the gap at the bottom of the last column if it fits there together with
/// its first row, and else to the top of a new column.
pub open spec fn place_header(f: Flow, s: nat, dims: Dims, gap: int, budget: int) -> Flow {
    if f.columns.last().len() == 0 {
        placed(f, Item::Header(s as usize), dims.header)
    } else if f.height + gap + keep_height(dims) > budget {
        placed(opened(f), Item::Header(s as usize), dims.header)
    } else {
        placed(f, Item::Header(s as usize), gap + dims.header)
    }
}

/// A row goes to the bottom of the last column if it fits there, or if nothing is there yet, and
/// else to the top of a new column.
pub open spec fn place_row(f: Flow, s: nat, r: nat, height: int, budget: int) -> Flow {
    if f.height + height > budget && f.height > 0 {
        placed(opened(f), Item::Row(s as usize, r as usize), height)
    } else {
        placed(f, Item::Row(s as usize, r as usize), height)
    }
}

/// The first `n` rows of a section are placed.
pub open spec fn place_rows(f: Flow, s: nat, dims: Dims, n: nat, budget: int) -> Flow
    decreases n,
{
    if n == 0 {
        f
    } else {
        let r = (n - 1) as nat;
        place_row(place_rows(f, s, dims, r, budget), s, r, dims.rows[r as int], budget)
    }
}

/// One section is placed.
pub open spec fn place_section(f: Flow, s: nat, dims: Dims, gap: int, budget: int) -> Flow {
    place_rows(place_header(f, s, dims, gap, budget), s, dims, dims.rows.len(), budget)
}

/// The first `n` sections are placed.
pub open spec fn place_sections(dims: Seq<Dims>, n: nat, gap: int, budget: int) -> Flow
    decreases n,
{
    if n == 0 {
        no_flow()
    } else {
        let s = (n - 1) as nat;
        place_section(place_sections(dims, s, gap, budget), s, dims[s as int], gap, budget)
    }
}

/// The columns that the sections flow into.
pub open spec fn flowed(dims: Seq<Dims>, gap: int, budget: int) -> Seq<Seq<Item>> {
    place_sections(dims, dims.len(), gap, budget).columns
}

/// Columns as mathematical values.
pub open spec fn column_views(columns: Seq<Vec<Item>>) -> Seq<Seq<Item>> {
    Seq::new(columns.len(), |c: int| columns[c]@)
}

/// Puts a line at the bottom of the last column.
fn push_item(columns: &mut Vec<Vec<Item>>, item: Item)
    requires
        old(columns)@.len() > 0,
    ensures
        column_views(final(columns)@) == column_views(old(columns)@).drop_last().push(
            column_views(old(columns)@).last().push(item),
        ),
        final(columns)@.len() == old(columns)@.len(),
        final(columns)@.last()@.len() == old(columns)@.last()@.len() + 1,
{
    if let Some(last) = columns.pop() {
        let mut last: Vec<Item> = last;
        last.push(item);
        columns.push(last);
    }
    assert(column_views(columns@) =~= column_views(old(columns)@).drop_last().push(
        column_views(old(columns)@).last().push(item),
    ));
}

/// Every line adds at most the height of a gap and a header to its column.
spec fn height_bounded(columns: Seq<Vec<Item>>, height: int) -> bool {
    &&& columns.len() > 0
    &&& -0x1_0000_0000 * columns.last()@.len() <= height <= 0x1_0000_0000 * columns.last()@.len()
}

fn open_column(columns: &mut Vec<Vec<Item>>)
    ensures
        column_views(final(columns)@) == column_views(old(columns)@).push(seq![]),
        final(columns)@.len() == old(columns)@.len() + 1,
        final(columns)@.last()@.len() == 0,
{
    columns.push(Vec::new());
    assert(column_views(columns@) =~= column_views(old(columns)@).push(seq![]));
}

/// Flows sections into columns no taller than `budget`.
///
/// Takes (header height, row heights) per section; all heights must already take in the line
/// interval below the element. `gap` is the extra space above a section header that isn't at the
/// top of its column.
///
/// Content flows continuously: a section that hits the bottom of a column continues its rows at
/// the top of the next one, without repeating the header. The one exception is that a header is
/// not left alone at the bottom of a column: it moves together with at least its first row.
pub fn flow_into_columns(sections: &[(i32, Vec<i32>)], gap: i32, budget: i32) -> (columns: Vec<
    Vec<Item>,
>)
    ensures
        column_views(columns@) == flowed(dims_of(sections@), gap as int, budget as int),
{
    let ghost dims = dims_of(sections@);
    let mut columns: Vec<Vec<Item>> = Vec::new();
    open_column(&mut columns);
    assert(column_views(columns@) =~= no_flow().columns);
    let mut col_h: i128 = 0;
    let mut s: usize = 0;
    while s < sections.len()
        invariant
            s <= sections@.len(),
            dims == dims_of(sections@),
            (Flow { columns: column_views(columns@), height: col_h as int }) == place_sections(
                dims,
                s as nat,
                gap as int,
                budget as int,
            ),
            height_bounded(columns@, col_h as int),
        decreases sections@.len() - s,
    {
        let ghost f = Flow { columns: column_views(columns@), height: col_h as int };
        let header_h: i128 = sections[s].0 as i128;
        let rows: &Vec<i32> = &sections[s].1;
        assert(dims[s as int].header == header_h);
        assert(dims[s as int].rows.len() == rows@.len());
        assert(forall|r: int| 0 <= r < rows@.len() ==> dims[s as int].rows[r] == rows@[r]);

        // Keep the header attached to at least the first row.
        let mut keep: i128 = header_h;
        if rows.len() > 0 {
            keep = keep + rows[0] as i128;
        }
        let last_len: usize = columns[columns.len() - 1].len();
        assert(f.columns.last() == columns@.last()@);
        if last_len > 0 {
            if col_h + gap as i128 + keep > budget as i128 {
                open_column(&mut columns);
                col_h = 0;
            } else {
                col_h = col_h + gap as i128;
            }
        }
        push_item(&mut columns, Item::Header(s));
        col_h = col_h + header_h;
        let ghost headed = place_header(f, s as nat, dims[s as int], gap as int, budget as int);
        assert(column_views(columns@) == headed.columns);

        let mut r: usize = 0;
        while r < rows.len()
            invariant
                r <= rows@.len(),
                s < dims.len(),
                s < usize::MAX,
                dims[s as int].rows.len() == rows@.len(),
                forall|r: int| 0 <= r < rows@.len() ==> dims[s as int].rows[r] == rows@[r],
                (Flow { columns: column_views(columns@), height: col_h as int }) == place_rows(
                    headed,
                    s as nat,
                    dims[s as int],
                    r as nat,
                    budget as int,
                ),
                height_bounded(columns@, col_h as int),
            decreases rows@.len() - r,
        {
            let row_h: i128 = rows[r] as i128;
            assert(columns@.last()@.len() == columns@.last().len());
            // The col_h > 0 check keeps a row taller than the whole budget from spilling into an
            // endless run of empty columns.
            if col_h + row_h > budget as i128 && col_h > 0 {
                open_column(&mut columns);
                col_h = 0;
            }
            push_item(&mut columns, Item::Row(s, r));
            col_h = col_h + row_h;
            r = r + 1;
        }
        s = s + 1;
    }
    columns
}

/// All columns, one after another.
pub open spec fn flat(columns: Seq<Seq<Item>>) -> Seq<Item>
    decreases columns.len(),
{
    if columns.len() == 0 {
        seq![]
    } else {
        flat(columns.drop_last()) + columns.last()
    }
}

/// The first `n` rows of section `s`.
pub open spec fn row_items(s: nat, n: nat) -> Seq<Item> {
    Seq::new(n, |r: int| Item::Row(s as usize, r as usize))
}

/// The lines of the first `n` sections: each header once, followed by the section's rows.
pub open spec fn items_of(dims: Seq<Dims>, n: nat) -> Seq<Item>
    decreases n,
{
    if n == 0 {
        seq![]
    } else {
        let s = (n - 1) as nat;
        items_of(dims, s).push(Item::Header(s as usize)) + row_items(s, dims[s as int].rows.len())
    }
}

proof fn placed_appends(f: Flow, item: Item, height: int)
    requires
        f.columns.len() > 0,
    ensures
        placed(f, item, height).columns.len() > 0,
        flat(placed(f, item, height).columns) == flat(f.columns).push(item),
{
    let g = placed(f, item, height);
    assert(g.columns.drop_last() =~= f.columns.drop_last());
    assert(flat(g.columns) =~= flat(f.columns).push(item));
}

proof fn opened_appends_nothing(f: Flow)
    ensures
        opened(f).columns.len() > 0,
        flat(opened(f).columns) == flat(f.columns),
{
    assert(opened(f).columns.drop_last() =~= f.columns);
    assert(flat(opened(f).columns) =~= flat(f.columns));
}

proof fn rows_append(f: Flow, s: nat, dims: Dims, n: nat, budget: int)
    requires
        f.columns.len() > 0,
    ensures
        place_rows(f, s, dims, n, budget).columns.len() > 0,
        flat(place_rows(f, s, dims, n, budget).columns) == flat(f.columns) + row_items(s, n),
    decreases n,
{
    if n == 0 {
        assert(flat(f.columns) + row_items(s, 0) =~= flat(f.columns));
    } else {
        let r = (n - 1) as nat;
        rows_append(f, s, dims, r, budget);
        let before = place_rows(f, s, dims, r, budget);
        let item = Item::Row(s as usize, r as usize);
        opened_appends_nothing(before);
        placed_appends(opened(before), item, dims.rows[r as int]);
        placed_appends(before, item, dims.rows[r as int]);
        assert(row_items(s, n) =~= row_items(s, r).push(item));
        assert(flat(f.columns) + row_items(s, n) =~= (flat(f.columns) + row_items(s, r)).push(
            item,
        ));
    }
}

proof fn sections_append(dims: Seq<Dims>, n: nat, gap: int, budget: int)
    ensures
        place_sections(dims, n, gap, budget).columns.len() > 0,
        flat(place_sections(dims, n, gap, budget).columns) == items_of(dims, n),
    decreases n,
{
    if n == 0 {
        let start = no_flow().columns;
        assert(start.drop_last() =~= Seq::<Seq<Item>>::empty());
        assert(flat(Seq::<Seq<Item>>::empty()) =~= Seq::<Item>::empty());
        assert(flat(start) =~= Seq::<Item>::empty());
    } else {
        let s = (n - 1) as nat;
        sections_append(dims, s, gap, budget);
        let before = place_sections(dims, s, gap, budget);
        let d = dims[s as int];
        let item = Item::Header(s as usize);
        opened_appends_nothing(before);
        placed_appends(opened(before), item, d.header);
        placed_appends(before, item, d.header);
        placed_appends(before, item, gap + d.header);
        rows_append(place_header(before, s, d, gap, budget), s, d, d.rows.len(), budget);
    }
}

/// Nothing is lost, repeated or reordered: read column by column, the lines are the sections in
/// order, each header once followed by its rows.
pub proof fn flow_keeps_content(dims: Seq<Dims>, gap: int, budget: int)
    ensures
        flat(flowed(dims, gap, budget)) == items_of(dims, dims.len()),
{
    sections_append(dims, dims.len(), gap, budget);
}

/// No column is empty.
spec fn filled(columns: Seq<Seq<Item>>) -> bool {
    forall|c: int| 0 <= c < columns.len() ==> (#[trigger] columns[c]).len() > 0
}

proof fn placed_fills(f: Flow, item: Item, height: int)
    requires
        f.columns.len() > 0,
        filled(f.columns.drop_last()),
    ensures
        placed(f, item, height).columns.len() > 0,
        filled(placed(f, item, height).columns),
{
    let g = placed(f, item, height);
    assert forall|c: int| 0 <= c < g.columns.len() implies (#[trigger] g.columns[c]).len() > 0 by {
        if c < g.columns.len() - 1 {
            assert(g.columns[c] == f.columns.drop_last()[c]);
        }
    }
}

proof fn filled_prefix(f: Flow)
    requires
        f.columns.len() > 0,
        filled(f.columns),
    ensures
        filled(f.columns.drop_last()),
        filled(opened(f).columns.drop_last()),
{
    assert(opened(f).columns.drop_last() =~= f.columns);
    assert forall|c: int| 0 <= c < f.columns.drop_last().len() implies (
    #[trigger] f.columns.drop_last()[c]).len() > 0 by {
        assert(f.columns.drop_last()[c] == f.columns[c]);
    }
}

proof fn rows_fill(f: Flow, s: nat, dims: Dims, n: nat, budget: int)
    requires
        f.columns.len() > 0,
        filled(f.columns),
    ensures
        place_rows(f, s, dims, n, budget).columns.len() > 0,
        filled(place_rows(f, s, dims, n, budget).columns),
    decreases n,
{
    if n > 0 {
        let r = (n - 1) as nat;
        rows_fill(f, s, dims, r, budget);
        let before = place_rows(f, s, dims, r, budget);
        let item = Item::Row(s as usize, r as usize);
        filled_prefix(before);
        placed_fills(opened(before), item, dims.rows[r as int]);
        placed_fills(before, item, dims.rows[r as int]);
    }
}

proof fn sections_fill(dims: Seq<Dims>, n: nat, gap: int, budget: int)
    ensures
        place_sections(dims, n, gap, budget).columns.len() > 0,
        n > 0 ==> filled(place_sections(dims, n, gap, budget).columns),
    decreases n,
{
    if n > 0 {
        let s = (n - 1) as nat;
        sections_fill(dims, s, gap, budget);
        let before = place_sections(dims, s, gap, budget);
        let d = dims[s as int];
        let item = Item::Header(s as usize);
        if s > 0 {
            filled_prefix(before);
            placed_fills(opened(before), item, d.header);
            placed_fills(before, item, gap + d.header);
        } else {
            placed_fills(before, item, d.header);
        }
        rows_fill(place_header(before, s, d, gap, budget), s, d, d.rows.len(), budget);
    }
}

/// No column is empty, however small the budget, unless there is nothing to place; then there is
/// one empty column.
pub proof fn flow_leaves_no_empty_column(dims: Seq<Dims>, gap: int, budget: int)
    ensures
        dims.len() == 0 ==> flowed(dims, gap, budget) == seq![Seq::<Item>::empty()],
        dims.len() > 0 ==> forall|c: int|
            0 <= c < flowed(dims, gap, budget).len() ==> (#[trigger] flowed(
                dims,
                gap,
                budget,
            )[c]).len() > 0,
{
    sections_fill(dims, dims.len(), gap, budget);
}

/// Wherever the header of section `s` stands, its first row follows in the same column.
pub open spec fn attached(columns: Seq<Seq<Item>>, s: usize) -> bool {
    forall|c: int, j: int|
        0 <= c < columns.len() && 0 <= j < columns[c].len() && #[trigger] columns[c][j]
            == Item::Header(s) ==> j + 1 < columns[c].len() && columns[c][j + 1] == Item::Row(s, 0)
}

/// Section `s` has no header yet.
spec fn headless(columns: Seq<Seq<Item>>, s: usize) -> bool {
    forall|c: int, j: int|
        0 <= c < columns.len() && 0 <= j < columns[c].len() ==> #[trigger] columns[c][j]
            != Item::Header(s)
}

proof fn placed_keeps_attached(f: Flow, item: Item, height: int, s: usize)
    requires
        f.columns.len() > 0,
        item != Item::Header(s),
    ensures
        placed(f, item, height).columns.len() > 0,
        attached(f.columns, s) ==> attached(placed(f, item, height).columns, s),
        headless(f.columns, s) ==> headless(placed(f, item, height).columns, s),
{
    let g = placed(f, item, height);
    let n = f.columns.len() - 1;
    assert forall|c: int, j: int|
        0 <= c < g.columns.len() && 0 <= j < g.columns[c].len() && #[trigger] g.columns[c][j]
            == Item::Header(s) implies 0 <= c < f.columns.len() && 0 <= j < f.columns[c].len()
        && f.columns[c][j] == Item::Header(s) && (j + 1 < f.columns[c].len() ==> j + 1
        < g.columns[c].len() && g.columns[c][j + 1] == f.columns[c][j + 1]) by {
        if c < n {
            assert(g.columns[c] == f.columns[c]);
        } else {
            assert(g.columns[c] == f.columns[n].push(item));
        }
    }
}

proof fn opened_keeps_attached(f: Flow, s: usize)
    ensures
        opened(f).columns.len() > 0,
        attached(f.columns, s) ==> attached(opened(f).columns, s),
        headless(f.columns, s) ==> headless(opened(f).columns, s),
{
    let g = opened(f);
    assert forall|c: int, j: int|
        0 <= c < g.columns.len() && 0 <= j < g.columns[c].len() && #[trigger] g.columns[c][j]
            == Item::Header(s) implies c < f.columns.len() && g.columns[c] == f.columns[c] by {
        if c == f.columns.len() {
            assert(g.columns[c].len() == 0);
        }
    }
}

proof fn rows_keep_attached(f: Flow, section: nat, dims: Dims, n: nat, budget: int, s: usize)
    requires
        f.columns.len() > 0,
    ensures
        place_rows(f, section, dims, n, budget).columns.len() > 0,
        attached(f.columns, s) ==> attached(
            place_rows(f, section, dims, n, budget).columns,
            s,
        ),
        headless(f.columns, s) ==> headless(
            place_rows(f, section, dims, n, budget).columns,
            s,
        ),
    decreases n,
{
    if n > 0 {
        let r = (n - 1) as nat;
        rows_keep_attached(f, section, dims, r, budget, s);
        let before = place_rows(f, section, dims, r, budget);
        let item = Item::Row(section as usize, r as usize);
        opened_keeps_attached(before, s);
        placed_keeps_attached(opened(before), item, dims.rows[r as int], s);
        placed_keeps_attached(before, item, dims.rows[r as int], s);
    }
}

proof fn other_section_keeps_attached(
    f: Flow,
    section: nat,
    dims: Dims,
    gap: int,
    budget: int,
    s: usize,
)
    requires
        f.columns.len() > 0,
        section as usize != s,
    ensures
        place_section(f, section, dims, gap, budget).columns.len() > 0,
        attached(f.columns, s) ==> attached(
            place_section(f, section, dims, gap, budget).columns,
            s,
        ),
        headless(f.columns, s) ==> headless(
            place_section(f, section, dims, gap, budget).columns,
            s,
        ),
{
    let item = Item::Header(section as usize);
    opened_keeps_attached(f, s);
    placed_keeps_attached(opened(f), item, dims.header, s);
    placed_keeps_attached(f, item, dims.header, s);
    placed_keeps_attached(f, item, gap + dims.header, s);
    rows_keep_attached(
        place_header(f, section, dims, gap, budget),
        section,
        dims,
        dims.rows.len(),
        budget,
        s,
    );
}

/// The rows from the second on come after the first.
proof fn rows_after_first(f: Flow, section: nat, dims: Dims, n: nat, budget: int)
    requires
        n >= 1,
        place_row(f, section, 0, dims.rows[0], budget).columns.len() > 0,
        attached(place_row(f, section, 0, dims.rows[0], budget).columns, section as usize),
    ensures
        place_rows(f, section, dims, n, budget).columns.len() > 0,
        attached(place_rows(f, section, dims, n, budget).columns, section as usize),
    decreases n,
{
    if n == 1 {
        assert(place_rows(f, section, dims, 0, budget) == f);
    } else {
        let r = (n - 1) as nat;
        rows_after_first(f, section, dims, r, budget);
        let before = place_rows(f, section, dims, r, budget);
        let item = Item::Row(section as usize, r as usize);
        opened_keeps_attached(before, section as usize);
        placed_keeps_attached(opened(before), item, dims.rows[r as int], section as usize);
        placed_keeps_attached(before, item, dims.rows[r as int], section as usize);
    }
}

/// A header and the row placed right below it are attached.
proof fn header_then_row_attached(f: Flow, s: usize, header: int, row: int)
    requires
        f.columns.len() > 0,
        headless(f.columns, s),
    ensures
        attached(placed(placed(f, Item::Header(s), header), Item::Row(s, 0), row).columns, s),
{
    let g = placed(f, Item::Header(s), header);
    let h = placed(g, Item::Row(s, 0), row);
    let n = f.columns.len() - 1;
    assert(g.columns.last() =~= f.columns.last().push(Item::Header(s)));
    assert(h.columns.last() =~= f.columns.last().push(Item::Header(s)).push(Item::Row(s, 0)));
    assert forall|c: int, j: int|
        0 <= c < h.columns.len() && 0 <= j < h.columns[c].len() && #[trigger] h.columns[c][j]
            == Item::Header(s) implies j + 1 < h.columns[c].len() && h.columns[c][j + 1]
        == Item::Row(s, 0) by {
        if c < n {
            assert(h.columns[c] == f.columns[c]);
            assert(f.columns[c][j] != Item::Header(s));
        } else {
            assert(h.columns[c] == h.columns.last());
            if j < f.columns[n].len() {
                assert(f.columns[n][j] != Item::Header(s));
            }
        }
    }
}

proof fn sections_attach(dims: Seq<Dims>, n: nat, gap: int, budget: int, s: nat)
    requires
        n <= dims.len() <= usize::MAX,
        s < dims.len(),
        dims[s as int].rows.len() > 0,
        keep_height(dims[s as int]) <= budget || dims[s as int].header <= 0,
    ensures
        place_sections(dims, n, gap, budget).columns.len() > 0,
        n <= s ==> headless(place_sections(dims, n, gap, budget).columns, s as usize),
        n > s ==> attached(place_sections(dims, n, gap, budget).columns, s as usize),
    decreases n,
{
    if n > 0 {
        let t = (n - 1) as nat;
        let before = place_sections(dims, t, gap, budget);
        let d = dims[t as int];
        sections_attach(dims, t, gap, budget, s);
        if t != s {
            other_section_keeps_attached(before, t, d, gap, budget, s as usize);
        } else {
            opened_keeps_attached(before, s as usize);
            header_then_row_attached(before, s as usize, d.header, d.rows[0]);
            header_then_row_attached(before, s as usize, gap + d.header, d.rows[0]);
            header_then_row_attached(opened(before), s as usize, d.header, d.rows[0]);
            let headed = place_header(before, t, d, gap, budget);
            assert(before.columns.last().len() == 0 ==> before.height == 0) by {
                empty_column_has_no_height(dims, t, gap, budget);
            }
            rows_after_first(headed, t, d, d.rows.len(), budget);
        }
    }
}

proof fn rows_leave_height(f: Flow, s: nat, dims: Dims, n: nat, budget: int)
    requires
        f.columns.len() > 0,
        f.columns.last().len() > 0,
    ensures
        place_rows(f, s, dims, n, budget).columns.len() > 0,
        place_rows(f, s, dims, n, budget).columns.last().len() > 0,
    decreases n,
{
    if n > 0 {
        rows_leave_height(f, s, dims, (n - 1) as nat, budget);
    }
}

/// An empty last column has no height.
proof fn empty_column_has_no_height(dims: Seq<Dims>, n: nat, gap: int, budget: int)
    ensures
        place_sections(dims, n, gap, budget).columns.len() > 0,
        place_sections(dims, n, gap, budget).columns.last().len() == 0 ==> place_sections(
            dims,
            n,
            gap,
            budget,
        ).height == 0,
    decreases n,
{
    if n > 0 {
        let s = (n - 1) as nat;
        empty_column_has_no_height(dims, s, gap, budget);
        let before = place_sections(dims, s, gap, budget);
        let d = dims[s as int];
        rows_leave_height(place_header(before, s, d, gap, budget), s, d, d.rows.len(), budget);
    }
}

/// A header is never left alone at the bottom of a column: its first row follows in the same
/// column, wherever the two fit into a column at all.
pub proof fn flow_keeps_header_with_first_row(dims: Seq<Dims>, gap: int, budget: int, s: nat)
    requires
        s < dims.len() <= usize::MAX,
        dims[s as int].rows.len() > 0,
        keep_height(dims[s as int]) <= budget || dims[s as int].header <= 0,
    ensures
        attached(flowed(dims, gap, budget), s as usize),
{
    sections_attach(dims, dims.len(), gap, budget, s);
}

/// Height of a column: its lines, and the gap above every header that isn't at the top.
pub open spec fn height_of(dims: Seq<Dims>, gap: int, column: Seq<Item>) -> int
    decreases column.len(),
{
    if column.len() == 0 {
        0
    } else {
        height_of(dims, gap, column.drop_last()) + match column.last() {
            Item::Header(s) => dims[s as int].header + if column.len() > 1 {
                gap
            } else {
                0
            },
            Item::Row(s, r) => dims[s as int].rows[r as int],
        }
    }
}

/// The column is within the budget, or nothing of any height stands above its last line.
pub open spec fn fits(dims: Seq<Dims>, gap: int, budget: int, column: Seq<Item>) -> bool {
    ||| column.len() == 0
    ||| height_of(dims, gap, column) <= budget
    ||| height_of(dims, gap, column.drop_last()) <= 0
}

/// The height is that of the last column, and every column fits.
spec fn measured(dims: Seq<Dims>, gap: int, budget: int, f: Flow) -> bool {
    &&& f.columns.len() > 0
    &&& f.height == height_of(dims, gap, f.columns.last())
    &&& forall|c: int|
        0 <= c < f.columns.len() ==> #[trigger] fits(dims, gap, budget, f.columns[c])
}

proof fn opened_measured(dims: Seq<Dims>, gap: int, budget: int, f: Flow)
    requires
        measured(dims, gap, budget, f),
    ensures
        measured(dims, gap, budget, opened(f)),
{
    let g = opened(f);
    assert forall|c: int| 0 <= c < g.columns.len() implies #[trigger] fits(
        dims,
        gap,
        budget,
        g.columns[c],
    ) by {
        if c < f.columns.len() {
            assert(g.columns[c] == f.columns[c]);
        }
    }
}

proof fn placed_measured(
    dims: Seq<Dims>,
    gap: int,
    budget: int,
    f: Flow,
    item: Item,
    height: int,
)
    requires
        measured(dims, gap, budget, f),
        height == match item {
            Item::Header(s) => dims[s as int].header + if f.columns.last().len() > 0 {
                gap
            } else {
                0
            },
            Item::Row(s, r) => dims[s as int].rows[r as int],
        },
        f.height + height <= budget || f.height <= 0,
    ensures
        measured(dims, gap, budget, placed(f, item, height)),
{
    let g = placed(f, item, height);
    let last = g.columns.last();
    assert(last.drop_last() =~= f.columns.last());
    assert forall|c: int| 0 <= c < g.columns.len() implies #[trigger] fits(
        dims,
        gap,
        budget,
        g.columns[c],
    ) by {
        if c < g.columns.len() - 1 {
            assert(g.columns[c] == f.columns[c]);
        } else {
            assert(g.columns[c] == last);
        }
    }
}

proof fn rows_measured(
    dims: Seq<Dims>,
    gap: int,
    budget: int,
    f: Flow,
    s: nat,
    n: nat,
)
    requires
        measured(dims, gap, budget, f),
        s < dims.len() <= usize::MAX,
        n <= dims[s as int].rows.len() <= usize::MAX,
    ensures
        measured(dims, gap, budget, place_rows(f, s, dims[s as int], n, budget)),
    decreases n,
{
    if n > 0 {
        let r = (n - 1) as nat;
        rows_measured(dims, gap, budget, f, s, r);
        let before = place_rows(f, s, dims[s as int], r, budget);
        let item = Item::Row(s as usize, r as usize);
        let height = dims[s as int].rows[r as int];
        if before.height + height > budget && before.height > 0 {
            opened_measured(dims, gap, budget, before);
            placed_measured(dims, gap, budget, opened(before), item, height);
        } else {
            placed_measured(dims, gap, budget, before, item, height);
        }
    }
}

/// The sizes can be counted by the machine, and no section's first row has a negative height.
pub open spec fn sensible(dims: Seq<Dims>) -> bool {
    &&& dims.len() <= usize::MAX
    &&& forall|s: int|
        0 <= s < dims.len() ==> (#[trigger] dims[s]).rows.len() <= usize::MAX && (
        dims[s].rows.len() > 0 ==> dims[s].rows[0] >= 0)
}

proof fn sections_measured(dims: Seq<Dims>, n: nat, gap: int, budget: int)
    requires
        n <= dims.len(),
        sensible(dims),
    ensures
        measured(dims, gap, budget, place_sections(dims, n, gap, budget)),
    decreases n,
{
    if n > 0 {
        let s = (n - 1) as nat;
        sections_measured(dims, s, gap, budget);
        let before = place_sections(dims, s, gap, budget);
        let d = dims[s as int];
        let item = Item::Header(s as usize);
        if before.columns.last().len() == 0 {
            placed_measured(dims, gap, budget, before, item, d.header);
        } else if before.height + gap + keep_height(d) > budget {
            opened_measured(dims, gap, budget, before);
            placed_measured(dims, gap, budget, opened(before), item, d.header);
        } else {
            placed_measured(dims, gap, budget, before, item, gap + d.header);
        }
        rows_measured(
            dims,
            gap,
            budget,
            place_header(before, s, d, gap, budget),
            s,
            d.rows.len(),
        );
    }
}

/// Columns are no taller than the budget; the exception is a line that has nothing of any height
/// above it in its column, which has to stand somewhere.
pub proof fn flow_stays_within_budget(dims: Seq<Dims>, gap: int, budget: int)
    requires
        sensible(dims),
    ensures
        forall|c: int|
            0 <= c < flowed(dims, gap, budget).len() ==> #[trigger] fits(
                dims,
                gap,
                budget,
                flowed(dims, gap, budget)[c],
            ),
{
    sections_measured(dims, dims.len(), gap, budget);
}

/// The line belongs to the sections.
pub open spec fn in_range(dims: Seq<Dims>, item: Item) -> bool {
    match item {
        Item::Header(s) => s < dims.len(),
        Item::Row(s, r) => s < dims.len() && r < dims[s as int].rows.len(),
    }
}

/// All lines of all columns belong to the sections.
pub open spec fn all_in_range(dims: Seq<Dims>, columns: Seq<Seq<Item>>) -> bool {
    forall|c: int, j: int|
        0 <= c < columns.len() && 0 <= j < columns[c].len() ==> in_range(
            dims,
            #[trigger] columns[c][j],
        )
}

proof fn placed_in_range(dims: Seq<Dims>, f: Flow, item: Item, height: int)
    requires
        f.columns.len() > 0,
        all_in_range(dims, f.columns),
        in_range(dims, item),
    ensures
        placed(f, item, height).columns.len() > 0,
        all_in_range(dims, placed(f, item, height).columns),
{
    let g = placed(f, item, height);
    assert forall|c: int, j: int|
        0 <= c < g.columns.len() && 0 <= j < g.columns[c].len() implies in_range(
        dims,
        #[trigger] g.columns[c][j],
    ) by {
        if c < f.columns.len() - 1 {
            assert(g.columns[c][j] == f.columns[c][j]);
        } else if j < f.columns.last().len() {
            assert(g.columns[c][j] == f.columns[c][j]);
        }
    }
}

proof fn opened_in_range(dims: Seq<Dims>, f: Flow)
    requires
        all_in_range(dims, f.columns),
    ensures
        all_in_range(dims, opened(f).columns),
{
    let g = opened(f);
    assert forall|c: int, j: int|
        0 <= c < g.columns.len() && 0 <= j < g.columns[c].len() implies in_range(
        dims,
        #[trigger] g.columns[c][j],
    ) by {
        if c < f.columns.len() {
            assert(g.columns[c][j] == f.columns[c][j]);
        }
    }
}

proof fn rows_in_range(dims: Seq<Dims>, f: Flow, s: nat, n: nat, budget: int)
    requires
        f.columns.len() > 0,
        all_in_range(dims, f.columns),
        s < dims.len() <= usize::MAX,
        n <= dims[s as int].rows.len() <= usize::MAX,
    ensures
        place_rows(f, s, dims[s as int], n, budget).columns.len() > 0,
        all_in_range(dims, place_rows(f, s, dims[s as int], n, budget).columns),
    decreases n,
{
    if n > 0 {
        let r = (n - 1) as nat;
        rows_in_range(dims, f, s, r, budget);
        let before = place_rows(f, s, dims[s as int], r, budget);
        let item = Item::Row(s as usize, r as usize);
        let height = dims[s as int].rows[r as int];
        opened_in_range(dims, before);
        placed_in_range(dims, opened(before), item, height);
        placed_in_range(dims, before, item, height);
    }
}

proof fn sections_in_range(dims: Seq<Dims>, n: nat, gap: int, budget: int)
    requires
        n <= dims.len() <= usize::MAX,
        forall|s: int| 0 <= s < dims.len() ==> (#[trigger] dims[s]).rows.len() <= usize::MAX,
    ensures
        place_sections(dims, n, gap, budget).columns.len() > 0,
        all_in_range(dims, place_sections(dims, n, gap, budget).columns),
    decreases n,
{
    if n > 0 {
        let s = (n - 1) as nat;
        sections_in_range(dims, s, gap, budget);
        let before = place_sections(dims, s, gap, budget);
        let d = dims[s as int];
        let item = Item::Header(s as usize);
        opened_in_range(dims, before);
        placed_in_range(dims, opened(before), item, d.header);
        placed_in_range(dims, before, item, d.header);
        placed_in_range(dims, before, item, gap + d.header);
        rows_in_range(dims, place_header(before, s, d, gap, budget), s, d.rows.len(), budget);
    }
}

/// Every placed line is a line of the sections, and there is at least one column.
pub proof fn flow_places_lines_of_sections(dims: Seq<Dims>, gap: int, budget: int)
    requires
        dims.len() <= usize::MAX,
        forall|s: int| 0 <= s < dims.len() ==> (#[trigger] dims[s]).rows.len() <= usize::MAX,
    ensures
        flowed(dims, gap, budget).len() > 0,
        all_in_range(dims, flowed(dims, gap, budget)),
{
    sections_in_range(dims, dims.len(), gap, budget);
}

/// Height of a section alone.
pub open spec fn section_height(dims: Dims, n: nat) -> int
    decreases n,
{
    if n == 0 {
        dims.header
    } else {
        section_height(dims, (n - 1) as nat) + dims.rows[n - 1]
    }
}

/// Height of the first `n` sections below each other.
pub open spec fn stacked_height(dims: Seq<Dims>, n: nat, gap: int) -> int
    decreases n,
{
    if n == 0 {
        0
    } else {
        stacked_height(dims, (n - 1) as nat, gap) + (if n > 1 {
            gap
        } else {
            0
        }) + section_height(dims[n - 1], dims[n - 1].rows.len())
    }
}

/// No line has a negative height.
pub open spec fn upright(dims: Seq<Dims>) -> bool {
    forall|s: int|
        0 <= s < dims.len() ==> (#[trigger] dims[s]).header >= 0 && forall|r: int|
            0 <= r < dims[s].rows.len() ==> #[trigger] dims[s].rows[r] >= 0
}

proof fn section_height_grows(dims: Dims, n: nat, m: nat)
    requires
        n <= m <= dims.rows.len(),
        forall|r: int| 0 <= r < dims.rows.len() ==> #[trigger] dims.rows[r] >= 0,
    ensures
        section_height(dims, n) <= section_height(dims, m),
    decreases m,
{
    if n < m {
        section_height_grows(dims, n, (m - 1) as nat);
        assert(dims.rows[m - 1] >= 0);
    }
}

proof fn stacked_height_grows(dims: Seq<Dims>, n: nat, m: nat, gap: int)
    requires
        upright(dims),
        gap >= 0,
        n <= m <= dims.len(),
    ensures
        stacked_height(dims, n, gap) <= stacked_height(dims, m, gap),
    decreases m,
{
    if n < m {
        stacked_height_grows(dims, n, (m - 1) as nat, gap);
        section_height_grows(dims[m - 1], 0, dims[m - 1].rows.len());
    }
}

proof fn rows_stay(f: Flow, s: nat, dims: Dims, n: nat, budget: int)
    requires
        f.columns.len() == 1,
        n <= dims.rows.len(),
        forall|r: int| 0 <= r < dims.rows.len() ==> #[trigger] dims.rows[r] >= 0,
        f.height - dims.header + section_height(dims, n) <= budget,
    ensures
        place_rows(f, s, dims, n, budget).columns.len() == 1,
        place_rows(f, s, dims, n, budget).height == f.height - dims.header + section_height(
            dims,
            n,
        ),
        n > 0 || f.columns[0].len() > 0 ==> place_rows(f, s, dims, n, budget).columns[0].len() > 0,
    decreases n,
{
    if n > 0 {
        assert(dims.rows[n - 1] >= 0);
        rows_stay(f, s, dims, (n - 1) as nat, budget);
    }
}

proof fn sections_stay(dims: Seq<Dims>, n: nat, gap: int, budget: int)
    requires
        upright(dims),
        gap >= 0,
        n <= dims.len(),
        stacked_height(dims, dims.len(), gap) <= budget,
    ensures
        place_sections(dims, n, gap, budget).columns.len() == 1,
        place_sections(dims, n, gap, budget).height == stacked_height(dims, n, gap),
        (n > 0) == (place_sections(dims, n, gap, budget).columns[0].len() > 0),
    decreases n,
{
    if n > 0 {
        let s = (n - 1) as nat;
        let d = dims[s as int];
        let before = place_sections(dims, s, gap, budget);
        sections_stay(dims, s, gap, budget);
        stacked_height_grows(dims, n, dims.len(), gap);
        assert(d.header >= 0);
        if d.rows.len() > 0 {
            section_height_grows(d, 1, d.rows.len());
            assert(section_height(d, 1) == section_height(d, 0) + d.rows[0]);
        }
        assert(keep_height(d) <= section_height(d, d.rows.len()));
        rows_stay(place_header(before, s, d, gap, budget), s, d, d.rows.len(), budget);
    }
}

/// Sections that fit below each other stay in one column.
pub proof fn flow_keeps_one_column(dims: Seq<Dims>, gap: int, budget: int)
    requires
        upright(dims),
        gap >= 0,
        stacked_height(dims, dims.len(), gap) <= budget,
    ensures
        flowed(dims, gap, budget) == seq![items_of(dims, dims.len())],
{
    sections_stay(dims, dims.len(), gap, budget);
    flow_keeps_content(dims, gap, budget);
    let columns = flowed(dims, gap, budget);
    assert(columns.drop_last() =~= Seq::<Seq<Item>>::empty());
    assert(flat(Seq::<Seq<Item>>::empty()) =~= Seq::<Item>::empty());
    assert(flat(columns) =~= columns[0]);
    assert(columns =~= seq![columns[0]]);
}

/// If line `j` of the column is a header with rows, its first row is the next line.
pub open spec fn follows(dims: Seq<Dims>, column: Seq<Item>, j: int) -> bool {
    match column[j] {
        Item::Header(s) => s < dims.len() && dims[s as int].rows.len() > 0 ==> j + 1 < column.len()
            && column[j + 1] == Item::Row(s, 0),
        Item::Row(_, _) => true,
    }
}

/// Every header that isn't at the top of its column is followed there by its first row, if it has
/// one.
pub open spec fn followed(dims: Seq<Dims>, columns: Seq<Seq<Item>>) -> bool {
    forall|c: int, j: int|
        0 <= c < columns.len() && 0 < j < columns[c].len() ==> #[trigger] follows(
            dims,
            columns[c],
            j,
        )
}

proof fn opened_followed(dims: Seq<Dims>, f: Flow)
    requires
        followed(dims, f.columns),
    ensures
        followed(dims, opened(f).columns),
{
    let g = opened(f);
    assert forall|c: int, j: int|
        0 <= c < g.columns.len() && 0 < j < g.columns[c].len() implies #[trigger] follows(
        dims,
        g.columns[c],
        j,
    ) by {
        assert(g.columns[c] == f.columns[c]);
        assert(follows(dims, f.columns[c], j));
    }
}

/// Placing a row, or a header that has no rows or stands at the top, leaves nothing to follow.
proof fn placed_followed(dims: Seq<Dims>, f: Flow, item: Item, height: int)
    requires
        f.columns.len() > 0,
        followed(dims, f.columns),
        match item {
            Item::Header(s) => f.columns.last().len() == 0 || s < dims.len()
                && dims[s as int].rows.len() == 0,
            Item::Row(_, _) => true,
        },
    ensures
        placed(f, item, height).columns.len() > 0,
        followed(dims, placed(f, item, height).columns),
{
    let g = placed(f, item, height);
    let n = f.columns.len() - 1;
    assert forall|c: int, j: int|
        0 <= c < g.columns.len() && 0 < j < g.columns[c].len() implies #[trigger] follows(
        dims,
        g.columns[c],
        j,
    ) by {
        if c < n {
            assert(g.columns[c] == f.columns[c]);
            assert(follows(dims, f.columns[c], j));
        } else {
            assert(g.columns[c] =~= f.columns[n].push(item));
            if j < f.columns[n].len() {
                assert(follows(dims, f.columns[n], j));
            }
        }
    }
}

/// A header placed together with its first row is followed by it.
proof fn header_and_row_followed(dims: Seq<Dims>, f: Flow, s: usize, header: int, row: int)
    requires
        f.columns.len() > 0,
        followed(dims, f.columns),
    ensures
        followed(
            dims,
            placed(placed(f, Item::Header(s), header), Item::Row(s, 0), row).columns,
        ),
{
    let g = placed(placed(f, Item::Header(s), header), Item::Row(s, 0), row);
    let n = f.columns.len() - 1;
    assert forall|c: int, j: int|
        0 <= c < g.columns.len() && 0 < j < g.columns[c].len() implies #[trigger] follows(
        dims,
        g.columns[c],
        j,
    ) by {
        if c < n {
            assert(g.columns[c] == f.columns[c]);
            assert(follows(dims, f.columns[c], j));
        } else {
            assert(g.columns[c] =~= f.columns[n].push(Item::Header(s)).push(Item::Row(s, 0)));
            if j < f.columns[n].len() {
                assert(follows(dims, f.columns[n], j));
            }
        }
    }
}

proof fn rows_followed(
    dims: Seq<Dims>,
    f: Flow,
    s: nat,
    d: Dims,
    placed_rows: nat,
    n: nat,
    budget: int,
)
    requires
        placed_rows <= n,
        place_rows(f, s, d, placed_rows, budget).columns.len() > 0,
        followed(dims, place_rows(f, s, d, placed_rows, budget).columns),
    ensures
        place_rows(f, s, d, n, budget).columns.len() > 0,
        followed(dims, place_rows(f, s, d, n, budget).columns),
    decreases n,
{
    if placed_rows < n {
        let r = (n - 1) as nat;
        rows_followed(dims, f, s, d, placed_rows, r, budget);
        let before = place_rows(f, s, d, r, budget);
        let item = Item::Row(s as usize, r as usize);
        opened_followed(dims, before);
        placed_followed(dims, before, item, d.rows[r as int]);
        placed_followed(dims, opened(before), item, d.rows[r as int]);
    }
}

proof fn sections_followed(dims: Seq<Dims>, n: nat, gap: int, budget: int)
    requires
        n <= dims.len() <= usize::MAX,
    ensures
        place_sections(dims, n, gap, budget).columns.len() > 0,
        followed(dims, place_sections(dims, n, gap, budget).columns),
    decreases n,
{
    if n > 0 {
        let s = (n - 1) as nat;
        let d = dims[s as int];
        let before = place_sections(dims, s, gap, budget);
        let headed = place_header(before, s, d, gap, budget);
        let header = Item::Header(s as usize);
        sections_followed(dims, s, gap, budget);
        opened_followed(dims, before);
        placed_followed(dims, opened(before), header, d.header);
        if before.columns.last().len() == 0 {
            placed_followed(dims, before, header, d.header);
        } else if d.rows.len() == 0 {
            placed_followed(dims, before, header, gap + d.header);
        } else {
            header_and_row_followed(dims, before, s as usize, gap + d.header, d.rows[0]);
        }
        if d.rows.len() == 0 || headed.columns.last().len() == 1 {
            rows_followed(dims, headed, s, d, 0, d.rows.len(), budget);
        } else {
            assert(place_rows(headed, s, d, 0, budget) == headed);
            assert(place_rows(headed, s, d, 1, budget) == placed(
                headed,
                Item::Row(s as usize, 0),
                d.rows[0],
            ));
            rows_followed(dims, headed, s, d, 1, d.rows.len(), budget);
        }
    }
}

/// Whatever the budget, a header that isn't at the top of its column is followed there by its
/// first row.
pub proof fn flow_breaks_no_header_off(dims: Seq<Dims>, gap: int, budget: int)
    requires
        dims.len() <= usize::MAX,
    ensures
        followed(dims, flowed(dims, gap, budget)),
{
    sections_followed(dims, dims.len(), gap, budget);
}

/// Every line has a height.
pub open spec fn solid(dims: Seq<Dims>) -> bool {
    forall|s: int|
        0 <= s < dims.len() ==> (#[trigger] dims[s]).header > 0 && forall|r: int|
            0 <= r < dims[s].rows.len() ==> #[trigger] dims[s].rows[r] > 0
}

/// Two flows have placed the same lines, the first in no more columns, and if in as many, with no
/// more in the last.
spec fn ahead(a: Flow, b: Flow) -> bool {
    &&& 0 < a.columns.len() <= b.columns.len()
    &&& a.columns.len() == b.columns.len() ==> a.height <= b.height
    &&& (a.columns.last().len() == 0) == (b.columns.last().len() == 0)
    &&& a.height >= 0 && b.height >= 0
    &&& a.columns.last().len() > 0 ==> a.height > 0 && b.height > 0
    &&& a.columns.last().len() == 0 ==> a.columns.len() == 1 && b.columns.len() == 1
}

proof fn rows_stay_ahead(a: Flow, b: Flow, s: nat, d: Dims, n: nat, b1: int, b2: int)
    requires
        ahead(a, b),
        a.columns.last().len() > 0,
        b1 <= b2,
        n <= d.rows.len(),
        forall|r: int| 0 <= r < d.rows.len() ==> #[trigger] d.rows[r] > 0,
    ensures
        ahead(place_rows(a, s, d, n, b2), place_rows(b, s, d, n, b1)),
        place_rows(a, s, d, n, b2).columns.last().len() > 0,
    decreases n,
{
    if n > 0 {
        rows_stay_ahead(a, b, s, d, (n - 1) as nat, b1, b2);
        assert(d.rows[n - 1] > 0);
    }
}

proof fn sections_stay_ahead(dims: Seq<Dims>, n: nat, gap: int, b1: int, b2: int)
    requires
        solid(dims),
        gap >= 0,
        b1 <= b2,
        n <= dims.len(),
    ensures
        ahead(place_sections(dims, n, gap, b2), place_sections(dims, n, gap, b1)),
    decreases n,
{
    if n > 0 {
        let s = (n - 1) as nat;
        let d = dims[s as int];
        sections_stay_ahead(dims, s, gap, b1, b2);
        assert(d.header > 0);
        let a = place_header(place_sections(dims, s, gap, b2), s, d, gap, b2);
        let b = place_header(place_sections(dims, s, gap, b1), s, d, gap, b1);
        assert(ahead(a, b));
        rows_stay_ahead(a, b, s, d, d.rows.len(), b1, b2);
    }
}

/// Taller columns are never more: a larger budget needs no more columns.
pub proof fn larger_budget_needs_no_more_columns(dims: Seq<Dims>, gap: int, b1: int, b2: int)
    requires
        solid(dims),
        gap >= 0,
        b1 <= b2,
    ensures
        flowed(dims, gap, b2).len() <= flowed(dims, gap, b1).len(),
{
    sections_stay_ahead(dims, dims.len(), gap, b1, b2);
}

/// The height of a column is that of its lines, and of a gap above each header but one at the top.
pub proof fn heights_add_up(dims: Seq<Dims>, gap: int, column: Seq<Item>, s: usize, r: usize)
    ensures
        height_of(dims, gap, Seq::empty()) == 0,
        column.len() > 0 ==> height_of(dims, gap, column.push(Item::Header(s))) == height_of(
            dims,
            gap,
            column,
        ) + gap + dims[s as int].header,
        height_of(dims, gap, seq![Item::Header(s)]) == dims[s as int].header,
        height_of(dims, gap, column.push(Item::Row(s, r))) == height_of(dims, gap, column)
            + dims[s as int].rows[r as int],
{
    assert(column.push(Item::Header(s)).drop_last() =~= column);
    assert(column.push(Item::Row(s, r)).drop_last() =~= column);
    assert(seq![Item::Header(s)].drop_last() =~= Seq::<Item>::empty());
    assert(height_of(dims, gap, Seq::empty()) == 0);
}

/// The line does not fit below the column: a row by itself, a header with the gap above it and its
/// first row.
pub open spec fn crowded_out(
    dims: Seq<Dims>,
    gap: int,
    budget: int,
    column: Seq<Item>,
    item: Item,
) -> bool {
    match item {
        Item::Header(s) => height_of(dims, gap, column) + gap + dims[s as int].header + (
        if dims[s as int].rows.len() > 0 {
            dims[s as int].rows[0]
        } else {
            0
        }) > budget,
        Item::Row(s, r) => height_of(dims, gap, column) + dims[s as int].rows[r as int] > budget,
    }
}

/// Every column was left because the line at the top of the next did not fit any more.
pub open spec fn packed(
    dims: Seq<Dims>,
    gap: int,
    budget: int,
    columns: Seq<Seq<Item>>,
) -> bool {
    forall|c: int|
        0 < c < columns.len() && (#[trigger] columns[c]).len() > 0 ==> crowded_out(
            dims,
            gap,
            budget,
            columns[c - 1],
            columns[c][0],
        )
}

spec fn packing(dims: Seq<Dims>, gap: int, budget: int, f: Flow) -> bool {
    &&& f.columns.len() > 0
    &&& f.height == height_of(dims, gap, f.columns.last())
    &&& packed(dims, gap, budget, f.columns)
}

proof fn placed_packs(dims: Seq<Dims>, gap: int, budget: int, f: Flow, item: Item, height: int)
    requires
        f.columns.len() > 0,
        f.height == height_of(dims, gap, f.columns.last()),
        height == match item {
            Item::Header(s) => dims[s as int].header + if f.columns.last().len() > 0 {
                gap
            } else {
                0
            },
            Item::Row(s, r) => dims[s as int].rows[r as int],
        },
        packed(dims, gap, budget, f.columns),
        f.columns.len() > 1 && f.columns.last().len() == 0 ==> crowded_out(
            dims,
            gap,
            budget,
            f.columns[f.columns.len() - 2],
            item,
        ),
    ensures
        packing(dims, gap, budget, placed(f, item, height)),
{
    let g = placed(f, item, height);
    let n = f.columns.len() - 1;
    assert(g.columns.last().drop_last() =~= f.columns.last());
    assert forall|c: int|
        0 < c < g.columns.len() && (#[trigger] g.columns[c]).len() > 0 implies crowded_out(
        dims,
        gap,
        budget,
        g.columns[c - 1],
        g.columns[c][0],
    ) by {
        assert(g.columns[c - 1] == f.columns[c - 1]);
        if c < n {
            assert(g.columns[c] == f.columns[c]);
        } else if f.columns[n].len() > 0 {
            assert(g.columns[c][0] == f.columns[n][0]);
        }
    }
}

proof fn opened_packs(dims: Seq<Dims>, gap: int, budget: int, f: Flow, item: Item, height: int)
    requires
        packing(dims, gap, budget, f),
        crowded_out(dims, gap, budget, f.columns.last(), item),
        height == match item {
            Item::Header(s) => dims[s as int].header,
            Item::Row(s, r) => dims[s as int].rows[r as int],
        },
    ensures
        packing(dims, gap, budget, placed(opened(f), item, height)),
{
    let g = opened(f);
    assert forall|c: int|
        0 < c < g.columns.len() && (#[trigger] g.columns[c]).len() > 0 implies crowded_out(
        dims,
        gap,
        budget,
        g.columns[c - 1],
        g.columns[c][0],
    ) by {
        assert(g.columns[c] == f.columns[c]);
        assert(g.columns[c - 1] == f.columns[c - 1]);
    }
    assert(g.columns[g.columns.len() - 2] == f.columns.last());
    placed_packs(dims, gap, budget, g, item, height);
}

proof fn rows_pack(dims: Seq<Dims>, gap: int, budget: int, f: Flow, s: nat, n: nat)
    requires
        packing(dims, gap, budget, f),
        f.columns.last().len() > 0,
        s < dims.len() <= usize::MAX,
        n <= dims[s as int].rows.len() <= usize::MAX,
    ensures
        packing(dims, gap, budget, place_rows(f, s, dims[s as int], n, budget)),
        place_rows(f, s, dims[s as int], n, budget).columns.last().len() > 0,
    decreases n,
{
    if n > 0 {
        let r = (n - 1) as nat;
        rows_pack(dims, gap, budget, f, s, r);
        let before = place_rows(f, s, dims[s as int], r, budget);
        let item = Item::Row(s as usize, r as usize);
        let height = dims[s as int].rows[r as int];
        placed_packs(dims, gap, budget, before, item, height);
        if before.height + height > budget {
            opened_packs(dims, gap, budget, before, item, height);
        }
    }
}

proof fn sections_pack(dims: Seq<Dims>, n: nat, gap: int, budget: int)
    requires
        n <= dims.len() <= usize::MAX,
        forall|s: int| 0 <= s < dims.len() ==> (#[trigger] dims[s]).rows.len() <= usize::MAX,
    ensures
        packing(dims, gap, budget, place_sections(dims, n, gap, budget)),
        n > 0 ==> place_sections(dims, n, gap, budget).columns.last().len() > 0,
        n == 0 ==> place_sections(dims, n, gap, budget).columns.len() == 1,
    decreases n,
{
    if n > 0 {
        let s = (n - 1) as nat;
        let d = dims[s as int];
        let before = place_sections(dims, s, gap, budget);
        let item = Item::Header(s as usize);
        sections_pack(dims, s, gap, budget);
        if before.columns.last().len() == 0 {
            placed_packs(dims, gap, budget, before, item, d.header);
        } else if before.height + gap + keep_height(d) > budget {
            opened_packs(dims, gap, budget, before, item, d.header);
        } else {
            placed_packs(dims, gap, budget, before, item, gap + d.header);
        }
        rows_pack(dims, gap, budget, place_header(before, s, d, gap, budget), s, d.rows.len());
    } else {
        assert(height_of(dims, gap, Seq::empty()) == 0);
    }
}

/// No column ends early: the line at the top of the next one would not have fit below it.
pub proof fn columns_are_packed(dims: Seq<Dims>, gap: int, budget: int)
    requires
        dims.len() <= usize::MAX,
        forall|s: int| 0 <= s < dims.len() ==> (#[trigger] dims[s]).rows.len() <= usize::MAX,
    ensures
        packed(dims, gap, budget, flowed(dims, gap, budget)),
{
    sections_pack(dims, dims.len(), gap, budget);
}

/// The heights that a flow goes by are those given.
pub proof fn flow_goes_by_the_given_heights(given: Seq<(i32, Vec<i32>)>)
    ensures
        dims_of(given).len() == given.len(),
        forall|s: int|
            0 <= s < given.len() ==> (#[trigger] dims_of(given)[s]).header == given[s].0
                && dims_of(given)[s].rows.len() == given[s].1@.len(),
        forall|s: int, r: int|
            0 <= s < given.len() && 0 <= r < given[s].1@.len() ==> #[trigger] dims_of(
                given,
            )[s].rows[r] == given[s].1@[r],
{
}

/// The views of columns have the columns' lines.
pub proof fn column_views_are_faithful(columns: Seq<Vec<Item>>)
    ensures
        column_views(columns).len() == columns.len(),
        forall|c: int| 0 <= c < columns.len() ==> #[trigger] column_views(columns)[c] == columns[c]@,
{
}

} // verus!
