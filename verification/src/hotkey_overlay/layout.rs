//! Where everything on the overlay goes, in physical pixels.

use crate::hotkey_overlay::flow;
use crate::hotkey_overlay::flow::{Dims, Item};
use vstd::prelude::*;

verus! {

/// Logical pixels kept free inside the overlay's edge, between columns' texts and above headers.
pub const PADDING: i32 = 8;

/// Logical pixels kept free around the overlay.
pub const MARGIN: i32 = 16;

/// Logical pixels kept free below every line.
pub const LINE_INTERVAL: i32 = 2;

/// Width of the overlay's border, in logical pixels.
pub const BORDER: i32 = 4;

/// Extent of a piece of text.
#[derive(Debug, Clone, Copy, PartialEq, Eq, Structural)]
pub struct TextSize {
    pub w: i32,
    pub h: i32,
}

/// Extents of a row's two texts.
#[derive(Debug, Clone, Copy, PartialEq, Eq, Structural)]
pub struct RowSizes {
    pub key: TextSize,
    pub action: TextSize,
}

/// Extents of a section's texts.
#[derive(Debug)]
pub struct SectionSizes {
    pub header: TextSize,
    pub rows: Vec<RowSizes>,
}

/// A section's extents as a mathematical value.
pub struct SectionSizesView {
    pub header: TextSize,
    pub rows: Seq<RowSizes>,
}

impl View for SectionSizes {
    type V = SectionSizesView;

    open spec fn view(&self) -> SectionSizesView {
        SectionSizesView { header: self.header, rows: self.rows@ }
    }
}

pub open spec fn size_views(sections: Seq<SectionSizes>) -> Seq<SectionSizesView> {
    Seq::new(sections.len(), |i: int| sections[i]@)
}

/// Spacing, and the height of the output.
#[derive(Debug, Clone, Copy, PartialEq, Eq, Structural)]
pub struct Spacing {
    /// Kept free around the overlay.
    pub margin: i32,
    /// Kept free inside the overlay's edge, between columns' texts and above headers.
    pub padding: i32,
    /// Kept free below every line.
    pub line_interval: i32,
    /// Height of the output.
    pub target_h: i32,
}

pub open spec fn max2(a: int, b: int) -> int {
    if a >= b {
        a
    } else {
        b
    }
}

/// The largest of the numbers; 0 if there are none.
pub open spec fn max_or_zero(s: Seq<int>) -> int
    decreases s.len(),
{
    if s.len() == 0 {
        0
    } else if s.len() == 1 {
        s[0]
    } else {
        max2(max_or_zero(s.drop_last()), s.last())
    }
}

/// Line heights of a section, line interval taken in.
pub open spec fn dims_of_section(section: SectionSizesView, line_interval: int) -> Dims {
    Dims {
        header: section.header.h + line_interval,
        rows: Seq::new(
            section.rows.len(),
            |r: int|
                max2(section.rows[r].key.h as int, section.rows[r].action.h as int) + line_interval,
        ),
    }
}

/// Line heights of all sections.
pub open spec fn line_dims(sections: Seq<SectionSizesView>, line_interval: int) -> Seq<Dims> {
    Seq::new(sections.len(), |s: int| dims_of_section(sections[s], line_interval))
}

/// How tall a column may be: what the output leaves after a margin around the overlay, its
/// padding, and the title with the padding below it.
pub open spec fn budget_of(spacing: Spacing, title: TextSize) -> int {
    max2(
        spacing.target_h - spacing.margin * 2 - spacing.padding * 2 - title.h - spacing.padding,
        1,
    )
}

/// Height of a column's content.
pub open spec fn content_height_of(dims: Seq<Dims>, padding: int, column: Seq<Item>) -> int
    decreases column.len(),
{
    if column.len() == 0 {
        0
    } else {
        let above = content_height_of(dims, padding, column.drop_last());
        match column.last() {
            Item::Header(s) => above + (if above > 0 {
                padding
            } else {
                0
            }) + dims[s as int].header,
            Item::Row(s, r) => above + dims[s as int].rows[r as int],
        }
    }
}

/// Widths of all rows' keys, or of all rows' actions.
pub open spec fn cell_widths(sections: Seq<SectionSizesView>, actions: bool) -> Seq<int>
    decreases sections.len(),
{
    if sections.len() == 0 {
        seq![]
    } else {
        cell_widths(sections.drop_last(), actions) + row_widths(sections.last().rows, actions)
    }
}

pub open spec fn row_widths(rows: Seq<RowSizes>, actions: bool) -> Seq<int> {
    Seq::new(
        rows.len(),
        |r: int|
            if actions {
                rows[r].action.w as int
            } else {
                rows[r].key.w as int
            },
    )
}

pub open spec fn header_widths(sections: Seq<SectionSizesView>) -> Seq<int> {
    Seq::new(sections.len(), |s: int| sections[s].header.w as int)
}

/// Half of a number, rounded toward zero.
pub open spec fn half(n: int) -> int {
    if n >= 0 {
        n / 2
    } else {
        -((-n) / 2)
    }
}

/// Where a line goes.
pub struct PlacedView {
    pub item: Item,
    /// Left edge of the header or of the key.
    pub x: int,
    /// Left edge of a row's action; of a header, its own left edge.
    pub action_x: int,
    pub y: int,
}

/// The overlay's extent and the places of everything on it.
pub struct LayoutView {
    pub width: int,
    pub height: int,
    pub title_x: int,
    pub title_y: int,
    pub columns: Seq<Seq<PlacedView>>,
}

/// Space between columns.
pub open spec fn column_gap(spacing: Spacing) -> int {
    spacing.padding * 3
}

/// Width of every column.
pub open spec fn column_width(sections: Seq<SectionSizesView>, spacing: Spacing) -> int {
    max2(
        max_or_zero(cell_widths(sections, false)) + spacing.padding + max_or_zero(
            cell_widths(sections, true),
        ),
        max_or_zero(header_widths(sections)),
    )
}

/// The columns of lines.
pub open spec fn columns_of(
    sections: Seq<SectionSizesView>,
    spacing: Spacing,
    title: TextSize,
) -> Seq<Seq<Item>> {
    flow::flowed(
        line_dims(sections, spacing.line_interval as int),
        spacing.padding as int,
        budget_of(spacing, title),
    )
}

/// Top of the columns: below the title.
pub open spec fn content_top(spacing: Spacing, title: TextSize) -> int {
    spacing.padding + title.h + spacing.padding
}

/// Left edge of column `c`.
pub open spec fn column_left(
    sections: Seq<SectionSizesView>,
    spacing: Spacing,
    c: int,
) -> int {
    spacing.padding + c * (column_width(sections, spacing) + column_gap(spacing))
}

/// Where line `j` of a column goes, if the column's left edge is `x`, its top is `top` and its
/// actions are `indent` from its left edge: below the lines before it, and below a gap if it is a
/// header that isn't at the top.
pub open spec fn placed_at(
    dims: Seq<Dims>,
    padding: int,
    x: int,
    indent: int,
    top: int,
    column: Seq<Item>,
    j: int,
) -> PlacedView {
    PlacedView {
        item: column[j],
        x,
        action_x: x + if column[j] is Row {
            indent
        } else {
            0
        },
        y: top + flow::height_of(dims, padding, column.take(j)) + if column[j] is Header && j > 0 {
            padding
        } else {
            0
        },
    }
}

/// How far a row's action is from the row's left edge.
pub open spec fn action_indent(sections: Seq<SectionSizesView>, spacing: Spacing) -> int {
    max_or_zero(cell_widths(sections, false)) + spacing.padding
}

/// Where line `j` of column `c` goes.
pub open spec fn place_of(
    sections: Seq<SectionSizesView>,
    spacing: Spacing,
    title: TextSize,
    c: int,
    column: Seq<Item>,
    j: int,
) -> PlacedView {
    placed_at(
        line_dims(sections, spacing.line_interval as int),
        spacing.padding as int,
        column_left(sections, spacing, c),
        action_indent(sections, spacing),
        content_top(spacing, title),
        column,
        j,
    )
}

/// The places of all lines.
pub open spec fn places_of(
    sections: Seq<SectionSizesView>,
    spacing: Spacing,
    title: TextSize,
) -> Seq<Seq<PlacedView>> {
    let columns = columns_of(sections, spacing, title);
    Seq::new(
        columns.len(),
        |c: int|
            Seq::new(
                columns[c].len(),
                |j: int| place_of(sections, spacing, title, c, columns[c], j),
            ),
    )
}

/// Heights of all columns' contents.
pub open spec fn content_heights(
    sections: Seq<SectionSizesView>,
    spacing: Spacing,
    columns: Seq<Seq<Item>>,
) -> Seq<int> {
    Seq::new(
        columns.len(),
        |c: int|
            content_height_of(
                line_dims(sections, spacing.line_interval as int),
                spacing.padding as int,
                columns[c],
            ),
    )
}

/// The layout of the overlay.
pub open spec fn layout_of(
    sections: Seq<SectionSizesView>,
    spacing: Spacing,
    title: TextSize,
) -> LayoutView {
    let columns = columns_of(sections, spacing, title);
    let n = columns.len() as int;
    let content_width = n * column_width(sections, spacing) + (n - 1) * column_gap(spacing);
    let content_height = max_or_zero(content_heights(sections, spacing, columns));
    let width = max2(content_width, title.w as int) + spacing.padding * 2;
    LayoutView {
        width,
        height: title.h + spacing.padding + content_height + spacing.padding * 2,
        title_x: half(width - title.w),
        title_y: spacing.padding as int,
        columns: places_of(sections, spacing, title),
    }
}

pub open spec fn is_i32(n: int) -> bool {
    i32::MIN <= n <= i32::MAX
}

/// All line heights can be held.
pub open spec fn dims_held(dims: Seq<Dims>) -> bool {
    forall|s: int|
        0 <= s < dims.len() ==> is_i32((#[trigger] dims[s]).header) && forall|r: int|
            0 <= r < dims[s].rows.len() ==> is_i32(#[trigger] dims[s].rows[r])
}

/// A place can be held.
pub open spec fn place_held(place: PlacedView) -> bool {
    is_i32(place.x) && is_i32(place.action_x) && is_i32(place.y)
}

/// Every number of the layout can be held in 32 bits.
pub open spec fn layout_held(
    sections: Seq<SectionSizesView>,
    spacing: Spacing,
    title: TextSize,
) -> bool {
    let layout = layout_of(sections, spacing, title);
    &&& dims_held(line_dims(sections, spacing.line_interval as int))
    &&& is_i32(budget_of(spacing, title))
    &&& is_i32(layout.width)
    &&& is_i32(layout.height)
    &&& is_i32(layout.title_x)
    &&& forall|c: int, j: int|
        0 <= c < layout.columns.len() && 0 <= j < layout.columns[c].len() ==> place_held(
            #[trigger] layout.columns[c][j],
        )
}

/// Where a line goes.
#[derive(Debug, Clone, Copy, PartialEq, Eq, Structural)]
pub struct Placed {
    pub item: Item,
    pub x: i32,
    pub action_x: i32,
    pub y: i32,
}

impl View for Placed {
    type V = PlacedView;

    open spec fn view(&self) -> PlacedView {
        PlacedView {
            item: self.item,
            x: self.x as int,
            action_x: self.action_x as int,
            y: self.y as int,
        }
    }
}

/// The overlay's extent and the places of everything on it.
#[derive(Debug)]
pub struct Layout {
    pub width: i32,
    pub height: i32,
    pub title_x: i32,
    pub title_y: i32,
    pub columns: Vec<Vec<Placed>>,
}

pub open spec fn placed_views(column: Seq<Placed>) -> Seq<PlacedView> {
    Seq::new(column.len(), |j: int| column[j]@)
}

pub open spec fn placed_columns(columns: Seq<Vec<Placed>>) -> Seq<Seq<PlacedView>> {
    Seq::new(columns.len(), |c: int| placed_views(columns[c]@))
}

impl View for Layout {
    type V = LayoutView;

    open spec fn view(&self) -> LayoutView {
        LayoutView {
            width: self.width as int,
            height: self.height as int,
            title_x: self.title_x as int,
            title_y: self.title_y as int,
            columns: placed_columns(self.columns@),
        }
    }
}

fn max_i32(a: i32, b: i32) -> (r: i32)
    ensures
        r == max2(a as int, b as int),
{
    if a >= b {
        a
    } else {
        b
    }
}

fn max_i128(a: i128, b: i128) -> (r: i128)
    ensures
        r == max2(a as int, b as int),
{
    if a >= b {
        a
    } else {
        b
    }
}

/// The number in 32 bits, if it can be held.
fn narrow(n: i128) -> (r: Option<i32>)
    ensures
        match r {
            Some(m) => m == n,
            None => !is_i32(n as int),
        },
{
    if -0x8000_0000 <= n && n <= 0x7FFF_FFFF {
        Some(n as i32)
    } else {
        None
    }
}

/// Row heights of one section, if they can be held.
fn row_heights(rows: &Vec<RowSizes>, line_interval: i32) -> (heights: Option<Vec<i32>>)
    ensures
        match heights {
            Some(heights) => heights@.len() == rows@.len() && forall|r: int|
                0 <= r < rows@.len() ==> heights@[r] == max2(
                    #[trigger] rows@[r].key.h as int,
                    rows@[r].action.h as int,
                ) + line_interval,
            None => exists|r: int|
                0 <= r < rows@.len() && !is_i32(
                    max2(#[trigger] rows@[r].key.h as int, rows@[r].action.h as int)
                        + line_interval,
                ),
        },
{
    let mut heights: Vec<i32> = Vec::new();
    let n: usize = rows.len();
    let mut r: usize = 0;
    while r < n
        invariant
            n == rows@.len(),
            r <= n,
            heights@.len() == r,
            forall|k: int|
                0 <= k < r ==> heights@[k] == max2(
                    #[trigger] rows@[k].key.h as int,
                    rows@[k].action.h as int,
                ) + line_interval,
        decreases n - r,
    {
        let tall: i32 = max_i32(rows[r].key.h, rows[r].action.h);
        match narrow(tall as i128 + line_interval as i128) {
            Some(height) => {
                heights.push(height);
            },
            None => {
                assert(!is_i32(
                    max2(rows@[r as int].key.h as int, rows@[r as int].action.h as int)
                        + line_interval,
                ));
                return None;
            },
        }
        r = r + 1;
    }
    Some(heights)
}

/// Line heights of all sections, if they can be held.
fn line_heights(sections: &Vec<SectionSizes>, line_interval: i32) -> (heights: Option<
    Vec<(i32, Vec<i32>)>,
>)
    ensures
        match heights {
            Some(heights) => {
                &&& flow::dims_of(heights@) == line_dims(
                    size_views(sections@),
                    line_interval as int,
                )
                &&& dims_held(line_dims(size_views(sections@), line_interval as int))
            },
            None => !dims_held(line_dims(size_views(sections@), line_interval as int)),
        },
{
    let ghost dims = line_dims(size_views(sections@), line_interval as int);
    let mut heights: Vec<(i32, Vec<i32>)> = Vec::new();
    let n: usize = sections.len();
    let mut s: usize = 0;
    while s < n
        invariant
            n == sections@.len(),
            s <= n,
            dims == line_dims(size_views(sections@), line_interval as int),
            heights@.len() == s,
            forall|k: int| 0 <= k < s ==> (#[trigger] heights@[k]).0 == dims[k].header,
            forall|k: int|
                0 <= k < s ==> (#[trigger] heights@[k]).1@.len() == dims[k].rows.len(),
            forall|k: int, r: int|
                0 <= k < s && 0 <= r < dims[k].rows.len() ==> #[trigger] heights@[k].1@[r]
                    == dims[k].rows[r],
        decreases n - s,
    {
        assert(dims[s as int] == dims_of_section(sections@[s as int]@, line_interval as int));
        let header: i32 = match narrow(sections[s].header.h as i128 + line_interval as i128) {
            Some(header) => header,
            None => {
                assert(!is_i32(dims[s as int].header));
                return None;
            },
        };
        match row_heights(&sections[s].rows, line_interval) {
            Some(rows) => {
                assert forall|r: int| 0 <= r < dims[s as int].rows.len() implies rows@[r]
                    == dims[s as int].rows[r] by {
                    assert(rows@[r] == max2(
                        sections@[s as int].rows@[r].key.h as int,
                        sections@[s as int].rows@[r].action.h as int,
                    ) + line_interval);
                }
                heights.push((header, rows));
            },
            None => {
                let ghost bad = choose|r: int|
                    0 <= r < sections@[s as int].rows@.len() && !is_i32(
                        max2(
                            #[trigger] sections@[s as int].rows@[r].key.h as int,
                            sections@[s as int].rows@[r].action.h as int,
                        ) + line_interval,
                    );
                assert(!is_i32(dims[s as int].rows[bad]));
                return None;
            },
        }
        s = s + 1;
    }
    proof {
        let got = flow::dims_of(heights@);
        assert forall|k: int| 0 <= k < dims.len() implies got[k] == dims[k] by {
            assert(heights@[k].0 == dims[k].header);
            assert(got[k].rows =~= dims[k].rows);
        }
        assert(got =~= dims);
        assert forall|k: int| 0 <= k < dims.len() implies is_i32((#[trigger] dims[k]).header)
            && forall|r: int|
            0 <= r < dims[k].rows.len() ==> is_i32(#[trigger] dims[k].rows[r]) by {
            assert(heights@[k].0 == dims[k].header);
            assert forall|r: int| 0 <= r < dims[k].rows.len() implies is_i32(
                #[trigger] dims[k].rows[r],
            ) by {
                assert(heights@[k].1@[r] == dims[k].rows[r]);
            }
        }
    }
    Some(heights)
}

proof fn max_pushed(s: Seq<int>, x: int)
    ensures
        max_or_zero(s.push(x)) == if s.len() == 0 {
            x
        } else {
            max2(max_or_zero(s), x)
        },
{
    assert(s.push(x).drop_last() =~= s);
}

/// The widest key, or the widest action.
fn widest_cell(sections: &Vec<SectionSizes>, actions: bool) -> (widest: i32)
    ensures
        widest == max_or_zero(cell_widths(size_views(sections@), actions)),
{
    let ghost views = size_views(sections@);
    let mut widest: i32 = 0;
    let mut seen = false;
    let n: usize = sections.len();
    let mut s: usize = 0;
    assert(cell_widths(views.take(0), actions) =~= seq![]);
    while s < n
        invariant
            n == sections@.len(),
            s <= n,
            views == size_views(sections@),
            widest == max_or_zero(cell_widths(views.take(s as int), actions)),
            seen == (cell_widths(views.take(s as int), actions).len() > 0),
        decreases n - s,
    {
        let rows: &Vec<RowSizes> = &sections[s].rows;
        let ghost before = cell_widths(views.take(s as int), actions);
        let ghost added = row_widths(rows@, actions);
        let m: usize = rows.len();
        let mut r: usize = 0;
        assert(before + added.take(0) =~= before);
        while r < m
            invariant
                m == rows@.len(),
                r <= m,
                added == row_widths(rows@, actions),
                widest == max_or_zero(before + added.take(r as int)),
                seen == ((before + added.take(r as int)).len() > 0),
            decreases m - r,
        {
            let width: i32 = if actions {
                rows[r].action.w
            } else {
                rows[r].key.w
            };
            proof {
                max_pushed(before + added.take(r as int), width as int);
                assert((before + added.take(r as int)).push(width as int) =~= before
                    + added.take(r + 1));
            }
            widest = if seen {
                max_i32(widest, width)
            } else {
                width
            };
            seen = true;
            r = r + 1;
        }
        proof {
            assert(added.take(m as int) =~= added);
            assert(views.take(s + 1).drop_last() =~= views.take(s as int));
            assert(views.take(s + 1).last() == sections@[s as int]@);
        }
        s = s + 1;
    }
    assert(views.take(n as int) =~= views);
    widest
}

/// The widest header.
fn widest_header(sections: &Vec<SectionSizes>) -> (widest: i32)
    ensures
        widest == max_or_zero(header_widths(size_views(sections@))),
{
    let ghost widths = header_widths(size_views(sections@));
    let mut widest: i32 = 0;
    let n: usize = sections.len();
    let mut s: usize = 0;
    assert(widths.take(0) =~= seq![]);
    while s < n
        invariant
            n == sections@.len(),
            s <= n,
            widths == header_widths(size_views(sections@)),
            widest == max_or_zero(widths.take(s as int)),
        decreases n - s,
    {
        let width: i32 = sections[s].header.w;
        proof {
            max_pushed(widths.take(s as int), width as int);
            assert(widths.take(s as int).push(width as int) =~= widths.take(s + 1));
        }
        widest = if s > 0 {
            max_i32(widest, width)
        } else {
            width
        };
        s = s + 1;
    }
    assert(widths.take(n as int) =~= widths);
    widest
}

/// Height of the line.
fn line_height(heights: &Vec<(i32, Vec<i32>)>, item: Item) -> (height: i32)
    requires
        flow::in_range(flow::dims_of(heights@), item),
    ensures
        height == match item {
            Item::Header(s) => flow::dims_of(heights@)[s as int].header,
            Item::Row(s, r) => flow::dims_of(heights@)[s as int].rows[r as int],
        },
{
    match item {
        Item::Header(s) => heights[s].0,
        Item::Row(s, r) => heights[s].1[r],
    }
}

/// Height of a column's content.
fn column_height(heights: &Vec<(i32, Vec<i32>)>, padding: i32, column: &Vec<Item>) -> (height: i128)
    requires
        forall|j: int|
            0 <= j < column@.len() ==> flow::in_range(
                flow::dims_of(heights@),
                #[trigger] column@[j],
            ),
    ensures
        height == content_height_of(flow::dims_of(heights@), padding as int, column@),
        -0x1_0000_0000_0000_0000_0000_0000_0000 < height < 0x1_0000_0000_0000_0000_0000_0000_0000,
{
    let ghost dims = flow::dims_of(heights@);
    let mut height: i128 = 0;
    let n: usize = column.len();
    let mut j: usize = 0;
    while j < n
        invariant
            n == column@.len(),
            j <= n,
            dims == flow::dims_of(heights@),
            forall|j: int|
                0 <= j < column@.len() ==> flow::in_range(dims, #[trigger] column@[j]),
            height == content_height_of(dims, padding as int, column@.take(j as int)),
            -0x1_0000_0000 * j <= height <= 0x1_0000_0000 * j,
        decreases n - j,
    {
        proof {
            assert(column@.take(j + 1).drop_last() =~= column@.take(j as int));
            assert(column@.take(j + 1).last() == column@[j as int]);
        }
        let item: Item = column[j];
        let line: i128 = line_height(heights, item) as i128;
        let gap: i128 = match item {
            Item::Header(_) => if height > 0 {
                padding as i128
            } else {
                0
            },
            Item::Row(_, _) => 0,
        };
        height = height + gap + line;
        j = j + 1;
    }
    assert(column@.take(n as int) =~= column@);
    height
}

/// Height of the tallest column's content.
fn tallest_column(
    heights: &Vec<(i32, Vec<i32>)>,
    padding: i32,
    columns: &Vec<Vec<Item>>,
) -> (tallest: i128)
    requires
        flow::all_in_range(flow::dims_of(heights@), flow::column_views(columns@)),
    ensures
        tallest == max_or_zero(
            Seq::new(
                columns@.len(),
                |c: int|
                    content_height_of(
                        flow::dims_of(heights@),
                        padding as int,
                        flow::column_views(columns@)[c],
                    ),
            ),
        ),
        -0x1_0000_0000_0000_0000_0000_0000_0000 < tallest < 0x1_0000_0000_0000_0000_0000_0000_0000,
{
    let ghost dims = flow::dims_of(heights@);
    let ghost views = flow::column_views(columns@);
    let ghost all = Seq::new(
        columns@.len(),
        |c: int| content_height_of(dims, padding as int, views[c]),
    );
    let mut tallest: i128 = 0;
    let n: usize = columns.len();
    let mut c: usize = 0;
    assert(all.take(0) =~= seq![]);
    while c < n
        invariant
            n == columns@.len(),
            c <= n,
            dims == flow::dims_of(heights@),
            views == flow::column_views(columns@),
            flow::all_in_range(dims, views),
            all == Seq::new(
                columns@.len(),
                |c: int| content_height_of(dims, padding as int, views[c]),
            ),
            tallest == max_or_zero(all.take(c as int)),
            -0x1_0000_0000_0000_0000_0000_0000_0000 < tallest
                < 0x1_0000_0000_0000_0000_0000_0000_0000,
        decreases n - c,
    {
        assert forall|j: int| 0 <= j < columns@[c as int]@.len() implies flow::in_range(
            dims,
            #[trigger] columns@[c as int]@[j],
        ) by {
            assert(flow::in_range(dims, views[c as int][j]));
        }
        let height: i128 = column_height(heights, padding, &columns[c]);
        proof {
            max_pushed(all.take(c as int), height as int);
            assert(all.take(c as int).push(height as int) =~= all.take(c + 1));
        }
        tallest = if c > 0 {
            max_i128(tallest, height)
        } else {
            height
        };
        c = c + 1;
    }
    assert(all.take(n as int) =~= all);
    tallest
}

/// The places of a column's lines, if they can be held.
fn place_column(
    heights: &Vec<(i32, Vec<i32>)>,
    padding: i32,
    x: i128,
    indent: i128,
    top: i128,
    column: &Vec<Item>,
) -> (places: Option<Vec<Placed>>)
    requires
        forall|j: int|
            0 <= j < column@.len() ==> flow::in_range(
                flow::dims_of(heights@),
                #[trigger] column@[j],
            ),
        -0x1_0000_0000_0000_0000_0000_0000_0000 < x < 0x1_0000_0000_0000_0000_0000_0000_0000,
        -0x10_0000_0000 < indent < 0x10_0000_0000,
        -0x10_0000_0000 < top < 0x10_0000_0000,
    ensures
        match places {
            Some(places) => places@.len() == column@.len() && forall|j: int|
                0 <= j < column@.len() ==> (#[trigger] places@[j])@ == placed_at(
                    flow::dims_of(heights@),
                    padding as int,
                    x as int,
                    indent as int,
                    top as int,
                    column@,
                    j,
                ),
            None => exists|j: int|
                0 <= j < column@.len() && !place_held(
                    #[trigger] placed_at(
                        flow::dims_of(heights@),
                        padding as int,
                        x as int,
                        indent as int,
                        top as int,
                        column@,
                        j,
                    ),
                ),
        },
{
    let ghost dims = flow::dims_of(heights@);
    let mut places: Vec<Placed> = Vec::new();
    let mut below: i128 = 0;
    let n: usize = column.len();
    let mut j: usize = 0;
    while j < n
        invariant
            n == column@.len(),
            j <= n,
            dims == flow::dims_of(heights@),
            forall|j: int|
                0 <= j < column@.len() ==> flow::in_range(dims, #[trigger] column@[j]),
            -0x1_0000_0000_0000_0000_0000_0000_0000 < x < 0x1_0000_0000_0000_0000_0000_0000_0000,
            -0x10_0000_0000 < indent < 0x10_0000_0000,
            -0x10_0000_0000 < top < 0x10_0000_0000,
            below == flow::height_of(dims, padding as int, column@.take(j as int)),
            -0x1_0000_0000 * j <= below <= 0x1_0000_0000 * j,
            places@.len() == j,
            forall|k: int|
                0 <= k < j ==> (#[trigger] places@[k])@ == placed_at(
                    dims,
                    padding as int,
                    x as int,
                    indent as int,
                    top as int,
                    column@,
                    k,
                ),
        decreases n - j,
    {
        proof {
            assert(column@.take(j + 1).drop_last() =~= column@.take(j as int));
            assert(column@.take(j + 1).last() == column@[j as int]);
        }
        let ghost place = placed_at(
            dims,
            padding as int,
            x as int,
            indent as int,
            top as int,
            column@,
            j as int,
        );
        let item: Item = column[j];
        let line: i128 = line_height(heights, item) as i128;
        let (gap, shift): (i128, i128) = match item {
            Item::Header(_) => (if j > 0 {
                padding as i128
            } else {
                0
            }, 0),
            Item::Row(_, _) => (0, indent),
        };
        assert(place.x == x && place.action_x == x + shift && place.y == top + below + gap);
        match (narrow(x), narrow(x + shift), narrow(top + below + gap)) {
            (Some(left), Some(action_x), Some(y)) => {
                places.push(Placed { item, x: left, action_x, y });
            },
            _ => {
                assert(!place_held(place));
                return None;
            },
        }
        below = below + gap + line;
        j = j + 1;
    }
    Some(places)
}

fn half_of(n: i128) -> (r: i128)
    requires
        i128::MIN < n,
    ensures
        r == half(n as int),
{
    if n >= 0 {
        ((n as u128) / 2) as i128
    } else {
        -(((-n) as u128 / 2) as i128)
    }
}

proof fn product_bounded(n: int, m: int)
    requires
        0 <= n <= 0xFFFF_FFFF_FFFF_FFFF,
        -0x10_0000_0000 <= m <= 0x10_0000_0000,
    ensures
        -0x10_0000_0000_0000_0000_0000_0000 <= n * m <= 0x10_0000_0000_0000_0000_0000_0000,
{
    assert(-0x10_0000_0000_0000_0000_0000_0000 <= n * m
        <= 0x10_0000_0000_0000_0000_0000_0000) by (nonlinear_arith)
        requires
            0 <= n <= 0xFFFF_FFFF_FFFF_FFFF,
            -0x10_0000_0000 <= m <= 0x10_0000_0000,
    ;
}

/// The places of all lines, if they can be held.
fn place_columns(
    heights: &Vec<(i32, Vec<i32>)>,
    padding: i32,
    stride: i128,
    indent: i128,
    top: i128,
    columns: &Vec<Vec<Item>>,
) -> (places: Option<Vec<Vec<Placed>>>)
    requires
        flow::all_in_range(flow::dims_of(heights@), flow::column_views(columns@)),
        -0x10_0000_0000 <= stride <= 0x10_0000_0000,
        -0x10_0000_0000 < indent < 0x10_0000_0000,
        -0x10_0000_0000 < top < 0x10_0000_0000,
    ensures
        match places {
            Some(places) => places@.len() == columns@.len() && forall|c: int|
                0 <= c < columns@.len() ==> #[trigger] placed_views(places@[c]@) == Seq::new(
                    columns@[c]@.len(),
                    |j: int|
                        placed_at(
                            flow::dims_of(heights@),
                            padding as int,
                            padding + c * stride,
                            indent as int,
                            top as int,
                            columns@[c]@,
                            j,
                        ),
                ),
            None => exists|c: int, j: int|
                0 <= c < columns@.len() && 0 <= j < columns@[c]@.len() && !place_held(
                    #[trigger] placed_at(
                        flow::dims_of(heights@),
                        padding as int,
                        padding + c * stride,
                        indent as int,
                        top as int,
                        columns@[c]@,
                        j,
                    ),
                ),
        },
{
    let ghost dims = flow::dims_of(heights@);
    let mut places: Vec<Vec<Placed>> = Vec::new();
    let n: usize = columns.len();
    let mut c: usize = 0;
    while c < n
        invariant
            n == columns@.len(),
            c <= n,
            dims == flow::dims_of(heights@),
            flow::all_in_range(dims, flow::column_views(columns@)),
            -0x10_0000_0000 <= stride <= 0x10_0000_0000,
            -0x10_0000_0000 < indent < 0x10_0000_0000,
            -0x10_0000_0000 < top < 0x10_0000_0000,
            places@.len() == c,
            forall|k: int|
                0 <= k < c ==> #[trigger] placed_views(places@[k]@) == Seq::new(
                    columns@[k]@.len(),
                    |j: int|
                        placed_at(
                            dims,
                            padding as int,
                            padding + k * stride,
                            indent as int,
                            top as int,
                            columns@[k]@,
                            j,
                        ),
                ),
        decreases n - c,
    {
        proof {
            product_bounded(c as int, stride as int);
        }
        let x: i128 = padding as i128 + c as i128 * stride;
        assert forall|j: int| 0 <= j < columns@[c as int]@.len() implies flow::in_range(
            dims,
            #[trigger] columns@[c as int]@[j],
        ) by {
            assert(flow::in_range(dims, flow::column_views(columns@)[c as int][j]));
        }
        match place_column(heights, padding, x, indent, top, &columns[c]) {
            Some(column) => {
                assert(placed_views(column@) =~= Seq::new(
                    columns@[c as int]@.len(),
                    |j: int|
                        placed_at(
                            dims,
                            padding as int,
                            padding + c * stride,
                            indent as int,
                            top as int,
                            columns@[c as int]@,
                            j,
                        ),
                ));
                places.push(column);
            },
            None => {
                return None;
            },
        }
        c = c + 1;
    }
    Some(places)
}

/// Lays the overlay out: the title at the top, centered, and below it the sections, in columns
/// broken where one would outgrow the output. `None` if some number of the layout can't be held in
/// 32 bits.
pub fn lay_out(sections: &Vec<SectionSizes>, spacing: Spacing, title: TextSize) -> (layout: Option<
    Layout,
>)
    ensures
        match layout {
            Some(layout) => {
                &&& layout_held(size_views(sections@), spacing, title)
                &&& layout@ == layout_of(size_views(sections@), spacing, title)
            },
            None => !layout_held(size_views(sections@), spacing, title),
        },
{
    let ghost views = size_views(sections@);
    let ghost dims = line_dims(views, spacing.line_interval as int);
    let ghost goal = layout_of(views, spacing, title);
    let heights: Vec<(i32, Vec<i32>)> = match line_heights(sections, spacing.line_interval) {
        Some(heights) => heights,
        None => {
            return None;
        },
    };
    let padding: i128 = spacing.padding as i128;
    let room: i128 = spacing.target_h as i128 - spacing.margin as i128 * 2 - padding * 2
        - title.h as i128 - padding;
    let budget: i32 = match narrow(max_i128(room, 1)) {
        Some(budget) => budget,
        None => {
            return None;
        },
    };
    let columns: Vec<Vec<Item>> = flow::flow_into_columns(
        heights.as_slice(),
        spacing.padding,
        budget,
    );
    let ghost columns_view = flow::column_views(columns@);
    proof {
        assert(dims.len() == sections.len());
        assert forall|s: int| 0 <= s < dims.len() implies (#[trigger] dims[s]).rows.len()
            <= usize::MAX by {
            assert(dims[s].rows.len() == sections@[s].rows.len());
        }
        flow::flow_places_lines_of_sections(dims, spacing.padding as int, budget as int);
        assert(columns_view == columns_of(views, spacing, title));
    }
    let tallest: i128 = tallest_column(&heights, spacing.padding, &columns);
    assert(Seq::new(
        columns@.len(),
        |c: int| content_height_of(dims, spacing.padding as int, columns_view[c]),
    ) =~= content_heights(views, spacing, columns_view));

    let indent: i128 = widest_cell(sections, false) as i128 + padding;
    let column_w: i128 = max_i128(
        indent + widest_cell(sections, true) as i128,
        widest_header(sections) as i128,
    );
    let gap: i128 = padding * 3;
    let n: i128 = columns.len() as i128;
    proof {
        product_bounded(n as int, column_w as int);
        product_bounded(n - 1, gap as int);
    }
    let content_width: i128 = n * column_w + (n - 1) * gap;
    let width: i128 = max_i128(content_width, title.w as i128) + padding * 2;
    let height: i128 = title.h as i128 + padding + tallest + padding * 2;
    let title_x: i128 = half_of(width - title.w as i128);
    assert(width == goal.width && height == goal.height && title_x == goal.title_x);

    let top: i128 = padding + title.h as i128 + padding;
    match (
        narrow(width),
        narrow(height),
        narrow(title_x),
        place_columns(&heights, spacing.padding, column_w + gap, indent, top, &columns),
    ) {
        (Some(width), Some(height), Some(title_x), Some(places)) => {
            let layout = Layout { width, height, title_x, title_y: spacing.padding, columns: places };
            proof {
                assert forall|c: int| 0 <= c < columns@.len() implies placed_views(
                    places@[c]@,
                ) == goal.columns[c] by {
                    assert(placed_views(places@[c]@) =~= goal.columns[c]);
                }
                assert(layout@.columns =~= goal.columns);
                assert forall|c: int, j: int|
                    0 <= c < goal.columns.len() && 0 <= j < goal.columns[c].len() implies
                    place_held(#[trigger] goal.columns[c][j]) by {
                    assert(goal.columns[c] == placed_views(places@[c]@));
                    assert(goal.columns[c][j] == places@[c]@[j]@);
                }
            }
            Some(layout)
        },
        (_, _, _, None) => {
            proof {
                let (c, j) = choose|c: int, j: int|
                    0 <= c < columns@.len() && 0 <= j < columns@[c]@.len() && !place_held(
                        #[trigger] placed_at(
                            dims,
                            spacing.padding as int,
                            spacing.padding + c * (column_w + gap),
                            indent as int,
                            top as int,
                            columns@[c]@,
                            j,
                        ),
                    );
                assert(columns_view[c] == columns@[c]@);
                assert(!place_held(goal.columns[c][j]));
            }
            None
        },
        _ => None,
    }
}

} // verus!
