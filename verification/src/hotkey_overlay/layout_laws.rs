//! What the layout of the overlay guarantees.

use crate::hotkey_overlay::flow;
use crate::hotkey_overlay::flow::{Dims, Item};
use crate::hotkey_overlay::layout;
use crate::hotkey_overlay::layout::{Layout, SectionSizes, SectionSizesView, Spacing, TextSize};
use vstd::prelude::*;

verus! {

/// Every line is at least a pixel tall, and there are no more lines than can be counted.
pub open spec fn visible(dims: Seq<Dims>) -> bool {
    &&& dims.len() <= usize::MAX
    &&& forall|s: int|
        0 <= s < dims.len() ==> (#[trigger] dims[s]).rows.len() <= usize::MAX && dims[s].header > 0
            && forall|r: int| 0 <= r < dims[s].rows.len() ==> #[trigger] dims[s].rows[r] > 0
}

/// Height of a line.
pub open spec fn height_of_line(dims: Seq<Dims>, item: Item) -> int {
    match item {
        Item::Header(s) => dims[s as int].header,
        Item::Row(s, r) => dims[s as int].rows[r as int],
    }
}

proof fn heights_agree(dims: Seq<Dims>, padding: int, column: Seq<Item>)
    requires
        visible(dims),
        padding >= 0,
        forall|j: int| 0 <= j < column.len() ==> flow::in_range(dims, #[trigger] column[j]),
    ensures
        layout::content_height_of(dims, padding, column) == flow::height_of(dims, padding, column),
        column.len() > 0 ==> flow::height_of(dims, padding, column) > 0,
    decreases column.len(),
{
    if column.len() > 0 {
        assert(flow::in_range(dims, column[column.len() - 1]));
        assert forall|j: int| 0 <= j < column.drop_last().len() implies flow::in_range(
            dims,
            #[trigger] column.drop_last()[j],
        ) by {
            assert(column.drop_last()[j] == column[j]);
        }
        heights_agree(dims, padding, column.drop_last());
    }
}

proof fn lines_stack(dims: Seq<Dims>, padding: int, column: Seq<Item>, j: int)
    requires
        visible(dims),
        padding >= 0,
        forall|j: int| 0 <= j < column.len() ==> flow::in_range(dims, #[trigger] column[j]),
        0 <= j <= column.len(),
    ensures
        0 <= flow::height_of(dims, padding, column.take(j)) <= flow::height_of(
            dims,
            padding,
            column,
        ),
    decreases column.len() - j,
{
    assert forall|k: int| 0 <= k < column.take(j).len() implies flow::in_range(
        dims,
        #[trigger] column.take(j)[k],
    ) by {
        assert(column.take(j)[k] == column[k]);
    }
    heights_agree(dims, padding, column.take(j));
    if j < column.len() {
        assert(column.take(j + 1).drop_last() =~= column.take(j));
        assert(column.take(j + 1).last() == column[j]);
        lines_stack(dims, padding, column, j + 1);
    } else {
        assert(column.take(j) =~= column);
    }
}

proof fn max_bounds(s: Seq<int>, i: int)
    requires
        0 <= i < s.len(),
    ensures
        s[i] <= layout::max_or_zero(s),
    decreases s.len(),
{
    if s.len() > 1 && i < s.len() - 1 {
        max_bounds(s.drop_last(), i);
    }
}

proof fn max_bounded(s: Seq<int>, bound: int)
    requires
        0 <= bound,
        forall|i: int| 0 <= i < s.len() ==> #[trigger] s[i] <= bound,
    ensures
        layout::max_or_zero(s) <= bound,
    decreases s.len(),
{
    if s.len() > 1 {
        assert forall|i: int| 0 <= i < s.drop_last().len() implies #[trigger] s.drop_last()[i]
            <= bound by {
            assert(s.drop_last()[i] == s[i]);
        }
        max_bounded(s.drop_last(), bound);
        assert(s[s.len() - 1] <= bound);
    }
}

proof fn cell_is_counted(sections: Seq<SectionSizesView>, actions: bool, s: int, r: int)
    requires
        0 <= s < sections.len(),
        0 <= r < sections[s].rows.len(),
    ensures
        layout::cell_widths(sections, actions).contains(
            layout::row_widths(sections[s].rows, actions)[r],
        ),
    decreases sections.len(),
{
    let all = layout::cell_widths(sections, actions);
    let before = layout::cell_widths(sections.drop_last(), actions);
    let added = layout::row_widths(sections.last().rows, actions);
    let width = layout::row_widths(sections[s].rows, actions)[r];
    if s == sections.len() - 1 {
        assert(all[before.len() + r] == width);
    } else {
        cell_is_counted(sections.drop_last(), actions, s, r);
        assert(sections.drop_last()[s] == sections[s]);
        let i = choose|i: int| 0 <= i < before.len() && before[i] == width;
        assert(all[i] == width);
    }
}

/// No cell is wider than the widest one.
proof fn cell_bounded(sections: Seq<SectionSizesView>, actions: bool, s: int, r: int)
    requires
        0 <= s < sections.len(),
        0 <= r < sections[s].rows.len(),
    ensures
        layout::row_widths(sections[s].rows, actions)[r] <= layout::max_or_zero(
            layout::cell_widths(sections, actions),
        ),
{
    let all = layout::cell_widths(sections, actions);
    let width = layout::row_widths(sections[s].rows, actions)[r];
    cell_is_counted(sections, actions, s, r);
    let i = choose|i: int| 0 <= i < all.len() && all[i] == width;
    max_bounds(all, i);
}

/// The sections' sizes make sense: every line is visible and the padding isn't negative.
pub open spec fn drawable(sections: Seq<SectionSizesView>, spacing: Spacing) -> bool {
    spacing.padding >= 0 && visible(layout::line_dims(sections, spacing.line_interval as int))
}

proof fn columns_in_range(
    sections: Seq<SectionSizesView>,
    spacing: Spacing,
    title: TextSize,
    c: int,
)
    requires
        drawable(sections, spacing),
        0 <= c < layout::columns_of(sections, spacing, title).len(),
    ensures
        forall|j: int|
            0 <= j < layout::columns_of(sections, spacing, title)[c].len() ==> flow::in_range(
                layout::line_dims(sections, spacing.line_interval as int),
                #[trigger] layout::columns_of(sections, spacing, title)[c][j],
            ),
{
    flow::flow_places_lines_of_sections(
        layout::line_dims(sections, spacing.line_interval as int),
        spacing.padding as int,
        layout::budget_of(spacing, title),
    );
}

/// Every line lies below the title and at least the padding above the overlay's lower edge.
pub proof fn lines_lie_within_height(
    sections: Seq<SectionSizesView>,
    spacing: Spacing,
    title: TextSize,
    c: int,
    j: int,
)
    requires
        drawable(sections, spacing),
        0 <= c < layout::columns_of(sections, spacing, title).len(),
        0 <= j < layout::columns_of(sections, spacing, title)[c].len(),
    ensures
        ({
            let l = layout::layout_of(sections, spacing, title);
            let dims = layout::line_dims(sections, spacing.line_interval as int);
            let place = l.columns[c][j];
            &&& l.title_y + title.h + spacing.padding <= place.y
            &&& place.y + height_of_line(dims, place.item) <= l.height - spacing.padding
        }),
{
    let dims = layout::line_dims(sections, spacing.line_interval as int);
    let padding = spacing.padding as int;
    let columns = layout::columns_of(sections, spacing, title);
    let column = columns[c];
    columns_in_range(sections, spacing, title, c);
    lines_stack(dims, padding, column, j);
    lines_stack(dims, padding, column, j + 1);
    assert(column.take(j + 1).drop_last() =~= column.take(j));
    assert(column.take(j + 1).last() == column[j]);
    heights_agree(dims, padding, column);
    let heights = layout::content_heights(sections, spacing, columns);
    max_bounds(heights, c);
}

/// The lines of a column don't overlap: each ends where the next starts, or above it.
pub proof fn lines_do_not_overlap(
    sections: Seq<SectionSizesView>,
    spacing: Spacing,
    title: TextSize,
    c: int,
    j: int,
)
    requires
        drawable(sections, spacing),
        0 <= c < layout::columns_of(sections, spacing, title).len(),
        0 <= j < layout::columns_of(sections, spacing, title)[c].len() - 1,
    ensures
        ({
            let column = layout::layout_of(sections, spacing, title).columns[c];
            let dims = layout::line_dims(sections, spacing.line_interval as int);
            column[j].y + height_of_line(dims, column[j].item) <= column[j + 1].y
        }),
{
    let column = layout::columns_of(sections, spacing, title)[c];
    assert(column.take(j + 1).drop_last() =~= column.take(j));
    assert(column.take(j + 1).last() == column[j]);
}

/// The texts of a line lie in its column, which lies at least the padding inside the overlay's
/// left and right edges; a row's action starts at least the padding right of the row's key.
pub proof fn lines_lie_within_width(
    sections: Seq<SectionSizesView>,
    spacing: Spacing,
    title: TextSize,
    c: int,
    j: int,
)
    requires
        drawable(sections, spacing),
        forall|s: int| 0 <= s < sections.len() ==> (#[trigger] sections[s]).header.w >= 0,
        0 <= c < layout::columns_of(sections, spacing, title).len(),
        0 <= j < layout::columns_of(sections, spacing, title)[c].len(),
    ensures
        ({
            let l = layout::layout_of(sections, spacing, title);
            let place = l.columns[c][j];
            let right = place.x + layout::column_width(sections, spacing);
            &&& spacing.padding <= place.x
            &&& right <= l.width - spacing.padding
            &&& match place.item {
                Item::Header(s) => place.x + sections[s as int].header.w <= right,
                Item::Row(s, r) => {
                    let row = sections[s as int].rows[r as int];
                    &&& place.x + row.key.w + spacing.padding <= place.action_x
                    &&& place.action_x + row.action.w <= right
                },
            }
        }),
{
    let columns = layout::columns_of(sections, spacing, title);
    let width = layout::column_width(sections, spacing);
    let gap = layout::column_gap(spacing);
    let n = columns.len() as int;
    columns_in_range(sections, spacing, title, c);
    assert(flow::in_range(
        layout::line_dims(sections, spacing.line_interval as int),
        columns[c][j],
    ));
    let headers = layout::header_widths(sections);
    assert(sections.len() > 0);
    max_bounds(headers, 0);
    assert(headers[0] >= 0);
    match columns[c][j] {
        Item::Header(s) => {
            max_bounds(headers, s as int);
        },
        Item::Row(s, r) => {
            cell_bounded(sections, false, s as int, r as int);
            cell_bounded(sections, true, s as int, r as int);
        },
    }
    assert(0 <= c * (width + gap) && c * (width + gap) + width <= n * width + (n - 1) * gap)
        by (nonlinear_arith)
        requires
            0 <= c < n,
            width >= 0,
            gap >= 0,
    ;
}

/// The overlay leaves the margin free above and below it, if the output has room below the title
/// for each line alone.
pub proof fn overlay_fits_output(
    sections: Seq<SectionSizesView>,
    spacing: Spacing,
    title: TextSize,
)
    requires
        drawable(sections, spacing),
        1 <= spacing.target_h - spacing.margin * 2 - spacing.padding * 3 - title.h,
        forall|item: Item|
            flow::in_range(layout::line_dims(sections, spacing.line_interval as int), item)
                ==> #[trigger] height_of_line(
                layout::line_dims(sections, spacing.line_interval as int),
                item,
            ) <= spacing.target_h - spacing.margin * 2 - spacing.padding * 3 - title.h,
    ensures
        layout::layout_of(sections, spacing, title).height <= spacing.target_h - spacing.margin * 2,
{
    let dims = layout::line_dims(sections, spacing.line_interval as int);
    let padding = spacing.padding as int;
    let budget = layout::budget_of(spacing, title);
    let columns = layout::columns_of(sections, spacing, title);
    let heights = layout::content_heights(sections, spacing, columns);
    flow::flow_stays_within_budget(dims, padding, budget);
    assert forall|c: int| 0 <= c < heights.len() implies #[trigger] heights[c] <= budget by {
        let column = columns[c];
        columns_in_range(sections, spacing, title, c);
        heights_agree(dims, padding, column);
        assert(flow::fits(dims, padding, budget, column));
        if column.len() > 0 {
            let rest = column.drop_last();
            assert forall|j: int| 0 <= j < rest.len() implies flow::in_range(
                dims,
                #[trigger] rest[j],
            ) by {
                assert(rest[j] == column[j]);
            }
            heights_agree(dims, padding, rest);
            if rest.len() == 0 {
                let item = column[0];
                assert(flow::in_range(dims, item));
                assert(height_of_line(dims, item) <= budget);
                assert(flow::height_of(dims, padding, rest) == 0);
            }
        }
    }
    max_bounded(heights, budget);
}

/// A line is as tall as the taller of its texts, and the line interval.
pub proof fn lines_are_as_tall_as_their_texts(
    sections: Seq<SectionSizesView>,
    line_interval: int,
    s: int,
    r: int,
)
    requires
        0 <= s < sections.len(),
    ensures
        ({
            let dims = layout::line_dims(sections, line_interval);
            &&& dims.len() == sections.len()
            &&& dims[s].header == sections[s].header.h + line_interval
            &&& dims[s].rows.len() == sections[s].rows.len()
            &&& 0 <= r < sections[s].rows.len() ==> {
                let row = sections[s].rows[r];
                &&& dims[s].rows[r] >= row.key.h + line_interval
                &&& dims[s].rows[r] >= row.action.h + line_interval
                &&& dims[s].rows[r] == row.key.h + line_interval || dims[s].rows[r] == row.action.h
                    + line_interval
            }
        }),
{
}

/// The columns are flowed into the height that the output leaves: less a margin above and below,
/// the padding inside both edges and below the title, and the title; and into one pixel if it
/// leaves less.
pub proof fn columns_use_the_room_of_the_output(
    sections: Seq<SectionSizesView>,
    spacing: Spacing,
    title: TextSize,
)
    ensures
        ({
            let room = spacing.target_h - 2 * spacing.margin - 3 * spacing.padding - title.h;
            layout::columns_of(sections, spacing, title) == flow::flowed(
                layout::line_dims(sections, spacing.line_interval as int),
                spacing.padding as int,
                if room >= 1 {
                    room
                } else {
                    1
                },
            )
        }),
{
}

/// The number is the largest of the numbers, or 0 if there are none.
pub open spec fn is_largest(n: int, all: Seq<int>) -> bool {
    &&& all.len() == 0 ==> n == 0
    &&& all.len() > 0 ==> all.contains(n)
    &&& forall|i: int| 0 <= i < all.len() ==> #[trigger] all[i] <= n
}

proof fn largest_is_found(all: Seq<int>)
    ensures
        is_largest(layout::max_or_zero(all), all),
    decreases all.len(),
{
    if all.len() == 1 {
        assert(all[0] == layout::max_or_zero(all));
    } else if all.len() > 1 {
        let shorter = all.drop_last();
        let most = layout::max_or_zero(shorter);
        largest_is_found(shorter);
        let k = choose|k: int| 0 <= k < shorter.len() && shorter[k] == most;
        assert(all[k] == most);
        assert(all[all.len() - 1] == all.last());
        assert forall|i: int| 0 <= i < all.len() implies #[trigger] all[i] <= layout::max_or_zero(
            all,
        ) by {
            if i < shorter.len() {
                assert(shorter[i] == all[i]);
            }
        }
    }
}

proof fn counted_cell_exists(sections: Seq<SectionSizesView>, actions: bool, k: int)
    requires
        0 <= k < layout::cell_widths(sections, actions).len(),
    ensures
        exists|s: int, r: int|
            0 <= s < sections.len() && 0 <= r < sections[s].rows.len()
                && #[trigger] cell_width(sections, actions, s, r) == layout::cell_widths(
                sections,
                actions,
            )[k],
    decreases sections.len(),
{
    let shorter = sections.drop_last();
    let before = layout::cell_widths(shorter, actions);
    let n = sections.len() - 1;
    if k < before.len() {
        counted_cell_exists(shorter, actions, k);
        let (s, r) = choose|s: int, r: int|
            0 <= s < shorter.len() && 0 <= r < shorter[s].rows.len() && #[trigger] cell_width(
                shorter,
                actions,
                s,
                r,
            ) == before[k];
        assert(sections[s] == shorter[s]);
        assert(cell_width(sections, actions, s, r) == before[k]);
    } else {
        let r = k - before.len();
        assert(cell_width(sections, actions, n, r) == layout::cell_widths(sections, actions)[k]);
    }
}

/// The width of a row's action, or of its key.
pub open spec fn cell_width(
    sections: Seq<SectionSizesView>,
    actions: bool,
    s: int,
    r: int,
) -> int {
    if actions {
        sections[s].rows[r].action.w as int
    } else {
        sections[s].rows[r].key.w as int
    }
}

/// The width is that of the widest action, or of the widest key; 0 if there are no rows.
pub open spec fn is_widest_cell(
    width: int,
    sections: Seq<SectionSizesView>,
    actions: bool,
) -> bool {
    &&& forall|s: int, r: int|
        0 <= s < sections.len() && 0 <= r < sections[s].rows.len() ==> #[trigger] cell_width(
            sections,
            actions,
            s,
            r,
        ) <= width
    &&& (exists|s: int, r: int|
        0 <= s < sections.len() && 0 <= r < sections[s].rows.len() && #[trigger] cell_width(
            sections,
            actions,
            s,
            r,
        ) == width) || width == 0 && forall|s: int|
        0 <= s < sections.len() ==> (#[trigger] sections[s]).rows.len() == 0
}

proof fn widest_cell_is_found(sections: Seq<SectionSizesView>, actions: bool)
    ensures
        is_widest_cell(
            layout::max_or_zero(layout::cell_widths(sections, actions)),
            sections,
            actions,
        ),
{
    let all = layout::cell_widths(sections, actions);
    let most = layout::max_or_zero(all);
    largest_is_found(all);
    assert forall|s: int, r: int|
        0 <= s < sections.len() && 0 <= r < sections[s].rows.len() implies #[trigger] cell_width(
        sections,
        actions,
        s,
        r,
    ) <= most by {
        cell_bounded(sections, actions, s, r);
    }
    if all.len() > 0 {
        let k = choose|k: int| 0 <= k < all.len() && all[k] == most;
        counted_cell_exists(sections, actions, k);
    } else {
        assert forall|s: int| 0 <= s < sections.len() implies (#[trigger] sections[s]).rows.len()
            == 0 by {
            if sections[s].rows.len() > 0 {
                cell_is_counted(sections, actions, s, 0);
            }
        }
    }
}

/// A column is as wide as the widest key, the padding and the widest action, or as the widest
/// header if that is wider.
pub proof fn columns_hold_the_widest_texts(sections: Seq<SectionSizesView>, spacing: Spacing)
    ensures
        exists|key: int, action: int, header: int|
            is_widest_cell(key, sections, false) && is_widest_cell(action, sections, true)
                && is_largest(header, layout::header_widths(sections)) && layout::column_width(
                sections,
                spacing,
            ) == #[trigger] wider(key + spacing.padding + action, header) && layout::action_indent(
                sections,
                spacing,
            ) == key + spacing.padding,
        layout::header_widths(sections).len() == sections.len(),
        forall|s: int|
            0 <= s < sections.len() ==> #[trigger] layout::header_widths(sections)[s]
                == sections[s].header.w,
{
    let key = layout::max_or_zero(layout::cell_widths(sections, false));
    let action = layout::max_or_zero(layout::cell_widths(sections, true));
    let header = layout::max_or_zero(layout::header_widths(sections));
    widest_cell_is_found(sections, false);
    widest_cell_is_found(sections, true);
    largest_is_found(layout::header_widths(sections));
    assert(layout::column_width(sections, spacing) == wider(key + spacing.padding + action, header));
}

pub open spec fn wider(a: int, b: int) -> int {
    if a > b {
        a
    } else {
        b
    }
}

/// Every line of the columns has its place. The first line of a column stands below the title with
/// the padding on both sides of it, and each line right below the one before it, with the padding
/// between if it is a header.
pub proof fn lines_are_stacked(
    sections: Seq<SectionSizesView>,
    spacing: Spacing,
    title: TextSize,
    c: int,
    j: int,
)
    requires
        0 <= c < layout::columns_of(sections, spacing, title).len(),
        0 <= j < layout::columns_of(sections, spacing, title)[c].len(),
    ensures
        ({
            let l = layout::layout_of(sections, spacing, title);
            let columns = layout::columns_of(sections, spacing, title);
            let dims = layout::line_dims(sections, spacing.line_interval as int);
            let place = l.columns[c][j];
            &&& l.columns.len() == columns.len()
            &&& l.columns[c].len() == columns[c].len()
            &&& place.item == columns[c][j]
            &&& j == 0 ==> place.y == spacing.padding + title.h + spacing.padding
            &&& j + 1 < columns[c].len() ==> l.columns[c][j + 1].y == place.y + height_of_line(
                dims,
                place.item,
            ) + if columns[c][j + 1] is Header {
                spacing.padding as int
            } else {
                0
            }
        }),
{
    let dims = layout::line_dims(sections, spacing.line_interval as int);
    let column = layout::columns_of(sections, spacing, title)[c];
    assert(column.take(0) =~= Seq::<Item>::empty());
    if j + 1 < column.len() {
        assert(column.take(j + 1).drop_last() =~= column.take(j));
        assert(column.take(j + 1).last() == column[j]);
    }
}

/// The lines of a column start at its left edge, and a row's action farther right by the indent.
/// The first column is the padding away from the overlay's edge, and each next one three times the
/// padding from the one before it.
pub proof fn columns_stand_side_by_side(
    sections: Seq<SectionSizesView>,
    spacing: Spacing,
    title: TextSize,
    c: int,
    j: int,
    i: int,
)
    requires
        0 <= c < layout::columns_of(sections, spacing, title).len(),
        0 <= j < layout::columns_of(sections, spacing, title)[c].len(),
    ensures
        ({
            let l = layout::layout_of(sections, spacing, title);
            let place = l.columns[c][j];
            &&& c == 0 ==> place.x == spacing.padding
            &&& place.item is Row ==> place.action_x == place.x + layout::action_indent(
                sections,
                spacing,
            )
            &&& place.item is Header ==> place.action_x == place.x
            &&& c + 1 < l.columns.len() && 0 <= i < l.columns[c + 1].len() ==> l.columns[c + 1][i].x
                == place.x + layout::column_width(sections, spacing) + 3 * spacing.padding
        }),
{
    let stride = layout::column_width(sections, spacing) + layout::column_gap(spacing);
    assert((c + 1) * stride == c * stride + stride) by (nonlinear_arith);
    assert(0 * stride == 0) by (nonlinear_arith);
}

/// The overlay is as wide as its columns with three times the padding between them, or as its
/// title, and the padding on both sides. The title stands in the middle, the padding below the
/// upper edge.
pub proof fn overlay_spans_columns_and_title(
    sections: Seq<SectionSizesView>,
    spacing: Spacing,
    title: TextSize,
)
    requires
        spacing.padding >= 0,
    ensures
        ({
            let l = layout::layout_of(sections, spacing, title);
            let n = layout::columns_of(sections, spacing, title).len() as int;
            let content = n * layout::column_width(sections, spacing) + (n - 1) * (3
                * spacing.padding);
            &&& l.width == wider(content, title.w as int) + 2 * spacing.padding
            &&& l.title_y == spacing.padding
            &&& 0 <= l.width - title.w - 2 * l.title_x <= 1
        }),
{
}

/// The overlay is as tall as its tallest column, the title, the padding between them and the
/// padding above and below.
pub proof fn overlay_spans_the_tallest_column(
    sections: Seq<SectionSizesView>,
    spacing: Spacing,
    title: TextSize,
)
    requires
        drawable(sections, spacing),
    ensures
        ({
            let columns = layout::columns_of(sections, spacing, title);
            let dims = layout::line_dims(sections, spacing.line_interval as int);
            is_largest(
                layout::layout_of(sections, spacing, title).height - title.h - 3 * spacing.padding,
                Seq::new(
                    columns.len(),
                    |c: int| flow::height_of(dims, spacing.padding as int, columns[c]),
                ),
            )
        }),
{
    let columns = layout::columns_of(sections, spacing, title);
    let dims = layout::line_dims(sections, spacing.line_interval as int);
    let heights = layout::content_heights(sections, spacing, columns);
    largest_is_found(heights);
    assert forall|c: int| 0 <= c < columns.len() implies heights[c] == #[trigger] flow::height_of(
        dims,
        spacing.padding as int,
        columns[c],
    ) by {
        columns_in_range(sections, spacing, title, c);
        heights_agree(dims, spacing.padding as int, columns[c]);
    }
    assert(heights =~= Seq::new(
        columns.len(),
        |c: int| flow::height_of(dims, spacing.padding as int, columns[c]),
    ));
}

/// A layout is refused only if one of its numbers lies outside what 32 bits hold.
pub proof fn only_large_layouts_are_refused(
    sections: Seq<SectionSizesView>,
    spacing: Spacing,
    title: TextSize,
)
    requires
        ({
            let l = layout::layout_of(sections, spacing, title);
            let dims = layout::line_dims(sections, spacing.line_interval as int);
            &&& forall|s: int|
                0 <= s < dims.len() ==> -0x8000_0000 <= (#[trigger] dims[s]).header <= 0x7FFF_FFFF
                    && forall|r: int|
                    0 <= r < dims[s].rows.len() ==> -0x8000_0000 <= #[trigger] dims[s].rows[r]
                        <= 0x7FFF_FFFF
            &&& spacing.target_h - 2 * spacing.margin - 3 * spacing.padding - title.h <= 0x7FFF_FFFF
            &&& -0x8000_0000 <= l.width <= 0x7FFF_FFFF
            &&& -0x8000_0000 <= l.height <= 0x7FFF_FFFF
            &&& -0x8000_0000 <= l.title_x <= 0x7FFF_FFFF
            &&& forall|c: int, j: int|
                0 <= c < l.columns.len() && 0 <= j < l.columns[c].len() ==> -0x8000_0000 <= (
                #[trigger] l.columns[c][j]).x <= 0x7FFF_FFFF && -0x8000_0000
                    <= l.columns[c][j].action_x <= 0x7FFF_FFFF && -0x8000_0000 <= l.columns[c][j].y
                    <= 0x7FFF_FFFF
        }),
    ensures
        layout::layout_held(sections, spacing, title),
{
}

/// The view of a layout has the layout's numbers.
pub proof fn layout_views_are_faithful(l: Layout, c: int, j: int)
    ensures
        l@.width == l.width,
        l@.height == l.height,
        l@.title_x == l.title_x,
        l@.title_y == l.title_y,
        l@.columns.len() == l.columns@.len(),
        0 <= c < l.columns@.len() ==> l@.columns[c].len() == l.columns@[c]@.len(),
        0 <= c < l.columns@.len() && 0 <= j < l.columns@[c]@.len() ==> ({
            let place = l.columns@[c]@[j];
            let view = l@.columns[c][j];
            &&& view.item == place.item
            &&& view.x == place.x
            &&& view.action_x == place.action_x
            &&& view.y == place.y
        }),
{
}

/// The views of sections have the sections' extents.
pub proof fn size_views_are_faithful(sections: Seq<SectionSizes>, s: int)
    requires
        0 <= s < sections.len(),
    ensures
        layout::size_views(sections).len() == sections.len(),
        layout::size_views(sections)[s].header == sections[s].header,
        layout::size_views(sections)[s].rows == sections[s].rows@,
{
}

/// The content of a column is as tall as its lines, and a padding above each header that has
/// content above it.
pub proof fn content_heights_add_up(
    dims: Seq<Dims>,
    padding: int,
    column: Seq<Item>,
    s: usize,
    r: usize,
)
    ensures
        layout::content_height_of(dims, padding, Seq::empty()) == 0,
        layout::content_height_of(dims, padding, column.push(Item::Row(s, r)))
            == layout::content_height_of(dims, padding, column) + dims[s as int].rows[r as int],
        ({
            let above = layout::content_height_of(dims, padding, column);
            let all = layout::content_height_of(dims, padding, column.push(Item::Header(s)));
            &&& above > 0 ==> all == above + padding + dims[s as int].header
            &&& above <= 0 ==> all == above + dims[s as int].header
        }),
{
    assert(column.push(Item::Header(s)).drop_last() =~= column);
    assert(column.push(Item::Row(s, r)).drop_last() =~= column);
}

} // verus!
