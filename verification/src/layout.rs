//! Areas of the terminal, and how they are cut into strips.
use ratatui::layout::{Constraint, Direction, Layout, Rect};
use vstd::prelude::*;

verus! {

/// A rectangle of terminal cells.
#[derive(Debug, Clone, Copy, PartialEq, Eq, Structural)]
pub struct Area {
    pub x: u16,
    pub y: u16,
    pub width: u16,
    pub height: u16,
}

/// How long a strip is wanted: a number of cells, at least a number of cells, or a percentage of
/// the whole.
#[derive(Debug, Clone, Copy, PartialEq, Eq, Structural)]
pub enum Span {
    Length(u16),
    Min(u16),
    Percentage(u16),
}

/// Whether strips lie one below the other or side by side.
#[derive(Debug, Clone, Copy, PartialEq, Eq, Structural)]
pub enum Axis {
    Vertical,
    Horizontal,
}

/// Whether `part` is a strip of `whole`: as wide as it and within its height, or as high as it and
/// within its width.
pub open spec fn is_strip(part: Area, whole: Area, axis: Axis) -> bool {
    match axis {
        Axis::Vertical => {
            &&& part.x == whole.x
            &&& part.width == whole.width
            &&& whole.y <= part.y
            &&& part.y + part.height <= whole.y + whole.height
        },
        Axis::Horizontal => {
            &&& part.y == whole.y
            &&& part.height == whole.height
            &&& whole.x <= part.x
            &&& part.x + part.width <= whole.x + whole.width
        },
    }
}

/// Whether `part` lies within `whole`.
pub open spec fn is_within(part: Area, whole: Area) -> bool {
    &&& whole.x <= part.x
    &&& part.x + part.width <= whole.x + whole.width
    &&& whole.y <= part.y
    &&& part.y + part.height <= whole.y + whole.height
}

/// Where `area` begins along `axis`.
pub open spec fn origin(area: Area, axis: Axis) -> int {
    match axis {
        Axis::Vertical => area.y as int,
        Axis::Horizontal => area.x as int,
    }
}

/// How long `area` is along `axis`.
pub open spec fn extent(area: Area, axis: Axis) -> int {
    match axis {
        Axis::Vertical => area.height as int,
        Axis::Horizontal => area.width as int,
    }
}

/// How far `area` reaches along `axis`: no further than there are coordinates.
pub open spec fn reach(area: Area, axis: Axis) -> int {
    if origin(area, axis) + extent(area, axis) <= u16::MAX {
        extent(area, axis)
    } else {
        u16::MAX - origin(area, axis)
    }
}

/// The strip of `area` from offset `from` to offset `to` along `axis`.
pub open spec fn strip(area: Area, axis: Axis, from: int, to: int) -> Area {
    match axis {
        Axis::Vertical => Area { y: (area.y + from) as u16, height: (to - from) as u16, ..area },
        Axis::Horizontal => Area { x: (area.x + from) as u16, width: (to - from) as u16, ..area },
    }
}

/// `percent` of `whole` cells, rounded to the nearest cell.
pub open spec fn share(whole: int, percent: int) -> int {
    (whole * percent + 50) / 100
}

/// The offsets at which three spans cut a whole of `n` cells, where they leave no choice: each
/// percentage is granted, and each length, with what is left for the strip between.
pub open spec fn cuts(n: int, spans: Seq<Span>) -> Option<Seq<int>> {
    if spans.len() != 3 {
        None
    } else {
        match (spans[0], spans[1], spans[2]) {
            (Span::Percentage(a), Span::Percentage(b), Span::Percentage(c)) if a + b + c <= 100 =>
                Some(seq![0, share(n, a as int), share(n, a + b), share(n, a + b + c)]),
            (Span::Length(a), Span::Min(m), Span::Length(c)) if a + m + c <= n => Some(
                seq![0, a as int, n - c, n],
            ),
            _ => None,
        }
    }
}

/// Whether `strips` are cut where `spans` leave no choice but to cut.
pub open spec fn are_cut(strips: Seq<Area>, area: Area, axis: Axis, spans: Seq<Span>) -> bool {
    cuts(reach(area, axis), spans) matches Some(at) ==> forall|i: int|
        0 <= i < strips.len() ==> #[trigger] strips[i] == strip(area, axis, at[i], at[i + 1])
}

/// Whether `spans` are those of the screen, or leave a percentage of a whole in the middle.
pub open spec fn is_wanted(spans: Seq<Span>) -> bool {
    spans == screen_spans() || exists|percent: u16|
        percent <= 100 && spans == #[trigger] centering(percent)
}

/// Whether `ratatui`'s `Layout::split` may cut `area` along `axis` into `strips` when it is asked
/// for `spans`.
pub uninterp spec fn may_split(
    area: Area,
    axis: Axis,
    spans: Seq<Span>,
    strips: Seq<Area>,
) -> bool;

/// `ratatui`'s `Layout::split`, with no margin and no spacing: one strip of the area for each span,
/// in order and without overlap, as far as there are coordinates. Where three spans can all be
/// granted, they are, and the strips follow one another from the start of the area; lengths come in
/// whole cells, and the ends of percentages are rounded to the nearest cell. Where spans compete, a
/// constraint solver may settle them in more than one way, and the lengths are left open.
#[verifier::external_body]
fn split_area(area: Area, axis: Axis, spans: &Vec<Span>) -> (strips: Vec<Area>)
    requires
        is_wanted(spans@),
    ensures
        may_split(area, axis, spans@, strips@),
        strips@.len() == spans@.len(),
        forall|i: int| 0 <= i < strips@.len() ==> is_strip(#[trigger] strips@[i], area, axis),
        forall|i: int, j: int|
            0 <= i < j < strips@.len() ==> origin(#[trigger] strips@[i], axis) + extent(
                strips@[i],
                axis,
            ) <= origin(#[trigger] strips@[j], axis),
        are_cut(strips@, area, axis, spans@),
{
    let direction = match axis {
        Axis::Vertical => Direction::Vertical,
        Axis::Horizontal => Direction::Horizontal,
    };
    let constraints = spans.iter().map(|span| match span {
        Span::Length(n) => Constraint::Length(*n),
        Span::Min(n) => Constraint::Min(*n),
        Span::Percentage(n) => Constraint::Percentage(*n),
    });
    let whole = Rect { x: area.x, y: area.y, width: area.width, height: area.height };
    let strips = Layout::default().direction(direction).constraints(constraints).split(whole);
    strips.iter().map(|r| Area { x: r.x, y: r.y, width: r.width, height: r.height }).collect()
}

/// The spans that leave `percent` of a whole in the middle.
pub open spec fn centering(percent: u16) -> Seq<Span> {
    let side = Span::Percentage(((100 - percent) / 2) as u16);
    seq![side, Span::Percentage(percent), side]
}

/// The spans that leave `percent` of a whole in the middle.
pub fn centering_spans(percent: u16) -> (spans: Vec<Span>)
    requires
        percent <= 100,
    ensures
        spans@ == centering(percent),
{
    let side: u16 = (100 - percent) / 2;
    let spans = vec![Span::Percentage(side), Span::Percentage(percent), Span::Percentage(side)];
    assert(spans@ == centering(percent));
    spans
}

/// The area in the middle of `r`: it begins behind half of what is left over on each axis, and its
/// ends are rounded to the nearest cell.
pub open spec fn centered(percent_x: u16, percent_y: u16, r: Area) -> Area {
    let (left, top) = ((100 - percent_x) / 2, (100 - percent_y) / 2);
    let (wide, high) = (reach(r, Axis::Horizontal), reach(r, Axis::Vertical));
    let row = strip(r, Axis::Vertical, share(high, top), share(high, top + percent_y));
    strip(row, Axis::Horizontal, share(wide, left), share(wide, left + percent_x))
}

/// The area in the middle of `r` that takes `percent_x` of its width and `percent_y` of its height,
/// as far as the cells allow.
pub fn centered_rect(percent_x: u16, percent_y: u16, r: Area) -> (area: Area)
    requires
        percent_x <= 100,
        percent_y <= 100,
    ensures
        is_within(area, r),
        area == centered(percent_x, percent_y, r),
{
    let rows = split_area(r, Axis::Vertical, &centering_spans(percent_y));
    let row = rows[1];
    let columns = split_area(row, Axis::Horizontal, &centering_spans(percent_x));
    columns[1]
}

/// The spans of the screen: a header of three rows, the table, a footer of one row.
pub open spec fn screen_spans() -> Seq<Span> {
    seq![Span::Length(3), Span::Min(0), Span::Length(1)]
}

/// The header, the table and the footer of a screen that has room for header and footer.
pub open spec fn screen_parts(screen: Area) -> Seq<Area> {
    let n = reach(screen, Axis::Vertical);
    seq![
        strip(screen, Axis::Vertical, 0, 3),
        strip(screen, Axis::Vertical, 3, n - 1),
        strip(screen, Axis::Vertical, n - 1, n),
    ]
}

/// Whether `areas` are the header, the table and the footer of `screen`: strips of it from the top
/// down, without overlap, of the wanted heights where there is room for them.
pub open spec fn are_screen_areas(areas: Seq<Area>, screen: Area) -> bool {
    &&& may_split(screen, Axis::Vertical, screen_spans(), areas)
    &&& areas.len() == 3
    &&& forall|i: int| 0 <= i < 3 ==> is_strip(#[trigger] areas[i], screen, Axis::Vertical)
    &&& areas[0].y + areas[0].height <= areas[1].y
    &&& areas[1].y + areas[1].height <= areas[2].y
    &&& reach(screen, Axis::Vertical) >= 4 ==> areas == screen_parts(screen)
}

/// Cuts the screen into header, table and footer.
pub fn screen_areas(screen: Area) -> (areas: Vec<Area>)
    ensures
        are_screen_areas(areas@, screen),
{
    let spans = vec![Span::Length(3), Span::Min(0), Span::Length(1)];
    assert(spans@ == screen_spans());
    let areas = split_area(screen, Axis::Vertical, &spans);
    assert(reach(screen, Axis::Vertical) >= 4 ==> areas@ == screen_parts(screen));
    areas
}

/// The margins of a share in the middle of `n` cells differ by one cell at most.
proof fn lemma_margins(n: int, percent: int)
    requires
        0 <= n,
        0 <= percent <= 100,
        percent % 2 == 0,
    ensures
        ({
            let side = (100 - percent) / 2;
            let (from, to) = (share(n, side), share(n, side + percent));
            0 <= from <= to <= n && -1 <= from - (n - to) <= 1
        }),
{
    let side = (100 - percent) / 2;
    assert(n * side + n * (side + percent) == 100 * n) by (nonlinear_arith)
        requires
            side + side + percent == 100,
    ;
    assert(0 <= n * side <= n * (side + percent)) by (nonlinear_arith)
        requires
            0 <= n,
            0 <= side,
            0 <= percent,
    ;
}

/// With even percentages, the margins on opposite sides of a centred area differ by one cell at
/// most.
pub proof fn margins_are_even(percent_x: u16, percent_y: u16, r: Area)
    requires
        percent_x <= 100,
        percent_x % 2 == 0,
        percent_y <= 100,
        percent_y % 2 == 0,
    ensures
        ({
            let area = centered(percent_x, percent_y, r);
            let (left, top) = (area.x - r.x, area.y - r.y);
            let right = (r.x + reach(r, Axis::Horizontal)) - (area.x + area.width);
            let bottom = (r.y + reach(r, Axis::Vertical)) - (area.y + area.height);
            -1 <= left - right <= 1 && -1 <= top - bottom <= 1
        }),
{
    lemma_margins(reach(r, Axis::Horizontal), percent_x as int);
    lemma_margins(reach(r, Axis::Vertical), percent_y as int);
}

proof fn lemma_nearest(n: int, percent: int)
    requires
        0 <= n,
        0 <= percent <= 100,
    ensures
        -50 < 100 * share(n, percent) - n * percent <= 50,
        0 <= share(n, percent) <= n,
{
    assert(0 <= n * percent <= n * 100) by (nonlinear_arith)
        requires
            0 <= n,
            0 <= percent <= 100,
    ;
}

/// The edges of a centred area are the cells nearest to where its percentages put them: behind half
/// of what is left over, and behind that and the percentage itself, of the width and of the height,
/// as far as there are coordinates.
pub proof fn centred_edges_are_nearest(percent_x: u16, percent_y: u16, r: Area)
    requires
        percent_x <= 100,
        percent_y <= 100,
    ensures
        ({
            let area = centered(percent_x, percent_y, r);
            let wide: int = if r.x + r.width <= 65535 {
                r.width as int
            } else {
                65535 - r.x
            };
            let high: int = if r.y + r.height <= 65535 {
                r.height as int
            } else {
                65535 - r.y
            };
            let (left, top) = (area.x - r.x, area.y - r.y);
            let (right, bottom) = (left + area.width, top + area.height);
            let (side_x, side_y): (int, int) = (
                (100 - percent_x) / 2,
                (100 - percent_y) / 2,
            );
            &&& -50 < 100 * left - wide * side_x <= 50
            &&& -50 < 100 * right - wide * (side_x + percent_x) <= 50
            &&& -50 < 100 * top - high * side_y <= 50
            &&& -50 < 100 * bottom - high * (side_y + percent_y) <= 50
        }),
{
    let (side_x, side_y) = ((100 - percent_x) / 2, (100 - percent_y) / 2);
    let (wide, high) = (reach(r, Axis::Horizontal), reach(r, Axis::Vertical));
    lemma_nearest(wide, side_x);
    lemma_nearest(wide, side_x + percent_x);
    lemma_nearest(high, side_y);
    lemma_nearest(high, side_y + percent_y);
    assert(wide * side_x <= wide * (side_x + percent_x)) by (nonlinear_arith)
        requires
            0 <= wide,
            0 <= percent_x,
    ;
    assert(high * side_y <= high * (side_y + percent_y)) by (nonlinear_arith)
        requires
            0 <= high,
            0 <= percent_y,
    ;
}

/// A screen with room for them has a header of three rows at its top and a footer of one row at its
/// bottom, as wide as itself, and the table takes all rows between them.
pub proof fn screens_are_header_table_and_footer(areas: Seq<Area>, screen: Area)
    requires
        are_screen_areas(areas, screen),
        screen.y + screen.height <= 65535,
        screen.height >= 4,
    ensures
        areas.len() == 3,
        areas[0].y == screen.y && areas[0].height == 3,
        areas[1].y == screen.y + 3 && areas[1].height == screen.height - 4,
        areas[2].y == screen.y + screen.height - 1 && areas[2].height == 1,
        forall|i: int|
            0 <= i < 3 ==> (#[trigger] areas[i]).x == screen.x && areas[i].width == screen.width,
{
}

/// However small a screen is, its parts lie within it, one below the other.
pub proof fn screen_parts_do_not_overlap(areas: Seq<Area>, screen: Area)
    requires
        are_screen_areas(areas, screen),
    ensures
        areas.len() == 3,
        screen.y <= areas[0].y,
        areas[0].y + areas[0].height <= areas[1].y,
        areas[1].y + areas[1].height <= areas[2].y,
        areas[2].y + areas[2].height <= screen.y + screen.height,
{
}

/// An area within another one has no cell outside of it.
pub proof fn areas_within_stay_within(part: Area, whole: Area, x: int, y: int)
    requires
        is_within(part, whole),
        part.x <= x < part.x + part.width,
        part.y <= y < part.y + part.height,
    ensures
        whole.x <= x < whole.x + whole.width,
        whole.y <= y < whole.y + whole.height,
{
}

/// The spans that centre a percentage are that percentage between two halves of what is left over.
pub proof fn centring_leaves_equal_sides(percent: u16)
    requires
        percent <= 100,
    ensures
        centering(percent).len() == 3,
        centering(percent)[0] == centering(percent)[2],
        centering(percent)[1] == Span::Percentage(percent),
        centering(percent)[0] matches Span::Percentage(side) && 99 <= side + percent + side <= 100,
{
}

} // verus!
