//! Where the parts of the bridge screens go.

use ratatui::layout::{Constraint, Direction, Layout, Rect};
use vstd::prelude::*;

verus! {

/// Heights of the rows of the bridge screens, from the top: the banner, the
/// message, the progress gauge, and a spare row.
pub const ROW_HEIGHTS: [u16; 4] = [15, 3, 5, 5];

/// A rectangle of terminal cells.
#[derive(Clone, Copy, Debug, PartialEq, Eq, Structural)]
pub struct ScreenRect {
    pub x: u16,
    pub y: u16,
    pub width: u16,
    pub height: u16,
}

/// The rows span the whole width of `area`, stay between its top and its
/// bottom, and follow each other from the top without overlapping.
pub open spec fn rows_within(rows: Seq<ScreenRect>, area: ScreenRect) -> bool {
    &&& forall|i: int|
        0 <= i < rows.len() ==> {
            &&& (#[trigger] rows[i]).x == area.x
            &&& rows[i].width == area.width
            &&& area.y <= rows[i].y
            &&& rows[i].y + rows[i].height <= area.y + area.height
        }
    &&& forall|i: int, j: int|
        0 <= i < j < rows.len() ==> (#[trigger] rows[i]).y + rows[i].height <= (#[trigger] rows[j]).y
}

/// The sum of the first `n` heights.
pub open spec fn height_sum(heights: Seq<u16>, n: int) -> int
    decreases n,
{
    if n <= 0 {
        0
    } else {
        height_sum(heights, n - 1) + heights[n - 1]
    }
}

/// The heights fit in `area`: their sum is at most its height, and the last
/// row still ends on the screen.
pub open spec fn heights_fit(heights: Seq<u16>, area: ScreenRect) -> bool {
    &&& height_sum(heights, heights.len() as int) <= area.height
    &&& area.y + height_sum(heights, heights.len() as int) <= u16::MAX
}

/// The last screen line that `area` reaches: its bottom, or the screen's
/// last line when the area runs past it.
pub open spec fn area_bottom(area: ScreenRect) -> int {
    if area.y + area.height <= u16::MAX {
        area.y + area.height
    } else {
        u16::MAX as int
    }
}

/// Splits `area` into rows of the given heights with
/// `ratatui::layout::Layout::split`, in the vertical direction, one
/// `Constraint::Length` per height. What is stated is what ratatui's source
/// shows of every result: one rectangle per height, each with the area's
/// column and width (the vertical arm of its conversion to rectangles), and
/// rows that stay within the area and come top-down without overlapping
/// (its required constraints keep every boundary between the area's top and
/// bottom and in ascending order, and rounding keeps that order). When the
/// heights fit, each row has exactly the height asked for and the rows are
/// stacked from the area's top: with the default `Flex::Start`, each length
/// is held at strength `STRONG * 10`, the first and inner spacers are held
/// empty at `REQUIRED - 1`, and only the last spacer, at a weaker strength,
/// takes the rest, so the exact split is the one optimum. In every case the
/// first row starts at the area's top and each row starts where the one
/// before it ends (the first and inner spacers are empty), and no row is
/// higher than asked (a longer row would cost more at `STRONG * 10` than any
/// weaker constraint gains). When the heights do not fit, the last spacer is
/// empty too, so the rows reach the area's bottom; how the shortfall is shared
/// among the rows is left unsaid: the solver may pick any of several equally
/// good layouts, depending on the order in which it walks its hash maps.
#[verifier::external_body]
fn split_rows(area: ScreenRect, heights: &Vec<u16>) -> (rows: Vec<ScreenRect>)
    ensures
        rows@.len() == heights@.len(),
        rows_within(rows@, area),
        heights_fit(heights@, area) ==> forall|i: int|
            0 <= i < rows@.len() ==> (#[trigger] rows@[i]).height == heights@[i] && rows@[i].y
                == area.y + height_sum(heights@, i),
        rows@.len() > 0 ==> rows@[0].y == area.y,
        forall|i: int, j: int|
            0 <= i && j == i + 1 && j < rows@.len() ==> (#[trigger] rows@[i]).y + rows@[i].height
                == (#[trigger] rows@[j]).y,
        forall|i: int| 0 <= i < rows@.len() ==> (#[trigger] rows@[i]).height <= heights@[i],
        rows@.len() > 0 && !heights_fit(heights@, area) ==> rows@.last().y + rows@.last().height
            == area_bottom(area),
{
    let constraints: Vec<Constraint> = heights.iter().map(|h| Constraint::Length(*h)).collect();
    let rect = Rect { x: area.x, y: area.y, width: area.width, height: area.height };
    let split = Layout::default().direction(Direction::Vertical).constraints(constraints).split(rect);
    split.iter().map(|r| ScreenRect { x: r.x, y: r.y, width: r.width, height: r.height }).collect()
}

/// The rows of the bridge screens within `area`, from the top: the banner,
/// the message, the progress gauge and a spare row, each across the whole
/// width, asked for with the heights of `ROW_HEIGHTS`. When the area is at
/// least 28 rows high (and ends on the screen), the rows are 15, 3, 5 and 5
/// high, one below the other from the area's top. In every case the rows
/// start at the area's top, follow each other without gaps, are no higher
/// than those heights, and on a smaller area they fill it to its bottom.
pub fn main_layout(area: ScreenRect) -> (rows: Vec<ScreenRect>)
    ensures
        rows@.len() == 4,
        rows_within(rows@, area),
        rows@[0].y == area.y,
        rows@[0].y + rows@[0].height == rows@[1].y,
        rows@[1].y + rows@[1].height == rows@[2].y,
        rows@[2].y + rows@[2].height == rows@[3].y,
        rows@[0].height <= 15 && rows@[1].height <= 3 && rows@[2].height <= 5 && rows@[3].height <= 5,
        !(28 <= area.height && area.y + 28 <= u16::MAX) ==> rows@[3].y + rows@[3].height
            == area_bottom(area),
        28 <= area.height && area.y + 28 <= u16::MAX ==> {
            &&& rows@[0] == ScreenRect { x: area.x, y: area.y, width: area.width, height: 15 }
            &&& rows@[1] == ScreenRect { x: area.x, y: (area.y + 15) as u16, width: area.width, height: 3 }
            &&& rows@[2] == ScreenRect { x: area.x, y: (area.y + 18) as u16, width: area.width, height: 5 }
            &&& rows@[3] == ScreenRect { x: area.x, y: (area.y + 23) as u16, width: area.width, height: 5 }
        },
{
    let heights: Vec<u16> = vec![ROW_HEIGHTS[0], ROW_HEIGHTS[1], ROW_HEIGHTS[2], ROW_HEIGHTS[3]];
    proof {
        assert(heights@ =~= seq![15u16, 3u16, 5u16, 5u16]);
        reveal_with_fuel(height_sum, 5);
        assert(height_sum(heights@, 4) == 28);
        assert(height_sum(heights@, 3) == 23);
        assert(height_sum(heights@, 2) == 18);
        assert(height_sum(heights@, 1) == 15);
        assert(height_sum(heights@, 0) == 0);
    }
    let rows = split_rows(area, &heights);
    proof {
        assert(rows@[0].y + rows@[0].height == rows@[1].y);
        assert(rows@[1].y + rows@[1].height == rows@[2].y);
        assert(rows@[2].y + rows@[2].height == rows@[3].y);
        assert(rows@[0].height <= heights@[0] && rows@[1].height <= heights@[1]);
        assert(rows@[2].height <= heights@[2] && rows@[3].height <= heights@[3]);
        assert(heights_fit(heights@, area) == (28 <= area.height && area.y + 28 <= u16::MAX));
        if 28 <= area.height && area.y + 28 <= u16::MAX {
            assert(heights_fit(heights@, area));
            assert(rows@[0].height == heights@[0]);
            assert(rows@[1].height == heights@[1]);
            assert(rows@[2].height == heights@[2]);
            assert(rows@[3].height == heights@[3]);
        }
    }
    rows
}

/// On an area lower than the four rows together (28 lines), rows laid out
/// as `main_layout` lays them out cover it without gaps: their heights add
/// up to the lines from the area's top to its bottom, so no line of the
/// area is left out and none is drawn twice.
pub proof fn lemma_small_area_covered(area: ScreenRect, rows: Seq<ScreenRect>)
    requires
        rows.len() == 4,
        rows[0].y == area.y,
        rows[0].y + rows[0].height == rows[1].y,
        rows[1].y + rows[1].height == rows[2].y,
        rows[2].y + rows[2].height == rows[3].y,
        !(28 <= area.height && area.y + 28 <= u16::MAX) ==> rows[3].y + rows[3].height
            == area_bottom(area),
        !(28 <= area.height && area.y + 28 <= u16::MAX),
    ensures
        rows[0].height + rows[1].height + rows[2].height + rows[3].height == area_bottom(area)
            - area.y,
        area.y + area.height <= u16::MAX ==> rows[0].height + rows[1].height + rows[2].height
            + rows[3].height == area.height,
{
}

} // verus!
