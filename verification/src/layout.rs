//! Where things go on the screen: the rows of the frame, the cells of the
//! header, and the area of a popup.

use ratatui::layout as term;
use vstd::prelude::*;

verus! {

/// A rectangle of terminal cells: its top left corner and its size.
#[derive(Debug, Clone, Copy, PartialEq, Eq, Structural)]
pub struct Rect {
    pub x: u16,
    pub y: u16,
    pub width: u16,
    pub height: u16,
}

/// The direction in which an area is cut into parts.
#[derive(Debug, Clone, Copy, PartialEq, Eq, Structural)]
pub enum Direction {
    /// The parts stand side by side.
    Horizontal,
    /// The parts stand one below the other.
    Vertical,
}

/// What is asked of one part of an area, along the direction of the cut.
#[derive(Debug, Clone, Copy, PartialEq, Eq, Structural)]
pub enum Constraint {
    /// So many cells.
    Length(u16),
    /// So many hundredths of the area.
    Percentage(u16),
    /// At least so many cells.
    Min(u16),
}

impl Rect {
    /// The rectangle with the given corner and size.
    pub fn new(x: u16, y: u16, width: u16, height: u16) -> (r: Rect)
        ensures
            r == (Rect { x, y, width, height }),
    {
        Rect { x, y, width, height }
    }

    /// No cell of `self` lies outside `outer`.
    pub open spec fn within(self, outer: Rect) -> bool {
        &&& outer.x <= self.x
        &&& self.x + self.width <= outer.x + outer.width
        &&& outer.y <= self.y
        &&& self.y + self.height <= outer.y + outer.height
    }

    /// Where the rectangle starts along `direction`.
    pub open spec fn start(self, direction: Direction) -> int {
        match direction {
            Direction::Horizontal => self.x as int,
            Direction::Vertical => self.y as int,
        }
    }

    /// How far the rectangle reaches along `direction`.
    pub open spec fn length(self, direction: Direction) -> int {
        match direction {
            Direction::Horizontal => self.width as int,
            Direction::Vertical => self.height as int,
        }
    }

    /// Where the rectangle ends along `direction`, cut off at the last
    /// coordinate that there is.
    pub open spec fn end(self, direction: Direction) -> int {
        if self.start(direction) + self.length(direction) > u16::MAX {
            u16::MAX as int
        } else {
            self.start(direction) + self.length(direction)
        }
    }

    /// The coordinate that lies so many hundredths of the way from the start
    /// of the rectangle to its end, rounded to the nearest cell, a half up.
    pub open spec fn boundary(self, direction: Direction, hundredths: int) -> int {
        self.start(direction) + ((self.end(direction) - self.start(direction)) * hundredths
            + 50) / 100
    }

    /// Along `direction` the rectangle starts at `from` and ends at `to`.
    pub open spec fn spans(self, direction: Direction, from: int, to: int) -> bool {
        self.start(direction) == from && self.start(direction) + self.length(direction) == to
    }

    /// `self` is a part of `area` cut along `direction`: it lies within the
    /// area and spans it across the direction of the cut.
    pub open spec fn is_part_of(self, area: Rect, direction: Direction) -> bool {
        &&& self.within(area)
        &&& match direction {
            Direction::Horizontal => self.y == area.y && self.height == area.height,
            Direction::Vertical => self.x == area.x && self.width == area.width,
        }
    }
}

/// The hundredths that a constraint asks for, if it asks for a share.
pub open spec fn share_of(constraint: Constraint) -> int {
    match constraint {
        Constraint::Percentage(p) => p as int,
        _ => 0,
    }
}

/// The hundredths that the first `n` constraints ask for together.
pub open spec fn shares_before(constraints: Seq<Constraint>, n: int) -> int
    decreases n,
{
    if n <= 0 {
        0
    } else {
        shares_before(constraints, n - 1) + share_of(constraints[n - 1])
    }
}

/// Every constraint asks for a share, and together they ask for no more than
/// the whole.
pub open spec fn are_shares(constraints: Seq<Constraint>) -> bool {
    &&& forall|i: int| 0 <= i < constraints.len() ==> #[trigger] constraints[i] is Percentage
    &&& shares_before(constraints, constraints.len() as int) <= 100
}

/// The parts stand one after the other from the start of the area, each from
/// the boundary of the shares before it to the boundary of the shares up to
/// and with its own.
pub open spec fn cut_by_shares(
    parts: Seq<Rect>,
    direction: Direction,
    constraints: Seq<Constraint>,
    area: Rect,
) -> bool {
    forall|i: int|
        0 <= i < parts.len() ==> (#[trigger] parts[i]).spans(
            direction,
            area.boundary(direction, shares_before(constraints, i)),
            area.boundary(direction, shares_before(constraints, i + 1)),
        )
}

/// The cells that a constraint asks for, if it asks for a fixed number.
pub open spec fn cells_of(constraint: Constraint) -> int {
    match constraint {
        Constraint::Length(n) => n as int,
        _ => 0,
    }
}

/// The cells that the first `n` constraints ask for together.
pub open spec fn cells_before(constraints: Seq<Constraint>, n: int) -> int
    decreases n,
{
    if n <= 0 {
        0
    } else {
        cells_before(constraints, n - 1) + cells_of(constraints[n - 1])
    }
}

/// Every constraint but the last asks for a fixed number of cells, which
/// together find room in `room` cells, and the last asks for what is left,
/// however little.
pub open spec fn are_fixed_then_rest(constraints: Seq<Constraint>, room: int) -> bool {
    &&& constraints.len() >= 1
    &&& constraints.last() == Constraint::Min(0)
    &&& forall|i: int| 0 <= i < constraints.len() - 1 ==> #[trigger] constraints[i] is Length
    &&& cells_before(constraints, constraints.len() - 1) <= room
}

/// The parts stand one after the other from the start of the area, each of
/// the fixed ones as long as it was asked to be, and the last one reaches to
/// the end of the area.
pub open spec fn cut_by_lengths(
    parts: Seq<Rect>,
    direction: Direction,
    constraints: Seq<Constraint>,
    area: Rect,
) -> bool {
    forall|i: int|
        0 <= i < parts.len() ==> (#[trigger] parts[i]).spans(
            direction,
            area.start(direction) + cells_before(constraints, i),
            if i + 1 < parts.len() {
                area.start(direction) + cells_before(constraints, i + 1)
            } else {
                area.end(direction)
            },
        )
}

/// Cuts `area` into one part for each constraint, by `Layout::split` of
/// ratatui with a layout that has the given direction and constraints and is
/// otherwise the default one (no margin, no spacing, parts packed from the
/// start). Claimed of the result, as that function builds it:
/// - It holds one rectangle for each constraint. Each takes its position and
///   size across the cut from the area unchanged, and along the cut each
///   starts and ends between the area's start and its end, which the solver
///   is required to keep for every boundary.
/// - Where every constraint is a percentage and together they ask for no
///   more than the whole, nothing that is asked conflicts: each part gets its
///   percentage of the area's length, the parts follow each other without a
///   gap from the area's start, and each boundary is rounded to the nearest
///   cell, a half up.
/// - Where fixed lengths that find room in the area are followed by one last
///   `Min(0)`, nothing conflicts either: each fixed part gets its length, and
///   the last part gets what is left, up to the area's end.
///
/// For any other constraints, which sizes the solver settles on is not
/// claimed.
#[verifier::external_body]
fn split(direction: Direction, constraints: &Vec<Constraint>, area: Rect) -> (parts: Vec<Rect>)
    ensures
        parts.len() == constraints.len(),
        forall|i: int| 0 <= i < parts.len() ==> (#[trigger] parts[i]).is_part_of(area, direction),
        are_shares(constraints@) ==> cut_by_shares(parts@, direction, constraints@, area),
        are_fixed_then_rest(constraints@, area.end(direction) - area.start(direction))
            ==> cut_by_lengths(parts@, direction, constraints@, area),
{
    let along = match direction {
        Direction::Horizontal => term::Direction::Horizontal,
        Direction::Vertical => term::Direction::Vertical,
    };
    let wanted = constraints.iter().map(|c| match *c {
        Constraint::Length(n) => term::Constraint::Length(n),
        Constraint::Percentage(n) => term::Constraint::Percentage(n),
        Constraint::Min(n) => term::Constraint::Min(n),
    });
    let Rect { x, y, width, height } = area;
    let layout = term::Layout::default().direction(along).constraints(wanted);
    let parts = layout.split(term::Rect { x, y, width, height });
    parts.iter().map(|p| Rect::new(p.x, p.y, p.width, p.height)).collect()
}

/// The constraints that centre a part of `percent` hundredths: the part
/// itself between two margins that share what is left, each rounded down.
pub open spec fn centered_constraints_of(percent: u16) -> Seq<Constraint> {
    seq![
        Constraint::Percentage(((100 - percent) / 2) as u16),
        Constraint::Percentage(percent),
        Constraint::Percentage(((100 - percent) / 2) as u16),
    ]
}

/// Builds the constraints that centre a part of `percent` hundredths.
pub fn centered_constraints(percent: u16) -> (constraints: Vec<Constraint>)
    requires
        percent <= 100,
    ensures
        constraints@ == centered_constraints_of(percent),
{
    let margin: u16 = (100 - percent) / 2;
    let mut constraints: Vec<Constraint> = Vec::new();
    constraints.push(Constraint::Percentage(margin));
    constraints.push(Constraint::Percentage(percent));
    constraints.push(Constraint::Percentage(margin));
    assert(constraints@ =~= centered_constraints_of(percent));
    constraints
}

/// The middle one of three parts.
pub fn middle_part(parts: &Vec<Rect>) -> (middle: Rect)
    requires
        parts.len() == 3,
    ensures
        middle == parts[1],
{
    parts[1]
}

/// The margin on either side of a centred part of `percent` hundredths: half
/// of what the part leaves, rounded down.
pub open spec fn margin_of(percent: u16) -> int {
    (100 - percent) / 2
}

/// `popup` is the centred part of `r` that takes `percent_x` hundredths of
/// its width and `percent_y` hundredths of its height: in each direction it
/// starts at the boundary of the margin and ends at the boundary of the margin
/// and its own share.
pub open spec fn is_centered_in(popup: Rect, r: Rect, percent_x: u16, percent_y: u16) -> bool {
    &&& popup.spans(
        Direction::Horizontal,
        r.boundary(Direction::Horizontal, margin_of(percent_x)),
        r.boundary(Direction::Horizontal, margin_of(percent_x) + percent_x),
    )
    &&& popup.spans(
        Direction::Vertical,
        r.boundary(Direction::Vertical, margin_of(percent_y)),
        r.boundary(Direction::Vertical, margin_of(percent_y) + percent_y),
    )
}

/// What the constraints that centre a part ask for, added up.
proof fn lemma_centered_shares(percent: u16)
    requires
        percent <= 100,
    ensures
        are_shares(centered_constraints_of(percent)),
        shares_before(centered_constraints_of(percent), 1) == margin_of(percent),
        shares_before(centered_constraints_of(percent), 2) == margin_of(percent) + percent,
{
    reveal_with_fuel(shares_before, 4);
}

/// The area of a popup over `r`: the middle row of `percent_y` hundredths of
/// its height, and of that row the middle column of `percent_x` hundredths of
/// its width.
pub fn centered_rect(percent_x: u16, percent_y: u16, r: Rect) -> (popup: Rect)
    requires
        percent_x <= 100,
        percent_y <= 100,
    ensures
        is_centered_in(popup, r, percent_x, percent_y),
        popup.within(r),
{
    proof {
        lemma_centered_shares(percent_x);
        lemma_centered_shares(percent_y);
    }
    let rows = split(Direction::Vertical, &centered_constraints(percent_y), r);
    let row = middle_part(&rows);
    assert(rows[1].is_part_of(r, Direction::Vertical));
    let columns = split(Direction::Horizontal, &centered_constraints(percent_x), row);
    let popup = middle_part(&columns);
    assert(columns[1].is_part_of(row, Direction::Horizontal));
    popup
}

/// The areas of the frame.
#[derive(Debug, Clone, Copy, PartialEq, Eq, Structural)]
pub struct FrameAreas {
    /// The header cell that shows the date.
    pub date: Rect,
    /// The header cell that shows the label.
    pub label: Rect,
    /// The header cell that shows the time.
    pub time: Rect,
    /// The tab strip.
    pub tabs: Rect,
    /// The keyboard legend.
    pub legend: Rect,
    /// The entry list.
    pub content: Rect,
    /// The popup, when one is open.
    pub popup: Rect,
}

/// The height of the header, of the tab strip and of the legend.
pub const ROW_HEIGHT: u16 = 3;

/// The width of a popup, in hundredths of the terminal's.
pub const POPUP_PERCENT_X: u16 = 30;

/// The height of a popup, in hundredths of the terminal's.
pub const POPUP_PERCENT_Y: u16 = 20;

/// The constraints of the frame's rows: header, tab strip and legend of a
/// fixed height, and the entry list with what is left.
pub open spec fn row_constraints_of() -> Seq<Constraint> {
    seq![
        Constraint::Length(ROW_HEIGHT),
        Constraint::Length(ROW_HEIGHT),
        Constraint::Length(ROW_HEIGHT),
        Constraint::Min(0),
    ]
}

/// The constraints of the header's cells: three nearly equal shares.
pub open spec fn header_constraints_of() -> Seq<Constraint> {
    seq![Constraint::Percentage(33), Constraint::Percentage(34), Constraint::Percentage(33)]
}

/// Builds the constraints of the frame's rows.
pub fn row_constraints() -> (constraints: Vec<Constraint>)
    ensures
        constraints@ == row_constraints_of(),
{
    let mut constraints: Vec<Constraint> = Vec::new();
    constraints.push(Constraint::Length(ROW_HEIGHT));
    constraints.push(Constraint::Length(ROW_HEIGHT));
    constraints.push(Constraint::Length(ROW_HEIGHT));
    constraints.push(Constraint::Min(0));
    assert(constraints@ =~= row_constraints_of());
    constraints
}

/// Builds the constraints of the header's cells.
pub fn header_constraints() -> (constraints: Vec<Constraint>)
    ensures
        constraints@ == header_constraints_of(),
{
    let mut constraints: Vec<Constraint> = Vec::new();
    constraints.push(Constraint::Percentage(33));
    constraints.push(Constraint::Percentage(34));
    constraints.push(Constraint::Percentage(33));
    assert(constraints@ =~= header_constraints_of());
    constraints
}

/// The areas of the frame from the rows of the terminal, the cells of the
/// header and the popup's area.
pub fn assemble_areas(rows: &Vec<Rect>, cells: &Vec<Rect>, popup: Rect) -> (areas: FrameAreas)
    requires
        rows.len() == 4,
        cells.len() == 3,
    ensures
        areas == (FrameAreas {
            date: cells[0],
            label: cells[1],
            time: cells[2],
            tabs: rows[1],
            legend: rows[2],
            content: rows[3],
            popup,
        }),
{
    FrameAreas {
        date: cells[0],
        label: cells[1],
        time: cells[2],
        tabs: rows[1],
        legend: rows[2],
        content: rows[3],
        popup,
    }
}

/// The terminal has room for the header, the tab strip and the legend.
pub open spec fn has_room_for_rows(size: Rect) -> bool {
    size.end(Direction::Vertical) - size.start(Direction::Vertical) >= 3 * ROW_HEIGHT
}

impl FrameAreas {
    /// Every area lies within `size`; the header's cells stand in one row,
    /// and the tab strip, the legend and the entry list span the width.
    pub open spec fn fits(self, size: Rect) -> bool {
        &&& self.date.within(size)
        &&& self.label.within(size)
        &&& self.time.within(size)
        &&& self.date.y == self.label.y == self.time.y
        &&& self.date.height == self.label.height == self.time.height
        &&& self.tabs.is_part_of(size, Direction::Vertical)
        &&& self.legend.is_part_of(size, Direction::Vertical)
        &&& self.content.is_part_of(size, Direction::Vertical)
        &&& self.popup.within(size)
    }

    /// The header's cells share the width: the date up to the boundary of 33
    /// hundredths, the label from there to that of 67, the time from there to
    /// the end.
    pub open spec fn has_header_cells(self, size: Rect) -> bool {
        let across = Direction::Horizontal;
        &&& self.date.spans(across, size.boundary(across, 0), size.boundary(across, 33))
        &&& self.label.spans(across, size.boundary(across, 33), size.boundary(across, 67))
        &&& self.time.spans(across, size.boundary(across, 67), size.boundary(across, 100))
    }

    /// The rows stand one below the other from the top of the terminal: the
    /// header, the tab strip and the legend, each of the fixed height, and the
    /// entry list from there to the bottom.
    pub open spec fn has_rows(self, size: Rect) -> bool {
        let down = Direction::Vertical;
        let top = size.start(down);
        &&& self.date.spans(down, top, top + ROW_HEIGHT)
        &&& self.label.spans(down, top, top + ROW_HEIGHT)
        &&& self.time.spans(down, top, top + ROW_HEIGHT)
        &&& self.tabs.spans(down, top + ROW_HEIGHT, top + 2 * ROW_HEIGHT)
        &&& self.legend.spans(down, top + 2 * ROW_HEIGHT, top + 3 * ROW_HEIGHT)
        &&& self.content.spans(down, top + 3 * ROW_HEIGHT, size.end(down))
    }
}

/// What the constraints of the header's cells ask for, added up.
proof fn lemma_header_shares()
    ensures
        are_shares(header_constraints_of()),
        shares_before(header_constraints_of(), 0) == 0,
        shares_before(header_constraints_of(), 1) == 33,
        shares_before(header_constraints_of(), 2) == 67,
        shares_before(header_constraints_of(), 3) == 100,
{
    reveal_with_fuel(shares_before, 4);
}

/// What the constraints of the frame's rows ask for, added up.
proof fn lemma_row_cells(room: int)
    ensures
        room >= 3 * ROW_HEIGHT ==> are_fixed_then_rest(row_constraints_of(), room),
        cells_before(row_constraints_of(), 0) == 0,
        cells_before(row_constraints_of(), 1) == ROW_HEIGHT,
        cells_before(row_constraints_of(), 2) == 2 * ROW_HEIGHT,
        cells_before(row_constraints_of(), 3) == 3 * ROW_HEIGHT,
{
    reveal_with_fuel(cells_before, 4);
}

/// Lays out the frame on a terminal of the given size: the header row cut
/// into its three cells, the tab strip, the legend, the entry list, and the
/// area that a popup covers. On a terminal too low for the three fixed rows
/// only their widths, the header's cells across and the popup are settled.
pub fn frame_areas(size: Rect) -> (areas: FrameAreas)
    ensures
        areas.fits(size),
        areas.has_header_cells(size),
        has_room_for_rows(size) ==> areas.has_rows(size),
        is_centered_in(areas.popup, size, POPUP_PERCENT_X, POPUP_PERCENT_Y),
{
    proof {
        lemma_header_shares();
        lemma_row_cells(size.end(Direction::Vertical) - size.start(Direction::Vertical));
    }
    let rows = split(Direction::Vertical, &row_constraints(), size);
    assert(rows[0].is_part_of(size, Direction::Vertical));
    assert(rows[1].is_part_of(size, Direction::Vertical));
    assert(rows[2].is_part_of(size, Direction::Vertical));
    assert(rows[3].is_part_of(size, Direction::Vertical));
    let cells = split(Direction::Horizontal, &header_constraints(), rows[0]);
    assert(cells[0].is_part_of(rows[0], Direction::Horizontal));
    assert(cells[1].is_part_of(rows[0], Direction::Horizontal));
    assert(cells[2].is_part_of(rows[0], Direction::Horizontal));
    let popup = centered_rect(POPUP_PERCENT_X, POPUP_PERCENT_Y, size);
    assemble_areas(&rows, &cells, popup)
}

} // verus!
