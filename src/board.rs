//! A small board model that uses the error library's neighbours: cells of a
//! nine-by-nine grid and the rows, columns and three-by-three boxes they form.
use vstd::prelude::*;

verus! {

/// A cell of the board.
#[derive(Debug, Clone, Copy, PartialEq, Eq, Hash, Structural)]
pub struct Position {
    row: usize,
    column: usize,
}

impl Position {
    /// The number of rows (and of columns) of the board.
    pub const EXCLUSIVE_MAX_VALUE: usize = 9;

    pub closed spec fn spec_row(&self) -> usize {
        self.row
    }

    pub closed spec fn spec_column(&self) -> usize {
        self.column
    }

    /// The cell at `row` and `column`.
    pub fn new(row: usize, column: usize) -> (r: Self)
        ensures
            r.spec_row() == row,
            r.spec_column() == column,
    {
        Position { row, column }
    }

    pub fn row(&self) -> (r: usize)
        ensures
            r == self.spec_row(),
    {
        self.row
    }

    pub fn column(&self) -> (r: usize)
        ensures
            r == self.spec_column(),
    {
        self.column
    }

    /// This cell moved to row `row`.
    pub fn with_row(self, row: usize) -> (r: Self)
        ensures
            r.spec_row() == row,
            r.spec_column() == self.spec_column(),
    {
        Position { row, ..self }
    }

    /// This cell moved to column `column`.
    pub fn with_column(self, column: usize) -> (r: Self)
        ensures
            r.spec_row() == self.spec_row(),
            r.spec_column() == column,
    {
        Position { column, ..self }
    }

    /// Holds when the cells of this cell's box can be numbered in `usize`.
    pub open spec fn box_fits(&self) -> bool {
        box_index_fits(self.spec_row() as int / 3) && box_index_fits(self.spec_column() as int / 3)
    }
}

/// Holds when the first row (or column) of box `i`, and the two after it, fit in `usize`.
pub open spec fn box_index_fits(i: int) -> bool {
    0 <= i && i * 3 + 2 <= usize::MAX
}

/// The cell at `row` and `column`, in specifications.
pub closed spec fn cell(row: int, column: int) -> Position {
    Position { row: row as usize, column: column as usize }
}

/// The kinds of regions.
#[derive(Debug, Clone, Copy, PartialEq, Eq, Structural)]
pub enum RegionKind {
    Row,
    Column,
    Box,
}

/// The cells of row `row`, left to right.
pub open spec fn row_cells(row: usize) -> Seq<Position> {
    Seq::new(9, |c: int| cell(row as int, c))
}

/// The cells of column `column`, top to bottom.
pub open spec fn column_cells(column: usize) -> Seq<Position> {
    Seq::new(9, |r: int| cell(r, column as int))
}

/// The cells of the box at `box_row` and `box_column`, row by row.
pub open spec fn box_cells(box_row: usize, box_column: usize) -> Seq<Position> {
    Seq::new(9, |o: int| cell(box_row * 3 + o / 3, box_column * 3 + o % 3))
}

/// An iterator over the cells of a region.
pub trait RegionIter: View<V = Seq<Position>> + Sized {
    /// Yields the next cell, or `None` once all have been yielded.
    fn next(&mut self) -> (r: Option<Position>)
        ensures
            old(self)@.len() == 0 ==> r is None && final(self)@ == old(self)@,
            old(self)@.len() > 0 ==> r == Some(old(self)@[0]) && final(self)@ == old(
                self,
            )@.drop_first(),
    ;
}

/// A set of nine cells that a rule of the game constrains together.
pub trait Region: Sized {
    type Iter: RegionIter;

    spec fn spec_kind(&self) -> RegionKind;

    /// The cells of the region, in the order its iterator yields them.
    spec fn spec_positions(&self) -> Seq<Position>;

    fn kind(&self) -> (r: RegionKind)
        ensures
            r == self.spec_kind(),
    ;

    /// The number of cells.
    fn size(&self) -> (r: usize)
        ensures
            r == self.spec_positions().len(),
    ;

    fn iter(&self) -> (r: Self::Iter)
        ensures
            r@ == self.spec_positions(),
    ;

    /// The cells of the region, in order.
    fn to_positions(&self) -> (r: Vec<Position>)
        ensures
            r@ == self.spec_positions(),
    {
        let mut it = self.iter();
        let mut out: Vec<Position> = Vec::new();
        loop
            invariant
                out@ + it@ == self.spec_positions(),
            ensures
                out@ == self.spec_positions(),
            decreases it@.len(),
        {
            let ghost before = it@;
            match it.next() {
                Some(p) => {
                    out.push(p);
                    proof {
                        assert(out@ + it@ =~= self.spec_positions());
                    }
                },
                None => {
                    assert(out@ =~= self.spec_positions());
                    break ;
                },
            }
        }
        out
    }
}

/// A row of the board.
#[derive(Debug, Clone, PartialEq, Eq)]
pub struct RowRegion {
    row: usize,
}

impl RowRegion {
    pub fn new(row: usize) -> (r: Self)
        ensures
            r.spec_positions() == row_cells(row),
    {
        RowRegion { row }
    }

    /// The row of `position`.
    pub fn of_position(position: &Position) -> (r: Self)
        ensures
            r.spec_positions() == row_cells(position.spec_row()),
    {
        RowRegion::new(position.row())
    }
}

impl Region for RowRegion {
    type Iter = RowRegionIter;

    open spec fn spec_kind(&self) -> RegionKind {
        RegionKind::Row
    }

    closed spec fn spec_positions(&self) -> Seq<Position> {
        row_cells(self.row)
    }

    fn kind(&self) -> (r: RegionKind) {
        RegionKind::Row
    }

    fn size(&self) -> (r: usize) {
        Position::EXCLUSIVE_MAX_VALUE
    }

    fn iter(&self) -> (r: RowRegionIter) {
        RowRegionIter::new(self.row)
    }
}

/// A column of the board.
#[derive(Debug, Clone, PartialEq, Eq)]
pub struct ColumnRegion {
    column: usize,
}

impl ColumnRegion {
    pub fn new(column: usize) -> (r: Self)
        ensures
            r.spec_positions() == column_cells(column),
    {
        ColumnRegion { column }
    }

    /// The column of `position`.
    pub fn of_position(position: &Position) -> (r: Self)
        ensures
            r.spec_positions() == column_cells(position.spec_column()),
    {
        ColumnRegion::new(position.column())
    }
}

impl Region for ColumnRegion {
    type Iter = ColumnRegionIter;

    open spec fn spec_kind(&self) -> RegionKind {
        RegionKind::Column
    }

    closed spec fn spec_positions(&self) -> Seq<Position> {
        column_cells(self.column)
    }

    fn kind(&self) -> (r: RegionKind) {
        RegionKind::Column
    }

    fn size(&self) -> (r: usize) {
        Position::EXCLUSIVE_MAX_VALUE
    }

    fn iter(&self) -> (r: ColumnRegionIter) {
        ColumnRegionIter::new(self.column)
    }
}

/// A three-by-three box of the board.
#[derive(Debug, PartialEq, Eq)]
pub struct BoxRegion {
    box_row: usize,
    box_column: usize,
}

impl BoxRegion {
    #[verifier::type_invariant]
    spec fn fits(self) -> bool {
        box_index_fits(self.box_row as int) && box_index_fits(self.box_column as int)
    }

    /// The box at `box_row` and `box_column`, each counted from 0 to 2.
    pub fn new(box_row: usize, box_column: usize) -> (r: Self)
        requires
            box_index_fits(box_row as int),
            box_index_fits(box_column as int),
        ensures
            r.spec_positions() == box_cells(box_row, box_column),
    {
        BoxRegion { box_row, box_column }
    }

    /// The box holding `position`.
    pub fn of_position(position: &Position) -> (r: Self)
        requires
            position.box_fits(),
        ensures
            r.spec_positions() == box_cells(
                (position.spec_row() / 3) as usize,
                (position.spec_column() / 3) as usize,
            ),
    {
        BoxRegion::new(position.row() / 3, position.column() / 3)
    }
}

impl Region for BoxRegion {
    type Iter = BoxRegionIter;

    open spec fn spec_kind(&self) -> RegionKind {
        RegionKind::Box
    }

    closed spec fn spec_positions(&self) -> Seq<Position> {
        box_cells(self.box_row, self.box_column)
    }

    fn kind(&self) -> (r: RegionKind) {
        RegionKind::Box
    }

    fn size(&self) -> (r: usize) {
        Position::EXCLUSIVE_MAX_VALUE
    }

    fn iter(&self) -> (r: BoxRegionIter) {
        proof {
            use_type_invariant(self);
        }
        BoxRegionIter::new(self.box_row, self.box_column)
    }
}

/// A row, a column or a box.
#[derive(Debug, PartialEq, Eq)]
pub enum RegionVariant {
    Row(RowRegion),
    Column(ColumnRegion),
    Box(BoxRegion),
}

impl RegionVariant {
    pub fn new_row(row: usize) -> (r: Self)
        ensures
            r.spec_kind() == RegionKind::Row,
            r.spec_positions() == row_cells(row),
    {
        RegionVariant::Row(RowRegion::new(row))
    }

    pub fn new_column(column: usize) -> (r: Self)
        ensures
            r.spec_kind() == RegionKind::Column,
            r.spec_positions() == column_cells(column),
    {
        RegionVariant::Column(ColumnRegion::new(column))
    }

    pub fn new_box(box_row: usize, box_column: usize) -> (r: Self)
        requires
            box_index_fits(box_row as int),
            box_index_fits(box_column as int),
        ensures
            r.spec_kind() == RegionKind::Box,
            r.spec_positions() == box_cells(box_row, box_column),
    {
        RegionVariant::Box(BoxRegion::new(box_row, box_column))
    }

    /// The region of the given kind that holds `position`.
    pub fn of_position(position: &Position, kind: RegionKind) -> (r: Self)
        requires
            kind == RegionKind::Box ==> position.box_fits(),
        ensures
            r.spec_kind() == kind,
            kind == RegionKind::Row ==> r.spec_positions() == row_cells(position.spec_row()),
            kind == RegionKind::Column ==> r.spec_positions() == column_cells(
                position.spec_column(),
            ),
            kind == RegionKind::Box ==> r.spec_positions() == box_cells(
                (position.spec_row() / 3) as usize,
                (position.spec_column() / 3) as usize,
            ),
    {
        match kind {
            RegionKind::Row => RegionVariant::Row(RowRegion::of_position(position)),
            RegionKind::Column => RegionVariant::Column(ColumnRegion::of_position(position)),
            RegionKind::Box => RegionVariant::Box(BoxRegion::of_position(position)),
        }
    }
}

impl Region for RegionVariant {
    type Iter = RegionIterVariant;

    open spec fn spec_kind(&self) -> RegionKind {
        match self {
            RegionVariant::Row(s) => s.spec_kind(),
            RegionVariant::Column(s) => s.spec_kind(),
            RegionVariant::Box(s) => s.spec_kind(),
        }
    }

    open spec fn spec_positions(&self) -> Seq<Position> {
        match self {
            RegionVariant::Row(s) => s.spec_positions(),
            RegionVariant::Column(s) => s.spec_positions(),
            RegionVariant::Box(s) => s.spec_positions(),
        }
    }

    fn kind(&self) -> (r: RegionKind) {
        match self {
            RegionVariant::Row(s) => s.kind(),
            RegionVariant::Column(s) => s.kind(),
            RegionVariant::Box(s) => s.kind(),
        }
    }

    fn size(&self) -> (r: usize) {
        match self {
            RegionVariant::Row(s) => s.size(),
            RegionVariant::Column(s) => s.size(),
            RegionVariant::Box(s) => s.size(),
        }
    }

    fn iter(&self) -> (r: RegionIterVariant) {
        match self {
            RegionVariant::Row(s) => {
                let it = s.iter();
                let r = RegionIterVariant::Row(it);
                assert(r@ == it@);
                assert(s.spec_positions() == self.spec_positions());
                r
            },
            RegionVariant::Column(s) => {
                let it = s.iter();
                let r = RegionIterVariant::Column(it);
                assert(r@ == it@);
                assert(s.spec_positions() == self.spec_positions());
                r
            },
            RegionVariant::Box(s) => {
                let it = s.iter();
                let r = RegionIterVariant::Box(it);
                assert(r@ == it@);
                assert(s.spec_positions() == self.spec_positions());
                r
            },
        }
    }
}

/// The iterator over a row.
#[derive(Debug)]
pub struct RowRegionIter {
    row: usize,
    next_column: usize,
}

impl RowRegionIter {
    #[verifier::type_invariant]
    spec fn in_range(self) -> bool {
        self.next_column <= 9
    }

    pub fn new(row: usize) -> (r: Self)
        ensures
            r@ == row_cells(row),
    {
        let r = RowRegionIter { row, next_column: 0 };
        assert(r@ =~= row_cells(row));
        r
    }
}

impl View for RowRegionIter {
    type V = Seq<Position>;

    closed spec fn view(&self) -> Seq<Position> {
        row_cells(self.row).subrange(self.next_column as int, 9)
    }
}

impl RegionIter for RowRegionIter {
    fn next(&mut self) -> (r: Option<Position>) {
        proof {
            use_type_invariant(&*self);
        }
        if self.next_column < Position::EXCLUSIVE_MAX_VALUE {
            let p = Position::new(self.row, self.next_column);
            self.next_column = self.next_column + 1;
            proof {
                assert(p == cell(self.row as int, self.next_column - 1));
                assert(self@ =~= old(self)@.drop_first());
            }
            Some(p)
        } else {
            None
        }
    }
}

/// The iterator over a column.
#[derive(Debug)]
pub struct ColumnRegionIter {
    column: usize,
    next_row: usize,
}

impl ColumnRegionIter {
    #[verifier::type_invariant]
    spec fn in_range(self) -> bool {
        self.next_row <= 9
    }

    pub fn new(column: usize) -> (r: Self)
        ensures
            r@ == column_cells(column),
    {
        let r = ColumnRegionIter { column, next_row: 0 };
        assert(r@ =~= column_cells(column));
        r
    }
}

impl View for ColumnRegionIter {
    type V = Seq<Position>;

    closed spec fn view(&self) -> Seq<Position> {
        column_cells(self.column).subrange(self.next_row as int, 9)
    }
}

impl RegionIter for ColumnRegionIter {
    fn next(&mut self) -> (r: Option<Position>) {
        proof {
            use_type_invariant(&*self);
        }
        if self.next_row < Position::EXCLUSIVE_MAX_VALUE {
            let p = Position::new(self.next_row, self.column);
            self.next_row = self.next_row + 1;
            proof {
                assert(p == cell(self.next_row - 1, self.column as int));
                assert(self@ =~= old(self)@.drop_first());
            }
            Some(p)
        } else {
            None
        }
    }
}

/// The iterator over a box.
#[derive(Debug)]
pub struct BoxRegionIter {
    box_row_offset: usize,
    box_column_offset: usize,
    next_order: usize,
}

impl BoxRegionIter {
    #[verifier::type_invariant]
    spec fn in_range(self) -> bool {
        &&& self.next_order <= 9
        &&& self.box_row_offset % 3 == 0
        &&& self.box_row_offset + 2 <= usize::MAX
        &&& self.box_column_offset % 3 == 0
        &&& self.box_column_offset + 2 <= usize::MAX
    }

    pub fn new(box_row: usize, box_column: usize) -> (r: Self)
        requires
            box_index_fits(box_row as int),
            box_index_fits(box_column as int),
        ensures
            r@ == box_cells(box_row, box_column),
    {
        let r = BoxRegionIter {
            box_row_offset: box_row * 3,
            box_column_offset: box_column * 3,
            next_order: 0,
        };
        assert(r@ =~= box_cells(box_row, box_column));
        r
    }
}

impl View for BoxRegionIter {
    type V = Seq<Position>;

    closed spec fn view(&self) -> Seq<Position> {
        box_cells(
            (self.box_row_offset / 3) as usize,
            (self.box_column_offset / 3) as usize,
        ).subrange(self.next_order as int, 9)
    }
}

impl RegionIter for BoxRegionIter {
    fn next(&mut self) -> (r: Option<Position>) {
        proof {
            use_type_invariant(&*self);
        }
        if self.next_order < Position::EXCLUSIVE_MAX_VALUE {
            let order = self.next_order;
            let p = Position::new(
                self.box_row_offset + order / 3,
                self.box_column_offset + order % 3,
            );
            self.next_order = order + 1;
            proof {
                assert(p == cell(
                    ((self.box_row_offset / 3) as usize) * 3 + order / 3,
                    ((self.box_column_offset / 3) as usize) * 3 + order % 3,
                ));
                assert(self@ =~= old(self)@.drop_first());
            }
            Some(p)
        } else {
            None
        }
    }
}

/// The iterator over a row, a column or a box.
#[derive(Debug)]
pub enum RegionIterVariant {
    Row(RowRegionIter),
    Column(ColumnRegionIter),
    Box(BoxRegionIter),
}

impl View for RegionIterVariant {
    type V = Seq<Position>;

    open spec fn view(&self) -> Seq<Position> {
        match self {
            RegionIterVariant::Row(s) => s@,
            RegionIterVariant::Column(s) => s@,
            RegionIterVariant::Box(s) => s@,
        }
    }
}

impl RegionIter for RegionIterVariant {
    fn next(&mut self) -> (r: Option<Position>) {
        match self {
            RegionIterVariant::Row(s) => s.next(),
            RegionIterVariant::Column(s) => s.next(),
            RegionIterVariant::Box(s) => s.next(),
        }
    }
}

} // verus!
