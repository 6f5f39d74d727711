//! The character grid and the targets that can be drawn on.

use crate::cell::Cell;
use crate::drawable::Drawable;
use crate::layout::{Dims, Pos};
use vstd::prelude::*;

verus! {

/// The cell at column `x` of row `y` of a grid, if the grid has one there.
pub open spec fn grid_get(grid: Seq<Seq<Cell>>, x: int, y: int) -> Option<Cell> {
    if 0 <= y < grid.len() && 0 <= x < grid[y].len() {
        Some(grid[y][x])
    } else {
        None
    }
}

/// The grid with `cell` at column `x` of row `y`. A grid without a cell there is unchanged.
pub open spec fn grid_put(grid: Seq<Seq<Cell>>, x: int, y: int, cell: Cell) -> Seq<Seq<Cell>> {
    if 0 <= y < grid.len() && 0 <= x < grid[y].len() {
        grid.update(y, grid[y].update(x, cell))
    } else {
        grid
    }
}

/// Whether the grid has `height` rows of `width` cells each.
pub open spec fn is_grid(grid: Seq<Seq<Cell>>, width: int, height: int) -> bool {
    &&& grid.len() == height
    &&& forall|y: int| 0 <= y < grid.len() ==> (#[trigger] grid[y]).len() == width
}

/// An extent as a count: a negative extent holds nothing.
pub open spec fn extent(v: int) -> nat {
    if v > 0 {
        v as nat
    } else {
        0
    }
}

/// The grid of the given extent whose cells are all blank.
pub open spec fn blank_grid(width: int, height: int) -> Seq<Seq<Cell>> {
    Seq::new(extent(height), |y: int| Seq::new(extent(width), |x: int| Cell::blank()))
}

/// The grid of the given extent that keeps the cells of `grid` that lie
/// within it, and is blank elsewhere.
pub open spec fn resized_grid(grid: Seq<Seq<Cell>>, width: int, height: int) -> Seq<Seq<Cell>> {
    Seq::new(
        extent(height),
        |y: int|
            Seq::new(
                extent(width),
                |x: int|
                    match grid_get(grid, x, y) {
                        Some(cell) => cell,
                        None => Cell::blank(),
                    },
            ),
    )
}

/// A grid of cells with its extent.
pub struct Buffer {
    buffer: Vec<Vec<Cell>>,
    size: Dims,
}

impl Buffer {
    /// The rows of the grid, from the top, each from the left.
    pub closed spec fn cells(&self) -> Seq<Seq<Cell>> {
        Seq::new(self.buffer@.len(), |y: int| self.buffer@[y]@)
    }

    /// The extent of the grid: `x` columns and `y` rows.
    pub closed spec fn spec_size(&self) -> Dims {
        self.size
    }

    /// The grid has as many rows and columns as its extent says; none
    /// where the extent is negative.
    pub open spec fn wf(&self) -> bool {
        is_grid(
            self.cells(),
            extent(self.spec_size().x as int) as int,
            extent(self.spec_size().y as int) as int,
        )
    }

    /// Whether a grid can be made with this extent: a grid that has rows
    /// cannot have rows of a negative width.
    pub open spec fn can_hold(size: Dims) -> bool {
        size.y <= 0 || size.x >= 0
    }

    /// Whether a grid can be brought to this extent: besides what `can_hold`
    /// asks, the number of rows cannot be negative.
    pub open spec fn can_resize_to(size: Dims) -> bool {
        size.y >= 0 && Self::can_hold(size)
    }

    /// A blank grid of the given extent.
    pub fn new(size: Dims) -> (buffer: Self)
        requires
            Self::can_hold(size),
        ensures
            buffer.wf(),
            buffer.spec_size() == size,
            buffer.cells() == blank_grid(size.x as int, size.y as int),
    {
        let blank = Cell::new(' ');
        let mut rows: Vec<Vec<Cell>> = Vec::new();
        let mut y: i32 = 0;
        while y < size.y
            invariant
                0 <= y <= extent(size.y as int),
                Self::can_hold(size),
                blank == Cell::blank(),
                rows@.len() == y,
                forall|j: int| 0 <= j < y ==> (#[trigger] rows@[j])@ == Seq::new(
                    extent(size.x as int),
                    |x: int| Cell::blank(),
                ),
            decreases size.y - y,
        {
            let mut row: Vec<Cell> = Vec::new();
            let mut x: i32 = 0;
            while x < size.x
                invariant
                    0 <= x <= size.x,
                    blank == Cell::blank(),
                    row@.len() == x,
                    forall|i: int| 0 <= i < x ==> row@[i] == Cell::blank(),
                decreases size.x - x,
            {
                row.push(blank);
                x = x + 1;
            }
            rows.push(row);
            y = y + 1;
        }
        Buffer { buffer: rows, size }
    }

    /// The extent of the grid.
    #[verifier::when_used_as_spec(spec_size)]
    pub fn size(&self) -> (size: Dims)
        ensures
            size == self.spec_size(),
    {
        self.size
    }

    /// The rows of the grid.
    pub fn buf_ref(&self) -> (rows: &[Vec<Cell>])
        ensures
            rows@.len() == self.cells().len(),
            forall|y: int| 0 <= y < rows@.len() ==> (#[trigger] rows@[y])@ == self.cells()[y],
    {
        self.buffer.as_slice()
    }

    /// The rows of the grid, to be changed in place. The number of rows
    /// stays as it is; the rows themselves are in the hands of the caller,
    /// who can leave the grid with rows of any length.
    pub fn buf_mut(&mut self) -> (rows: &mut [Vec<Cell>])
        ensures
            rows@.len() == old(self).cells().len(),
            forall|y: int| 0 <= y < rows@.len() ==> (#[trigger] rows@[y])@ == old(self).cells()[y],
            final(self).spec_size() == old(self).spec_size(),
            final(self).cells().len() == final(rows)@.len(),
            forall|y: int|
                0 <= y < final(rows)@.len() ==> #[trigger] final(self).cells()[y] == final(rows)@[y]@,
    {
        self.buffer.as_mut_slice()
    }

    /// The cell at `pos`, or `None` where the grid has no cell.
    pub fn get(&self, pos: Dims) -> (cell: Option<Cell>)
        ensures
            cell == grid_get(self.cells(), pos.x as int, pos.y as int),
    {
        if pos.y < 0 || pos.x < 0 {
            return None;
        }
        let y: usize = pos.y as usize;
        let x: usize = pos.x as usize;
        if y < self.buffer.len() {
            if x < self.buffer[y].len() {
                return Some(self.buffer[y][x]);
            }
        }
        None
    }

    /// Puts `cell` at `pos`. Where the grid has no cell, nothing happens.
    pub fn set(&mut self, pos: Dims, cell: Cell)
        ensures
            final(self).cells() == grid_put(old(self).cells(), pos.x as int, pos.y as int, cell),
            final(self).spec_size() == old(self).spec_size(),
            old(self).wf() ==> final(self).wf(),
    {
        if pos.y < 0 || pos.x < 0 {
            return ;
        }
        let y: usize = pos.y as usize;
        let x: usize = pos.x as usize;
        if y < self.buffer.len() {
            if x < self.buffer[y].len() {
                self.buffer[y][x] = cell;
                assert(self.cells() =~= grid_put(old(self).cells(), pos.x as int, pos.y as int, cell));
            }
        }
    }

    /// Gives the grid a new extent. Cells within both extents stay; cells that
    /// the new extent adds are blank. With the extent it already has, the grid is
    /// left as it is.
    pub fn resize(&mut self, size: Dims)
        requires
            Self::can_resize_to(size),
        ensures
            final(self).spec_size() == size,
            final(self).cells() == (if old(self).spec_size() == size {
                old(self).cells()
            } else {
                resized_grid(old(self).cells(), size.x as int, size.y as int)
            }),
            old(self).spec_size() != size || old(self).wf() ==> final(self).wf(),
            old(self).wf() ==> final(self).cells() == resized_grid(
                old(self).cells(),
                size.x as int,
                size.y as int,
            ),
    {
        if self.size == size {
            proof {
                if self.wf() {
                    lemma_resized_to_own_extent(self.cells(), size.x as int, size.y as int);
                }
            }
            return ;
        }
        self.size = size;
        self.buffer.resize(size.y as usize, Vec::new());
        let blank = Cell::new(' ');
        let mut y: usize = 0;
        while y < self.buffer.len()
            invariant
                0 <= y <= self.buffer@.len(),
                self.buffer@.len() == size.y,
                self.size == size,
                Self::can_resize_to(size),
                blank == Cell::blank(),
                forall|j: int|
                    0 <= j < y ==> (#[trigger] self.buffer@[j])@ == resized_grid(
                        old(self).cells(),
                        size.x as int,
                        size.y as int,
                    )[j],
                forall|j: int|
                    y <= j < self.buffer@.len() && j < old(self).buffer@.len() ==> (
                    #[trigger] self.buffer@[j])@ == old(self).buffer@[j]@,
                forall|j: int|
                    y <= j < self.buffer@.len() && j >= old(self).buffer@.len() ==> (
                    #[trigger] self.buffer@[j])@.len() == 0,
            decreases self.buffer@.len() - y,
        {
            self.buffer[y].resize(size.x as usize, blank);
            y = y + 1;
        }
    }

    /// Makes every cell blank.
    pub fn clear(&mut self)
        ensures
            final(self).spec_size() == old(self).spec_size(),
            final(self).cells().len() == old(self).cells().len(),
            forall|y: int|
                0 <= y < old(self).cells().len() ==> #[trigger] final(self).cells()[y] == Seq::new(
                    old(self).cells()[y].len(),
                    |x: int| Cell::blank(),
                ),
            old(self).wf() ==> final(self).wf() && final(self).cells() == blank_grid(
                old(self).spec_size().x as int,
                old(self).spec_size().y as int,
            ),
    {
        let blank = Cell::new(' ');
        let mut y: usize = 0;
        while y < self.buffer.len()
            invariant
                0 <= y <= self.buffer@.len(),
                self.buffer@.len() == old(self).buffer@.len(),
                self.size == old(self).size,
                blank == Cell::blank(),
                forall|j: int|
                    0 <= j < self.buffer@.len() ==> (#[trigger] self.buffer@[j])@.len() == old(
                        self,
                    ).buffer@[j]@.len(),
                forall|j: int, i: int|
                    0 <= j < y && 0 <= i < self.buffer@[j]@.len() ==> (#[trigger] self.buffer@[j]@[i])
                        == Cell::blank(),
            decreases self.buffer@.len() - y,
        {
            let mut x: usize = 0;
            while x < self.buffer[y].len()
                invariant
                    0 <= y < self.buffer@.len(),
                    0 <= x <= self.buffer@[y as int]@.len(),
                    self.buffer@.len() == old(self).buffer@.len(),
                    self.size == old(self).size,
                    blank == Cell::blank(),
                    forall|j: int|
                        0 <= j < self.buffer@.len() ==> (#[trigger] self.buffer@[j])@.len() == old(
                            self,
                        ).buffer@[j]@.len(),
                    forall|j: int, i: int|
                        0 <= j < y && 0 <= i < self.buffer@[j]@.len() ==> (
                        #[trigger] self.buffer@[j]@[i]) == Cell::blank(),
                    forall|i: int| 0 <= i < x ==> (#[trigger] self.buffer@[y as int]@[i]) == Cell::blank(),
                decreases self.buffer@[y as int]@.len() - x,
            {
                self.buffer[y][x] = blank;
                x = x + 1;
            }
            y = y + 1;
        }
        assert forall|y: int| 0 <= y < old(self).cells().len() implies #[trigger] self.cells()[y]
            == Seq::new(old(self).cells()[y].len(), |x: int| Cell::blank()) by {
            assert(self.cells()[y] =~= Seq::new(old(self).cells()[y].len(), |x: int| Cell::blank()));
        }
    }
}

/// The grid after the cells of `cells` were put at column `x` of row `y`,
/// one after the other.
pub open spec fn grid_put_all(grid: Seq<Seq<Cell>>, x: int, y: int, cells: Seq<Cell>) -> Seq<Seq<Cell>>
    decreases cells.len(),
{
    if cells.len() == 0 {
        grid
    } else {
        grid_put(grid_put_all(grid, x, y, cells.drop_last()), x, y, cells.last())
    }
}

/// What is written to a position of the grid is what is read there, and
/// every other position reads as before.
pub proof fn lemma_grid_get_after_put(grid: Seq<Seq<Cell>>, x: int, y: int, cell: Cell, i: int, j: int)
    ensures
        grid_get(grid_put(grid, x, y, cell), i, j) == (if i == x && j == y && grid_get(grid, x, y)
            is Some {
            Some(cell)
        } else {
            grid_get(grid, i, j)
        }),
{
}

/// Of any number of writes to one position of the grid, the last is the
/// one that is read back.
pub proof fn lemma_last_write_wins(grid: Seq<Seq<Cell>>, x: int, y: int, cells: Seq<Cell>)
    requires
        grid_get(grid, x, y) is Some,
        cells.len() > 0,
    ensures
        grid_get(grid_put_all(grid, x, y, cells), x, y) == Some(cells.last()),
        forall|i: int, j: int|
            !(i == x && j == y) ==> grid_get(grid_put_all(grid, x, y, cells), i, j) == grid_get(
                grid,
                i,
                j,
            ),
    decreases cells.len(),
{
    let before = grid_put_all(grid, x, y, cells.drop_last());
    if cells.len() > 1 {
        lemma_last_write_wins(grid, x, y, cells.drop_last());
    }
    assert forall|i: int, j: int| !(i == x && j == y) implies grid_get(
        grid_put_all(grid, x, y, cells),
        i,
        j,
    ) == grid_get(grid, i, j) by {
        lemma_grid_get_after_put(before, x, y, cells.last(), i, j);
    }
}

/// A grid that is given the extent it has stays as it is.
pub proof fn lemma_resized_to_own_extent(grid: Seq<Seq<Cell>>, width: int, height: int)
    requires
        is_grid(grid, extent(width) as int, extent(height) as int),
    ensures
        resized_grid(grid, width, height) == grid,
{
    let resized = resized_grid(grid, width, height);
    assert forall|y: int| 0 <= y < grid.len() implies #[trigger] resized[y] == grid[y] by {
        assert(resized[y] =~= grid[y]);
    }
}

/// A resized grid has the extent that was asked for, keeps the cells that
/// lay within it, and is blank wherever the grid had no cell.
pub proof fn lemma_resized_cells(grid: Seq<Seq<Cell>>, width: int, height: int, x: int, y: int)
    requires
        0 <= x < width,
        0 <= y < height,
    ensures
        is_grid(resized_grid(grid, width, height), width, height),
        grid_get(resized_grid(grid, width, height), x, y) == Some(
            match grid_get(grid, x, y) {
                Some(cell) => cell,
                None => Cell::blank(),
            },
        ),
{
}

/// A grid that is made smaller and then larger again holds nothing of what
/// lay outside the smaller extent: every cell that the larger extent brings
/// back is blank, and every cell within both extents is kept.
pub proof fn lemma_regrown_cells_are_blank(
    grid: Seq<Seq<Cell>>,
    small: Dims,
    large: Dims,
    x: int,
    y: int,
)
    requires
        0 <= x < large.x,
        0 <= y < large.y,
    ensures
        grid_get(
            resized_grid(
                resized_grid(grid, small.x as int, small.y as int),
                large.x as int,
                large.y as int,
            ),
            x,
            y,
        ) == Some(
            if x < small.x && y < small.y {
                match grid_get(grid, x, y) {
                    Some(cell) => cell,
                    None => Cell::blank(),
                }
            } else {
                Cell::blank()
            },
        ),
{
    let shrunk = resized_grid(grid, small.x as int, small.y as int);
    lemma_resized_cells(shrunk, large.x as int, large.y as int, x, y);
    if x < small.x && y < small.y {
        lemma_resized_cells(grid, small.x as int, small.y as int, x, y);
    }
}

/// One cell handed to a target, with the position it is meant for.
pub struct CellWrite {
    pub pos: Dims,
    pub cell: Cell,
}

/// The grid after `cell` was written where `at` says; unchanged where `at` is
/// `None` or names no cell of the grid.
pub open spec fn written(grid: Seq<Seq<Cell>>, at: Option<Dims>, cell: Cell) -> Seq<Seq<Cell>> {
    match at {
        Some(p) => grid_put(grid, p.x as int, p.y as int, cell),
        None => grid,
    }
}

/// The grid after the writes were handed to `target` one after the other.
pub open spec fn painted<T: CanvasLike + ?Sized>(target: &T, grid: Seq<Seq<Cell>>, writes: Seq<CellWrite>) -> Seq<
    Seq<Cell>,
>
    decreases writes.len(),
{
    if writes.len() == 0 {
        grid
    } else {
        written(
            painted(target, grid, writes.drop_last()),
            target.landing(writes.last().pos),
            writes.last().cell,
        )
    }
}

/// Whether two states of a target send every write to the same place and
/// report the same position and size.
pub open spec fn same_target<T: CanvasLike + ?Sized>(a: &T, b: &T) -> bool {
    &&& a.spec_pos() == b.spec_pos()
    &&& a.spec_size() == b.spec_size()
    &&& forall|p: Dims| #[trigger] a.landing(p) == b.landing(p)
}

/// Whether two states of a target differ in the cells of the grid at most:
/// they have the same shape, and so send every write to the same place.
pub open spec fn same_shape<T: CanvasLike + ?Sized>(a: &T, b: &T) -> bool {
    &&& a.shape() == b.shape()
    &&& same_target(a, b)
}

/// Handing over no cell leaves the grid as it is.
pub proof fn lemma_painted_empty<T: CanvasLike + ?Sized>(target: &T, grid: Seq<Seq<Cell>>)
    ensures
        painted(target, grid, Seq::empty()) == grid,
{
}

/// One more cell at the end is one more write after the others.
pub proof fn lemma_painted_push<T: CanvasLike + ?Sized>(
    target: &T,
    grid: Seq<Seq<Cell>>,
    writes: Seq<CellWrite>,
    last: CellWrite,
)
    ensures
        painted(target, grid, writes.push(last)) == written(
            painted(target, grid, writes),
            target.landing(last.pos),
            last.cell,
        ),
{
    assert(writes.push(last).drop_last() =~= writes);
}

/// Handing over two sequences one after the other is handing over the first
/// and then, on what came of it, the second.
pub proof fn lemma_painted_concat<T: CanvasLike + ?Sized>(
    target: &T,
    grid: Seq<Seq<Cell>>,
    first: Seq<CellWrite>,
    second: Seq<CellWrite>,
)
    ensures
        painted(target, grid, first + second) == painted(target, painted(target, grid, first), second),
    decreases second.len(),
{
    if second.len() > 0 {
        lemma_painted_concat(target, grid, first, second.drop_last());
        assert((first + second).drop_last() =~= first + second.drop_last());
    }
}

/// Two states of a target that send every write to the same place paint alike.
pub proof fn lemma_painted_same_target<T: CanvasLike + ?Sized>(
    a: &T,
    b: &T,
    grid: Seq<Seq<Cell>>,
    writes: Seq<CellWrite>,
)
    requires
        same_target(a, b),
    ensures
        painted(a, grid, writes) == painted(b, grid, writes),
    decreases writes.len(),
{
    if writes.len() > 0 {
        lemma_painted_same_target(a, b, grid, writes.drop_last());
    }
}

/// Drawing more on a target that was drawn on before adds to what was
/// handed over: where `before` came of `start` by the cells of `done`, and
/// `after` comes of `before` by the cells of `more`, `after` comes of `start`
/// by the cells of both.
pub proof fn lemma_painted_step<T: CanvasLike>(
    start: &T,
    before: &T,
    after: &T,
    grid: Seq<Seq<Cell>>,
    done: Seq<CellWrite>,
    more: Seq<CellWrite>,
)
    requires
        same_shape(before, start),
        before.cells() == painted(start, grid, done),
        after.cells() == painted(before, before.cells(), more),
        same_shape(after, before),
    ensures
        after.cells() == painted(start, grid, done + more),
        same_shape(after, start),
{
    lemma_painted_same_target(before, start, before.cells(), more);
    lemma_painted_concat(start, grid, done, more);
}

/// Handing cells over leaves the extent of the grid as it is.
pub proof fn lemma_painted_keeps_extent<T: CanvasLike + ?Sized>(
    target: &T,
    grid: Seq<Seq<Cell>>,
    writes: Seq<CellWrite>,
    width: int,
    height: int,
)
    requires
        is_grid(grid, width, height),
    ensures
        is_grid(painted(target, grid, writes), width, height),
    decreases writes.len(),
{
    if writes.len() > 0 {
        lemma_painted_keeps_extent(target, grid, writes.drop_last(), width, height);
    }
}

/// A canvas whose grid has the extent that it says still has it after
/// anything was drawn on it.
pub proof fn lemma_drawn_canvas_is_well_formed(before: Canvas, after: Canvas, writes: Seq<CellWrite>)
    requires
        before.buffer.wf(),
        after.cells() == painted(&before, before.cells(), writes),
        same_shape(&after, &before),
    ensures
        after.buffer.wf(),
{
    lemma_painted_keeps_extent(
        &before,
        before.cells(),
        writes,
        extent(before.buffer.spec_size().x as int) as int,
        extent(before.buffer.spec_size().y as int) as int,
    );
}

/// Two states of a target that have the same shape send every write to
/// the same place.
pub proof fn lemma_same_shape<T: CanvasLike + ?Sized>(a: &T, b: &T)
    requires
        a.shape() == b.shape(),
    ensures
        same_shape(a, b),
{
    a.lemma_shape_decides(b);
}

/// Something that cells can be written to: a canvas, or a frame over another target.
///
/// Every target stands over one grid of cells. A write either reaches one
/// position of that grid or is dropped on the way.
pub trait CanvasLike {
    /// What a target is besides the cells of its grid.
    type Shape;

    /// The grid that lies under the target.
    spec fn cells(&self) -> Seq<Seq<Cell>>;

    /// Everything about the target that a write leaves alone: the extent
    /// of a canvas, the offset, extent and clipping of a frame and the shape
    /// of its parent.
    spec fn shape(&self) -> Self::Shape;

    /// The position of the grid that a write at `pos` is sent to, or `None`
    /// if the write is dropped before it gets there. A position that the grid
    /// does not have is dropped by the grid itself.
    spec fn landing(&self, pos: Dims) -> Option<Dims>;

    /// Where the target lies in its parent.
    spec fn spec_pos(&self) -> Dims;

    /// The extent of the target.
    spec fn spec_size(&self) -> Dims;

    /// The shape of a target decides where it sends each write and which
    /// position and extent it reports.
    proof fn lemma_shape_decides(&self, other: &Self)
        requires
            self.shape() == other.shape(),
        ensures
            self.spec_pos() == other.spec_pos(),
            self.spec_size() == other.spec_size(),
            forall|p: Dims| #[trigger] self.landing(p) == other.landing(p),
    ;

    /// Writes `cell` at `pos`.
    fn set(&mut self, pos: Dims, cell: Cell)
        ensures
            final(self).cells() == written(old(self).cells(), old(self).landing(pos), cell),
            final(self).shape() == old(self).shape(),
            final(self).spec_pos() == old(self).spec_pos(),
            final(self).spec_size() == old(self).spec_size(),
            forall|p: Dims| #[trigger] final(self).landing(p) == old(self).landing(p),
    ;

    /// Where the target lies in its parent.
    fn pos(&self) -> (p: Dims)
        ensures
            p == self.spec_pos(),
    ;

    /// The extent of the target.
    fn size(&self) -> (s: Dims)
        ensures
            s == self.spec_size(),
    ;
}

/// A drawing surface that owns its grid.
pub struct Canvas {
    pub buffer: Buffer,
}

impl Canvas {
    /// The canvas over `buf`.
    pub fn new(buf: Buffer) -> (canvas: Self)
        ensures
            canvas.buffer == buf,
    {
        Self { buffer: buf }
    }

    /// A blank canvas of the given extent.
    pub fn from_dims(size: Dims) -> (canvas: Self)
        requires
            Buffer::can_hold(size),
        ensures
            canvas.buffer.wf(),
            canvas.buffer.spec_size() == size,
            canvas.buffer.cells() == blank_grid(size.x as int, size.y as int),
    {
        Self::new(Buffer::new(size))
    }

    /// Puts `cell` at `pos`. Outside the grid nothing happens.
    pub fn set(&mut self, pos: Dims, cell: Cell)
        ensures
            final(self).buffer.cells() == grid_put(
                old(self).buffer.cells(),
                pos.x as int,
                pos.y as int,
                cell,
            ),
            final(self).buffer.spec_size() == old(self).buffer.spec_size(),
            old(self).buffer.wf() ==> final(self).buffer.wf(),
    {
        self.buffer.set(pos, cell);
    }

    /// The extent of the grid.
    pub fn size(&self) -> (size: Dims)
        ensures
            size == self.buffer.spec_size(),
    {
        self.buffer.size()
    }

    /// The cell at `pos`, or `None` outside the grid.
    pub fn get(&self, pos: Dims) -> (cell: Option<Cell>)
        ensures
            cell == grid_get(self.buffer.cells(), pos.x as int, pos.y as int),
    {
        self.buffer.get(pos)
    }

    /// The grid of the canvas.
    pub fn get_buf(&self) -> (buf: &Buffer)
        ensures
            *buf == self.buffer,
    {
        &self.buffer
    }

    /// Gives the grid a new extent, as `Buffer::resize` does.
    pub fn resize(&mut self, size: Dims)
        requires
            Buffer::can_resize_to(size),
        ensures
            final(self).buffer.spec_size() == size,
            final(self).buffer.cells() == (if old(self).buffer.spec_size() == size {
                old(self).buffer.cells()
            } else {
                resized_grid(old(self).buffer.cells(), size.x as int, size.y as int)
            }),
            old(self).buffer.spec_size() != size || old(self).buffer.wf() ==> final(self).buffer.wf(),
            old(self).buffer.wf() ==> final(self).buffer.cells() == resized_grid(
                old(self).buffer.cells(),
                size.x as int,
                size.y as int,
            ),
    {
        self.buffer.resize(size);
    }

    /// Makes every cell blank.
    pub fn clear(&mut self)
        ensures
            final(self).buffer.spec_size() == old(self).buffer.spec_size(),
            final(self).buffer.cells().len() == old(self).buffer.cells().len(),
            forall|y: int|
                0 <= y < old(self).buffer.cells().len() ==> #[trigger] final(self).buffer.cells()[y]
                    == Seq::new(old(self).buffer.cells()[y].len(), |x: int| Cell::blank()),
            old(self).buffer.wf() ==> final(self).buffer.wf() && final(self).buffer.cells()
                == blank_grid(
                old(self).buffer.spec_size().x as int,
                old(self).buffer.spec_size().y as int,
            ),
    {
        self.buffer.clear();
    }
}

impl CanvasLike for Canvas {
    type Shape = Dims;

    open spec fn cells(&self) -> Seq<Seq<Cell>> {
        self.buffer.cells()
    }

    open spec fn shape(&self) -> Dims {
        self.buffer.spec_size()
    }

    open spec fn landing(&self, pos: Dims) -> Option<Dims> {
        Some(pos)
    }

    open spec fn spec_pos(&self) -> Dims {
        Pos { x: 0, y: 0 }
    }

    open spec fn spec_size(&self) -> Dims {
        self.buffer.spec_size()
    }

    proof fn lemma_shape_decides(&self, other: &Self) {
    }

    fn set(&mut self, pos: Dims, cell: Cell) {
        self.buffer.set(pos, cell);
    }

    fn pos(&self) -> (p: Dims) {
        Pos::new(0, 0)
    }

    fn size(&self) -> (s: Dims) {
        self.buffer.size()
    }
}

impl<T: CanvasLike> CanvasLike for &mut T {
    type Shape = T::Shape;

    open spec fn cells(&self) -> Seq<Seq<Cell>> {
        (**self).cells()
    }

    open spec fn shape(&self) -> T::Shape {
        (**self).shape()
    }

    open spec fn landing(&self, pos: Dims) -> Option<Dims> {
        (**self).landing(pos)
    }

    open spec fn spec_pos(&self) -> Dims {
        (**self).spec_pos()
    }

    open spec fn spec_size(&self) -> Dims {
        (**self).spec_size()
    }

    proof fn lemma_shape_decides(&self, other: &Self) {
        (**self).lemma_shape_decides(&**other);
    }

    fn set(&mut self, pos: Dims, cell: Cell) {
        (**self).set(pos, cell);
    }

    fn pos(&self) -> (p: Dims) {
        (**self).pos()
    }

    fn size(&self) -> (s: Dims) {
        (**self).size()
    }
}

/// The cells that filling hands over for row `y`: one cell for each of the
/// first `columns` columns, from the left.
pub open spec fn fill_row_writes(y: i32, columns: nat, cell: Cell) -> Seq<CellWrite> {
    Seq::new(columns, |x: int| CellWrite { pos: Pos { x: x as i32, y }, cell })
}

/// The cells that filling an extent hands over for its first `rows` rows,
/// row by row from the top.
pub open spec fn fill_writes(size: Dims, rows: nat, cell: Cell) -> Seq<CellWrite>
    decreases rows,
{
    if rows == 0 {
        Seq::empty()
    } else {
        fill_writes(size, (rows - 1) as nat, cell) + fill_row_writes(
            (rows - 1) as i32,
            extent(size.x as int),
            cell,
        )
    }
}

/// What every target can do besides taking single cells.
pub trait CanvasLikeExt: CanvasLike {
    /// Draws `content` at `pos`.
    fn draw<D: Drawable>(&mut self, pos: Dims, content: D)
        ensures
            final(self).cells() == painted(
                old(self),
                old(self).cells(),
                content.writes(pos, old(self).spec_size()),
            ),
            same_shape(final(self), old(self)),
    ;

    /// Writes `cell` to every position within the extent of the target.
    fn fill(&mut self, cell: Cell)
        ensures
            final(self).cells() == painted(
                old(self),
                old(self).cells(),
                fill_writes(old(self).spec_size(), extent(old(self).spec_size().y as int), cell),
            ),
            same_shape(final(self), old(self)),
    ;
}

impl<C: CanvasLike> CanvasLikeExt for C {
    fn draw<D: Drawable>(&mut self, pos: Dims, content: D) {
        content.draw(pos, self)
    }

    fn fill(&mut self, cell: Cell) {
        let size = self.size();
        let mut y: i32 = 0;
        proof {
            lemma_painted_empty(old(self), old(self).cells());
        }
        while y < size.y
            invariant
                0 <= y,
                y == extent(size.y as int) || y < size.y,
                size == old(self).spec_size(),
                same_shape(self, old(self)),
                self.cells() == painted(
                    old(self),
                    old(self).cells(),
                    fill_writes(size, y as nat, cell),
                ),
            decreases size.y - y,
        {
            let ghost above = fill_writes(size, y as nat, cell);
            let mut x: i32 = 0;
            while x < size.x
                invariant
                    0 <= x,
                    x == extent(size.x as int) || x < size.x,
                    0 <= y < size.y,
                    size == old(self).spec_size(),
                    above == fill_writes(size, y as nat, cell),
                    same_shape(self, old(self)),
                    self.cells() == painted(
                        old(self),
                        old(self).cells(),
                        above + fill_row_writes(y, x as nat, cell),
                    ),
                decreases size.x - x,
            {
                self.set(Pos::new(x, y), cell);
                proof {
                    let w = CellWrite { pos: Pos { x, y }, cell };
                    lemma_painted_push(
                        old(self),
                        old(self).cells(),
                        above + fill_row_writes(y, x as nat, cell),
                        w,
                    );
                    assert(above + fill_row_writes(y, (x + 1) as nat, cell) =~= (above
                        + fill_row_writes(y, x as nat, cell)).push(w));
                }
                x = x + 1;
            }
            y = y + 1;
        }
    }
}

} // verus!
