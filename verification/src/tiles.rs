//! The ground layer of a tile map: a row-major grid of tile ids that the
//! puzzle and room rules read and repaint.

use vstd::prelude::*;

verus! {

/// Ground tiles, `width * height` ids in row-major order.
pub struct Ground {
    pub width: u32,
    pub height: u32,
    pub tiles: Vec<u16>,
}

/// Row-major position of `(tx, ty)` in a grid `width` wide.
pub open spec fn cell(width: u32, tx: u32, ty: u32) -> int {
    ty * width + tx
}

proof fn lemma_cell_in_grid(width: u32, height: u32, tx: u32, ty: u32)
    requires
        tx < width,
        ty < height,
    ensures
        0 <= cell(width, tx, ty) < width * height,
{
    assert(ty * width + tx < width * height) by (nonlinear_arith)
        requires
            tx < width,
            ty < height,
    ;
    assert(0 <= ty * width) by (nonlinear_arith);
}

/// The id at `(tx, ty)` of a `width` by `height` grid; off the grid reads 0.
pub open spec fn read(tiles: Seq<u16>, width: u32, height: u32, tx: u32, ty: u32) -> u16 {
    if tx < width && ty < height {
        tiles[cell(width, tx, ty)]
    } else {
        0
    }
}

/// The grid after painting `id` at `(tx, ty)` (no change off the grid).
pub open spec fn paint(tiles: Seq<u16>, width: u32, height: u32, tx: u32, ty: u32, id: u16) -> Seq<u16> {
    if tx < width && ty < height {
        tiles.update(cell(width, tx, ty), id)
    } else {
        tiles
    }
}

/// The grid after painting each listed cell with `id`, in order.
pub open spec fn paint_seq(tiles: Seq<u16>, width: u32, height: u32, cells: Seq<(u32, u32)>, id: u16) -> Seq<u16>
    decreases cells.len(),
{
    if cells.len() == 0 {
        tiles
    } else {
        paint(paint_seq(tiles, width, height, cells.drop_last(), id), width, height, cells.last().0, cells.last().1, id)
    }
}

impl Ground {
    /// The tile count matches the dimensions.
    pub open spec fn wf(&self) -> bool {
        self.tiles@.len() == self.width * self.height
    }

    pub open spec fn in_bounds(&self, tx: u32, ty: u32) -> bool {
        tx < self.width && ty < self.height
    }

    /// The tile at `(tx, ty)`; off the map reads as tile 0.
    pub open spec fn at(&self, tx: u32, ty: u32) -> u16 {
        read(self.tiles@, self.width, self.height, tx, ty)
    }

    /// The grid after painting `id` at `(tx, ty)` (no change off the map).
    pub open spec fn painted(&self, tx: u32, ty: u32, id: u16) -> Seq<u16> {
        paint(self.tiles@, self.width, self.height, tx, ty, id)
    }

    /// A grid of `width * height` copies of `fill`.
    pub fn new(width: u32, height: u32, fill: u16) -> (g: Self)
        requires
            width * height <= usize::MAX,
        ensures
            g.wf(),
            g.width == width,
            g.height == height,
            forall|i: int| 0 <= i < g.tiles@.len() ==> g.tiles@[i] == fill,
    {
        let n: usize = (width as usize) * (height as usize);
        let mut tiles: Vec<u16> = Vec::new();
        let mut i: usize = 0;
        while i < n
            invariant
                i <= n,
                tiles@.len() == i,
                forall|j: int| 0 <= j < i ==> tiles@[j] == fill,
            decreases n - i,
        {
            tiles.push(fill);
            i = i + 1;
        }
        Ground { width, height, tiles }
    }

    pub fn get(&self, tx: u32, ty: u32) -> (r: u16)
        requires
            self.wf(),
        ensures
            r == self.at(tx, ty),
    {
        if tx < self.width && ty < self.height {
            proof {
                lemma_cell_in_grid(self.width, self.height, tx, ty);
            }
            let n = self.tiles.len();
            assert((ty as usize) * (self.width as usize) + (tx as usize) < n);
            let i: usize = (ty as usize) * (self.width as usize) + (tx as usize);
            self.tiles[i]
        } else {
            0
        }
    }

    pub fn set(&mut self, tx: u32, ty: u32, id: u16)
        requires
            old(self).wf(),
        ensures
            final(self).wf(),
            final(self).width == old(self).width,
            final(self).height == old(self).height,
            final(self).tiles@ == old(self).painted(tx, ty, id),
    {
        if tx < self.width && ty < self.height {
            proof {
                lemma_cell_in_grid(self.width, self.height, tx, ty);
            }
            let n = self.tiles.len();
            assert((ty as usize) * (self.width as usize) + (tx as usize) < n);
            let i: usize = (ty as usize) * (self.width as usize) + (tx as usize);
            self.tiles.set(i, id);
        }
    }

    /// Paints `id` on every listed tile, in order.
    pub fn paint_all(&mut self, cells: &Vec<(u32, u32)>, id: u16)
        requires
            old(self).wf(),
        ensures
            final(self).wf(),
            final(self).width == old(self).width,
            final(self).height == old(self).height,
            forall|k: int| 0 <= k < cells@.len() && old(self).in_bounds(cells@[k].0, cells@[k].1)
                ==> #[trigger] final(self).at(cells@[k].0, cells@[k].1) == id,
            forall|tx: u32, ty: u32| !cells@.contains((tx, ty)) ==> #[trigger] final(self).at(tx, ty) == old(self).at(tx, ty),
            final(self).tiles@ == paint_seq(old(self).tiles@, old(self).width, old(self).height, cells@, id),
    {
        let mut i: usize = 0;
        while i < cells.len()
            invariant
                i <= cells.len(),
                self.wf(),
                self.width == old(self).width,
                self.height == old(self).height,
                forall|k: int| 0 <= k < i && old(self).in_bounds(cells@[k].0, cells@[k].1)
                    ==> #[trigger] self.at(cells@[k].0, cells@[k].1) == id,
                forall|tx: u32, ty: u32| !cells@.subrange(0, i as int).contains((tx, ty)) ==> #[trigger] self.at(tx, ty) == old(self).at(tx, ty),
                self.tiles@ == paint_seq(old(self).tiles@, old(self).width, old(self).height, cells@.subrange(0, i as int), id),
            decreases cells.len() - i,
        {
            let (tx, ty) = cells[i];
            let ghost before = *self;
            self.set(tx, ty, id);
            proof {
                assert(self.tiles@ == paint(before.tiles@, before.width, before.height, tx, ty, id));
                assert(before.wf());
                assert(cells@.subrange(0, i + 1).drop_last() =~= cells@.subrange(0, i as int));
                assert forall|k: int| 0 <= k <= i && old(self).in_bounds(cells@[k].0, cells@[k].1) implies #[trigger] self.at(cells@[k].0, cells@[k].1) == id by {
                    lemma_read_paint(before.tiles@, before.width, before.height, tx, ty, id, cells@[k].0, cells@[k].1);
                    if k < i {
                        assert(before.at(cells@[k].0, cells@[k].1) == id);
                    }
                }
                assert forall|x: u32, y: u32| !cells@.subrange(0, i + 1).contains((x, y)) implies #[trigger] self.at(x, y) == old(self).at(x, y) by {
                    assert(cells@.subrange(0, i + 1)[i as int] == (tx, ty));
                    if cells@.subrange(0, i as int).contains((x, y)) {
                        let m = choose|m: int| 0 <= m < i && cells@.subrange(0, i as int)[m] == (x, y);
                        assert(cells@.subrange(0, i + 1)[m] == (x, y));
                    }
                    lemma_read_paint(before.tiles@, before.width, before.height, tx, ty, id, x, y);
                    assert(before.at(x, y) == old(self).at(x, y));
                }
            }
            i = i + 1;
        }
        assert(cells@.subrange(0, cells@.len() as int) =~= cells@);
    }
}

/// Reading after one paint: the painted cell reads the new id, every other
/// cell is unchanged.
pub proof fn lemma_read_paint(tiles: Seq<u16>, width: u32, height: u32, tx: u32, ty: u32, id: u16, x: u32, y: u32)
    requires
        tiles.len() == width * height,
    ensures
        read(paint(tiles, width, height, tx, ty, id), width, height, x, y)
            == if x == tx && y == ty && tx < width && ty < height { id } else { read(tiles, width, height, x, y) },
        paint(tiles, width, height, tx, ty, id).len() == tiles.len(),
{
    if tx < width && ty < height {
        lemma_cell_in_grid(width, height, tx, ty);
    }
    if x < width && y < height {
        lemma_cell_in_grid(width, height, x, y);
        if tx < width && ty < height {
            if x != tx || y != ty {
                lemma_cell_injective(width, tx, ty, x, y);
            }
        }
    }
}

proof fn lemma_cell_injective(width: u32, tx: u32, ty: u32, x: u32, y: u32)
    requires
        tx < width,
        x < width,
        x != tx || y != ty,
    ensures
        cell(width, tx, ty) != cell(width, x, y),
{
    if y == ty {
    } else if y < ty {
        assert(y * width + width <= ty * width) by (nonlinear_arith)
            requires
                y < ty,
        ;
    } else {
        assert(ty * width + width <= y * width) by (nonlinear_arith)
            requires
                ty < y,
        ;
    }
}

} // verus!
