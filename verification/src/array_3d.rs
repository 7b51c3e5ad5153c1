//! A dense 3-D array of small integers, stored row-major in one flat vector
//! and indexed by non-negative integer coordinates within a fixed size.

use vstd::prelude::*;
use crate::vec3::{Vec3, vec_i32_as_usize};
use vstd::arithmetic::div_mod::lemma_fundamental_div_mod_converse;

verus! {

#[derive(Clone)]
pub struct Array3D {
    pub size: Vec3<usize>,
    pub data: Vec<i32>,
}

impl Array3D {
    /// The flat storage covers exactly the stated size.
    pub open spec fn wf(self) -> bool {
        self.data.len() == self.size.x * self.size.y * self.size.z
    }

    /// The flat index of a coordinate: `z` strides a whole plane, `y` a row.
    pub open spec fn spec_index_of(self, x: int, y: int, z: int) -> int {
        z * (self.size.x * self.size.y) + y * self.size.x + x
    }

    /// The cell at a coordinate (meaningful for in-bounds coordinates).
    pub open spec fn spec_at(self, x: int, y: int, z: int) -> i32 {
        self.data[self.spec_index_of(x, y, z)]
    }

    /// A coordinate lies outside the stated size.
    pub open spec fn spec_out_of_bounds(self, x: int, y: int, z: int) -> bool {
        x >= self.size.x || y >= self.size.y || z >= self.size.z
    }

    /// An in-bounds coordinate's flat index lies within the flat storage.
    pub proof fn lemma_index_in_range(self, x: int, y: int, z: int)
        requires
            self.wf(),
            0 <= x < self.size.x,
            0 <= y < self.size.y,
            0 <= z < self.size.z,
        ensures
            0 <= self.spec_index_of(x, y, z) < self.data.len(),
            z * (self.size.x as int) * (self.size.y as int) + y * (self.size.x as int) + x
                == self.spec_index_of(x, y, z),
            z * (self.size.x as int) <= self.spec_index_of(x, y, z),
            z * (self.size.x as int) * (self.size.y as int) <= self.spec_index_of(x, y, z),
            y * (self.size.x as int) <= self.spec_index_of(x, y, z),
    {
        let sx = self.size.x as int;
        let sy = self.size.y as int;
        let sz = self.size.z as int;
        let idx = z * (sx * sy) + y * sx + x;
        assert((z * sx) * sy + y * sx + x == idx && 0 <= idx < (sx * sy) * sz && z * sx <= idx && (z
            * sx) * sy <= idx && y * sx <= idx) by (nonlinear_arith)
            requires
                0 <= x < sx,
                0 <= y < sy,
                0 <= z < sz,
                idx == z * (sx * sy) + y * sx + x,
        ;
    }

    /// Distinct in-bounds coordinates have distinct flat indices.
    pub proof fn lemma_index_injective(
        self,
        x1: int,
        y1: int,
        z1: int,
        x2: int,
        y2: int,
        z2: int,
    )
        requires
            0 <= x1 < self.size.x,
            0 <= y1 < self.size.y,
            0 <= z1 < self.size.z,
            0 <= x2 < self.size.x,
            0 <= y2 < self.size.y,
            0 <= z2 < self.size.z,
            self.spec_index_of(x1, y1, z1) == self.spec_index_of(x2, y2, z2),
        ensures
            x1 == x2,
            y1 == y2,
            z1 == z2,
    {
        let sx = self.size.x as int;
        let sy = self.size.y as int;
        let idx = self.spec_index_of(x1, y1, z1);
        assert(0 <= y1 * sx + x1 < sx * sy && 0 <= y2 * sx + x2 < sx * sy) by (nonlinear_arith)
            requires
                0 <= x1 < sx,
                0 <= y1 < sy,
                0 <= x2 < sx,
                0 <= y2 < sy,
        ;
        lemma_fundamental_div_mod_converse(idx, sx * sy, z1, y1 * sx + x1);
        lemma_fundamental_div_mod_converse(idx, sx * sy, z2, y2 * sx + x2);
        let rem = y1 * sx + x1;
        lemma_fundamental_div_mod_converse(rem, sx, y1, x1);
        lemma_fundamental_div_mod_converse(rem, sx, y2, x2);
    }

    /// Allocate an array of the given size, every cell zero. A size whose
    /// flat extent would not fit in memory is a contract violation.
    pub fn new(size: Vec3<usize>) -> (r: Array3D)
        requires
            size.x * size.y <= usize::MAX,
            size.x * size.y * size.z <= usize::MAX,
        ensures
            r.wf(),
            r.size == size,
            forall|i: int| 0 <= i < r.data.len() ==> r.data[i] == 0i32,
    {
        proof {
            assert(size.x * size.y <= size.x * size.y * size.z || size.z == 0) by (nonlinear_arith);
            assert(size.x * size.y * size.z == (size.x * size.y) * size.z) by (nonlinear_arith);
        }
        let flat_size: usize = size.x * size.y * size.z;
        let data: Vec<i32> = vec![0i32; flat_size];
        Array3D { size, data }
    }

    /// The flat index of an in-bounds coordinate.
    pub fn coord_to_index(&self, coord: Vec3<usize>) -> (r: usize)
        requires
            self.wf(),
            !self.spec_out_of_bounds(coord.x as int, coord.y as int, coord.z as int),
        ensures
            r == self.spec_index_of(coord.x as int, coord.y as int, coord.z as int),
            r < self.data.len(),
    {
        proof {
            self.lemma_index_in_range(coord.x as int, coord.y as int, coord.z as int);
        }
        coord.z * self.size.x * self.size.y + coord.y * self.size.x + coord.x
    }

    /// The coordinate whose flat index is given, by plane, row and column.
    pub fn index_to_coord(&self, index: usize) -> (r: Vec3<usize>)
        requires
            self.wf(),
            index < self.data.len(),
        ensures
            r.z == index as int / (self.size.x * self.size.y),
            r.y == (index as int % (self.size.x * self.size.y)) / self.size.x as int,
            r.x == (index as int % (self.size.x * self.size.y)) % self.size.x as int,
    {
        proof {
            let sx = self.size.x as int;
            let sy = self.size.y as int;
            let sz = self.size.z as int;
            assert(1 <= sx && 1 <= sx * sy && sx * sy <= (sx * sy) * sz) by (nonlinear_arith)
                requires
                    (sx * sy) * sz > index >= 0,
                    sx >= 0,
                    sy >= 0,
                    sz >= 0,
            ;
        }
        let z = index / (self.size.x * self.size.y);
        let remainder = index % (self.size.x * self.size.y);
        let y = remainder / self.size.x;
        let x = remainder % self.size.x;
        Vec3 { x, y, z }
    }

    /// Whether a coordinate lies outside the array.
    pub fn is_out_of_bounds(&self, coord: Vec3<usize>) -> (r: bool)
        ensures
            r == self.spec_out_of_bounds(coord.x as int, coord.y as int, coord.z as int),
    {
        coord.x >= self.size.x || coord.y >= self.size.y || coord.z >= self.size.z
    }

    /// Whether a signed coordinate lies outside the array; every coordinate
    /// with a negative component does.
    pub fn is_i32_out_of_bounds(&self, coord: Vec3<i32>) -> (r: bool)
        ensures
            r == (coord.x < 0 || coord.y < 0 || coord.z < 0 || self.spec_out_of_bounds(
                coord.x as int,
                coord.y as int,
                coord.z as int,
            )),
    {
        if coord.x < 0 || coord.y < 0 || coord.z < 0 {
            return true;
        }
        self.is_out_of_bounds(vec_i32_as_usize(coord))
    }

    /// The cell at an in-bounds coordinate.
    pub fn get(&self, coord: Vec3<usize>) -> (r: i32)
        requires
            self.wf(),
            !self.spec_out_of_bounds(coord.x as int, coord.y as int, coord.z as int),
        ensures
            r == self.spec_at(coord.x as int, coord.y as int, coord.z as int),
    {
        let index = self.coord_to_index(coord);
        self.data[index]
    }

    /// The cell at an in-bounds signed coordinate.
    pub fn get_i32(&self, coord: Vec3<i32>) -> (r: i32)
        requires
            self.wf(),
            coord.x >= 0,
            coord.y >= 0,
            coord.z >= 0,
            !self.spec_out_of_bounds(coord.x as int, coord.y as int, coord.z as int),
        ensures
            r == self.spec_at(coord.x as int, coord.y as int, coord.z as int),
    {
        self.get(vec_i32_as_usize(coord))
    }

    /// Store a value at an in-bounds coordinate; no other cell changes.
    pub fn set(&mut self, coord: Vec3<usize>, value: i32)
        requires
            old(self).wf(),
            !old(self).spec_out_of_bounds(coord.x as int, coord.y as int, coord.z as int),
        ensures
            final(self).wf(),
            final(self).size == old(self).size,
            final(self).data@ == old(self).data@.update(
                old(self).spec_index_of(coord.x as int, coord.y as int, coord.z as int),
                value,
            ),
    {
        let index = self.coord_to_index(coord);
        self.data[index] = value;
    }

    /// Store a value at an in-bounds signed coordinate; no other cell changes.
    pub fn set_i32(&mut self, coord: Vec3<i32>, value: i32)
        requires
            old(self).wf(),
            coord.x >= 0,
            coord.y >= 0,
            coord.z >= 0,
            !old(self).spec_out_of_bounds(coord.x as int, coord.y as int, coord.z as int),
        ensures
            final(self).wf(),
            final(self).size == old(self).size,
            final(self).data@ == old(self).data@.update(
                old(self).spec_index_of(coord.x as int, coord.y as int, coord.z as int),
                value,
            ),
    {
        self.set(vec_i32_as_usize(coord), value);
    }
}

} // verus!
