//! The MUS cache: for each arrangement of the corners and of half the edges, a precomputed
//! number of moves needed to solve it.
//!
//! Filling the tables (from disk or by a search) is left to the caller; the cache checks that
//! they are complete and looks cubes up in them.

use vstd::prelude::*;

use crate::cube3::index::{lemma_set_sizes, CornersMUS, HalfEdgesMUS, Indexable};
use crate::cube3::{corners_index, half_edges_index, x2, Cube3};
use crate::pieces::edge::Edge;
use crate::moves::rotation::Rotatable;

verus! {

/// Number of entries of the edges table: the arrangements of six edges.
pub const EDGES_TABLE_SIZE: usize = 42577920;

/// Number of entries of the corners table: the arrangements of the corners.
pub const CORNERS_TABLE_SIZE: usize = 88179840;

/// The MUS cache. Any instance of this type is guaranteed to have a complete cache.
pub struct Cache {
    edges: Vec<u8>,
    corners: Vec<u8>,
}

/// The largest of three numbers.
pub open spec fn max3(a: u8, b: u8, c: u8) -> u8 {
    if a >= b && a >= c {
        a
    } else if b >= c {
        b
    } else {
        c
    }
}

impl Cache {
    /// The edges table.
    pub closed spec fn edges_table(self) -> Seq<u8> {
        self.edges@
    }

    /// The corners table.
    pub closed spec fn corners_table(self) -> Seq<u8> {
        self.corners@
    }

    #[verifier::type_invariant]
    spec fn complete(self) -> bool {
        &&& self.edges.len() == EDGES_TABLE_SIZE
        &&& self.corners.len() == CORNERS_TABLE_SIZE
    }

    /// A cache with the given tables, if each has one entry per arrangement it is indexed by.
    pub fn from_tables(edges: Vec<u8>, corners: Vec<u8>) -> (r: Option<Cache>)
        ensures
            r is Some <==> (edges.len() == EDGES_TABLE_SIZE && corners.len() == CORNERS_TABLE_SIZE),
            r matches Some(c) ==> c.edges_table() == edges@ && c.corners_table() == corners@,
    {
        if edges.len() == EDGES_TABLE_SIZE && corners.len() == CORNERS_TABLE_SIZE {
            Some(Cache { edges, corners })
        } else {
            None
        }
    }

    /// Gets the heuristic value of the cube from the cache. This is the maximum of the
    /// heuristic values of the corners and the two edge sets.
    pub fn get(&self, cube: &Cube3) -> (r: u8)
        requires
            cube.wf(),
        ensures
            r == max3(
                self.corners_table()[corners_index(cube.corners@) as int],
                self.edges_table()[half_edges_index(cube.edges@.subrange(0, 6)) as int],
                self.edges_table()[half_edges_index(
                    cube.edges@.subrange(6, 12).map_values(|e: Edge| e.rotated_by(x2())),
                ) as int],
            ),
    {
        proof {
            use_type_invariant(self);
            lemma_set_sizes();
        }
        let indices = cube.indices();
        let corner_heuristic = self.corners[indices.corners];
        let e0 = self.edges[indices.edges[0]];
        let e1 = self.edges[indices.edges[1]];
        let edge_heuristic = if e0 >= e1 {
            e0
        } else {
            e1
        };
        if corner_heuristic >= edge_heuristic {
            corner_heuristic
        } else {
            edge_heuristic
        }
    }
}

/// Sets of pieces whose table is stored on disk.
pub trait DiskCacheable: Indexable {
    /// Where the table is stored.
    const PATH: &'static str;
}

impl DiskCacheable for CornersMUS {
    const PATH: &'static str = "mus-cache/corners.barbarosa";
}

impl DiskCacheable for HalfEdgesMUS {
    const PATH: &'static str = "mus-cache/edges.barbarosa";
}

} // verus!
