use vstd::prelude::*;

use crate::block::BlockState;

verus! {

/// Cells along x and along z.
pub const CHUNK_WIDTH: usize = 16;

/// Cells in one section: one horizontal layer of the chunk.
pub const CHUNK_AREA: usize = 256;

/// Sections stacked in a chunk, one per unit of height.
pub const CHUNK_SECTIONS_PER: usize = 256;

/// Cells in a whole chunk.
pub const CHUNK_VOLUME: usize = 65536;

/// Failures of the chunk's operations.
#[derive(Clone, Copy, Debug, PartialEq, Eq, Structural)]
pub enum ChunkError {
    /// A coordinate lies outside the fixed grid.
    OutOfBounds,
    /// No mesh matches the current contents.
    StaleMesh,
}

/// Geometry derived from the chunk's contents.
#[derive(Clone, Copy, Debug, PartialEq, Eq, Structural)]
pub struct Mesh {
    pub vertex_count: u64,
}

/// A fixed-size cuboid of cells, stored section after section in one buffer.
/// Within a section a cell sits at `z * CHUNK_WIDTH + x`.
pub struct Chunk {
    pos: (i32, i32),
    cells: Vec<BlockState>,
    empty: Vec<bool>,
    mesh: Option<Mesh>,
}

pub open spec fn in_grid(x: int, y: int, z: int) -> bool {
    0 <= x < CHUNK_WIDTH && 0 <= z < CHUNK_WIDTH && 0 <= y < CHUNK_SECTIONS_PER
}

pub open spec fn cell_index(x: int, y: int, z: int) -> int {
    y * 256 + z * 16 + x
}

/// Whether section `y` of a cell buffer holds air only.
pub open spec fn section_all_air(cells: Seq<BlockState>, y: int) -> bool {
    forall|i: int| 0 <= i < CHUNK_AREA ==> (#[trigger] cells[y * 256 + i]).block.is_none()
}

/// The sections, bottom up, that hold at least one block.
pub open spec fn occupied_upto(cells: Seq<BlockState>, n: nat) -> Seq<usize>
    decreases n,
{
    if n == 0 {
        Seq::empty()
    } else {
        let rest = occupied_upto(cells, (n - 1) as nat);
        if section_all_air(cells, n - 1) {
            rest
        } else {
            rest.push((n - 1) as usize)
        }
    }
}

pub open spec fn occupied_sections(cells: Seq<BlockState>) -> Seq<usize> {
    occupied_upto(cells, CHUNK_SECTIONS_PER as nat)
}

/// The vertex count a mesh of `cells` gets when the generator reports
/// `generated` vertices: air contributes none.
pub open spec fn mesh_vertex_count(cells: Seq<BlockState>, generated: u64) -> u64 {
    if occupied_sections(cells).len() == 0 {
        0
    } else {
        generated
    }
}

impl Chunk {
    pub closed spec fn pos_view(&self) -> (i32, i32) {
        self.pos
    }

    pub closed spec fn cells_view(&self) -> Seq<BlockState> {
        self.cells@
    }

    pub closed spec fn empty_view(&self) -> Seq<bool> {
        self.empty@
    }

    pub closed spec fn mesh_view(&self) -> Option<Mesh> {
        self.mesh
    }

    pub open spec fn cell(&self, x: int, y: int, z: int) -> BlockState {
        self.cells_view()[cell_index(x, y, z)]
    }

    /// The fixed layout holds and every section's `empty` flag is true
    /// exactly when the section holds air only.
    pub open spec fn wf(&self) -> bool {
        &&& self.cells_view().len() == CHUNK_VOLUME
        &&& self.empty_view().len() == CHUNK_SECTIONS_PER
        &&& forall|y: int|
            0 <= y < CHUNK_SECTIONS_PER ==> #[trigger] self.empty_view()[y] == section_all_air(
                self.cells_view(),
                y,
            )
    }

    /// A chunk at `pos` that holds air only and has no mesh yet.
    pub fn new(pos: (i32, i32)) -> (r: Chunk)
        ensures
            r.wf(),
            r.pos_view() == pos,
            r.mesh_view().is_none(),
            forall|i: int| 0 <= i < CHUNK_VOLUME ==> (#[trigger] r.cells_view()[i]).block.is_none(),
    {
        let air = BlockState::air();
        let mut cells: Vec<BlockState> = Vec::new();
        let mut i: usize = 0;
        while i < CHUNK_VOLUME
            invariant
                i <= CHUNK_VOLUME,
                cells@.len() == i,
                air.block.is_none(),
                forall|j: int| 0 <= j < i ==> (#[trigger] cells@[j]) == air,
            decreases CHUNK_VOLUME - i,
        {
            cells.push(air);
            i = i + 1;
        }
        let mut empty: Vec<bool> = Vec::new();
        let mut y: usize = 0;
        while y < CHUNK_SECTIONS_PER
            invariant
                y <= CHUNK_SECTIONS_PER,
                empty@.len() == y,
                forall|j: int| 0 <= j < y ==> #[trigger] empty@[j],
            decreases CHUNK_SECTIONS_PER - y,
        {
            empty.push(true);
            y = y + 1;
        }
        let r = Chunk { pos, cells, empty, mesh: None };
        assert forall|y: int| 0 <= y < CHUNK_SECTIONS_PER implies #[trigger] r.empty_view()[y]
            == section_all_air(r.cells_view(), y) by {
            assert forall|i: int| 0 <= i < CHUNK_AREA implies (#[trigger] r.cells_view()[y * 256
                + i]).block.is_none() by {
                assert(0 <= y * 256 + i < CHUNK_VOLUME);
            }
        }
        r
    }
    /// The cell at local coordinates `(x, y, z)`; `y` picks the section.
    pub fn get(&self, x: usize, y: usize, z: usize) -> (r: Result<BlockState, ChunkError>)
        requires
            self.wf(),
        ensures
            in_grid(x as int, y as int, z as int) ==> r == Ok::<BlockState, ChunkError>(
                self.cell(x as int, y as int, z as int),
            ),
            !in_grid(x as int, y as int, z as int) ==> r == Err::<BlockState, ChunkError>(
                ChunkError::OutOfBounds,
            ),
    {
        if x >= CHUNK_WIDTH || z >= CHUNK_WIDTH || y >= CHUNK_SECTIONS_PER {
            return Err(ChunkError::OutOfBounds);
        }
        Ok(self.cells[y * CHUNK_AREA + z * CHUNK_WIDTH + x])
    }

    /// Scans section `y` cell by cell.
    fn scan_section_air(&self, y: usize) -> (r: bool)
        requires
            self.cells@.len() == CHUNK_VOLUME,
            y < CHUNK_SECTIONS_PER,
        ensures
            r == section_all_air(self.cells@, y as int),
    {
        let base = y * CHUNK_AREA;
        let mut i: usize = 0;
        while i < CHUNK_AREA
            invariant
                i <= CHUNK_AREA,
                y < CHUNK_SECTIONS_PER,
                base == y * 256,
                self.cells@.len() == CHUNK_VOLUME,
                forall|k: int| 0 <= k < i ==> (#[trigger] self.cells@[y * 256 + k]).block.is_none(),
            decreases CHUNK_AREA - i,
        {
            if !self.cells[base + i].is_air() {
                assert(self.cells@[y * 256 + i as int].block.is_some());
                return false;
            }
            i = i + 1;
        }
        true
    }

    /// Replaces one cell, re-derives the `empty` flag of its section and drops
    /// the mesh. Outside the grid nothing changes and `OutOfBounds` comes back.
    pub fn set(&mut self, x: usize, y: usize, z: usize, state: BlockState) -> (r: Result<
        (),
        ChunkError,
    >)
        requires
            old(self).wf(),
        ensures
            final(self).wf(),
            in_grid(x as int, y as int, z as int) <==> r is Ok,
            r is Err ==> r == Err::<(), ChunkError>(ChunkError::OutOfBounds) && *final(self) == *old(self),
            r is Ok ==> final(self).cells_view() == old(self).cells_view().update(
                cell_index(x as int, y as int, z as int),
                state,
            ),
            r is Ok ==> final(self).mesh_view().is_none(),
            final(self).pos_view() == old(self).pos_view(),
    {
        if x >= CHUNK_WIDTH || z >= CHUNK_WIDTH || y >= CHUNK_SECTIONS_PER {
            return Err(ChunkError::OutOfBounds);
        }
        let ghost before = self.cells@;
        let i = y * CHUNK_AREA + z * CHUNK_WIDTH + x;
        self.cells.set(i, state);
        let now_air = if state.is_air() {
            self.scan_section_air(y)
        } else {
            assert(self.cells@[y * 256 + (z * 16 + x)] == state);
            false
        };
        self.empty.set(y, now_air);
        self.mesh = None;
        assert forall|s: int| 0 <= s < CHUNK_SECTIONS_PER && s != y implies section_all_air(
            self.cells@,
            s,
        ) == section_all_air(before, s) by {
            assert forall|k: int| 0 <= k < CHUNK_AREA implies #[trigger] self.cells@[s * 256 + k]
                == before[s * 256 + k] by {
                assert(s * 256 + k != i);
            }
            if section_all_air(before, s) {
                assert forall|k: int| 0 <= k < CHUNK_AREA implies (#[trigger] self.cells@[s * 256
                    + k]).block.is_none() by {
                    assert(before[s * 256 + k].block.is_none());
                }
            }
            if section_all_air(self.cells@, s) {
                assert forall|k: int| 0 <= k < CHUNK_AREA implies (#[trigger] before[s * 256
                    + k]).block.is_none() by {
                    assert(self.cells@[s * 256 + k].block.is_none());
                }
            }
        }
        Ok(())
    }

    /// Indices of the sections that the mesh generator has to visit, read
    /// from the `empty` flags.
    pub fn occupied(&self) -> (r: Vec<usize>)
        requires
            self.wf(),
        ensures
            r@ == occupied_sections(self.cells_view()),
    {
        let mut r: Vec<usize> = Vec::new();
        let mut y: usize = 0;
        while y < CHUNK_SECTIONS_PER
            invariant
                y <= CHUNK_SECTIONS_PER,
                self.wf(),
                r@ == occupied_upto(self.cells_view(), y as nat),
            decreases CHUNK_SECTIONS_PER - y,
        {
            if !self.empty[y] {
                r.push(y);
            }
            y = y + 1;
        }
        r
    }

    /// Stores the mesh that the generator built from the occupied sections,
    /// given the number of vertices it produced. With no occupied section
    /// there is nothing to mesh and the mesh has no vertices.
    pub fn regenerate_mesh(&mut self, generated_vertex_count: u64)
        requires
            old(self).wf(),
        ensures
            final(self).wf(),
            final(self).cells_view() == old(self).cells_view(),
            final(self).pos_view() == old(self).pos_view(),
            final(self).mesh_view() == Some(
                Mesh { vertex_count: mesh_vertex_count(old(self).cells_view(), generated_vertex_count) },
            ),
    {
        let sections = self.occupied();
        let vertex_count = if sections.len() == 0 {
            0
        } else {
            generated_vertex_count
        };
        self.mesh = Some(Mesh { vertex_count });
    }

    /// The mesh to hand to the presentation layer; `StaleMesh` when none
    /// matches the current contents.
    pub fn upload(&self) -> (r: Result<Mesh, ChunkError>)
        ensures
            self.mesh_view() matches Some(m) ==> r == Ok::<Mesh, ChunkError>(m),
            self.mesh_view() is None ==> r == Err::<Mesh, ChunkError>(ChunkError::StaleMesh),
    {
        match self.mesh {
            Some(m) => Ok(m),
            None => Err(ChunkError::StaleMesh),
        }
    }

    /// The chunk's coordinate in the chunk grid.
    pub fn pos(&self) -> (r: (i32, i32))
        ensures
            r == self.pos_view(),
    {
        self.pos
    }

    /// The cached `empty` flag of section `y`.
    pub fn is_section_empty(&self, y: usize) -> (r: Result<bool, ChunkError>)
        requires
            self.wf(),
        ensures
            y < CHUNK_SECTIONS_PER ==> r == Ok::<bool, ChunkError>(
                section_all_air(self.cells_view(), y as int),
            ),
            y >= CHUNK_SECTIONS_PER ==> r == Err::<bool, ChunkError>(ChunkError::OutOfBounds),
    {
        if y >= CHUNK_SECTIONS_PER {
            return Err(ChunkError::OutOfBounds);
        }
        Ok(self.empty[y])
    }
}

proof fn lemma_air_cells_occupy_nothing(cells: Seq<BlockState>, n: nat)
    requires
        n <= CHUNK_SECTIONS_PER,
        cells.len() == CHUNK_VOLUME,
        forall|i: int| 0 <= i < CHUNK_VOLUME ==> (#[trigger] cells[i]).block.is_none(),
    ensures
        occupied_upto(cells, n) == Seq::<usize>::empty(),
    decreases n,
{
    if n > 0 {
        lemma_air_cells_occupy_nothing(cells, (n - 1) as nat);
        let y = n - 1;
        assert forall|i: int| 0 <= i < CHUNK_AREA implies (#[trigger] cells[y * 256 + i]).block.is_none() by {
            assert(0 <= y * 256 + i < CHUNK_VOLUME);
        }
    }
}

/// A chunk that holds air only hands the mesh generator no section at all,
/// so the mesh built for it has no vertices, whatever the generator says.
pub proof fn lemma_air_chunk_has_empty_mesh(chunk: Chunk, generated: u64)
    requires
        chunk.wf(),
        forall|i: int| 0 <= i < CHUNK_VOLUME ==> (#[trigger] chunk.cells_view()[i]).block.is_none(),
    ensures
        occupied_sections(chunk.cells_view()) == Seq::<usize>::empty(),
        mesh_vertex_count(chunk.cells_view(), generated) == 0,
{
    lemma_air_cells_occupy_nothing(chunk.cells_view(), CHUNK_SECTIONS_PER as nat);
}

/// Regenerating a mesh leaves the cells as they were, so a second
/// regeneration with no mutation in between hands the generator the same
/// sections and, for the same generator output, stores the same mesh.
pub proof fn lemma_regenerate_is_stable(first: Chunk, second: Chunk, generated: u64)
    requires
        first.wf(),
        second.wf(),
        second.cells_view() == first.cells_view(),
    ensures
        occupied_sections(second.cells_view()) == occupied_sections(first.cells_view()),
        mesh_vertex_count(second.cells_view(), generated) == mesh_vertex_count(
            first.cells_view(),
            generated,
        ),
{
}

} // verus!
