//! The batch: draw calls in, runs of indexed triangles out.
//!
//! A run is a contiguous stretch of the index list that is drawn with one
//! material and at most one texture. Runs are kept in the order in which their
//! geometry was submitted, and a run is closed only when the material or the
//! texture changes under it.

use vstd::prelude::*;
use crate::graphics::material::Material;
use crate::graphics::mesh::{upload_copies, Mesh, MeshView};
use crate::graphics::pass::{CopyPass, DrawCall, Frame, RenderPass, TextureCopy};
use crate::graphics::render_target::RenderTarget;
use crate::graphics::subtexture::Subtexture;
use crate::graphics::texture::Texture;
use crate::graphics::{identity, identity_matrix, Mat4, Vertex, MAX_INDICES, MAX_VERTICES, ONE, ZERO};

verus! {

/// Why a draw call was refused.
#[derive(Clone, Copy, Debug, PartialEq, Eq, Structural)]
pub enum BatchError {
    /// The geometry does not fit in what is left of the vertex or index list.
    CapacityExceeded,
}

/// A run as the batch stores it. `offset` and `elements` count triangles.
#[derive(Clone, Copy, Debug)]
pub struct DrawBatch {
    pub offset: u32,
    pub elements: u32,
    pub material: Material,
    pub texture: Option<Texture>,
}

/// A run: `elements` triangles that follow the `offset` triangles of the runs
/// before it.
pub struct Run {
    pub offset: nat,
    pub elements: nat,
    pub material: Material,
    pub texture: Option<Texture>,
}

impl DrawBatch {
    pub open spec fn view(&self) -> Run {
        Run {
            offset: self.offset as nat,
            elements: self.elements as nat,
            material: self.material,
            texture: self.texture,
        }
    }
}

/// The runs that a list of stored runs stands for.
pub open spec fn runs_of(batches: Seq<DrawBatch>) -> Seq<Run> {
    Seq::new(batches.len(), |i: int| batches[i]@)
}

/// Number of runs that hold at least one triangle.
pub open spec fn count_nonempty(runs: Seq<Run>) -> nat
    decreases runs.len(),
{
    if runs.len() == 0 {
        0
    } else {
        count_nonempty(runs.drop_last()) + if runs.last().elements > 0 {
            1nat
        } else {
            0nat
        }
    }
}

/// What a batch holds, as mathematical values.
pub struct BatchView {
    /// The material of a run that is opened while no material has been pushed.
    pub default_material: Material,
    pub vertices: Seq<Vertex>,
    pub indices: Seq<u32>,
    /// The matrix stack, bottom first. Each entry is already composed with
    /// the entries below it.
    pub matrices: Seq<Mat4>,
    /// The material stack, bottom first.
    pub materials: Seq<Material>,
    /// The runs in submission order.
    pub runs: Seq<Run>,
    /// What the mesh has staged for the GPU.
    pub staged: MeshView,
}

impl BatchView {
    /// The batch that holds nothing.
    pub open spec fn empty(default_material: Material) -> BatchView {
        BatchView {
            default_material,
            vertices: Seq::empty(),
            indices: Seq::empty(),
            matrices: Seq::empty(),
            materials: Seq::empty(),
            runs: Seq::empty(),
            staged: MeshView { vertices: Seq::empty(), indices: Seq::empty() },
        }
    }

    /// Number of triangles in all runs together.
    pub open spec fn total_elements(self) -> nat {
        if self.runs.len() == 0 {
            0
        } else {
            self.runs.last().offset + self.runs.last().elements
        }
    }

    /// The invariant of a batch: the lists respect their limits, every index
    /// names a stored vertex, the index list holds three indices per triangle,
    /// and each run starts where the run before it ends.
    pub open spec fn wf(self) -> bool {
        &&& self.vertices.len() <= MAX_VERTICES
        &&& self.indices.len() <= MAX_INDICES
        &&& self.indices.len() == 3 * self.total_elements()
        &&& forall|i: int| 0 <= i < self.indices.len() ==> (#[trigger] self.indices[i]) < self.vertices.len()
        &&& self.runs.len() > 0 ==> self.runs[0].offset == 0
        &&& forall|i: int|
            0 <= i < self.runs.len() - 1 ==> (#[trigger] self.runs[i + 1]).offset == self.runs[i].offset
                + self.runs[i].elements
    }

    /// Whether `vertices` more vertices and `indices` more indices fit.
    pub open spec fn has_room(self, vertices: nat, indices: nat) -> bool {
        &&& self.vertices.len() + vertices <= MAX_VERTICES
        &&& self.indices.len() + indices <= MAX_INDICES
    }

    /// The run that the next vertex goes to. While the batch has no run, this
    /// is an empty run with the default material and no texture.
    pub open spec fn current(self) -> Run {
        if self.runs.len() == 0 {
            Run { offset: 0, elements: 0, material: self.default_material, texture: None }
        } else {
            self.runs.last()
        }
    }

    /// The batch with its current run in the list of runs.
    pub open spec fn opened(self) -> BatchView {
        if self.runs.len() == 0 {
            BatchView { runs: seq![self.current()], ..self }
        } else {
            self
        }
    }

    /// The batch with `run` in place of its current run.
    pub open spec fn with_current(self, run: Run) -> BatchView {
        BatchView { runs: self.opened().runs.drop_last().push(run), ..self }
    }

    /// The batch after the current run is closed and an empty run with the
    /// same material and texture is opened behind it.
    pub open spec fn split(self) -> BatchView {
        let current = self.current();
        BatchView {
            runs: self.opened().runs.push(
                Run { offset: current.offset + current.elements, elements: 0, ..current },
            ),
            ..self
        }
    }

    /// The batch after `material` became the material of the next vertex. A
    /// run that already holds triangles of another material is closed first.
    pub open spec fn bind_material(self, material: Material) -> BatchView {
        let base = if self.current().elements > 0 && material != self.current().material {
            self.split()
        } else {
            self.opened()
        };
        base.with_current(Run { material, ..base.current() })
    }

    /// The batch after `texture` became the texture of the next vertex. A run
    /// that is bound to another texture is closed first.
    pub open spec fn bind_texture(self, texture: Texture) -> BatchView {
        let base = match self.current().texture {
            Some(bound) => if bound.id != texture.id {
                self.split()
            } else {
                self.opened()
            },
            None => self.opened(),
        };
        base.with_current(Run { texture: Some(texture), ..base.current() })
    }

    /// The batch after `material` was pushed: the material of the current run
    /// is saved on the stack, then `material` is bound.
    pub open spec fn push_material(self, material: Material) -> BatchView {
        BatchView { materials: self.materials.push(self.current().material), ..self.opened() }.bind_material(
            material,
        )
    }

    /// The batch after the material on top of the stack was taken off and
    /// bound.
    pub open spec fn pop_material(self) -> BatchView
        recommends
            self.materials.len() > 0,
    {
        BatchView { materials: self.materials.drop_last(), ..self }.bind_material(self.materials.last())
    }

    /// The batch after `elements` triangles, made of `vertices` and `indices`,
    /// were added to the current run.
    pub open spec fn emit(self, vertices: Seq<Vertex>, indices: Seq<u32>, elements: nat) -> BatchView {
        BatchView { vertices: self.vertices + vertices, indices: self.indices + indices, ..self }.with_current(
            Run { elements: self.current().elements + elements, ..self.current() },
        )
    }

    /// The transform that the next vertex is projected by: the top of the
    /// matrix stack, or the identity while the stack is empty.
    pub open spec fn transform(self) -> Mat4 {
        if self.matrices.len() == 0 {
            identity_matrix()
        } else {
            self.matrices.last()
        }
    }

    /// The batch after the top of the matrix stack was taken off. An empty
    /// stack stays empty.
    pub open spec fn pop_matrix(self) -> BatchView {
        if self.matrices.len() == 0 {
            self
        } else {
            BatchView { matrices: self.matrices.drop_last(), ..self }
        }
    }

    /// Number of runs that hold at least one triangle.
    pub open spec fn run_count(self) -> nat {
        count_nonempty(self.runs)
    }
}

/// The indices of a triangle whose first vertex is stored at `base`.
pub open spec fn triangle_indices(base: u32) -> Seq<u32> {
    seq![base, (base + 1) as u32, (base + 2) as u32]
}

/// The indices of the two triangles of a quad whose first corner is stored at
/// `base`. The corners are top left, top right, bottom left, bottom right.
pub open spec fn quad_indices(base: u32) -> Seq<u32> {
    seq![base, (base + 1) as u32, (base + 2) as u32, (base + 2) as u32, (base + 1) as u32, (base + 3) as u32]
}

/// Whether `vertex` is what a draw call stores for `position`: the position as
/// `project` maps it under `matrix`, and the other fields as given.
pub open spec fn is_vertex<P: Fn(Mat4, [u32; 3]) -> [u32; 3]>(
    project: &P,
    matrix: Mat4,
    position: [u32; 3],
    color: [u8; 4],
    texture_uv: [u32; 2],
    mult_wash_fill: [u8; 4],
    vertex: Vertex,
) -> bool {
    &&& project.ensures((matrix, position), vertex.position)
    &&& vertex.color == color
    &&& vertex.texture_uv == texture_uv
    &&& vertex.mult_wash_fill == mult_wash_fill
}

/// Blend selector of geometry that is filled with its colour.
pub open spec fn fill() -> [u8; 4] {
    [0u8, 0u8, 255u8, 0u8]
}

/// Blend selector of geometry that shows its texture multiplied by its colour.
pub open spec fn mult() -> [u8; 4] {
    [255u8, 0u8, 0u8, 0u8]
}

/// The colour that leaves a texture as it is.
pub open spec fn white() -> [u8; 4] {
    [255u8, 255u8, 255u8, 255u8]
}

/// Whether `vertices` are the three corners of a filled triangle.
pub open spec fn is_triangle<P: Fn(Mat4, [u32; 3]) -> [u32; 3]>(
    project: &P,
    matrix: Mat4,
    positions: [[u32; 3]; 3],
    color: [u8; 4],
    vertices: Seq<Vertex>,
) -> bool {
    &&& vertices.len() == 3
    &&& forall|i: int|
        0 <= i < 3 ==> is_vertex(project, matrix, positions[i], color, [ZERO, ZERO], fill(), #[trigger] vertices[i])
}

/// Whether `vertices` are the four corners of a quad whose texture
/// coordinates are `uvs`, corner by corner.
pub open spec fn is_quad<P: Fn(Mat4, [u32; 3]) -> [u32; 3]>(
    project: &P,
    matrix: Mat4,
    positions: [[u32; 3]; 4],
    uvs: [[u32; 2]; 4],
    color: [u8; 4],
    mult_wash_fill: [u8; 4],
    vertices: Seq<Vertex>,
) -> bool {
    &&& vertices.len() == 4
    &&& forall|i: int|
        0 <= i < 4 ==> is_vertex(project, matrix, positions[i], color, uvs[i], mult_wash_fill, #[trigger] vertices[i])
}

/// Texture coordinates that cover a whole texture.
pub open spec fn full_uvs() -> [[u32; 2]; 4] {
    [[ZERO, ZERO], [ONE, ZERO], [ZERO, ONE], [ONE, ONE]]
}

/// The indices of `steps` triangles whose vertices are stored one after the
/// other from `base` on.
pub open spec fn fan_indices(base: u32, steps: nat) -> Seq<u32> {
    Seq::new(3 * steps, |i: int| (base + i) as u32)
}

/// Whether `vertices` are the corners of the fan triangle that spans the rim
/// points `from` and `to`, which `rim` gave for `step` and `step + 1`, and
/// the centre.
pub open spec fn spans_fan_triangle<R: Fn(u32) -> [u32; 3], P: Fn(Mat4, [u32; 3]) -> [u32; 3]>(
    rim: &R,
    project: &P,
    matrix: Mat4,
    center: [u32; 3],
    color: [u8; 4],
    step: u32,
    vertices: Seq<Vertex>,
    from: [u32; 3],
    to: [u32; 3],
) -> bool {
    &&& rim.ensures((step,), from)
    &&& rim.ensures(((step + 1) as u32,), to)
    &&& is_triangle(project, matrix, [from, to, center], color, vertices)
}

/// Whether `vertices` are the corners of the triangle of a fan that spans the
/// rim points `step` and `step + 1` and the centre.
pub open spec fn is_fan_triangle<R: Fn(u32) -> [u32; 3], P: Fn(Mat4, [u32; 3]) -> [u32; 3]>(
    rim: &R,
    project: &P,
    matrix: Mat4,
    center: [u32; 3],
    color: [u8; 4],
    step: u32,
    vertices: Seq<Vertex>,
) -> bool {
    exists|from: [u32; 3], to: [u32; 3]| #[trigger]
        spans_fan_triangle(rim, project, matrix, center, color, step, vertices, from, to)
}

/// The texture copies that the runs ask for, in the order of the runs: one
/// for each run whose texture has pixels waiting.
pub open spec fn uploads_of(runs: Seq<Run>) -> Seq<TextureCopy>
    decreases runs.len(),
{
    if runs.len() == 0 {
        Seq::empty()
    } else {
        let before = uploads_of(runs.drop_last());
        match runs.last().texture {
            Some(texture) => texture.uploads_after(before),
            None => before,
        }
    }
}

/// The run once the pixels of its texture are on the GPU.
pub open spec fn uploaded(run: Run) -> Run {
    Run {
        texture: match run.texture {
            Some(texture) => Some(texture.after_upload()),
            None => None,
        },
        ..run
    }
}

/// The runs once the pixels of their textures are on the GPU.
pub open spec fn uploaded_runs(runs: Seq<Run>) -> Seq<Run> {
    Seq::new(runs.len(), |i: int| uploaded(runs[i]))
}

/// The draw that covers exactly the indices of `run`.
pub open spec fn draw_call(run: Run) -> DrawCall {
    DrawCall {
        material: run.material,
        texture: run.texture,
        index_count: (run.elements * 3) as u32,
        first_index: (run.offset * 3) as u32,
    }
}

/// One draw for each run that holds a triangle, in the order of the runs.
pub open spec fn draw_calls(runs: Seq<Run>) -> Seq<DrawCall>
    decreases runs.len(),
{
    if runs.len() == 0 {
        Seq::empty()
    } else {
        let before = draw_calls(runs.drop_last());
        if runs.last().elements > 0 {
            before.push(draw_call(runs.last()))
        } else {
            before
        }
    }
}

/// Adding geometry to the current run in two steps is adding all of it in
/// one.
pub proof fn lemma_emit_twice(
    view: BatchView,
    vertices0: Seq<Vertex>,
    indices0: Seq<u32>,
    elements0: nat,
    vertices1: Seq<Vertex>,
    indices1: Seq<u32>,
    elements1: nat,
)
    ensures
        view.emit(vertices0, indices0, elements0).emit(vertices1, indices1, elements1) == view.emit(
            vertices0 + vertices1,
            indices0 + indices1,
            elements0 + elements1,
        ),
{
    let once = view.emit(vertices0, indices0, elements0);
    let twice = once.emit(vertices1, indices1, elements1);
    let both = view.emit(vertices0 + vertices1, indices0 + indices1, elements0 + elements1);
    assert(twice.vertices =~= both.vertices);
    assert(twice.indices =~= both.indices);
    assert(twice.runs =~= both.runs);
}

/// The three vertices of the triangle `step` among the vertices of a fan.
pub open spec fn fan_part(vertices: Seq<Vertex>, step: int) -> Seq<Vertex> {
    vertices.subrange(3 * step, 3 * step + 3)
}

/// The indices of the four quads of an outline whose first corner is stored
/// at `base`.
pub open spec fn outline_indices(base: u32) -> Seq<u32> {
    quad_indices(base) + quad_indices((base + 4) as u32) + quad_indices((base + 8) as u32) + quad_indices(
        (base + 12) as u32,
    )
}

/// The four vertices of the edge `edge` among the vertices of an outline.
pub open spec fn outline_part(vertices: Seq<Vertex>, edge: int) -> Seq<Vertex> {
    vertices.subrange(4 * edge, 4 * edge + 4)
}

/// Accumulates the geometry of one frame.
pub struct Batch {
    default_material: Material,
    vertices: Vec<Vertex>,
    indices: Vec<u32>,
    matrix_stack: Vec<Mat4>,
    material_stack: Vec<Material>,
    batches: Vec<DrawBatch>,
    mesh: Mesh,
}

impl Batch {
    pub closed spec fn view(&self) -> BatchView {
        BatchView {
            default_material: self.default_material,
            vertices: self.vertices@,
            indices: self.indices@,
            matrices: self.matrix_stack@,
            materials: self.material_stack@,
            runs: runs_of(self.batches@),
            staged: self.mesh@,
        }
    }

    /// Whether the batch meets its invariant. Every batch that this module
    /// hands out does.
    pub open spec fn wf(&self) -> bool {
        self@.wf()
    }

    /// An empty batch whose runs start out with `default_material`.
    pub fn new(default_material: Material) -> (batch: Self)
        ensures
            batch@ == BatchView::empty(default_material),
            batch.wf(),
    {
        let batch = Batch {
            default_material,
            vertices: Vec::new(),
            indices: Vec::new(),
            matrix_stack: Vec::new(),
            material_stack: Vec::new(),
            batches: Vec::new(),
            mesh: Mesh::new(),
        };
        assert(batch@.runs =~= Seq::<Run>::empty());
        batch
    }

    /// Puts the current run in the list of runs if the list is empty, and
    /// returns the position of the current run.
    fn current_batch(&mut self) -> (last: usize)
        requires
            old(self).wf(),
        ensures
            final(self)@ == old(self)@.opened(),
            final(self).wf(),
            final(self).batches@.len() > 0,
            last == final(self).batches@.len() - 1,
            final(self).batches@[last as int]@ == old(self)@.current(),
    {
        if self.batches.len() == 0 {
            let value = DrawBatch { offset: 0, elements: 0, material: self.default_material, texture: None };
            self.batches.push(value);
            assert(self@.runs =~= old(self)@.opened().runs);
        }
        self.batches.len() - 1
    }

    /// Closes the current run and opens an empty one behind it.
    fn push_batch(&mut self)
        requires
            old(self).wf(),
        ensures
            final(self)@ == old(self)@.split(),
            final(self).wf(),
            final(self).batches@.len() > 0,
    {
        let last = self.current_batch();
        let current = self.batches[last];
        proof {
            let v = self@;
            assert(v.total_elements() == current.offset + current.elements);
        }
        let value = DrawBatch {
            offset: current.offset + current.elements,
            elements: 0,
            material: current.material,
            texture: current.texture,
        };
        self.batches.push(value);
        assert(self@.runs =~= old(self)@.split().runs);
    }

    /// Replaces the current run, which must be in the list of runs.
    fn set_current(&mut self, run: DrawBatch)
        requires
            old(self).batches@.len() > 0,
        ensures
            final(self)@ == old(self)@.with_current(run@),
            final(self).batches@.len() == old(self).batches@.len(),
    {
        let last = self.batches.len() - 1;
        self.batches.set(last, run);
        assert(self@.runs =~= old(self)@.with_current(run@).runs);
    }

    /// Makes `material` the material of the next vertex.
    fn bind_material(&mut self, material: Material)
        requires
            old(self).wf(),
        ensures
            final(self)@ == old(self)@.bind_material(material),
            final(self).wf(),
    {
        let last = self.current_batch();
        let current = self.batches[last];
        if current.elements > 0 && !(material == current.material) {
            self.push_batch();
        }
        let last = self.batches.len() - 1;
        let current = self.batches[last];
        self.set_current(DrawBatch { material, ..current });
        proof {
            let base = if old(self)@.current().elements > 0 && material != old(self)@.current().material {
                old(self)@.split()
            } else {
                old(self)@.opened()
            };
            assert(self@.runs =~= base.with_current(Run { material, ..base.current() }).runs);
        }
    }

    /// Saves the material of the current run on the material stack and makes
    /// `material` the material of the next vertex. If the current run already
    /// holds triangles of another material, it is closed and a new run is
    /// opened; geometry that was submitted before is never touched.
    pub fn push_material(&mut self, material: &Material)
        requires
            old(self).wf(),
        ensures
            final(self)@ == old(self)@.push_material(*material),
            final(self).wf(),
    {
        let last = self.current_batch();
        let current_material = self.batches[last].material;
        self.material_stack.push(current_material);
        self.bind_material(*material);
    }

    /// Takes the material on top of the material stack off, makes it the
    /// material of the next vertex under the same rule as
    /// [`Batch::push_material`], and returns it.
    pub fn pop_material(&mut self) -> (material: Material)
        requires
            old(self).wf(),
            old(self)@.materials.len() > 0,
        ensures
            material == old(self)@.materials.last(),
            final(self)@ == old(self)@.pop_material(),
            final(self).wf(),
    {
        let material = self.material_stack.pop().unwrap();
        self.bind_material(material);
        material
    }

    /// Number of materials on the material stack.
    pub fn material_depth(&self) -> (depth: usize)
        ensures
            depth == self@.materials.len(),
    {
        self.material_stack.len()
    }

    /// Pushes a transform: `matrix` itself while the stack is empty, else what
    /// `compose` makes of the current top and `matrix`, in this order.
    pub fn push_matrix<F: FnOnce(Mat4, Mat4) -> Mat4>(&mut self, matrix: Mat4, compose: F)
        requires
            old(self)@.matrices.len() > 0 ==> compose.requires((old(self)@.matrices.last(), matrix)),
        ensures
            final(self)@.matrices.len() == old(self)@.matrices.len() + 1,
            final(self)@ == (BatchView {
                matrices: old(self)@.matrices.push(final(self)@.matrices.last()),
                ..old(self)@
            }),
            old(self)@.matrices.len() == 0 ==> final(self)@.matrices.last() == matrix,
            old(self)@.matrices.len() > 0 ==> compose.ensures(
                (old(self)@.matrices.last(), matrix),
                final(self)@.matrices.last(),
            ),
    {
        if self.matrix_stack.len() == 0 {
            self.matrix_stack.push(matrix);
        } else {
            let current = self.matrix_stack[self.matrix_stack.len() - 1];
            let composed = compose(current, matrix);
            self.matrix_stack.push(composed);
        }
    }

    /// The transform that the next vertex is projected by: the top of the
    /// matrix stack, or the identity while the stack is empty.
    pub fn peek_matrix(&self) -> (matrix: Mat4)
        ensures
            matrix == self@.transform(),
            self@.matrices.len() == 0 ==> matrix == identity_matrix(),
    {
        if self.matrix_stack.len() == 0 {
            identity()
        } else {
            self.matrix_stack[self.matrix_stack.len() - 1]
        }
    }

    /// Takes the top of the matrix stack off. An empty stack stays empty.
    pub fn pop_matrix(&mut self)
        ensures
            final(self)@ == old(self)@.pop_matrix(),
    {
        self.matrix_stack.pop();
    }

    /// Number of transforms on the matrix stack.
    pub fn matrix_depth(&self) -> (depth: usize)
        ensures
            depth == self@.matrices.len(),
    {
        self.matrix_stack.len()
    }
    /// Whether `vertices` more vertices and `indices` more indices fit.
    pub fn has_room(&self, vertices: u32, indices: u32) -> (fits: bool)
        ensures
            fits == self@.has_room(vertices as nat, indices as nat),
    {
        vertices <= MAX_VERTICES && self.vertices.len() <= (MAX_VERTICES - vertices) as usize && indices
            <= MAX_INDICES && self.indices.len() <= (MAX_INDICES - indices) as usize
    }

    /// Stores one vertex, its position projected by the current transform.
    fn push_vertex<P: Fn(Mat4, [u32; 3]) -> [u32; 3]>(
        &mut self,
        position: [u32; 3],
        color: [u8; 4],
        texture_uv: [u32; 2],
        mult_wash_fill: [u8; 4],
        project: &P,
    )
        requires
            project.requires((old(self)@.transform(), position)),
        ensures
            final(self)@.vertices.len() == old(self)@.vertices.len() + 1,
            final(self)@ == (BatchView {
                vertices: old(self)@.vertices.push(final(self)@.vertices.last()),
                ..old(self)@
            }),
            is_vertex(
                project,
                old(self)@.transform(),
                position,
                color,
                texture_uv,
                mult_wash_fill,
                final(self)@.vertices.last(),
            ),
    {
        let matrix = self.peek_matrix();
        let projected = project(matrix, position);
        self.vertices.push(Vertex { position: projected, color, texture_uv, mult_wash_fill });
    }

    /// Adds `elements` triangles to the current run.
    fn grow_current(&mut self, elements: u32)
        requires
            old(self).batches@.len() > 0,
            old(self).batches@.last().elements + elements <= u32::MAX,
        ensures
            final(self)@ == old(self)@.with_current(
                Run {
                    elements: old(self)@.current().elements + elements as nat,
                    ..old(self)@.current()
                },
            ),
            final(self).batches@.len() == old(self).batches@.len(),
    {
        let last = self.batches.len() - 1;
        let current = self.batches[last];
        self.set_current(DrawBatch { elements: current.elements + elements, ..current });
    }

    /// Adds a triangle filled with `color` to the current run. Each position is
    /// projected by the current transform before it is stored.
    ///
    /// Fails, and changes nothing, if three more vertices or indices do not
    /// fit.
    pub fn triangle<P: Fn(Mat4, [u32; 3]) -> [u32; 3]>(
        &mut self,
        position0: [u32; 3],
        position1: [u32; 3],
        position2: [u32; 3],
        color: [u8; 4],
        project: &P,
    ) -> (r: Result<(), BatchError>)
        requires
            old(self).wf(),
            forall|p: [u32; 3]| project.requires((old(self)@.transform(), p)),
        ensures
            final(self).wf(),
            match r {
                Ok(()) => {
                    let base = old(self)@.vertices.len();
                    let added = final(self)@.vertices.skip(base as int);
                    &&& old(self)@.has_room(3, 3)
                    &&& is_triangle(
                        project,
                        old(self)@.transform(),
                        [position0, position1, position2],
                        color,
                        added,
                    )
                    &&& final(self)@ == old(self)@.emit(added, triangle_indices(base as u32), 1)
                },
                Err(e) => {
                    &&& e == BatchError::CapacityExceeded
                    &&& !old(self)@.has_room(3, 3)
                    &&& final(self)@ == old(self)@
                },
            },
    {
        if !self.has_room(3, 3) {
            return Err(BatchError::CapacityExceeded);
        }
        let last_vertex_index = self.vertices.len() as u32;
        let _ = self.current_batch();
        self.indices.push(last_vertex_index);
        self.indices.push(last_vertex_index + 1);
        self.indices.push(last_vertex_index + 2);
        assert(self@.transform() == old(self)@.transform());
        self.push_vertex(position0, color, [ZERO, ZERO], [0, 0, 255, 0], project);
        assert(self@.transform() == old(self)@.transform());
        self.push_vertex(position1, color, [ZERO, ZERO], [0, 0, 255, 0], project);
        assert(self@.transform() == old(self)@.transform());
        self.push_vertex(position2, color, [ZERO, ZERO], [0, 0, 255, 0], project);
        proof {
            assert(old(self)@.opened().total_elements() == old(self)@.total_elements());
        }
        self.grow_current(1);
        proof {
            let base = old(self)@.vertices.len();
            let added = self@.vertices.skip(base as int);
            let target = old(self)@.emit(added, triangle_indices(base as u32), 1);
            assert(self@.vertices =~= target.vertices);
            assert(self@.indices =~= target.indices);
            assert(self@.runs =~= target.runs);
        }
        Ok(())
    }

    /// Adds a quad, as two triangles, to the current run.
    fn push_quad<P: Fn(Mat4, [u32; 3]) -> [u32; 3]>(
        &mut self,
        positions: [[u32; 3]; 4],
        uvs: [[u32; 2]; 4],
        mult_wash_fill: [u8; 4],
        color: [u8; 4],
        project: &P,
    )
        requires
            old(self).wf(),
            old(self)@.has_room(4, 6),
            forall|p: [u32; 3]| project.requires((old(self)@.transform(), p)),
        ensures
            final(self).wf(),
            is_quad(
                project,
                old(self)@.transform(),
                positions,
                uvs,
                color,
                mult_wash_fill,
                final(self)@.vertices.skip(old(self)@.vertices.len() as int),
            ),
            final(self)@ == old(self)@.emit(
                final(self)@.vertices.skip(old(self)@.vertices.len() as int),
                quad_indices(old(self)@.vertices.len() as u32),
                2,
            ),
    {
        let last_vertex_index = self.vertices.len() as u32;
        let _ = self.current_batch();
        self.indices.push(last_vertex_index);
        self.indices.push(last_vertex_index + 1);
        self.indices.push(last_vertex_index + 2);
        self.indices.push(last_vertex_index + 2);
        self.indices.push(last_vertex_index + 1);
        self.indices.push(last_vertex_index + 3);
        assert(self@.transform() == old(self)@.transform());
        self.push_vertex(positions[0], color, uvs[0], mult_wash_fill, project);
        assert(self@.transform() == old(self)@.transform());
        self.push_vertex(positions[1], color, uvs[1], mult_wash_fill, project);
        assert(self@.transform() == old(self)@.transform());
        self.push_vertex(positions[2], color, uvs[2], mult_wash_fill, project);
        assert(self@.transform() == old(self)@.transform());
        self.push_vertex(positions[3], color, uvs[3], mult_wash_fill, project);
        proof {
            assert(old(self)@.opened().total_elements() == old(self)@.total_elements());
        }
        self.grow_current(2);
        proof {
            let base = old(self)@.vertices.len();
            let added = self@.vertices.skip(base as int);
            let target = old(self)@.emit(added, quad_indices(base as u32), 2);
            assert(self@.vertices =~= target.vertices);
            assert(self@.indices =~= target.indices);
            assert(self@.runs =~= target.runs);
        }
    }

    /// Adds a quad filled with `color` to the current run. The corners are top
    /// left, top right, bottom left, bottom right; each is projected by the
    /// current transform before it is stored.
    ///
    /// Fails, and changes nothing, if four more vertices or six more indices
    /// do not fit.
    pub fn quad<P: Fn(Mat4, [u32; 3]) -> [u32; 3]>(
        &mut self,
        position0: [u32; 3],
        position1: [u32; 3],
        position2: [u32; 3],
        position3: [u32; 3],
        color: [u8; 4],
        project: &P,
    ) -> (r: Result<(), BatchError>)
        requires
            old(self).wf(),
            forall|p: [u32; 3]| project.requires((old(self)@.transform(), p)),
        ensures
            final(self).wf(),
            match r {
                Ok(()) => {
                    let base = old(self)@.vertices.len();
                    let added = final(self)@.vertices.skip(base as int);
                    &&& old(self)@.has_room(4, 6)
                    &&& is_quad(
                        project,
                        old(self)@.transform(),
                        [position0, position1, position2, position3],
                        full_uvs(),
                        color,
                        fill(),
                        added,
                    )
                    &&& final(self)@ == old(self)@.emit(added, quad_indices(base as u32), 2)
                },
                Err(e) => {
                    &&& e == BatchError::CapacityExceeded
                    &&& !old(self)@.has_room(4, 6)
                    &&& final(self)@ == old(self)@
                },
            },
    {
        if !self.has_room(4, 6) {
            return Err(BatchError::CapacityExceeded);
        }
        self.push_quad(
            [position0, position1, position2, position3],
            [[ZERO, ZERO], [ONE, ZERO], [ZERO, ONE], [ONE, ONE]],
            [0, 0, 255, 0],
            color,
            project,
        );
        Ok(())
    }
    /// Adds a rectangle filled with `color` to the current run. The
    /// rectangle is given by its corners: top left, top right, bottom left,
    /// bottom right. It is stored as [`Batch::quad`] stores a quad.
    pub fn rect<P: Fn(Mat4, [u32; 3]) -> [u32; 3]>(
        &mut self,
        corners: [[u32; 3]; 4],
        color: [u8; 4],
        project: &P,
    ) -> (r: Result<(), BatchError>)
        requires
            old(self).wf(),
            forall|p: [u32; 3]| project.requires((old(self)@.transform(), p)),
        ensures
            final(self).wf(),
            match r {
                Ok(()) => {
                    let base = old(self)@.vertices.len();
                    let added = final(self)@.vertices.skip(base as int);
                    &&& old(self)@.has_room(4, 6)
                    &&& is_quad(project, old(self)@.transform(), corners, full_uvs(), color, fill(), added)
                    &&& final(self)@ == old(self)@.emit(added, quad_indices(base as u32), 2)
                },
                Err(e) => {
                    &&& e == BatchError::CapacityExceeded
                    &&& !old(self)@.has_room(4, 6)
                    &&& final(self)@ == old(self)@
                },
            },
    {
        let r = self.quad(corners[0], corners[1], corners[2], corners[3], color, project);
        proof {
            if r.is_ok() {
                let added = self@.vertices.skip(old(self)@.vertices.len() as int);
                assert forall|i: int| 0 <= i < 4 implies is_vertex(
                    project,
                    old(self)@.transform(),
                    corners[i],
                    color,
                    full_uvs()[i],
                    fill(),
                    #[trigger] added[i],
                ) by {
                    assert([corners[0], corners[1], corners[2], corners[3]][i] == corners[i]);
                }
            }
        }
        r
    }

    /// Adds the outline of a rectangle, filled with `color`, to the current
    /// run: one quad for each edge, in the order top, bottom, left, right.
    /// Each quad is given by its corners, as for [`Batch::quad`].
    ///
    /// Fails, and changes nothing, if sixteen more vertices or twenty-four
    /// more indices do not fit.
    pub fn rect_outline<P: Fn(Mat4, [u32; 3]) -> [u32; 3]>(
        &mut self,
        edges: [[[u32; 3]; 4]; 4],
        color: [u8; 4],
        project: &P,
    ) -> (r: Result<(), BatchError>)
        requires
            old(self).wf(),
            forall|p: [u32; 3]| project.requires((old(self)@.transform(), p)),
        ensures
            final(self).wf(),
            match r {
                Ok(()) => {
                    let base = old(self)@.vertices.len();
                    let added = final(self)@.vertices.skip(base as int);
                    &&& old(self)@.has_room(16, 24)
                    &&& added.len() == 16
                    &&& forall|edge: int|
                        0 <= edge < 4 ==> is_quad(
                            project,
                            old(self)@.transform(),
                            edges[edge],
                            full_uvs(),
                            color,
                            fill(),
                            #[trigger] outline_part(added, edge),
                        )
                    &&& final(self)@ == old(self)@.emit(added, outline_indices(base as u32), 8)
                },
                Err(e) => {
                    &&& e == BatchError::CapacityExceeded
                    &&& !old(self)@.has_room(16, 24)
                    &&& final(self)@ == old(self)@
                },
            },
    {
        if !self.has_room(16, 24) {
            return Err(BatchError::CapacityExceeded);
        }
        let ghost base = self@.vertices.len() as int;
        let ghost matrix = self@.transform();
        let mut edge: usize = 0;
        while edge < 4
            invariant
                edge <= 4,
                self.wf(),
                self@.transform() == matrix,
                matrix == old(self)@.transform(),
                base == old(self)@.vertices.len(),
                forall|p: [u32; 3]| project.requires((matrix, p)),
                base + 16 <= MAX_VERTICES,
                old(self)@.indices.len() + 24 <= MAX_INDICES,
                self@.vertices.len() == base + 4 * edge,
                self@.indices.len() == old(self)@.indices.len() + 6 * edge,
                edge == 0 ==> self@ == old(self)@,
                edge > 0 ==> self@ == old(self)@.emit(
                    self@.vertices.skip(base),
                    outline_indices(base as u32).take(6 * edge),
                    2 * edge as nat,
                ),
                forall|done: int|
                    0 <= done < edge ==> is_quad(
                        project,
                        matrix,
                        edges[done],
                        full_uvs(),
                        color,
                        fill(),
                        #[trigger] outline_part(self@.vertices.skip(base), done),
                    ),
            decreases 4 - edge,
        {
            let ghost before = self@;
            self.push_quad(
                edges[edge],
                [[ZERO, ZERO], [ONE, ZERO], [ZERO, ONE], [ONE, ONE]],
                [0, 0, 255, 0],
                color,
                project,
            );
            proof {
                let start = base + 4 * edge;
                let tail = self@.vertices.skip(start);
                let grown = self@.vertices.skip(base);
                assert(before.vertices.skip(base) + tail =~= grown);
                assert(outline_indices(base as u32).take(6 * edge) + quad_indices(start as u32)
                    =~= outline_indices(base as u32).take(6 * (edge + 1)));
                if edge > 0 {
                    lemma_emit_twice(
                        old(self)@,
                        before.vertices.skip(base),
                        outline_indices(base as u32).take(6 * edge),
                        2 * edge as nat,
                        tail,
                        quad_indices(start as u32),
                        2,
                    );
                }
                assert forall|done: int| 0 <= done < edge + 1 implies is_quad(
                    project,
                    matrix,
                    edges[done],
                    full_uvs(),
                    color,
                    fill(),
                    #[trigger] outline_part(grown, done),
                ) by {
                    if done < edge {
                        assert(outline_part(grown, done) =~= outline_part(before.vertices.skip(base), done));
                    } else {
                        assert(outline_part(grown, done) =~= tail);
                    }
                }
            }
            edge = edge + 1;
        }
        assert(outline_indices(base as u32).take(24) =~= outline_indices(base as u32));
        Ok(())
    }

    /// Makes `texture` the texture of the next vertex.
    fn bind_texture(&mut self, texture: Texture)
        requires
            old(self).wf(),
        ensures
            final(self)@ == old(self)@.bind_texture(texture),
            final(self).wf(),
    {
        let last = self.current_batch();
        let current = self.batches[last];
        match current.texture {
            Some(bound) => {
                if bound.id != texture.id {
                    self.push_batch();
                }
            },
            None => {},
        }
        let last = self.batches.len() - 1;
        let current = self.batches[last];
        self.set_current(DrawBatch { texture: Some(texture), ..current });
        proof {
            let base = match old(self)@.current().texture {
                Some(bound) => if bound.id != texture.id {
                    old(self)@.split()
                } else {
                    old(self)@.opened()
                },
                None => old(self)@.opened(),
            };
            assert(self@.runs =~= base.with_current(Run { texture: Some(texture), ..base.current() }).runs);
        }
    }

    /// Adds a quad that shows the whole of `texture` to the current run. If
    /// the current run is bound to another texture, it is closed first and a
    /// new run is opened; if it has no texture or the same one, the quad joins
    /// it. The corners are top left, top right, bottom left, bottom right;
    /// each is projected by the current transform before it is stored.
    ///
    /// Fails, and changes nothing, if four more vertices or six more indices
    /// do not fit.
    pub fn texture<P: Fn(Mat4, [u32; 3]) -> [u32; 3]>(
        &mut self,
        texture: Texture,
        positions: [[u32; 3]; 4],
        project: &P,
    ) -> (r: Result<(), BatchError>)
        requires
            old(self).wf(),
            forall|p: [u32; 3]| project.requires((old(self)@.transform(), p)),
        ensures
            final(self).wf(),
            match r {
                Ok(()) => {
                    let base = old(self)@.vertices.len();
                    let added = final(self)@.vertices.skip(base as int);
                    &&& old(self)@.has_room(4, 6)
                    &&& is_quad(project, old(self)@.transform(), positions, full_uvs(), white(), mult(), added)
                    &&& final(self)@ == old(self)@.bind_texture(texture).emit(
                        added,
                        quad_indices(base as u32),
                        2,
                    )
                },
                Err(e) => {
                    &&& e == BatchError::CapacityExceeded
                    &&& !old(self)@.has_room(4, 6)
                    &&& final(self)@ == old(self)@
                },
            },
    {
        if !self.has_room(4, 6) {
            return Err(BatchError::CapacityExceeded);
        }
        self.bind_texture(texture);
        assert(self@.transform() == old(self)@.transform());
        self.push_quad(
            positions,
            [[ZERO, ZERO], [ONE, ZERO], [ZERO, ONE], [ONE, ONE]],
            [255, 0, 0, 0],
            [255, 255, 255, 255],
            project,
        );
        Ok(())
    }

    /// Adds a quad that shows the region `subtexture` of its texture to the
    /// current run, under the rule of [`Batch::texture`].
    ///
    /// Fails, and changes nothing, if four more vertices or six more indices
    /// do not fit.
    pub fn subtexture<P: Fn(Mat4, [u32; 3]) -> [u32; 3]>(
        &mut self,
        subtexture: Subtexture,
        positions: [[u32; 3]; 4],
        project: &P,
    ) -> (r: Result<(), BatchError>)
        requires
            old(self).wf(),
            forall|p: [u32; 3]| project.requires((old(self)@.transform(), p)),
        ensures
            final(self).wf(),
            match r {
                Ok(()) => {
                    let base = old(self)@.vertices.len();
                    let added = final(self)@.vertices.skip(base as int);
                    &&& old(self)@.has_room(4, 6)
                    &&& is_quad(
                        project,
                        old(self)@.transform(),
                        positions,
                        subtexture.uvs.corners(),
                        white(),
                        mult(),
                        added,
                    )
                    &&& final(self)@ == old(self)@.bind_texture(subtexture.texture).emit(
                        added,
                        quad_indices(base as u32),
                        2,
                    )
                },
                Err(e) => {
                    &&& e == BatchError::CapacityExceeded
                    &&& !old(self)@.has_room(4, 6)
                    &&& final(self)@ == old(self)@
                },
            },
    {
        if !self.has_room(4, 6) {
            return Err(BatchError::CapacityExceeded);
        }
        self.bind_texture(subtexture.texture);
        assert(self@.transform() == old(self)@.transform());
        let uvs = subtexture.uvs;
        self.push_quad(
            positions,
            [[uvs.left, uvs.top], [uvs.right, uvs.top], [uvs.left, uvs.bottom], [uvs.right, uvs.bottom]],
            [255, 0, 0, 0],
            [255, 255, 255, 255],
            project,
        );
        Ok(())
    }

    /// Number of runs that hold at least one triangle.
    pub fn get_batch_count(&self) -> (count: usize)
        ensures
            count == self@.run_count(),
    {
        let mut count: usize = 0;
        let mut i: usize = 0;
        while i < self.batches.len()
            invariant
                i <= self.batches@.len(),
                count <= i,
                count == count_nonempty(self@.runs.take(i as int)),
            decreases self.batches@.len() - i,
        {
            assert(self@.runs.take(i + 1).drop_last() =~= self@.runs.take(i as int));
            if self.batches[i].elements > 0 {
                count = count + 1;
            }
            i = i + 1;
        }
        assert(self@.runs.take(i as int) =~= self@.runs);
        count
    }

    /// Forgets all geometry, all runs and both stacks. What the mesh has
    /// staged stays.
    pub fn clear(&mut self)
        ensures
            final(self)@ == (BatchView {
                staged: old(self)@.staged,
                ..BatchView::empty(old(self)@.default_material)
            }),
            final(self).wf(),
    {
        self.batches.clear();
        self.vertices.clear();
        self.indices.clear();
        self.matrix_stack.clear();
        self.material_stack.clear();
        assert(self@.runs =~= Seq::<Run>::empty());
    }

    /// The vertices in submission order.
    pub fn vertices(&self) -> (vertices: &Vec<Vertex>)
        ensures
            vertices@ == self@.vertices,
    {
        &self.vertices
    }

    /// The indices in submission order.
    pub fn indices(&self) -> (indices: &Vec<u32>)
        ensures
            indices@ == self@.indices,
    {
        &self.indices
    }

    /// The runs in submission order, empty ones included.
    pub fn batches(&self) -> (batches: &Vec<DrawBatch>)
        ensures
            runs_of(batches@) == self@.runs,
    {
        &self.batches
    }

    /// The mesh that holds what the last frame staged.
    pub fn mesh(&self) -> (mesh: &Mesh)
        ensures
            mesh@ == self@.staged,
    {
        &self.mesh
    }
    /// Adds a fan of `steps` triangles around `center` to the current run.
    /// Triangle `k` spans the rim points `rim(k)` and `rim(k + 1)` and the
    /// centre, so `rim` is asked for the points 0 to `steps`, each once and in
    /// this order. With no steps nothing is added and `rim` is not asked.
    ///
    /// Fails, and changes nothing, if the vertices or indices of all
    /// triangles do not fit.
    pub fn circle<R: Fn(u32) -> [u32; 3], P: Fn(Mat4, [u32; 3]) -> [u32; 3]>(
        &mut self,
        center: [u32; 3],
        steps: u32,
        color: [u8; 4],
        rim: &R,
        project: &P,
    ) -> (r: Result<(), BatchError>)
        requires
            old(self).wf(),
            forall|i: u32| rim.requires((i,)),
            forall|p: [u32; 3]| project.requires((old(self)@.transform(), p)),
        ensures
            final(self).wf(),
            steps == 0 ==> r.is_ok() && final(self)@ == old(self)@,
            match r {
                Ok(()) => {
                    let base = old(self)@.vertices.len();
                    let added = final(self)@.vertices.skip(base as int);
                    &&& old(self)@.has_room(3 * steps as nat, 3 * steps as nat)
                    &&& added.len() == 3 * steps
                    &&& forall|k: u32|
                        k < steps ==> is_fan_triangle(
                            rim,
                            project,
                            old(self)@.transform(),
                            center,
                            color,
                            k,
                            #[trigger] fan_part(added, k as int),
                        )
                    &&& final(self)@ == if steps == 0 {
                        old(self)@
                    } else {
                        old(self)@.emit(added, fan_indices(base as u32, steps as nat), steps as nat)
                    }
                },
                Err(e) => {
                    &&& e == BatchError::CapacityExceeded
                    &&& !old(self)@.has_room(3 * steps as nat, 3 * steps as nat)
                    &&& final(self)@ == old(self)@
                },
            },
    {
        if steps == 0 {
            assert(self@.vertices.skip(self@.vertices.len() as int).len() == 0);
            return Ok(());
        }
        if steps > MAX_VERTICES / 3 || !self.has_room(3 * steps, 3 * steps) {
            return Err(BatchError::CapacityExceeded);
        }
        let ghost base = self@.vertices.len() as int;
        let ghost matrix = self@.transform();
        let mut last = rim(0);
        let mut k: u32 = 0;
        while k < steps
            invariant
                k <= steps,
                steps <= MAX_VERTICES / 3,
                self.wf(),
                self@.transform() == matrix,
                matrix == old(self)@.transform(),
                base == old(self)@.vertices.len(),
                rim.ensures((k,), last),
                forall|i: u32| rim.requires((i,)),
                forall|p: [u32; 3]| project.requires((matrix, p)),
                base + 3 * steps <= MAX_VERTICES,
                old(self)@.indices.len() + 3 * steps <= MAX_INDICES,
                self@.vertices.len() == base + 3 * k,
                self@.indices.len() == old(self)@.indices.len() + 3 * k,
                k == 0 ==> self@ == old(self)@,
                k > 0 ==> self@ == old(self)@.emit(
                    self@.vertices.skip(base),
                    fan_indices(base as u32, k as nat),
                    k as nat,
                ),
                forall|j: u32|
                    j < k ==> is_fan_triangle(
                        rim,
                        project,
                        matrix,
                        center,
                        color,
                        j,
                        #[trigger] fan_part(self@.vertices.skip(base), j as int),
                    ),
            decreases steps - k,
        {
            let next = rim(k + 1);
            let ghost before = self@;
            let r = self.triangle(last, next, center, color, project);
            proof {
                assert(r.is_ok());
                let start = base + 3 * k;
                let tail = self@.vertices.skip(start);
                let grown = self@.vertices.skip(base);
                assert(self@ == before.emit(tail, triangle_indices(start as u32), 1));
                assert(before.vertices.skip(base) + tail =~= grown);
                assert(fan_indices(base as u32, k as nat) + triangle_indices(start as u32) =~= fan_indices(
                    base as u32,
                    (k + 1) as nat,
                ));
                if k == 0 {
                    assert(tail =~= grown);
                    assert(triangle_indices(start as u32) =~= fan_indices(base as u32, 1));
                } else {
                    lemma_emit_twice(
                        old(self)@,
                        before.vertices.skip(base),
                        fan_indices(base as u32, k as nat),
                        k as nat,
                        tail,
                        triangle_indices(start as u32),
                        1,
                    );
                }
                assert forall|j: u32| j < k + 1 implies is_fan_triangle(
                    rim,
                    project,
                    matrix,
                    center,
                    color,
                    j,
                    #[trigger] fan_part(grown, j as int),
                ) by {
                    if j < k {
                        assert(fan_part(grown, j as int) =~= fan_part(before.vertices.skip(base), j as int));
                    } else {
                        assert(fan_part(grown, j as int) =~= tail);
                        assert(spans_fan_triangle(rim, project, matrix, center, color, j, tail, last, next));
                    }
                }
            }
            last = next;
            k = k + 1;
        }
        Ok(())
    }

    /// Turns what the batch holds into the commands of one frame that draws
    /// into `target`.
    ///
    /// The copy phase holds one texture copy for each run whose texture has
    /// pixels waiting, in the order of the runs, and then the copies of the
    /// vertex and index lists, which the mesh stages in full. The render
    /// phase clears the target to the colour of its kind, binds the target's
    /// projection, and holds one draw for each run that has a triangle, in
    /// submission order, covering exactly the indices of that run.
    /// Afterwards every texture of a run counts as uploaded.
    pub fn draw_into(&mut self, target: &RenderTarget) -> (frame: Frame)
        requires
            old(self).wf(),
            target.is_bound(),
            target@.projection.is_some(),
        ensures
            final(self).wf(),
            final(self)@ == (BatchView {
                runs: uploaded_runs(old(self)@.runs),
                staged: MeshView { vertices: old(self)@.vertices, indices: old(self)@.indices },
                ..old(self)@
            }),
            frame.copy.texture_copies@ == uploads_of(old(self)@.runs),
            frame.copy.buffer_copies@ == upload_copies(),
            frame.render.target == target.color_target_info_spec(),
            Some(frame.render.projection) == target@.projection,
            frame.render.draws@ == draw_calls(final(self)@.runs),
    {
        let mut copy = CopyPass::new();
        let ghost runs = self@.runs;
        let mut i: usize = 0;
        while i < self.batches.len()
            invariant
                i <= self.batches@.len(),
                self.batches@.len() == runs.len(),
                runs == old(self)@.runs,
                forall|j: int| 0 <= j < i ==> (#[trigger] self.batches@[j])@ == uploaded(runs[j]),
                forall|j: int| i <= j < runs.len() ==> (#[trigger] self.batches@[j])@ == runs[j],
                copy.texture_copies@ == uploads_of(runs.take(i as int)),
                copy.buffer_copies@ == Seq::<crate::graphics::pass::BufferCopy>::empty(),
                self.vertices == old(self).vertices,
                self.indices == old(self).indices,
                self.matrix_stack == old(self).matrix_stack,
                self.material_stack == old(self).material_stack,
                self.default_material == old(self).default_material,
                self.mesh == old(self).mesh,
            decreases self.batches@.len() - i,
        {
            assert(runs.take(i + 1).drop_last() =~= runs.take(i as int));
            let mut run = self.batches[i];
            match run.texture {
                Some(texture) => {
                    let mut texture = texture;
                    texture.upload(&mut copy);
                    run.texture = Some(texture);
                    self.batches.set(i, run);
                },
                None => {},
            }
            i = i + 1;
        }
        assert(runs.take(i as int) =~= runs);
        assert(self@.runs =~= uploaded_runs(runs));
        proof {
            let after = self@;
            assert(after.total_elements() == old(self)@.total_elements());
            assert forall|j: int| 0 <= j < after.runs.len() - 1 implies (#[trigger] after.runs[j + 1]).offset
                == after.runs[j].offset + after.runs[j].elements by {
                assert(runs[j + 1].offset == runs[j].offset + runs[j].elements);
            }
        }
        match self.mesh.set_data(self.vertices.as_slice()) {
            Ok(()) => {},
            Err(_) => {
                assert(false);
            },
        }
        match self.mesh.set_indices(self.indices.as_slice()) {
            Ok(()) => {},
            Err(_) => {
                assert(false);
            },
        }
        self.mesh.upload(&mut copy);
        assert(copy.buffer_copies@ =~= upload_copies());

        let ghost shown = self@.runs;
        let mut draws: Vec<DrawCall> = Vec::new();
        let mut i: usize = 0;
        while i < self.batches.len()
            invariant
                i <= self.batches@.len(),
                self.wf(),
                shown == self@.runs,
                draws@ == draw_calls(shown.take(i as int)),
            decreases self.batches@.len() - i,
        {
            assert(shown.take(i + 1).drop_last() =~= shown.take(i as int));
            let batch = self.batches[i];
            if batch.elements > 0 {
                proof {
                    lemma_run_within(self@, i as int);
                }
                draws.push(
                    DrawCall {
                        material: batch.material,
                        texture: batch.texture,
                        index_count: batch.elements * 3,
                        first_index: batch.offset * 3,
                    },
                );
            }
            i = i + 1;
        }
        assert(shown.take(i as int) =~= shown);
        Frame {
            copy,
            render: RenderPass { target: target.color_target_info(), projection: target.projection(), draws },
        }
    }
}

/// In a well-formed batch every run ends where the next one starts, so it
/// ends within the triangles that the batch holds.
pub proof fn lemma_run_within(view: BatchView, i: int)
    requires
        view.wf(),
        0 <= i < view.runs.len(),
    ensures
        view.runs[i].offset + view.runs[i].elements <= view.total_elements(),
        3 * (view.runs[i].offset + view.runs[i].elements) <= MAX_INDICES,
    decreases view.runs.len() - i,
{
    if i < view.runs.len() - 1 {
        lemma_run_within(view, i + 1);
        assert(view.runs[i + 1].offset == view.runs[i].offset + view.runs[i].elements);
    }
}

} // verus!
