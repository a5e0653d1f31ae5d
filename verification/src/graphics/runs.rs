//! What holds of the runs and of the matrix stack over whole sequences of
//! calls.

use vstd::prelude::*;
use crate::graphics::batch::{count_nonempty, draw_call, draw_calls, uploaded_runs, BatchView, Run};
use crate::graphics::pass::DrawCall;
use crate::graphics::material::Material;
use crate::graphics::texture::Texture;
use crate::graphics::{Mat4, Vertex};

verus! {

/// A draw call as the runs see it: the geometry it adds, and the texture it
/// binds if it has one.
pub enum Draw {
    /// Geometry filled with its colour: a triangle, a quad, a fan.
    Plain { vertices: Seq<Vertex>, indices: Seq<u32>, elements: nat },
    /// Geometry that shows a texture or a region of one.
    Textured { texture: Texture, vertices: Seq<Vertex>, indices: Seq<u32>, elements: nat },
}

impl Draw {
    /// Number of triangles that the call adds.
    pub open spec fn elements(self) -> nat {
        match self {
            Draw::Plain { elements, .. } => elements,
            Draw::Textured { elements, .. } => elements,
        }
    }
}

impl BatchView {
    /// The batch after one draw call.
    pub open spec fn draw(self, call: Draw) -> BatchView {
        match call {
            Draw::Plain { vertices, indices, elements } => self.emit(vertices, indices, elements),
            Draw::Textured { texture, vertices, indices, elements } => self.bind_texture(texture).emit(
                vertices,
                indices,
                elements,
            ),
        }
    }

    /// The batch after the draw calls `calls`, first to last.
    pub open spec fn draw_all(self, calls: Seq<Draw>) -> BatchView
        decreases calls.len(),
    {
        if calls.len() == 0 {
            self
        } else {
            self.draw_all(calls.drop_last()).draw(calls.last())
        }
    }
}

/// Where every run holds a triangle, every run counts.
pub proof fn lemma_count_all(runs: Seq<Run>)
    requires
        forall|i: int| 0 <= i < runs.len() ==> (#[trigger] runs[i]).elements > 0,
    ensures
        count_nonempty(runs) == runs.len(),
    decreases runs.len(),
{
    if runs.len() > 0 {
        lemma_count_all(runs.drop_last());
    }
}

proof fn lemma_same_state_invariant(default_material: Material, texture: Texture, calls: Seq<Draw>)
    requires
        calls.len() > 0,
        forall|i: int| 0 <= i < calls.len() ==> (#[trigger] calls[i]).elements() > 0,
        forall|i: int|
            0 <= i < calls.len() ==> ((#[trigger] calls[i]) matches Draw::Textured { texture: bound, .. }
                ==> bound.id == texture.id),
    ensures
        ({
            let end = BatchView::empty(default_material).draw_all(calls);
            &&& end.runs.len() == 1
            &&& end.runs[0].elements > 0
            &&& end.runs[0].material == default_material
            &&& end.runs[0].texture matches Some(bound) ==> bound.id == texture.id
        }),
    decreases calls.len(),
{
    let start = BatchView::empty(default_material);
    let before = start.draw_all(calls.drop_last());
    let call = calls.last();
    assert(call.elements() > 0);
    if calls.len() == 1 {
        assert(calls.drop_last().len() == 0);
        assert(before == start);
    } else {
        let earlier = calls.drop_last();
        assert forall|i: int| 0 <= i < earlier.len() implies (#[trigger] earlier[i]).elements() > 0 by {
            assert(earlier[i] == calls[i]);
        }
        assert forall|i: int| 0 <= i < earlier.len() implies ((#[trigger] earlier[i]) matches Draw::Textured {
            texture: bound,
            ..
        } ==> bound.id == texture.id) by {
            assert(earlier[i] == calls[i]);
        }
        lemma_same_state_invariant(default_material, texture, earlier);
    }
}

/// A run is closed only when the state changes under it: after any number
/// of draw calls, one at least, that bind no texture or always the same one,
/// and with no change of material, the batch holds exactly one run that
/// counts.
pub proof fn lemma_same_state_one_run(default_material: Material, texture: Texture, calls: Seq<Draw>)
    requires
        calls.len() > 0,
        forall|i: int| 0 <= i < calls.len() ==> (#[trigger] calls[i]).elements() > 0,
        forall|i: int|
            0 <= i < calls.len() ==> ((#[trigger] calls[i]) matches Draw::Textured { texture: bound, .. }
                ==> bound.id == texture.id),
    ensures
        BatchView::empty(default_material).draw_all(calls).run_count() == 1,
{
    lemma_same_state_invariant(default_material, texture, calls);
    let end = BatchView::empty(default_material).draw_all(calls);
    lemma_count_all(end.runs);
}

/// The texture that a draw call binds.
pub open spec fn texture_of(call: Draw) -> Texture
    recommends
        call is Textured,
{
    call->Textured_texture
}

proof fn lemma_texture_changes_invariant(default_material: Material, calls: Seq<Draw>)
    requires
        calls.len() > 0,
        forall|i: int| 0 <= i < calls.len() ==> (#[trigger] calls[i]) is Textured && calls[i].elements() > 0,
        forall|i: int| 0 < i < calls.len() ==> texture_of(#[trigger] calls[i]).id != texture_of(calls[i - 1]).id,
    ensures
        ({
            let end = BatchView::empty(default_material).draw_all(calls);
            &&& end.runs.len() == calls.len()
            &&& forall|i: int| 0 <= i < end.runs.len() ==> (#[trigger] end.runs[i]).elements > 0
            &&& forall|i: int|
                0 <= i < end.runs.len() ==> (#[trigger] end.runs[i]).texture == Some(texture_of(calls[i]))
        }),
    decreases calls.len(),
{
    let start = BatchView::empty(default_material);
    let before = start.draw_all(calls.drop_last());
    let call = calls.last();
    assert(call is Textured && call.elements() > 0);
    let end = before.draw(call);
    if calls.len() == 1 {
        assert(calls.drop_last().len() == 0);
        assert(before == start);
    } else {
        let earlier = calls.drop_last();
        assert forall|i: int| 0 <= i < earlier.len() implies (#[trigger] earlier[i]) is Textured
            && earlier[i].elements() > 0 by {
            assert(earlier[i] == calls[i]);
        }
        assert forall|i: int| 0 < i < earlier.len() implies texture_of(#[trigger] earlier[i]).id != texture_of(
            earlier[i - 1],
        ).id by {
            assert(earlier[i] == calls[i]);
            assert(earlier[i - 1] == calls[i - 1]);
        }
        lemma_texture_changes_invariant(default_material, earlier);
        let n = earlier.len() as int;
        assert(before.runs[n - 1].texture == Some(texture_of(calls[n - 1])));
        assert(texture_of(calls[n]).id != texture_of(calls[n - 1]).id);
        assert(end.runs.len() == n + 1);
        assert forall|i: int| 0 <= i < end.runs.len() implies (#[trigger] end.runs[i]).elements > 0
            && end.runs[i].texture == Some(texture_of(calls[i])) by {
            if i < n {
                assert(end.runs[i] == before.runs[i]);
            }
        }
    }
}

/// Every change of texture opens a run, and nothing else does: after draw
/// calls that each bind another texture than the call before, the batch
/// holds as many runs that count as there were calls, and run `i` is bound
/// to the texture of call `i`.
pub proof fn lemma_texture_change_opens_run(default_material: Material, calls: Seq<Draw>)
    requires
        calls.len() > 0,
        forall|i: int| 0 <= i < calls.len() ==> (#[trigger] calls[i]) is Textured && calls[i].elements() > 0,
        forall|i: int| 0 < i < calls.len() ==> texture_of(#[trigger] calls[i]).id != texture_of(calls[i - 1]).id,
    ensures
        BatchView::empty(default_material).draw_all(calls).run_count() == calls.len(),
        BatchView::empty(default_material).draw_all(calls).runs.len() == calls.len(),
        forall|i: int|
            0 <= i < calls.len() ==> (#[trigger] BatchView::empty(default_material).draw_all(calls).runs[i]).texture
                == Some(texture_of(calls[i])),
{
    lemma_texture_changes_invariant(default_material, calls);
    lemma_count_all(BatchView::empty(default_material).draw_all(calls).runs);
}

/// Drawing with two textures in turn gives one run per draw call.
pub proof fn lemma_alternating_textures(default_material: Material, even: Texture, odd: Texture, calls: Seq<Draw>)
    requires
        even.id != odd.id,
        calls.len() > 0,
        forall|i: int| 0 <= i < calls.len() ==> (#[trigger] calls[i]) is Textured && calls[i].elements() > 0,
        forall|i: int|
            0 <= i < calls.len() ==> texture_of(#[trigger] calls[i]) == if i % 2 == 0 {
                even
            } else {
                odd
            },
    ensures
        BatchView::empty(default_material).draw_all(calls).run_count() == calls.len(),
{
    assert forall|i: int| 0 < i < calls.len() implies texture_of(#[trigger] calls[i]).id != texture_of(
        calls[i - 1],
    ).id by {
        assert(texture_of(calls[i - 1]) == if (i - 1) % 2 == 0 {
            even
        } else {
            odd
        });
    }
    lemma_texture_change_opens_run(default_material, calls);
}

/// Runs keep the order of submission. Geometry drawn with the default
/// material, then geometry under another material, then geometry under the
/// default material again comes out as three runs in this order: the third
/// is not merged into the first although their materials are equal.
pub proof fn lemma_material_switch_keeps_order(
    default_material: Material,
    other: Material,
    first: Draw,
    second: Draw,
    third: Draw,
)
    requires
        other != default_material,
        first is Plain,
        second is Plain,
        third is Plain,
        first.elements() > 0,
        second.elements() > 0,
        third.elements() > 0,
    ensures
        ({
            let end = BatchView::empty(default_material).draw(first).push_material(other).draw(
                second,
            ).pop_material().draw(third);
            &&& end.runs == seq![
                Run { offset: 0, elements: first.elements(), material: default_material, texture: None },
                Run {
                    offset: first.elements(),
                    elements: second.elements(),
                    material: other,
                    texture: None,
                },
                Run {
                    offset: first.elements() + second.elements(),
                    elements: third.elements(),
                    material: default_material,
                    texture: None,
                },
            ]
            &&& end.run_count() == 3
            &&& end.materials.len() == 0
            &&& end.vertices == first->Plain_vertices + second->Plain_vertices + third->Plain_vertices
            &&& end.indices == first->Plain_indices + second->Plain_indices + third->Plain_indices
        }),
{
    let s0 = BatchView::empty(default_material);
    let s1 = s0.draw(first);
    assert(s1.runs =~= seq![
        Run { offset: 0, elements: first.elements(), material: default_material, texture: None },
    ]);
    let s2 = s1.push_material(other);
    assert(s2.runs =~= seq![
        Run { offset: 0, elements: first.elements(), material: default_material, texture: None },
        Run { offset: first.elements(), elements: 0, material: other, texture: None },
    ]);
    assert(s2.materials =~= seq![default_material]);
    let s3 = s2.draw(second);
    assert(s3.runs =~= seq![
        Run { offset: 0, elements: first.elements(), material: default_material, texture: None },
        Run { offset: first.elements(), elements: second.elements(), material: other, texture: None },
    ]);
    let s4 = s3.pop_material();
    assert(s4.materials =~= Seq::<Material>::empty());
    assert(s4.runs =~= seq![
        Run { offset: 0, elements: first.elements(), material: default_material, texture: None },
        Run { offset: first.elements(), elements: second.elements(), material: other, texture: None },
        Run {
            offset: first.elements() + second.elements(),
            elements: 0,
            material: default_material,
            texture: None,
        },
    ]);
    let s5 = s4.draw(third);
    let expected = seq![
        Run { offset: 0, elements: first.elements(), material: default_material, texture: None },
        Run { offset: first.elements(), elements: second.elements(), material: other, texture: None },
        Run {
            offset: first.elements() + second.elements(),
            elements: third.elements(),
            material: default_material,
            texture: None,
        },
    ];
    assert(s5.runs =~= expected);
    lemma_count_all(expected);
    assert(s5.vertices =~= first->Plain_vertices + second->Plain_vertices + third->Plain_vertices);
    assert(s5.indices =~= first->Plain_indices + second->Plain_indices + third->Plain_indices);
}

/// A draw call adds to the end and rewrites nothing: the vertices and
/// indices that were there stay where they are, a run that was closed stays
/// as it is, and the run that was current keeps its place, its material and
/// its triangles.
pub proof fn lemma_draw_keeps_earlier_geometry(view: BatchView, call: Draw)
    ensures
        ({
            let next = view.draw(call);
            &&& next.vertices.take(view.vertices.len() as int) == view.vertices
            &&& next.indices.take(view.indices.len() as int) == view.indices
            &&& next.runs.len() >= view.runs.len()
            &&& forall|i: int| 0 <= i < view.runs.len() - 1 ==> next.runs[i] == view.runs[i]
            &&& view.runs.len() > 0 ==> {
                let kept = next.runs[view.runs.len() - 1];
                &&& kept.offset == view.runs.last().offset
                &&& kept.material == view.runs.last().material
                &&& kept.elements >= view.runs.last().elements
            }
        }),
{
    let next = view.draw(call);
    assert(next.vertices.take(view.vertices.len() as int) =~= view.vertices);
    assert(next.indices.take(view.indices.len() as int) =~= view.indices);
}

/// A change of material rewrites nothing either: vertices and indices stay
/// as they are, and so does every run that holds a triangle. Only a run
/// without triangles takes the new material.
pub proof fn lemma_material_keeps_geometry(view: BatchView, material: Material)
    ensures
        ({
            let next = view.bind_material(material);
            &&& next.vertices == view.vertices
            &&& next.indices == view.indices
            &&& next.runs.len() >= view.runs.len()
            &&& forall|i: int|
                0 <= i < view.runs.len() && view.runs[i].elements > 0 && (i < view.runs.len() - 1
                    || view.runs[i].material != material) ==> next.runs[i] == view.runs[i]
            &&& next.current().material == material
            &&& next.current().elements > 0 ==> next.current() == view.current()
        }),
{
}

/// A call on the matrix stack. A push is named by the transform that ends
/// up on top, which is the pushed matrix composed with the top before it.
pub enum MatrixOp {
    Push(Mat4),
    Pop,
}

/// The matrix stack after one call.
pub open spec fn matrix_step(stack: Seq<Mat4>, op: MatrixOp) -> Seq<Mat4> {
    match op {
        MatrixOp::Push(top) => stack.push(top),
        MatrixOp::Pop => if stack.len() == 0 {
            stack
        } else {
            stack.drop_last()
        },
    }
}

/// The matrix stack after the calls `ops`, first to last.
pub open spec fn matrix_steps(stack: Seq<Mat4>, ops: Seq<MatrixOp>) -> Seq<Mat4>
    decreases ops.len(),
{
    if ops.len() == 0 {
        stack
    } else {
        matrix_step(matrix_steps(stack, ops.drop_last()), ops.last())
    }
}

/// Number of pushes less the number of pops.
pub open spec fn depth_change(ops: Seq<MatrixOp>) -> int
    decreases ops.len(),
{
    if ops.len() == 0 {
        0
    } else {
        depth_change(ops.drop_last()) + if ops.last() is Push {
            1int
        } else {
            -1int
        }
    }
}

/// Whether every pop in `ops` has its push before it in `ops`.
pub open spec fn pops_are_matched(ops: Seq<MatrixOp>) -> bool
    decreases ops.len(),
{
    ops.len() == 0 || (pops_are_matched(ops.drop_last()) && depth_change(ops) >= 0)
}

/// Calls whose pops are matched leave what was on the stack before them in
/// place, and change the depth by the pushes less the pops.
pub proof fn lemma_matched_pops_keep_stack(stack: Seq<Mat4>, ops: Seq<MatrixOp>)
    requires
        pops_are_matched(ops),
    ensures
        depth_change(ops) >= 0,
        matrix_steps(stack, ops).len() == stack.len() + depth_change(ops),
        matrix_steps(stack, ops).take(stack.len() as int) == stack,
    decreases ops.len(),
{
    if ops.len() == 0 {
        assert(stack.take(stack.len() as int) =~= stack);
    } else {
        lemma_matched_pops_keep_stack(stack, ops.drop_last());
        let before = matrix_steps(stack, ops.drop_last());
        let after = matrix_steps(stack, ops);
        assert(after == matrix_step(before, ops.last()));
        assert(depth_change(ops) >= 0);
        match ops.last() {
            MatrixOp::Push(top) => {
                assert(after == before.push(top));
                assert(after.take(stack.len() as int) =~= before.take(stack.len() as int));
            },
            MatrixOp::Pop => {
                assert(depth_change(ops.drop_last()) >= 1);
                assert(before.len() >= stack.len() + 1);
                assert(after == before.drop_last());
                assert(after.take(stack.len() as int) =~= before.take(stack.len() as int));
            },
        }
        assert(after.take(stack.len() as int) =~= before.take(stack.len() as int));
    }
}

/// Matched pairs of pushes and pops restore the matrix stack: its depth, and
/// with it every entry, is what it was before.
pub proof fn lemma_matched_pairs_restore_stack(stack: Seq<Mat4>, ops: Seq<MatrixOp>)
    requires
        pops_are_matched(ops),
        depth_change(ops) == 0,
    ensures
        matrix_steps(stack, ops).len() == stack.len(),
        matrix_steps(stack, ops) == stack,
{
    lemma_matched_pops_keep_stack(stack, ops);
    assert(matrix_steps(stack, ops).take(stack.len() as int) =~= matrix_steps(stack, ops));
}

/// Whether `draws` cover the indices before `end` piece by piece: each
/// draw holds an index at least, the first starts at index 0, each next one
/// starts where the one before it ends, and the last ends at `end`.
pub open spec fn draws_tile(draws: Seq<DrawCall>, end: int) -> bool
    decreases draws.len(),
{
    if draws.len() == 0 {
        end == 0
    } else {
        &&& draws.last().index_count > 0
        &&& draws.last().first_index + draws.last().index_count == end
        &&& draws_tile(draws.drop_last(), draws.last().first_index as int)
    }
}

/// Number of triangles in `runs` together.
pub open spec fn elements_of(runs: Seq<Run>) -> nat {
    if runs.len() == 0 {
        0
    } else {
        runs.last().offset + runs.last().elements
    }
}

/// Whether each run of `runs` starts where the run before it ends, the
/// first at 0.
pub open spec fn runs_follow(runs: Seq<Run>) -> bool {
    &&& runs.len() > 0 ==> runs[0].offset == 0
    &&& forall|i: int|
        0 <= i < runs.len() - 1 ==> (#[trigger] runs[i + 1]).offset == runs[i].offset + runs[i].elements
}

proof fn lemma_draws_tile_runs(runs: Seq<Run>)
    requires
        runs_follow(runs),
        3 * elements_of(runs) <= u32::MAX,
    ensures
        draws_tile(draw_calls(runs), 3 * elements_of(runs) as int),
    decreases runs.len(),
{
    if runs.len() > 0 {
        let before = runs.drop_last();
        let last = runs.last();
        assert(runs_follow(before)) by {
            assert forall|i: int| 0 <= i < before.len() - 1 implies (#[trigger] before[i + 1]).offset
                == before[i].offset + before[i].elements by {
                assert(before[i + 1] == runs[i + 1]);
                assert(before[i] == runs[i]);
            }
            if before.len() > 0 {
                assert(before[0] == runs[0]);
            }
        }
        assert(last.offset == elements_of(before)) by {
            if before.len() > 0 {
                let i = runs.len() - 2;
                assert(runs[i + 1].offset == runs[i].offset + runs[i].elements);
                assert(before.last() == runs[i]);
            }
        }
        lemma_draws_tile_runs(before);
        if last.elements > 0 {
            let draws = draw_calls(runs);
            assert(draws == draw_calls(before).push(draw_call(last)));
            assert(draws.drop_last() =~= draw_calls(before));
        }
    }
}

/// The draws of a frame cover the index list exactly and in order: no
/// index is drawn twice, none is left out, and the triangles reach the
/// target in the order in which they were submitted.
pub proof fn lemma_draws_cover_indices(view: BatchView)
    requires
        view.wf(),
    ensures
        draws_tile(draw_calls(view.runs), view.indices.len() as int),
{
    lemma_draws_tile_runs(view.runs);
}

/// Marking the textures of runs as uploaded changes neither where a run
/// starts nor how many triangles it holds, so the draws of a frame cover
/// the same indices before and after the copy phase.
pub proof fn lemma_upload_keeps_ranges(runs: Seq<Run>)
    ensures
        uploaded_runs(runs).len() == runs.len(),
        forall|i: int|
            0 <= i < runs.len() ==> (#[trigger] uploaded_runs(runs)[i]).offset == runs[i].offset
                && uploaded_runs(runs)[i].elements == runs[i].elements && uploaded_runs(runs)[i].material
                == runs[i].material,
{
}

} // verus!
