//! Core logic of a minimal real-time 2D rendering layer.
//!
//! The library verifies the pieces that decide what the GPU is asked to do
//! each frame: the growable instance buffer's capacity policy
//! ([`DynamicStorageBuffer`]), the per-frame stage list ([`RenderController`]),
//! and the exact integer form of the viewport aspect-ratio correction.
//! Device, queue and window plumbing live outside the library and act on the
//! decisions these types return.

use vstd::prelude::*;

pub mod camera;
pub mod dynamic_storage;
pub mod pow2;

pub use camera::aspect_correction;
pub use camera::AspectCorrection;
pub use dynamic_storage::BufferUpdate;
pub use dynamic_storage::DynamicStorageBuffer;

verus! {

/// One draw stage of a frame; the order stages are added is the draw order.
#[derive(Debug, Copy, Clone, Eq, PartialEq, Structural)]
pub enum RenderStage {
    Line,
    RectsAndCircles,
}

/// Mathematical state of a [`RenderController`]: the ordered stage list and
/// the per-kind shape lists gathered so far this frame.
pub struct ControllerView<L, R> {
    pub render_order: Seq<RenderStage>,
    pub lines: Seq<L>,
    pub rects: Seq<R>,
}

/// No stage appears twice in the draw order.
pub open spec fn stage_order_unique(order: Seq<RenderStage>) -> bool {
    forall|i: int, j: int| 0 <= i < j < order.len() ==> order[i] != order[j]
}

/// The draw order after one `try_add_stage` call: unchanged if the stage is
/// already present, extended by it otherwise.
pub open spec fn try_add_stage_spec(order: Seq<RenderStage>, stage: RenderStage) -> Seq<
    RenderStage,
> {
    if order.contains(stage) {
        order
    } else {
        order.push(stage)
    }
}

/// Per-frame list of draw stages and shape records, cleared and refilled
/// every frame. Generic over the two instance record kinds, which are opaque
/// payloads to this type.
pub struct RenderController<L, R> {
    render_order: Vec<RenderStage>,
    lines: Vec<L>,
    rects: Vec<R>,
}

impl<L, R> View for RenderController<L, R> {
    type V = ControllerView<L, R>;

    closed spec fn view(&self) -> ControllerView<L, R> {
        ControllerView { render_order: self.render_order@, lines: self.lines@, rects: self.rects@ }
    }
}

impl<L, R> RenderController<L, R> {
    /// Each stage appears at most once in the draw order.
    pub open spec fn well_formed(&self) -> bool {
        stage_order_unique(self@.render_order)
    }

    pub fn new() -> (c: Self)
        ensures
            c@.render_order =~= Seq::<RenderStage>::empty(),
            c@.lines =~= Seq::<L>::empty(),
            c@.rects =~= Seq::<R>::empty(),
            c.well_formed(),
    {
        RenderController { render_order: Vec::new(), lines: Vec::new(), rects: Vec::new() }
    }

    /// Resets the stage order and all shape lists for the next frame.
    pub fn clear(&mut self)
        ensures
            final(self)@.render_order =~= Seq::<RenderStage>::empty(),
            final(self)@.lines =~= Seq::<L>::empty(),
            final(self)@.rects =~= Seq::<R>::empty(),
            final(self).well_formed(),
    {
        self.render_order.clear();
        self.lines.clear();
        self.rects.clear();
    }

    fn order_contains(&self, stage: RenderStage) -> (found: bool)
        ensures
            found == self@.render_order.contains(stage),
    {
        let mut i: usize = 0;
        while i < self.render_order.len()
            invariant
                i <= self@.render_order.len(),
                forall|j: int| 0 <= j < i ==> self@.render_order[j] != stage,
            decreases self@.render_order.len() - i,
        {
            if self.render_order[i] == stage {
                return true;
            }
            i = i + 1;
        }
        false
    }

    /// Adds a stage to the draw order; the stage must not have been added
    /// this frame.
    pub fn add_stage(&mut self, stage: RenderStage)
        requires
            old(self).well_formed(),
            !old(self)@.render_order.contains(stage),
        ensures
            final(self).well_formed(),
            final(self)@.render_order == old(self)@.render_order.push(stage),
            final(self)@.lines == old(self)@.lines,
            final(self)@.rects == old(self)@.rects,
    {
        self.render_order.push(stage);
        proof {
            lemma_unique_push(old(self)@.render_order, stage);
        }
    }

    /// Adds a stage to the draw order unless it is already there; returns
    /// whether it was added.
    pub fn try_add_stage(&mut self, stage: RenderStage) -> (added: bool)
        requires
            old(self).well_formed(),
        ensures
            final(self).well_formed(),
            added == !old(self)@.render_order.contains(stage),
            final(self)@.render_order == try_add_stage_spec(old(self)@.render_order, stage),
            final(self)@.lines == old(self)@.lines,
            final(self)@.rects == old(self)@.rects,
    {
        if self.order_contains(stage) {
            false
        } else {
            self.add_stage(stage);
            true
        }
    }

    pub fn add_line(&mut self, line: L)
        ensures
            final(self)@.lines == old(self)@.lines.push(line),
            final(self)@.render_order == old(self)@.render_order,
            final(self)@.rects == old(self)@.rects,
    {
        self.lines.push(line);
    }

    pub fn add_rect_or_circle(&mut self, shape: R)
        ensures
            final(self)@.rects == old(self)@.rects.push(shape),
            final(self)@.render_order == old(self)@.render_order,
            final(self)@.lines == old(self)@.lines,
    {
        self.rects.push(shape);
    }

    /// The stages added this frame, in draw order.
    pub fn stages(&self) -> (order: &Vec<RenderStage>)
        ensures
            order@ == self@.render_order,
    {
        &self.render_order
    }

    /// The line records added this frame, in insertion order.
    pub fn lines(&self) -> (lines: &Vec<L>)
        ensures
            lines@ == self@.lines,
    {
        &self.lines
    }

    /// The rectangle and circle records added this frame, in insertion order.
    pub fn rects(&self) -> (rects: &Vec<R>)
        ensures
            rects@ == self@.rects,
    {
        &self.rects
    }
}

impl<L, R> Default for RenderController<L, R> {
    fn default() -> (c: Self)
        ensures
            c@.render_order =~= Seq::<RenderStage>::empty(),
            c@.lines =~= Seq::<L>::empty(),
            c@.rects =~= Seq::<R>::empty(),
            c.well_formed(),
    {
        Self::new()
    }
}

proof fn lemma_unique_push(order: Seq<RenderStage>, stage: RenderStage)
    requires
        stage_order_unique(order),
        !order.contains(stage),
    ensures
        stage_order_unique(order.push(stage)),
{
    let pushed = order.push(stage);
    assert forall|i: int, j: int| 0 <= i < j < pushed.len() implies pushed[i] != pushed[j] by {
        if j < order.len() {
            assert(order[i] != order[j]);
        } else {
            assert(pushed[j] == stage);
            assert(order[i] != stage);
        }
    }
}

/// Stage dedup law: adding a stage a second time is rejected; the draw order
/// already contains it and does not change.
pub proof fn lemma_stage_dedup(order: Seq<RenderStage>, stage: RenderStage)
    ensures
        ({
            let once = try_add_stage_spec(order, stage);
            &&& once.contains(stage)
            &&& try_add_stage_spec(once, stage) == once
        }),
{
    let once = try_add_stage_spec(order, stage);
    if !order.contains(stage) {
        assert(once[order.len() as int] == stage);
    }
}

} // verus!
