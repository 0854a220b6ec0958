//! The composition root: the entities, the pipelines and the frame logic
//! of one engine.

use vstd::prelude::*;
use crate::draw_objects::{
    entry_call, entry_id, fresh_entry, insertion_point, is_dead, is_drawn, is_used, DrawCall,
    DrawEntry, DrawKind, DrawObjects, RegistryError,
};
use crate::frame::{FrameEnd, FramePhase, FrameScheduler, FrameStep};
use crate::pipelines::{has_name, is_slot_of, PipelineRegistry};
use crate::swapchain::{Extent, SwapchainHandler};
use crate::uniform::{GlobalUniformData, UVec4};

verus! {

/// The name of the pipeline that entities of kind `kind` are drawn with:
/// that of the kind itself.
pub open spec fn spec_pipeline_name(kind: DrawKind) -> Seq<char> {
    match kind {
        DrawKind::Sprite => "Sprite"@,
        DrawKind::Primitive => "Primitive"@,
    }
}

/// The name of the pipeline that entities of kind `kind` are drawn with:
/// "Sprite" for a sprite, "Primitive" for a primitive.
pub fn pipeline_name(kind: DrawKind) -> (name: &'static str)
    ensures
        name@ == spec_pipeline_name(kind),
{
    match kind {
        DrawKind::Sprite => "Sprite",
        DrawKind::Primitive => "Primitive",
    }
}

/// The first half of a frame, before any GPU work.
pub struct FramePlan {
    /// The entities that were reclaimed: their GPU resources are released now.
    pub removed: Vec<u64>,
    /// The entities whose data is written to the GPU, in draw order.
    pub flush: Vec<u64>,
    /// The global data to write to the GPU.
    pub global_data: GlobalUniformData,
    /// What to do next.
    pub step: FrameStep,
}

/// One recorded draw: the entity and the slot of the pipeline it is bound to.
#[derive(Clone, Copy, Debug, PartialEq, Eq, Structural)]
pub struct RecordedDraw {
    pub id: u64,
    pub pipeline: usize,
}

/// The engine's state apart from the GPU objects themselves.
pub struct GraphicsHandler {
    pub draw_objects: DrawObjects,
    pub pipelines: PipelineRegistry,
    pub frame: FrameScheduler,
    /// Whether the window was resized since the last frame began.
    pub window_resized: bool,
}

impl GraphicsHandler {
    /// The engine's invariant: that of its parts, and the two pipelines of
    /// the engine are registered for good.
    pub open spec fn wf(&self) -> bool {
        &&& self.draw_objects.wf()
        &&& self.pipelines.wf()
        &&& self.pipelines.sealed()
        &&& self.frame.wf()
        &&& has_name(self.pipelines@, "Primitive"@)
        &&& has_name(self.pipelines@, "Sprite"@)
    }

    /// The engine at startup, for a window of size `window_size` and a
    /// chain of `image_count` images of size `extent`: no entities, the
    /// pipelines "Primitive" and "Sprite" in the slots 0 and 1 of a sealed
    /// registry, a valid chain and nothing in flight.
    pub fn new(window_size: Extent, extent: Extent, image_count: u32) -> (handler: GraphicsHandler)
        requires
            image_count >= 1,
        ensures
            handler.wf(),
            handler.draw_objects@ == Seq::<DrawEntry>::empty(),
            handler.draw_objects.spec_next_id() == 0,
            handler.pipelines@ == seq!["Primitive"@, "Sprite"@],
            handler.frame == (FrameScheduler {
                swapchain: SwapchainHandler::fresh(extent, image_count),
                previous_frame_end: FrameEnd::Now,
                window_size,
                phase: FramePhase::Idle,
            }),
            !handler.window_resized,
    {
        let mut pipelines = PipelineRegistry::new();
        let _ = pipelines.register("Primitive");
        proof {
            reveal_strlit("Primitive");
            reveal_strlit("Sprite");
            assert("Primitive"@ != "Sprite"@) by {
                assert("Primitive"@.len() != "Sprite"@.len());
            }
            assert(pipelines@[0] == "Primitive"@);
            assert forall|i: int| 0 <= i < pipelines@.len() implies #[trigger] pipelines@[i]
                != "Sprite"@ by {}
        }
        let _ = pipelines.register("Sprite");
        pipelines.seal();
        proof {
            assert(pipelines@ =~= seq!["Primitive"@, "Sprite"@]);
            assert(pipelines@[0] == "Primitive"@);
            assert(pipelines@[1] == "Sprite"@);
        }
        let swapchain = SwapchainHandler::new(extent, image_count);
        GraphicsHandler {
            draw_objects: DrawObjects::new(),
            pipelines,
            frame: FrameScheduler::new(swapchain, window_size),
            window_resized: false,
        }
    }

    /// Notes that the window was resized, or takes the note back. The next
    /// frame resolves it.
    pub fn set_window_resized(&mut self, new_value: bool)
        ensures
            final(self).window_resized == new_value,
            final(self).draw_objects == old(self).draw_objects,
            final(self).pipelines == old(self).pipelines,
            final(self).frame == old(self).frame,
    {
        self.window_resized = new_value;
    }

    /// The image chain's record.
    pub fn get_swapchain(&self) -> (chain: SwapchainHandler)
        ensures
            chain == self.frame.swapchain,
    {
        self.frame.swapchain
    }

    /// The slot of the pipeline registered as `name`. To ask for a name that
    /// was never registered is a mistake of the caller.
    pub fn get_pipeline(&self, name: &str) -> (slot: usize)
        requires
            has_name(self.pipelines@, name@),
        ensures
            is_slot_of(self.pipelines@, name@, slot as int),
    {
        self.pipelines.get_pipeline(name)
    }

    /// The global data as it is written to the GPU at the start of a frame.
    pub fn get_global_uniform_buffer(&self) -> (data: GlobalUniformData)
        ensures
            data.window_size == (UVec4 {
                x: self.frame.window_size.width,
                y: self.frame.window_size.height,
                z: 0,
                w: 0,
            }),
    {
        GlobalUniformData::new(self.frame.window_size)
    }

    /// Creates a sprite with the z-index `z_index` for a texture of the
    /// given size, and returns its id, which stands for one handle on it.
    pub fn new_sprite(&mut self, z_index: u8, image_width: u32, image_height: u32) -> (id: Result<u64, RegistryError>)
        requires
            old(self).wf(),
        ensures
            final(self).wf(),
            final(self).pipelines@ == old(self).pipelines@,
            final(self).frame == old(self).frame,
            final(self).window_resized == old(self).window_resized,
            id.is_err() <==> old(self).draw_objects.spec_next_id() == u64::MAX,
            id.is_err() ==> id == Err::<u64, RegistryError>(RegistryError::IdsExhausted)
                && final(self).draw_objects@ == old(self).draw_objects@
                && final(self).draw_objects.spec_next_id() == old(self).draw_objects.spec_next_id(),
            id.is_ok() ==> id.unwrap() == old(self).draw_objects.spec_next_id()
                && final(self).draw_objects.spec_next_id() == id.unwrap() + 1
                && final(self).draw_objects@ == old(self).draw_objects@.insert(
                insertion_point(old(self).draw_objects@, z_index),
                fresh_entry(id.unwrap(), DrawKind::Sprite, z_index, image_width, image_height),
            ),
    {
        self.draw_objects.create(DrawKind::Sprite, z_index, image_width, image_height)
    }

    /// Creates a rectangle with the z-index `z_index`, and returns its id,
    /// which stands for one handle on it. A rectangle has no texture.
    pub fn new_rectangle(&mut self, z_index: u8) -> (id: Result<u64, RegistryError>)
        requires
            old(self).wf(),
        ensures
            final(self).wf(),
            final(self).pipelines@ == old(self).pipelines@,
            final(self).frame == old(self).frame,
            final(self).window_resized == old(self).window_resized,
            id.is_err() <==> old(self).draw_objects.spec_next_id() == u64::MAX,
            id.is_err() ==> id == Err::<u64, RegistryError>(RegistryError::IdsExhausted)
                && final(self).draw_objects@ == old(self).draw_objects@
                && final(self).draw_objects.spec_next_id() == old(self).draw_objects.spec_next_id(),
            id.is_ok() ==> id.unwrap() == old(self).draw_objects.spec_next_id()
                && final(self).draw_objects.spec_next_id() == id.unwrap() + 1
                && final(self).draw_objects@ == old(self).draw_objects@.insert(
                insertion_point(old(self).draw_objects@, z_index),
                fresh_entry(id.unwrap(), DrawKind::Primitive, z_index, 0, 0),
            ),
    {
        self.draw_objects.create(DrawKind::Primitive, z_index, 0, 0)
    }

    /// Begins a frame, before any GPU work: reclaims the entities that are
    /// no longer alive, lists what is written to the GPU, and resolves a
    /// resize. The global data is the one from before the resize.
    pub fn begin_frame(&mut self, resized: bool, current_size: Extent) -> (plan: FramePlan)
        requires
            old(self).wf(),
            old(self).frame.phase == FramePhase::Idle,
        ensures
            final(self).wf(),
            final(self).pipelines@ == old(self).pipelines@,
            final(self).draw_objects@ == old(self).draw_objects@.filter(is_used()),
            final(self).draw_objects.spec_next_id() == old(self).draw_objects.spec_next_id(),
            final(self).frame == old(self).frame.after_begin(resized, current_size),
            final(self).window_resized == old(self).window_resized,
            plan.removed@ == old(self).draw_objects@.filter(is_dead()).map_values(entry_id()),
            plan.flush@ == final(self).draw_objects@.filter(is_used()).map_values(entry_id()),
            plan.global_data.window_size == (UVec4 {
                x: old(self).frame.window_size.width,
                y: old(self).frame.window_size.height,
                z: 0,
                w: 0,
            }),
            plan.step == old(self).frame.begin_step(resized, current_size),
    {
        let removed = self.draw_objects.reclaim();
        let global_data = self.get_global_uniform_buffer();
        let flush = self.draw_objects.flush_list();
        let step = self.frame.begin(resized, current_size);
        FramePlan { removed, flush, global_data, step }
    }

    /// Begins the frame that follows what happened to the window since the
    /// last one: a resize that was noted is resolved by this frame, and by
    /// this frame only.
    pub fn update(&mut self, current_size: Extent) -> (plan: FramePlan)
        requires
            old(self).wf(),
            old(self).frame.phase == FramePhase::Idle,
        ensures
            final(self).wf(),
            !final(self).window_resized,
            final(self).pipelines@ == old(self).pipelines@,
            final(self).draw_objects@ == old(self).draw_objects@.filter(is_used()),
            final(self).draw_objects.spec_next_id() == old(self).draw_objects.spec_next_id(),
            final(self).frame == old(self).frame.after_begin(old(self).window_resized, current_size),
            plan.removed@ == old(self).draw_objects@.filter(is_dead()).map_values(entry_id()),
            plan.flush@ == final(self).draw_objects@.filter(is_used()).map_values(entry_id()),
            plan.global_data.window_size == (UVec4 {
                x: old(self).frame.window_size.width,
                y: old(self).frame.window_size.height,
                z: 0,
                w: 0,
            }),
            plan.step == old(self).frame.begin_step(old(self).window_resized, current_size),
    {
        let resized = self.window_resized;
        let plan = self.begin_frame(resized, current_size);
        self.window_resized = false;
        plan
    }

    /// The draw pass of a frame: one draw for each entity that is alive and
    /// visible, in draw order, each bound to the pipeline of its kind.
    pub fn record_list(&self) -> (draws: Vec<RecordedDraw>)
        requires
            self.wf(),
        ensures
            draws@.len() == self.draw_objects@.filter(is_drawn()).len(),
            forall|k: int|
                0 <= k < draws@.len() ==> {
                    let e = self.draw_objects@.filter(is_drawn())[k];
                    &&& (#[trigger] draws@[k]).id == e.id
                    &&& is_slot_of(self.pipelines@, spec_pipeline_name(e.kind), draws@[k].pipeline as int)
                },
    {
        let calls: Vec<DrawCall> = self.draw_objects.draw_list();
        let mut draws: Vec<RecordedDraw> = Vec::new();
        let mut k: usize = 0;
        while k < calls.len()
            invariant
                self.wf(),
                k <= calls@.len(),
                calls@ == self.draw_objects@.filter(is_drawn()).map_values(entry_call()),
                draws@.len() == k,
                forall|j: int|
                    0 <= j < k ==> {
                        let e = self.draw_objects@.filter(is_drawn())[j];
                        &&& (#[trigger] draws@[j]).id == e.id
                        &&& is_slot_of(
                            self.pipelines@,
                            spec_pipeline_name(e.kind),
                            draws@[j].pipeline as int,
                        )
                    },
            decreases calls@.len() - k,
        {
            let call = calls[k];
            let pipeline = self.pipelines.get_pipeline(pipeline_name(call.kind));
            draws.push(RecordedDraw { id: call.id, pipeline });
            k += 1;
        }
        draws
    }
}

} // verus!
