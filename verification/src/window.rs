//! Shared surface state and the framebuffer lifecycle.
//!
//! `ServoWindow` is the narrow state cell shared between the driver tick
//! and the engine's composite callbacks: the surface dimensions, the target
//! texture binding and the framebuffer/depth-buffer pair. In the embedder
//! each of the three groups sits behind its own mutual-exclusion lock; a
//! panic on another thread while such a lock is held poisons it. The model
//! carries one `*_poisoned` flag per lock, set by the embedder when it
//! observes a poisoned lock. Reads recover the last-good value — a visual
//! glitch is acceptable, a crash is not — while writes behind a poisoned
//! lock are dropped, exactly as the contracts state.
//!
//! `setup_framebuffer` follows a strict teardown-before-create order, so a
//! rapid resize sequence can never hold two generations of GPU objects at
//! once, and commits the new pair only when the driver reports the
//! framebuffer complete.

use vstd::prelude::*;

use crate::gpu::FRAMEBUFFER_COMPLETE;
use crate::gpu::GpuModel;
use crate::gpu::GpuStatus;
use crate::gpu::GpuView;
use crate::gpu::gv_attach_depth_renderbuffer;
use crate::gpu::gv_attach_texture;
use crate::gpu::gv_bind_framebuffer;
use crate::gpu::gv_bind_texture;
use crate::gpu::gv_check_status;
use crate::gpu::gv_configure_draw_state;
use crate::gpu::gv_create_depth_renderbuffer;
use crate::gpu::gv_create_framebuffer;
use crate::gpu::gv_delete_framebuffer;
use crate::gpu::gv_delete_renderbuffer;
use crate::gpu::gv_delete_texture;
use crate::gpu::lemma_fresh_id_not_allocated;

verus! {

broadcast use vstd::seq_lib::group_seq_properties, vstd::prelude::Seq::lemma_push_map_commute;

/// The embedder coordinates the engine asks the window adapter for. All
/// rectangles coincide with the surface itself: the surface is the
/// engine's whole world, at scale one, with its origin in the corner.
#[derive(Clone, Copy, Debug, PartialEq, Eq)]
pub struct Coordinates {
    pub viewport_origin: (u32, u32),
    pub viewport_size: (u32, u32),
    pub framebuffer: (u32, u32),
    pub screen: (u32, u32),
    pub screen_avail: (u32, u32),
    pub window_size: (u32, u32),
    pub window_origin: (u32, u32),
}

/// The state cell one surface shares between the driver tick and the
/// engine's composite callbacks.
#[derive(Clone, Copy, Debug, PartialEq, Eq)]
pub struct ServoWindow {
    /// Current surface dimensions, always positive.
    pub dimensions: (u32, u32),
    /// The dimensions lock was observed poisoned.
    pub dimensions_poisoned: bool,
    /// The texture currently designated as the render target.
    pub target_texture: Option<u32>,
    /// The target-binding lock was observed poisoned.
    pub target_poisoned: bool,
    /// The committed framebuffer/depth-renderbuffer pair.
    pub buffers: Option<(u32, u32)>,
    /// The buffer-pair lock was observed poisoned.
    pub buffers_poisoned: bool,
}

impl ServoWindow {
    /// Dimensions a framebuffer allocation can use.
    pub open spec fn wf(self) -> bool {
        self.dimensions.0 > 0 && self.dimensions.1 > 0
    }

    /// Every GPU object the cell refers to is live in the object table.
    /// This is what makes the teardown step of `setup_framebuffer` free of
    /// double destruction.
    pub open spec fn resources_live(self, g: GpuView) -> bool {
        &&& (self.buffers matches Some(pair) ==> g.fb_live(pair.0) && g.rb_live(pair.1))
        &&& (self.target_texture matches Some(t) ==> g.tex_live(t))
    }

    /// A fresh cell: no target, no buffers, healthy locks, and the
    /// dimensions a newly embedded surface starts with.
    pub fn new(width: u32, height: u32) -> (w: Self)
        requires
            width > 0,
            height > 0,
        ensures
            w == (ServoWindow {
                dimensions: (width, height),
                dimensions_poisoned: false,
                target_texture: None,
                target_poisoned: false,
                buffers: None,
                buffers_poisoned: false,
            }),
    {
        ServoWindow {
            dimensions: (width, height),
            dimensions_poisoned: false,
            target_texture: None,
            target_poisoned: false,
            buffers: None,
            buffers_poisoned: false,
        }
    }

    /// Current dimensions. Poison-tolerant: even after a poison event the
    /// last successfully written value is returned, never a crash.
    pub fn get_dimensions(&self) -> (r: (u32, u32))
        ensures
            r == self.dimensions,
    {
        self.dimensions
    }

    /// Record new dimensions. A write behind a poisoned lock is dropped:
    /// the cell keeps the last-good value.
    pub fn set_dimensions(&mut self, width: u32, height: u32)
        requires
            width > 0,
            height > 0,
        ensures
            *final(self) == (ServoWindow {
                dimensions: if old(self).dimensions_poisoned {
                    old(self).dimensions
                } else {
                    (width, height)
                },
                ..*old(self)
            }),
    {
        if !self.dimensions_poisoned {
            self.dimensions = (width, height);
        }
    }

    /// Designate a texture as the surface's render target. A write behind
    /// a poisoned lock is dropped.
    pub fn set_target(&mut self, texture: u32)
        ensures
            *final(self) == (ServoWindow {
                target_texture: if old(self).target_poisoned {
                    old(self).target_texture
                } else {
                    Some(texture)
                },
                ..*old(self)
            }),
    {
        if !self.target_poisoned {
            self.target_texture = Some(texture);
        }
    }

    /// Clear the target binding; fails exactly when the target lock is
    /// poisoned, and then changes nothing.
    pub fn remove_target(&mut self) -> (r: Result<(), String>)
        ensures
            r is Ok <==> !old(self).target_poisoned,
            r is Ok ==> *final(self) == (ServoWindow { target_texture: None, ..*old(self) }),
            r is Err ==> *final(self) == *old(self),
    {
        if self.target_poisoned {
            Err("target texture lock poisoned".to_owned())
        } else {
            self.target_texture = None;
            Ok(())
        }
    }

    /// Whether a render target is currently designated; fails exactly when
    /// the target lock is poisoned.
    pub fn has_target(&self) -> (r: Result<bool, String>)
        ensures
            r is Ok <==> !self.target_poisoned,
            r is Ok ==> r == Ok::<bool, String>(self.target_texture is Some),
    {
        if self.target_poisoned {
            Err("target texture lock poisoned".to_owned())
        } else {
            Ok(self.target_texture.is_some())
        }
    }

    /// The designated render target. Poison-tolerant read of the
    /// last-good value.
    pub fn get_target(&self) -> (r: Option<u32>)
        ensures
            r == self.target_texture,
    {
        self.target_texture
    }

    /// The embedder observed the dimensions lock poisoned.
    pub fn mark_dimensions_poisoned(&mut self)
        ensures
            *final(self) == (ServoWindow { dimensions_poisoned: true, ..*old(self) }),
    {
        self.dimensions_poisoned = true;
    }

    /// The embedder observed the target-binding lock poisoned.
    pub fn mark_target_poisoned(&mut self)
        ensures
            *final(self) == (ServoWindow { target_poisoned: true, ..*old(self) }),
    {
        self.target_poisoned = true;
    }

    /// The embedder observed the buffer-pair lock poisoned.
    pub fn mark_buffers_poisoned(&mut self)
        ensures
            *final(self) == (ServoWindow { buffers_poisoned: true, ..*old(self) }),
    {
        self.buffers_poisoned = true;
    }

    /// The coordinates handed to the engine: every rectangle is the
    /// surface itself, read from the current dimensions.
    pub fn get_coordinates(&self) -> (r: Coordinates)
        ensures
            r == (Coordinates {
                viewport_origin: (0u32, 0u32),
                viewport_size: self.dimensions,
                framebuffer: self.dimensions,
                screen: self.dimensions,
                screen_avail: self.dimensions,
                window_size: self.dimensions,
                window_origin: (0u32, 0u32),
            }),
    {
        let d = self.get_dimensions();
        Coordinates {
            viewport_origin: (0, 0),
            viewport_size: d,
            framebuffer: d,
            screen: d,
            screen_avail: d,
            window_size: d,
            window_origin: (0, 0),
        }
    }

    /// Build and commit the framebuffer that renders into `target_texture`,
    /// exactly as [`setup_framebuffer_spec`] states:
    ///
    /// 1. if a pair is committed, destroy it first — and the previously
    ///    bound target texture, unless it is the one being re-bound — so
    ///    the cell never holds two generations of GPU objects;
    /// 2. bind `target_texture` as the active 2D target;
    /// 3. allocate a framebuffer and a depth renderbuffer sized to the
    ///    current dimensions, and attach both;
    /// 4. if the driver reports the framebuffer complete, commit the pair
    ///    and succeed; otherwise destroy the just-allocated objects, clear
    ///    the binding (so the next tick re-binds and retries) and report
    ///    the status.
    ///
    /// A poisoned target or buffer lock fails the call up front with
    /// `LockFailure`, before any GPU object is touched: lock state cannot
    /// change during the call, and failing first never orphans GPU memory.
    pub fn setup_framebuffer(&mut self, gpu: &mut GpuModel, target_texture: u32) -> (r: Result<
        (),
        GpuStatus,
    >)
        requires
            old(self).wf(),
            old(gpu)@.wf(),
            old(self).resources_live(old(gpu)@),
            old(gpu)@.tex_live(target_texture),
            old(gpu)@.next_id <= u32::MAX - 2,
        ensures
            ({
                let step = setup_framebuffer_spec(*old(self), old(gpu)@, target_texture);
                *final(self) == step.0 && final(gpu)@ == step.1 && r == step.2
            }),
            final(self).wf(),
            final(gpu)@.wf(),
            final(self).resources_live(final(gpu)@),
            final(self).dimensions == old(self).dimensions,
            final(gpu)@.completeness == old(gpu)@.completeness,
            r is Ok <==> !old(self).target_poisoned && !old(self).buffers_poisoned && old(gpu)@.completeness == FRAMEBUFFER_COMPLETE,
            final(gpu)@.tex_live(target_texture),
            r is Ok ==> final(self).target_texture == Some(target_texture),
            r is Ok ==> (final(self).buffers matches Some(pair) && final(gpu)@.fb_live(pair.0)
                && final(gpu)@.rb_live(pair.1) && !old(gpu)@.fb_live(pair.0) && !old(gpu)@.rb_live(pair.1) && final(gpu)@.renderbuffers.contains(
                (pair.1, old(self).dimensions.0, old(self).dimensions.1),
            )),
            r is Ok ==> final(gpu)@.live_framebuffer_count() == old(gpu)@.live_framebuffer_count() + (if old(self).buffers is Some {
                0int
            } else {
                1int
            }),
            r is Ok ==> final(gpu)@.live_renderbuffer_count() == old(gpu)@.live_renderbuffer_count() + (if old(self).buffers is Some {
                0int
            } else {
                1int
            }),
            r == Err::<(), GpuStatus>(GpuStatus::LockFailure) ==> *final(self) == *old(self)
                && final(gpu)@ == old(gpu)@,
            (r matches Err(e) && e is Incomplete) ==> final(self).target_texture is None
                && final(self).buffers is None,
    {
        if self.target_poisoned || self.buffers_poisoned {
            return Err(GpuStatus::LockFailure);
        }
        // Teardown of the previous generation.
        if let Some((old_fb, old_rb)) = self.buffers {
            gpu.delete_framebuffer(old_fb);
            gpu.delete_renderbuffer(old_rb);
            self.buffers = None;
            if let Some(old_tex) = self.target_texture {
                if old_tex != target_texture {
                    gpu.delete_texture(old_tex);
                }
            }
        }
        // Bind the new target and build the attachments.
        self.target_texture = Some(target_texture);
        gpu.bind_texture(target_texture);
        let fb = gpu.create_framebuffer();
        gpu.bind_framebuffer(fb);
        gpu.attach_texture(fb, target_texture);
        let (width, height) = self.get_dimensions();
        let rb = gpu.create_depth_renderbuffer(width, height);
        gpu.attach_depth_renderbuffer(fb, rb);
        // Commit only a complete framebuffer.
        let status = gpu.check_status(fb);
        if status == FRAMEBUFFER_COMPLETE {
            self.buffers = Some((fb, rb));
            Ok(())
        } else {
            gpu.delete_framebuffer(fb);
            gpu.delete_renderbuffer(rb);
            self.target_texture = None;
            Err(GpuStatus::Incomplete(status))
        }
    }

    /// Destroy the committed framebuffer/depth-buffer pair and clear the
    /// target binding; the texture itself stays with the host's material.
    /// Fails exactly when a lock guarding the cell is poisoned, and then
    /// changes nothing. Idempotent: with nothing committed it only clears
    /// the binding.
    pub fn teardown(&mut self, gpu: &mut GpuModel) -> (r: Result<(), GpuStatus>)
        requires
            old(gpu)@.wf(),
            old(self).resources_live(old(gpu)@),
        ensures
            r is Ok <==> !old(self).target_poisoned && !old(self).buffers_poisoned,
            r is Err ==> r == Err::<(), GpuStatus>(GpuStatus::LockFailure) && *final(self)
                == *old(self) && final(gpu)@ == old(gpu)@,
            r is Ok ==> *final(self) == (ServoWindow {
                target_texture: None,
                buffers: None,
                ..*old(self)
            }),
            r is Ok ==> final(gpu)@ == (match old(self).buffers {
                Some(pair) => gv_delete_renderbuffer(
                    gv_delete_framebuffer(old(gpu)@, pair.0),
                    pair.1,
                ),
                None => old(gpu)@,
            }),
            final(gpu)@.wf(),
            final(self).resources_live(final(gpu)@),
            r is Ok ==> (old(self).buffers matches Some(pair) ==> !final(gpu)@.fb_live(pair.0)
                && !final(gpu)@.rb_live(pair.1)),
    {
        if self.target_poisoned || self.buffers_poisoned {
            return Err(GpuStatus::LockFailure);
        }
        if let Some((fb, rb)) = self.buffers {
            gpu.delete_framebuffer(fb);
            gpu.delete_renderbuffer(rb);
            self.buffers = None;
        }
        self.target_texture = None;
        Ok(())
    }

    /// Bind the committed framebuffer as the draw target and configure the
    /// draw state; fails — and then touches nothing — exactly when no pair
    /// is committed or the buffer lock is poisoned. A caller must not draw
    /// after a failure.
    pub fn enable_fb(&self, gpu: &mut GpuModel) -> (r: Result<(), ()>)
        requires
            old(gpu)@.wf(),
            self.resources_live(old(gpu)@),
        ensures
            r is Ok <==> (!self.buffers_poisoned && self.buffers is Some),
            ({
                match self.buffers {
                    Some(pair) => if self.buffers_poisoned {
                        final(gpu)@ == old(gpu)@
                    } else {
                        final(gpu)@ == gv_configure_draw_state(
                            gv_bind_framebuffer(old(gpu)@, pair.0),
                        )
                    },
                    None => final(gpu)@ == old(gpu)@,
                }
            }),
            final(gpu)@.wf(),
            r is Ok ==> final(gpu)@.bound_framebuffer == self.buffers->Some_0.0,
    {
        if self.buffers_poisoned {
            return Err(());
        }
        match self.buffers {
            Some((fb, _rb)) => {
                gpu.bind_framebuffer(fb);
                gpu.configure_draw_state();
                Ok(())
            }
            None => Err(()),
        }
    }

    /// Restore the default framebuffer as the draw target. Idempotent.
    pub fn disable_fb(&self, gpu: &mut GpuModel)
        requires
            old(gpu)@.wf(),
        ensures
            final(gpu)@ == gv_bind_framebuffer(old(gpu)@, 0),
            final(gpu)@.wf(),
            final(gpu)@.bound_framebuffer == 0,
    {
        gpu.bind_framebuffer(0);
    }

    /// The engine's prepare-for-composite callback: make the surface's
    /// framebuffer the draw target. Answers whether compositing may
    /// proceed.
    pub fn prepare_for_composite(&self, gpu: &mut GpuModel) -> (r: bool)
        requires
            old(gpu)@.wf(),
            self.resources_live(old(gpu)@),
        ensures
            r <==> (!self.buffers_poisoned && self.buffers is Some),
            final(gpu)@.wf(),
            r ==> final(gpu)@.bound_framebuffer == self.buffers->Some_0.0,
            !r ==> final(gpu)@ == old(gpu)@,
    {
        match self.enable_fb(gpu) {
            Ok(()) => true,
            Err(()) => false,
        }
    }

    /// The engine's present callback: restore the default back buffer, so
    /// the binding is always defined after a composite.
    pub fn present(&self, gpu: &mut GpuModel)
        requires
            old(gpu)@.wf(),
        ensures
            final(gpu)@ == gv_bind_framebuffer(old(gpu)@, 0),
            final(gpu)@.wf(),
    {
        self.disable_fb(gpu);
    }
}

/// Whether the cell refers to this GPU object: as the designated target
/// texture or as part of the committed pair. These are exactly the ids a
/// [`ServoWindow::setup_framebuffer`] teardown may destroy.
pub open spec fn window_owned(w: ServoWindow, id: u32) -> bool {
    ||| w.target_texture == Some(id)
    ||| (w.buffers matches Some(pair) && (pair.0 == id || pair.1 == id))
}

/// A framebuffer setup is local to its surface: it destroys only objects
/// the cell referred to, every other object keeps its liveness, and
/// whatever the new cell refers to is the bound target or freshly
/// allocated.
pub(crate) proof fn lemma_setup_preserves_others(w: ServoWindow, g: GpuView, target: u32)
    requires
        g.wf(),
        w.resources_live(g),
        g.tex_live(target),
        g.next_id <= u32::MAX - 2,
    ensures
        ({
            let step = setup_framebuffer_spec(w, g, target);
            &&& step.1.next_id >= g.next_id
            &&& forall|id: u32|
                #![trigger step.1.tex_live(id)]
                #![trigger step.1.fb_live(id)]
                #![trigger step.1.rb_live(id)]
                id < g.next_id && !window_owned(w, id) && id != target ==> (
                step.1.tex_live(id) == g.tex_live(id) && step.1.fb_live(id)
                    == g.fb_live(id) && step.1.rb_live(id) == g.rb_live(id))
            &&& forall|id: u32| #[trigger]
                window_owned(step.0, id) ==> window_owned(w, id) || id == target || g.next_id
                    <= id
        }),
{
    let step = setup_framebuffer_spec(w, g, target);
    if !w.target_poisoned && !w.buffers_poisoned {
        let torn = setup_teardown_spec(w, g, target);
        assert forall|id: u32|
            #![trigger step.1.tex_live(id)]
            #![trigger step.1.fb_live(id)]
            #![trigger step.1.rb_live(id)]
        id < g.next_id && !window_owned(w, id) && id != target implies (
        step.1.tex_live(id) == g.tex_live(id) && step.1.fb_live(id) == g.fb_live(id)
            && step.1.rb_live(id) == g.rb_live(id)) by {
            lemma_fresh_id_not_allocated(torn.1, torn.1.next_id);
        }
    }
}

/// Running the framebuffer setup twice in succession on the same texture
/// leaves exactly what one run leaves: one live framebuffer/depth-buffer
/// pair for the surface, no leak and no second generation. The first
/// run's pair is destroyed by the second run's teardown — exactly once,
/// since destruction demands liveness — the texture survives both runs,
/// and the live object counts do not grow.
pub proof fn lemma_setup_framebuffer_idempotent(w: ServoWindow, g: GpuView, target: u32)
    requires
        g.wf(),
        w.resources_live(g),
        g.tex_live(target),
        g.next_id <= u32::MAX - 4,
    ensures
        ({
            let first = setup_framebuffer_spec(w, g, target);
            let second = setup_framebuffer_spec(first.0, first.1, target);
            &&& first.2 is Ok ==> second.2 is Ok
            &&& second.1.live_framebuffer_count() == first.1.live_framebuffer_count()
            &&& second.1.live_renderbuffer_count() == first.1.live_renderbuffer_count()
            &&& first.2 is Ok ==> (first.0.buffers matches Some(prev_pair) && !second.1.fb_live(prev_pair.0)
                && !second.1.rb_live(prev_pair.1))
            &&& first.2 is Ok ==> (second.0.buffers matches Some(new_pair) && second.1.fb_live(new_pair.0)
                && second.1.rb_live(new_pair.1))
            &&& second.1.tex_live(target)
        }),
{
    let first = setup_framebuffer_spec(w, g, target);
    if !w.target_poisoned && !w.buffers_poisoned {
        lemma_fresh_id_not_allocated(g, g.next_id);
        lemma_fresh_id_not_allocated(g, (g.next_id + 1) as u32);
        lemma_fresh_id_not_allocated(first.1, first.1.next_id);
        lemma_fresh_id_not_allocated(first.1, (first.1.next_id + 1) as u32);
    }
}

/// Destroy the previous framebuffer generation, if one is committed: the
/// pair itself, and the previously bound target texture unless it is the
/// one being re-bound.
pub open spec fn setup_teardown_spec(w: ServoWindow, g: GpuView, target: u32) -> (
    ServoWindow,
    GpuView,
) {
    match w.buffers {
        Some(pair) => {
            let g1 = gv_delete_renderbuffer(gv_delete_framebuffer(g, pair.0), pair.1);
            let g2 = match w.target_texture {
                Some(t) => if t != target {
                    gv_delete_texture(g1, t)
                } else {
                    g1
                },
                None => g1,
            };
            (ServoWindow { buffers: None, ..w }, g2)
        },
        None => (w, g),
    }
}

/// Bind the target, allocate and attach the new framebuffer and depth
/// renderbuffer, and commit the pair exactly when the driver reports the
/// framebuffer complete.
pub open spec fn setup_allocate_spec(w: ServoWindow, g: GpuView, target: u32) -> (
    ServoWindow,
    GpuView,
    Result<(), GpuStatus>,
) {
    let w1 = ServoWindow { target_texture: Some(target), ..w };
    let g1 = gv_bind_texture(g, target);
    let (g2, fb) = gv_create_framebuffer(g1);
    let g3 = gv_bind_framebuffer(g2, fb);
    let g4 = gv_attach_texture(g3, fb, target);
    let (g5, rb) = gv_create_depth_renderbuffer(g4, w1.dimensions.0, w1.dimensions.1);
    let g6 = gv_attach_depth_renderbuffer(g5, fb, rb);
    let (g7, status) = gv_check_status(g6, fb);
    if status == FRAMEBUFFER_COMPLETE {
        (ServoWindow { buffers: Some((fb, rb)), ..w1 }, g7, Ok(()))
    } else {
        let g8 = gv_delete_renderbuffer(gv_delete_framebuffer(g7, fb), rb);
        (
            ServoWindow { target_texture: None, buffers: None, ..w1 },
            g8,
            Err(GpuStatus::Incomplete(status)),
        )
    }
}

/// The whole effect of [`ServoWindow::setup_framebuffer`] on the cell and
/// the object table, and its result.
pub open spec fn setup_framebuffer_spec(w: ServoWindow, g: GpuView, target: u32) -> (
    ServoWindow,
    GpuView,
    Result<(), GpuStatus>,
) {
    if w.target_poisoned || w.buffers_poisoned {
        (w, g, Err(GpuStatus::LockFailure))
    } else {
        let (w1, g1) = setup_teardown_spec(w, g, target);
        setup_allocate_spec(w1, g1, target)
    }
}

} // verus!
