//! Model of the GPU objects the compositor owns, and the command log an
//! embedder replays onto the real graphics context.
//!
//! The compositor's correctness burden towards the GPU is bookkeeping:
//! every framebuffer, depth renderbuffer and target texture it creates is
//! destroyed exactly once, never twice and never while something still
//! refers to it. `GpuModel` is the object table that carries the proof:
//! creation appends to an allocation list, destruction appends the id to a
//! tombstone list (destroying requires the id to be live, which is what
//! rules out a double free), and an id is *live* when it was allocated and
//! has no tombstone. Ids are handed out by a counter, so they are unique.
//!
//! Every operation also appends a [`GpuCall`] to `calls`. That log is the
//! compositor's output towards the real GPU: an embedder replays it, call
//! by call, onto its graphics context, mapping model ids to driver ids.
//! The one input coming back from the GPU — the framebuffer completeness
//! status — is modeled by the `completeness` field, which the embedder (or
//! a test) sets to whatever the driver reported.

use vstd::prelude::*;

verus! {

broadcast use vstd::seq_lib::group_seq_properties;

/// The completeness status a healthy driver reports for a framebuffer
/// whose attachments are all valid and renderable.
pub const FRAMEBUFFER_COMPLETE: u32 = 0x8CD5;

/// One GPU operation, as the embedder must replay it. Ids are the model's;
/// the embedder keeps its own map from model id to driver object.
#[derive(Clone, Copy, Debug, PartialEq, Eq, Structural)]
pub enum GpuCall {
    /// Allocate a 2D RGBA texture of the given size.
    CreateTexture { id: u32, width: u32, height: u32 },
    /// Allocate a framebuffer object.
    CreateFramebuffer { id: u32 },
    /// Allocate a depth renderbuffer with storage of the given size.
    CreateDepthRenderbuffer { id: u32, width: u32, height: u32 },
    DeleteTexture { id: u32 },
    DeleteFramebuffer { id: u32 },
    DeleteRenderbuffer { id: u32 },
    /// Bind a texture as the active 2D target.
    BindTexture { id: u32 },
    /// Bind a framebuffer; id 0 stands for the default back buffer.
    BindFramebuffer { id: u32 },
    /// Attach a texture as the color attachment of a framebuffer.
    AttachTexture { framebuffer: u32, texture: u32 },
    /// Attach a renderbuffer as the depth attachment of a framebuffer.
    AttachDepthRenderbuffer { framebuffer: u32, renderbuffer: u32 },
    /// Query framebuffer completeness; `status` is what the driver answered.
    CheckStatus { framebuffer: u32, status: u32 },
    /// Select the color draw buffer, disable face culling, depth test LESS.
    ConfigureDrawState,
}

/// Why a framebuffer setup failed.
#[derive(Clone, Copy, Debug, PartialEq, Eq, Structural)]
pub enum GpuStatus {
    /// The driver reported this (non-complete) status for the framebuffer.
    Incomplete(u32),
    /// A lock guarding the shared surface state could not be acquired.
    LockFailure,
}

/// Mathematical image of [`GpuModel`].
pub ghost struct GpuView {
    pub next_id: u32,
    pub textures: Seq<(u32, u32, u32)>,
    pub framebuffers: Seq<u32>,
    pub renderbuffers: Seq<(u32, u32, u32)>,
    pub dead_textures: Seq<u32>,
    pub dead_framebuffers: Seq<u32>,
    pub dead_renderbuffers: Seq<u32>,
    pub bound_framebuffer: u32,
    pub bound_texture: u32,
    pub completeness: u32,
    pub calls: Seq<GpuCall>,
}

/// The GPU object table. Allocation lists keep every object ever created,
/// `(id, width, height)` for sized ones; the `dead_*` lists hold the ids
/// destroyed since. An id is live when it is allocated and not dead.
pub struct GpuModel {
    /// The id the next allocation returns; ids 1, 2, ... are unique, 0 is
    /// reserved for the default framebuffer.
    pub next_id: u32,
    /// Every texture ever created: `(id, width, height)`.
    pub textures: Vec<(u32, u32, u32)>,
    /// Every framebuffer ever created.
    pub framebuffers: Vec<u32>,
    /// Every depth renderbuffer ever created: `(id, width, height)`.
    pub renderbuffers: Vec<(u32, u32, u32)>,
    /// Texture ids destroyed since, each exactly once.
    pub dead_textures: Vec<u32>,
    /// Framebuffer ids destroyed since, each exactly once.
    pub dead_framebuffers: Vec<u32>,
    /// Renderbuffer ids destroyed since, each exactly once.
    pub dead_renderbuffers: Vec<u32>,
    /// The currently bound framebuffer; 0 is the default back buffer.
    pub bound_framebuffer: u32,
    /// The currently bound 2D texture; 0 when none was bound yet.
    pub bound_texture: u32,
    /// The completeness status the driver reports for a framebuffer query.
    pub completeness: u32,
    /// Everything done so far, for the embedder to replay.
    pub calls: Vec<GpuCall>,
}

impl View for GpuModel {
    type V = GpuView;

    open spec fn view(&self) -> GpuView {
        GpuView {
            next_id: self.next_id,
            textures: self.textures@,
            framebuffers: self.framebuffers@,
            renderbuffers: self.renderbuffers@,
            dead_textures: self.dead_textures@,
            dead_framebuffers: self.dead_framebuffers@,
            dead_renderbuffers: self.dead_renderbuffers@,
            bound_framebuffer: self.bound_framebuffer,
            bound_texture: self.bound_texture,
            completeness: self.completeness,
            calls: self.calls@,
        }
    }
}

impl GpuView {
    /// The ids of all textures ever created.
    pub open spec fn texture_ids(self) -> Seq<u32> {
        self.textures.map_values(|t: (u32, u32, u32)| t.0)
    }

    /// The ids of all renderbuffers ever created.
    pub open spec fn renderbuffer_ids(self) -> Seq<u32> {
        self.renderbuffers.map_values(|t: (u32, u32, u32)| t.0)
    }

    /// The texture exists and was not destroyed.
    pub open spec fn tex_live(self, id: u32) -> bool {
        self.texture_ids().contains(id) && !self.dead_textures.contains(id)
    }

    /// The framebuffer exists and was not destroyed.
    pub open spec fn fb_live(self, id: u32) -> bool {
        self.framebuffers.contains(id) && !self.dead_framebuffers.contains(id)
    }

    /// The renderbuffer exists and was not destroyed.
    pub open spec fn rb_live(self, id: u32) -> bool {
        self.renderbuffer_ids().contains(id) && !self.dead_renderbuffers.contains(id)
    }

    /// How many framebuffers are currently allocated and not destroyed.
    pub open spec fn live_framebuffer_count(self) -> int {
        self.framebuffers.len() - self.dead_framebuffers.len()
    }

    /// How many renderbuffers are currently allocated and not destroyed.
    pub open spec fn live_renderbuffer_count(self) -> int {
        self.renderbuffers.len() - self.dead_renderbuffers.len()
    }

    /// Well-formedness of the object table: ids are positive, below the
    /// counter and unique per kind, and tombstones name allocated ids,
    /// each at most once.
    pub open spec fn wf(self) -> bool {
        &&& self.next_id >= 1
        &&& forall|i: int|
            0 <= i < self.textures.len() ==> 0 < #[trigger] self.textures[i].0 < self.next_id
        &&& forall|i: int|
            0 <= i < self.framebuffers.len() ==> 0 < #[trigger] self.framebuffers[i]
                < self.next_id
        &&& forall|i: int|
            0 <= i < self.renderbuffers.len() ==> 0 < #[trigger] self.renderbuffers[i].0
                < self.next_id
        &&& self.texture_ids().no_duplicates()
        &&& self.framebuffers.no_duplicates()
        &&& self.renderbuffer_ids().no_duplicates()
        &&& self.dead_textures.no_duplicates()
        &&& self.dead_framebuffers.no_duplicates()
        &&& self.dead_renderbuffers.no_duplicates()
        &&& forall|i: int|
            0 <= i < self.dead_textures.len() ==> self.texture_ids().contains(
                #[trigger] self.dead_textures[i],
            )
        &&& forall|i: int|
            0 <= i < self.dead_framebuffers.len() ==> self.framebuffers.contains(
                #[trigger] self.dead_framebuffers[i],
            )
        &&& forall|i: int|
            0 <= i < self.dead_renderbuffers.len() ==> self.renderbuffer_ids().contains(
                #[trigger] self.dead_renderbuffers[i],
            )
    }
}

/// Effect of [`GpuModel::create_texture`]: the new table and the fresh id.
pub open spec fn gv_create_texture(g: GpuView, width: u32, height: u32) -> (GpuView, u32) {
    let id = g.next_id;
    (
        GpuView {
            next_id: (g.next_id + 1) as u32,
            textures: g.textures.push((id, width, height)),
            calls: g.calls.push(GpuCall::CreateTexture { id, width, height }),
            ..g
        },
        id,
    )
}

/// Effect of [`GpuModel::create_framebuffer`].
pub open spec fn gv_create_framebuffer(g: GpuView) -> (GpuView, u32) {
    let id = g.next_id;
    (
        GpuView {
            next_id: (g.next_id + 1) as u32,
            framebuffers: g.framebuffers.push(id),
            calls: g.calls.push(GpuCall::CreateFramebuffer { id }),
            ..g
        },
        id,
    )
}

/// Effect of [`GpuModel::create_depth_renderbuffer`].
pub open spec fn gv_create_depth_renderbuffer(g: GpuView, width: u32, height: u32) -> (
    GpuView,
    u32,
) {
    let id = g.next_id;
    (
        GpuView {
            next_id: (g.next_id + 1) as u32,
            renderbuffers: g.renderbuffers.push((id, width, height)),
            calls: g.calls.push(GpuCall::CreateDepthRenderbuffer { id, width, height }),
            ..g
        },
        id,
    )
}

/// Effect of [`GpuModel::delete_texture`].
pub open spec fn gv_delete_texture(g: GpuView, id: u32) -> GpuView {
    GpuView {
        dead_textures: g.dead_textures.push(id),
        bound_texture: if g.bound_texture == id {
            0
        } else {
            g.bound_texture
        },
        calls: g.calls.push(GpuCall::DeleteTexture { id }),
        ..g
    }
}

/// Effect of [`GpuModel::delete_framebuffer`].
pub open spec fn gv_delete_framebuffer(g: GpuView, id: u32) -> GpuView {
    GpuView {
        dead_framebuffers: g.dead_framebuffers.push(id),
        bound_framebuffer: if g.bound_framebuffer == id {
            0
        } else {
            g.bound_framebuffer
        },
        calls: g.calls.push(GpuCall::DeleteFramebuffer { id }),
        ..g
    }
}

/// Effect of [`GpuModel::delete_renderbuffer`].
pub open spec fn gv_delete_renderbuffer(g: GpuView, id: u32) -> GpuView {
    GpuView {
        dead_renderbuffers: g.dead_renderbuffers.push(id),
        calls: g.calls.push(GpuCall::DeleteRenderbuffer { id }),
        ..g
    }
}

/// Effect of [`GpuModel::bind_texture`].
pub open spec fn gv_bind_texture(g: GpuView, id: u32) -> GpuView {
    GpuView { bound_texture: id, calls: g.calls.push(GpuCall::BindTexture { id }), ..g }
}

/// Effect of [`GpuModel::bind_framebuffer`].
pub open spec fn gv_bind_framebuffer(g: GpuView, id: u32) -> GpuView {
    GpuView { bound_framebuffer: id, calls: g.calls.push(GpuCall::BindFramebuffer { id }), ..g }
}

/// Effect of [`GpuModel::attach_texture`].
pub open spec fn gv_attach_texture(g: GpuView, framebuffer: u32, texture: u32) -> GpuView {
    GpuView { calls: g.calls.push(GpuCall::AttachTexture { framebuffer, texture }), ..g }
}

/// Effect of [`GpuModel::attach_depth_renderbuffer`].
pub open spec fn gv_attach_depth_renderbuffer(g: GpuView, framebuffer: u32, renderbuffer: u32) -> GpuView {
    GpuView {
        calls: g.calls.push(GpuCall::AttachDepthRenderbuffer { framebuffer, renderbuffer }),
        ..g
    }
}

/// Effect of [`GpuModel::check_status`]: the new table and the status.
pub open spec fn gv_check_status(g: GpuView, framebuffer: u32) -> (GpuView, u32) {
    (
        GpuView {
            calls: g.calls.push(
                GpuCall::CheckStatus { framebuffer, status: g.completeness },
            ),
            ..g
        },
        g.completeness,
    )
}

/// Effect of [`GpuModel::configure_draw_state`].
pub open spec fn gv_configure_draw_state(g: GpuView) -> GpuView {
    GpuView { calls: g.calls.push(GpuCall::ConfigureDrawState), ..g }
}

impl GpuModel {
    /// An empty object table over a healthy driver: queries report
    /// completeness until [`GpuModel::set_completeness`] says otherwise.
    pub fn new() -> (g: Self)
        ensures
            g@ == (GpuView {
                next_id: 1u32,
                textures: Seq::<(u32, u32, u32)>::empty(),
                framebuffers: Seq::<u32>::empty(),
                renderbuffers: Seq::<(u32, u32, u32)>::empty(),
                dead_textures: Seq::<u32>::empty(),
                dead_framebuffers: Seq::<u32>::empty(),
                dead_renderbuffers: Seq::<u32>::empty(),
                bound_framebuffer: 0u32,
                bound_texture: 0u32,
                completeness: FRAMEBUFFER_COMPLETE,
                calls: Seq::<GpuCall>::empty(),
            }),
            g@.wf(),
    {
        GpuModel {
            next_id: 1,
            textures: Vec::new(),
            framebuffers: Vec::new(),
            renderbuffers: Vec::new(),
            dead_textures: Vec::new(),
            dead_framebuffers: Vec::new(),
            dead_renderbuffers: Vec::new(),
            bound_framebuffer: 0,
            bound_texture: 0,
            completeness: FRAMEBUFFER_COMPLETE,
            calls: Vec::new(),
        }
    }

    /// Record the completeness status the driver will report from now on.
    /// This is the one input the GPU feeds back into the model; it is not
    /// itself a call to replay.
    pub fn set_completeness(&mut self, status: u32)
        ensures
            final(self)@ == (GpuView { completeness: status, ..old(self)@ }),
    {
        self.completeness = status;
    }

    /// Allocate a texture of the given size; returns a fresh live id.
    pub fn create_texture(&mut self, width: u32, height: u32) -> (id: u32)
        requires
            old(self)@.wf(),
            old(self)@.next_id < u32::MAX,
        ensures
            final(self)@ == gv_create_texture(old(self)@, width, height).0,
            id == gv_create_texture(old(self)@, width, height).1,
            final(self)@.wf(),
            final(self)@.tex_live(id),
            !old(self)@.tex_live(id),
    {
        let id = self.next_id;
        self.next_id = self.next_id + 1;
        self.textures.push((id, width, height));
        self.calls.push(GpuCall::CreateTexture { id, width, height });
        proof {
            lemma_fresh_id_not_allocated(old(self)@, id);
            assert(final(self)@.texture_ids() =~= old(self)@.texture_ids().push(id));
        }
        id
    }

    /// Allocate a framebuffer object; returns a fresh live id.
    pub fn create_framebuffer(&mut self) -> (id: u32)
        requires
            old(self)@.wf(),
            old(self)@.next_id < u32::MAX,
        ensures
            final(self)@ == gv_create_framebuffer(old(self)@).0,
            id == gv_create_framebuffer(old(self)@).1,
            final(self)@.wf(),
            final(self)@.fb_live(id),
            !old(self)@.fb_live(id),
    {
        let id = self.next_id;
        self.next_id = self.next_id + 1;
        self.framebuffers.push(id);
        self.calls.push(GpuCall::CreateFramebuffer { id });
        proof {
            lemma_fresh_id_not_allocated(old(self)@, id);
        }
        id
    }

    /// Allocate a depth renderbuffer with storage of the given size;
    /// returns a fresh live id.
    pub fn create_depth_renderbuffer(&mut self, width: u32, height: u32) -> (id: u32)
        requires
            old(self)@.wf(),
            old(self)@.next_id < u32::MAX,
        ensures
            final(self)@ == gv_create_depth_renderbuffer(old(self)@, width, height).0,
            id == gv_create_depth_renderbuffer(old(self)@, width, height).1,
            final(self)@.wf(),
            final(self)@.rb_live(id),
            !old(self)@.rb_live(id),
    {
        let id = self.next_id;
        self.next_id = self.next_id + 1;
        self.renderbuffers.push((id, width, height));
        self.calls.push(GpuCall::CreateDepthRenderbuffer { id, width, height });
        proof {
            lemma_fresh_id_not_allocated(old(self)@, id);
            assert(final(self)@.renderbuffer_ids() =~= old(self)@.renderbuffer_ids().push(id));
        }
        id
    }

    /// Destroy a live texture. Destroying requires liveness, so a second
    /// destruction of the same id cannot verify.
    pub fn delete_texture(&mut self, id: u32)
        requires
            old(self)@.wf(),
            old(self)@.tex_live(id),
        ensures
            final(self)@ == gv_delete_texture(old(self)@, id),
            final(self)@.wf(),
            !final(self)@.tex_live(id),
    {
        if self.bound_texture == id {
            self.bound_texture = 0;
        }
        self.dead_textures.push(id);
        self.calls.push(GpuCall::DeleteTexture { id });
    }

    /// Destroy a live framebuffer; if it was bound, the binding reverts to
    /// the default framebuffer, as the driver's does.
    pub fn delete_framebuffer(&mut self, id: u32)
        requires
            old(self)@.wf(),
            old(self)@.fb_live(id),
        ensures
            final(self)@ == gv_delete_framebuffer(old(self)@, id),
            final(self)@.wf(),
            !final(self)@.fb_live(id),
    {
        if self.bound_framebuffer == id {
            self.bound_framebuffer = 0;
        }
        self.dead_framebuffers.push(id);
        self.calls.push(GpuCall::DeleteFramebuffer { id });
    }

    /// Destroy a live renderbuffer.
    pub fn delete_renderbuffer(&mut self, id: u32)
        requires
            old(self)@.wf(),
            old(self)@.rb_live(id),
        ensures
            final(self)@ == gv_delete_renderbuffer(old(self)@, id),
            final(self)@.wf(),
            !final(self)@.rb_live(id),
    {
        self.dead_renderbuffers.push(id);
        self.calls.push(GpuCall::DeleteRenderbuffer { id });
    }

    /// Bind a live texture as the active 2D target.
    pub fn bind_texture(&mut self, id: u32)
        requires
            old(self)@.wf(),
            old(self)@.tex_live(id),
        ensures
            final(self)@ == gv_bind_texture(old(self)@, id),
            final(self)@.wf(),
    {
        self.bound_texture = id;
        self.calls.push(GpuCall::BindTexture { id });
    }

    /// Bind a live framebuffer, or 0 for the default back buffer.
    pub fn bind_framebuffer(&mut self, id: u32)
        requires
            old(self)@.wf(),
            id == 0 || old(self)@.fb_live(id),
        ensures
            final(self)@ == gv_bind_framebuffer(old(self)@, id),
            final(self)@.wf(),
    {
        self.bound_framebuffer = id;
        self.calls.push(GpuCall::BindFramebuffer { id });
    }

    /// Attach a live texture as the color attachment of the bound
    /// framebuffer.
    pub fn attach_texture(&mut self, framebuffer: u32, texture: u32)
        requires
            old(self)@.wf(),
            old(self)@.fb_live(framebuffer),
            old(self)@.tex_live(texture),
            old(self)@.bound_framebuffer == framebuffer,
        ensures
            final(self)@ == gv_attach_texture(old(self)@, framebuffer, texture),
            final(self)@.wf(),
    {
        self.calls.push(GpuCall::AttachTexture { framebuffer, texture });
    }

    /// Attach a live renderbuffer as the depth attachment of the bound
    /// framebuffer.
    pub fn attach_depth_renderbuffer(&mut self, framebuffer: u32, renderbuffer: u32)
        requires
            old(self)@.wf(),
            old(self)@.fb_live(framebuffer),
            old(self)@.rb_live(renderbuffer),
            old(self)@.bound_framebuffer == framebuffer,
        ensures
            final(self)@ == gv_attach_depth_renderbuffer(old(self)@, framebuffer, renderbuffer),
            final(self)@.wf(),
    {
        self.calls.push(GpuCall::AttachDepthRenderbuffer { framebuffer, renderbuffer });
    }

    /// Query completeness of the bound framebuffer; answers whatever the
    /// driver currently reports.
    pub fn check_status(&mut self, framebuffer: u32) -> (status: u32)
        requires
            old(self)@.wf(),
            old(self)@.fb_live(framebuffer),
            old(self)@.bound_framebuffer == framebuffer,
        ensures
            final(self)@ == gv_check_status(old(self)@, framebuffer).0,
            status == gv_check_status(old(self)@, framebuffer).1,
            final(self)@.wf(),
    {
        let status = self.completeness;
        self.calls.push(GpuCall::CheckStatus { framebuffer, status });
        status
    }

    /// Select the color draw buffer and fix the raster state for a
    /// composite into the bound framebuffer.
    pub fn configure_draw_state(&mut self)
        requires
            old(self)@.wf(),
        ensures
            final(self)@ == gv_configure_draw_state(old(self)@),
            final(self)@.wf(),
    {
        self.calls.push(GpuCall::ConfigureDrawState);
    }

    /// Whether this texture id is currently live.
    pub fn texture_is_live(&self, id: u32) -> (r: bool)
        ensures
            r == self@.tex_live(id),
    {
        let allocated = contains_keyed(&self.textures, id);
        let dead = contains_id(&self.dead_textures, id);
        allocated && !dead
    }
}

/// Whether `v` holds `id`.
fn contains_id(v: &Vec<u32>, id: u32) -> (r: bool)
    ensures
        r == v@.contains(id),
{
    let mut i: usize = 0;
    while i < v.len()
        invariant
            i <= v@.len(),
            forall|j: int| 0 <= j < i ==> v@[j] != id,
        decreases v@.len() - i,
    {
        if v[i] == id {
            return true;
        }
        i = i + 1;
    }
    false
}

/// Whether `v` holds an entry keyed by `id`.
fn contains_keyed(v: &Vec<(u32, u32, u32)>, id: u32) -> (r: bool)
    ensures
        r == v@.map_values(|t: (u32, u32, u32)| t.0).contains(id),
{
    let ghost keys = v@.map_values(|t: (u32, u32, u32)| t.0);
    let mut i: usize = 0;
    while i < v.len()
        invariant
            i <= v@.len(),
            keys == v@.map_values(|t: (u32, u32, u32)| t.0),
            forall|j: int| 0 <= j < i ==> keys[j] != id,
        decreases v@.len() - i,
    {
        if v[i].0 == id {
            assert(keys[i as int] == id);
            return true;
        }
        i = i + 1;
    }
    false
}

/// A live id lies below the allocation counter.
pub(crate) proof fn lemma_live_ids_bounded(g: GpuView, id: u32)
    requires
        g.wf(),
        g.tex_live(id) || g.fb_live(id) || g.rb_live(id),
    ensures
        0 < id < g.next_id,
{
    if g.tex_live(id) {
        let i = choose|i: int| 0 <= i < g.texture_ids().len() && g.texture_ids()[i] == id;
        assert(g.textures[i].0 == id);
    }
    if g.rb_live(id) {
        let i = choose|i: int|
            0 <= i < g.renderbuffer_ids().len() && g.renderbuffer_ids()[i] == id;
        assert(g.renderbuffers[i].0 == id);
    }
}

/// An id the counter has not reached yet is not in any allocation list of
/// a well-formed table.
pub(crate) proof fn lemma_fresh_id_not_allocated(g: GpuView, id: u32)
    requires
        g.wf(),
        id >= g.next_id,
    ensures
        !g.texture_ids().contains(id),
        !g.framebuffers.contains(id),
        !g.renderbuffer_ids().contains(id),
        !g.tex_live(id),
        !g.fb_live(id),
        !g.rb_live(id),
{
    assert forall|i: int| 0 <= i < g.texture_ids().len() implies g.texture_ids()[i] != id by {
        assert(g.texture_ids()[i] == g.textures[i].0);
    }
    assert forall|i: int| 0 <= i < g.renderbuffer_ids().len() implies g.renderbuffer_ids()[i]
        != id by {
        assert(g.renderbuffer_ids()[i] == g.renderbuffers[i].0);
    }
}

} // verus!
