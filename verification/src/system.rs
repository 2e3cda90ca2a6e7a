//! The surface driver: the per-tick control loop over all tracked
//! surfaces.
//!
//! Each tick runs, in fixed order so a resize can never race a repaint
//! into stale dimensions:
//!
//! 1. surfaces without a session whose address the engine accepts get one
//!    (irreversible: a session, once created, lives as long as the
//!    surface);
//! 2. surfaces with a dirty size get a texture sized to the new
//!    dimensions, re-bound and committed through the framebuffer setup;
//!    the dirty flag clears only on success, so a failure retries next
//!    tick;
//! 3. surfaces whose target binding is missing re-bind the current
//!    material texture, if it is live;
//! 4. surfaces with a dirty address navigate; the flag clears whatever
//!    the outcome, so a malformed address cannot wedge a surface;
//! 5. the host event batch is drained once: every wake pumps every
//!    session, every input event is forwarded to every session.
//!
//! The whole tick is a function of the starting state, stated by
//! [`tick_spec`] as a left fold of the per-surface steps; `run` is proved
//! to compute exactly that fold. Across the fold the driver maintains
//! exclusive ownership: distinct surfaces never refer to the same GPU
//! object, so one surface's teardown can never destroy another's target.

use vstd::prelude::*;

use crate::gpu::FRAMEBUFFER_COMPLETE;
use crate::gpu::GpuCall;
use crate::gpu::GpuModel;
use crate::gpu::GpuView;
use crate::gpu::gv_create_texture;
use crate::gpu::gv_delete_texture;
use crate::gpu::lemma_fresh_id_not_allocated;
use crate::gpu::lemma_live_ids_bounded;
use crate::handle::CommandView;
use crate::handle::HandleView;
use crate::handle::ServoHandle;
use crate::handle::parse_url_ok;
use crate::handle::url_parses;
use crate::servo_size::ServoSize;
use crate::servo_url::ServoUrl;
use crate::servo_url::UrlView;
use crate::window::ServoWindow;
use crate::window::lemma_setup_preserves_others;
use crate::window::setup_framebuffer_spec;
use crate::window::window_owned;

verus! {

broadcast use vstd::seq_lib::group_seq_properties, vstd::prelude::Seq::lemma_push_map_commute;

/// One event out of the host's window event channel, already translated
/// to plain values. Resize requests do not travel here: they arrive
/// through [`ServoSize`]'s dirty flag.
#[derive(Clone, Copy, Debug, PartialEq, Eq, Structural)]
pub enum HostEvent {
    /// The event loop was woken: let every engine run a scheduling pass.
    Awakened,
    /// A window-level input event, forwarded to every session.
    WindowInput { event: u32 },
    /// Anything else; the driver ignores it.
    Other,
}

/// Mathematical image of [`Surface`].
pub ghost struct SurfaceView {
    pub entity: u64,
    pub url: UrlView,
    pub size: ServoSize,
    pub albedo: u32,
    pub window: ServoWindow,
    pub session: Option<HandleView>,
}

/// One tracked surface: the per-entity record the driver iterates.
pub struct Surface {
    /// The stable identifier the host knows the surface by.
    pub entity: u64,
    /// Pending navigation request.
    pub url: ServoUrl,
    /// Pending resize request.
    pub size: ServoSize,
    /// The texture the surface's material currently samples.
    pub albedo: u32,
    /// The state cell shared with the engine's composite callbacks.
    pub window: ServoWindow,
    /// The engine session, once the first tick has created it.
    pub session: Option<ServoHandle>,
}

impl View for Surface {
    type V = SurfaceView;

    open spec fn view(&self) -> SurfaceView {
        SurfaceView {
            entity: self.entity,
            url: self.url@,
            size: self.size,
            albedo: self.albedo,
            window: self.window,
            session: match self.session {
                Some(h) => Some(h@),
                None => None,
            },
        }
    }
}

impl Surface {
    /// A new surface record: initial address and dimensions as configured
    /// by the host, both requests dirty so the first tick applies them,
    /// no session yet, and `albedo` the texture the host's material
    /// starts with.
    pub fn new(entity: u64, url: String, width: u32, height: u32, albedo: u32) -> (s: Surface)
        requires
            width > 0,
            height > 0,
        ensures
            s@ == (SurfaceView {
                entity,
                url: UrlView { dirty: true, url: url@ },
                size: ServoSize { width, height, dirty: true },
                albedo,
                window: ServoWindow {
                    dimensions: (width, height),
                    dimensions_poisoned: false,
                    target_texture: None,
                    target_poisoned: false,
                    buffers: None,
                    buffers_poisoned: false,
                },
                session: None,
            }),
    {
        Surface {
            entity,
            url: ServoUrl { dirty: true, url },
            size: ServoSize { width, height, dirty: true },
            albedo,
            window: ServoWindow::new(width, height),
            session: None,
        }
    }
}

/// The views of a sequence of surfaces.
pub open spec fn views(ss: Seq<Surface>) -> Seq<SurfaceView> {
    ss.map_values(|s: Surface| s@)
}

/// Whether the surface refers to this GPU object: as its material
/// texture, its target binding or its committed pair.
pub open spec fn surface_owns(s: SurfaceView, id: u32) -> bool {
    id == s.albedo || window_owned(s.window, id)
}

/// A surface the driver can safely tick: positive requested and current
/// dimensions, every referenced GPU object live, and a material texture
/// id the object table has handed out.
pub open spec fn surface_ok(s: SurfaceView, g: GpuView) -> bool {
    &&& s.size.wf()
    &&& s.window.wf()
    &&& s.window.resources_live(g)
    &&& s.albedo < g.next_id
}

/// Every surface is tickable and no two surfaces refer to the same GPU
/// object: the exclusive-ownership discipline that keeps one surface's
/// teardown from destroying another's resources.
pub open spec fn surfaces_ok(ss: Seq<SurfaceView>, g: GpuView) -> bool {
    &&& forall|i: int| 0 <= i < ss.len() ==> surface_ok(#[trigger] ss[i], g)
    &&& forall|i: int, j: int, id: u32|
        #![trigger surface_owns(ss[i], id), surface_owns(ss[j], id)]
        0 <= i < ss.len() && 0 <= j < ss.len() && i != j && surface_owns(ss[i], id)
            ==> !surface_owns(ss[j], id)
}

/// Step 1 for one surface: create the engine session on the first tick
/// whose address the engine's parser accepts. `next_context` is the next
/// browsing-context identifier the engine will assign.
pub open spec fn init_step(s: SurfaceView, next_context: u64) -> (SurfaceView, u64) {
    if s.session is None && next_context < u64::MAX && url_parses(s.url.url) {
        (
            SurfaceView {
                session: Some(
                    HandleView {
                        id: next_context,
                        active: next_context,
                        log: seq![
                            CommandView::NewBrowser { url: s.url.url },
                            CommandView::SelectBrowser { context: next_context },
                        ],
                    },
                ),
                ..s
            },
            (next_context + 1) as u64,
        )
    } else {
        (s, next_context)
    }
}

/// Step 2 for one surface: apply a dirty resize. The new dimensions go
/// into the shared cell, a texture of the requested size is allocated and
/// committed through the framebuffer setup; on success the dirty flag
/// clears and the material swaps to the new texture, on failure the flag
/// stays set (retry next tick) and the fresh texture is destroyed again.
/// With the commit locks poisoned, or the id space exhausted, nothing is
/// touched and the request stays pending. A poisoned dimensions lock
/// keeps the cell's old value, so the depth buffer follows the cell and
/// may mismatch the texture until the lock recovers — the tolerated
/// best-effort rendering after a poison event.
pub open spec fn resize_step(s: SurfaceView, g: GpuView) -> (SurfaceView, GpuView) {
    if !s.size.dirty {
        (s, g)
    } else if s.window.target_poisoned || s.window.buffers_poisoned {
        (s, g)
    } else if g.next_id > u32::MAX - 3 {
        (s, g)
    } else {
        let w0 = ServoWindow {
            dimensions: if s.window.dimensions_poisoned {
                s.window.dimensions
            } else {
                (s.size.width, s.size.height)
            },
            ..s.window
        };
        let created = gv_create_texture(g, s.size.width, s.size.height);
        let step = setup_framebuffer_spec(w0, created.0, created.1);
        if step.2 is Ok {
            (
                SurfaceView {
                    size: ServoSize { dirty: false, ..s.size },
                    albedo: created.1,
                    window: step.0,
                    ..s
                },
                step.1,
            )
        } else {
            (SurfaceView { window: step.0, ..s }, gv_delete_texture(step.1, created.1))
        }
    }
}

/// Step 3 for one surface: with no target bound and the material texture
/// live in the object table, re-bind it through the framebuffer setup.
/// The outcome is only logged: a failure leaves the binding absent, so
/// the next tick retries.
pub open spec fn rebind_step(s: SurfaceView, g: GpuView) -> (SurfaceView, GpuView) {
    if s.window.target_poisoned {
        (s, g)
    } else if s.window.target_texture is Some {
        (s, g)
    } else if !g.tex_live(s.albedo) {
        (s, g)
    } else if g.next_id > u32::MAX - 2 {
        (s, g)
    } else {
        let step = setup_framebuffer_spec(s.window, g, s.albedo);
        (SurfaceView { window: step.0, ..s }, step.1)
    }
}

/// Step 4 for one surface: a dirty address navigates the session's
/// context. The dirty flag clears whatever the outcome; an address the
/// parser refuses issues no load command. Without a session the request
/// stays pending for the tick that creates one.
pub open spec fn navigate_step(s: SurfaceView) -> SurfaceView {
    if !s.url.dirty {
        s
    } else {
        match s.session {
            Some(h) => {
                let h1 = if url_parses(s.url.url) {
                    HandleView {
                        log: h.log.push(CommandView::LoadUrl { context: h.id, url: s.url.url }),
                        ..h
                    }
                } else {
                    h
                };
                SurfaceView { url: UrlView { dirty: false, ..s.url }, session: Some(h1), ..s }
            },
            None => s,
        }
    }
}

/// Step 5 for one surface and one event: a wake pumps the session, an
/// input event is forwarded to it, anything else is ignored.
pub open spec fn deliver_event_step(s: SurfaceView, event: HostEvent) -> SurfaceView {
    match s.session {
        Some(h) => match event {
            HostEvent::Awakened => SurfaceView {
                session: Some(HandleView { log: h.log.push(CommandView::Pump), ..h }),
                ..s
            },
            HostEvent::WindowInput { event: code } => SurfaceView {
                session: Some(
                    HandleView {
                        log: h.log.push(CommandView::ForwardInput { event: code }),
                        ..h
                    },
                ),
                ..s
            },
            HostEvent::Other => s,
        },
        None => s,
    }
}

/// [`init_step`] folded left over all surfaces, threading the context
/// counter.
pub open spec fn init_pass(ss: Seq<SurfaceView>, next_context: u64) -> (Seq<SurfaceView>, u64)
    decreases ss.len(),
{
    if ss.len() == 0 {
        (Seq::empty(), next_context)
    } else {
        let prev = init_pass(ss.drop_last(), next_context);
        let step = init_step(ss.last(), prev.1);
        (prev.0.push(step.0), step.1)
    }
}

/// [`resize_step`] folded left over all surfaces, threading the object
/// table.
pub open spec fn resize_pass(ss: Seq<SurfaceView>, g: GpuView) -> (Seq<SurfaceView>, GpuView)
    decreases ss.len(),
{
    if ss.len() == 0 {
        (Seq::empty(), g)
    } else {
        let prev = resize_pass(ss.drop_last(), g);
        let step = resize_step(ss.last(), prev.1);
        (prev.0.push(step.0), step.1)
    }
}

/// [`rebind_step`] folded left over all surfaces, threading the object
/// table.
pub open spec fn rebind_pass(ss: Seq<SurfaceView>, g: GpuView) -> (Seq<SurfaceView>, GpuView)
    decreases ss.len(),
{
    if ss.len() == 0 {
        (Seq::empty(), g)
    } else {
        let prev = rebind_pass(ss.drop_last(), g);
        let step = rebind_step(ss.last(), prev.1);
        (prev.0.push(step.0), step.1)
    }
}

/// [`navigate_step`] applied to every surface.
pub open spec fn navigate_pass(ss: Seq<SurfaceView>) -> Seq<SurfaceView>
    decreases ss.len(),
{
    if ss.len() == 0 {
        Seq::empty()
    } else {
        navigate_pass(ss.drop_last()).push(navigate_step(ss.last()))
    }
}

/// One event delivered to every surface.
pub open spec fn deliver_event_pass(ss: Seq<SurfaceView>, event: HostEvent) -> Seq<SurfaceView>
    decreases ss.len(),
{
    if ss.len() == 0 {
        Seq::empty()
    } else {
        deliver_event_pass(ss.drop_last(), event).push(deliver_event_step(ss.last(), event))
    }
}

/// The whole event batch, drained once, in order.
pub open spec fn deliver_pass(ss: Seq<SurfaceView>, events: Seq<HostEvent>) -> Seq<SurfaceView>
    decreases events.len(),
{
    if events.len() == 0 {
        ss
    } else {
        deliver_event_pass(deliver_pass(ss, events.drop_last()), events.last())
    }
}

/// Everything a tickable surface owns lies below the allocation counter.
proof fn lemma_owned_bounded(v: SurfaceView, g: GpuView)
    requires
        g.wf(),
        surface_ok(v, g),
    ensures
        forall|id: u32| #[trigger] surface_owns(v, id) ==> id < g.next_id,
{
    assert forall|id: u32| #[trigger] surface_owns(v, id) implies id < g.next_id by {
        if id != v.albedo {
            lemma_live_ids_bounded(g, id);
        }
    }
}

/// A step that only touches its own surface's objects, and allocates the
/// rest freshly, keeps every other surface tickable.
proof fn lemma_surface_ok_preserved(v: SurfaceView, g1: GpuView, g2: GpuView, stepped: SurfaceView)
    requires
        g1.wf(),
        surface_ok(v, g1),
        g2.next_id >= g1.next_id,
        forall|id: u32|
            #![trigger g2.tex_live(id)]
            #![trigger g2.fb_live(id)]
            #![trigger g2.rb_live(id)]
            id < g1.next_id && !surface_owns(stepped, id) ==> (g2.tex_live(id) == g1.tex_live(id)
                && g2.fb_live(id) == g1.fb_live(id) && g2.rb_live(id) == g1.rb_live(id)),
        forall|id: u32| #[trigger] surface_owns(v, id) ==> !surface_owns(stepped, id),
    ensures
        surface_ok(v, g2),
{
    lemma_owned_bounded(v, g1);
    match v.window.buffers {
        Some(pair) => {
            assert(surface_owns(v, pair.0));
            assert(surface_owns(v, pair.1));
            assert(g2.fb_live(pair.0));
            assert(g2.rb_live(pair.1));
        },
        None => {},
    }
    match v.window.target_texture {
        Some(t) => {
            assert(surface_owns(v, t));
            assert(g2.tex_live(t));
        },
        None => {},
    }
}

/// A step whose new footprint is its old footprint plus fresh ids stays
/// disjoint from every other surface.
proof fn lemma_disjoint_preserved(
    vk: SurfaceView,
    s_old: SurfaceView,
    s_new: SurfaceView,
    g1: GpuView,
)
    requires
        g1.wf(),
        surface_ok(vk, g1),
        forall|id: u32| #[trigger] surface_owns(vk, id) ==> !surface_owns(s_old, id),
        forall|id: u32| #[trigger]
            surface_owns(s_new, id) ==> surface_owns(s_old, id) || g1.next_id <= id,
    ensures
        forall|id: u32| #[trigger] surface_owns(s_new, id) ==> !surface_owns(vk, id),
        forall|id: u32| #[trigger] surface_owns(vk, id) ==> !surface_owns(s_new, id),
{
    lemma_owned_bounded(vk, g1);
    assert forall|id: u32| #[trigger] surface_owns(s_new, id) implies !surface_owns(vk, id) by {
        if !surface_owns(s_old, id) {
            assert(g1.next_id <= id);
        }
    }
}

/// Step 1 on one surface record.
fn init_surface(s: Surface, next_context: u64) -> (r: (Surface, u64))
    ensures
        r.0@ == init_step(s@, next_context).0,
        r.1 == init_step(s@, next_context).1,
        r.0@.window == s@.window,
        r.0@.albedo == s@.albedo,
        r.0@.size == s@.size,
{
    let mut s = s;
    let mut next = next_context;
    if s.session.is_none() && next < u64::MAX {
        if parse_url_ok(s.url.url.as_str()) {
            let h = ServoHandle::start_servo(s.url.url.as_str(), next);
            s.session = Some(h);
            next = next + 1;
        }
    }
    (s, next)
}

/// Step 2 on one surface record.
fn resize_surface(s: Surface, gpu: &mut GpuModel) -> (r: Surface)
    requires
        old(gpu)@.wf(),
        surface_ok(s@, old(gpu)@),
    ensures
        r@ == resize_step(s@, old(gpu)@).0,
        final(gpu)@ == resize_step(s@, old(gpu)@).1,
        final(gpu)@.wf(),
        surface_ok(r@, final(gpu)@),
        r@.entity == s@.entity,
        r@.url == s@.url,
        r@.session == s@.session,
        final(gpu)@.next_id >= old(gpu)@.next_id,
        final(gpu)@.completeness == old(gpu)@.completeness,
        forall|id: u32|
            #![trigger final(gpu)@.tex_live(id)]
            #![trigger final(gpu)@.fb_live(id)]
            #![trigger final(gpu)@.rb_live(id)]
            id < old(gpu)@.next_id && !surface_owns(s@, id) ==> (final(gpu)@.tex_live(id) == old(gpu)@.tex_live(id)
                && final(gpu)@.fb_live(id) == old(gpu)@.fb_live(id)
                && final(gpu)@.rb_live(id) == old(gpu)@.rb_live(id)),
        forall|id: u32| #[trigger]
            surface_owns(r@, id) ==> surface_owns(s@, id) || old(gpu)@.next_id <= id,
{
    let mut s = s;
    if !s.size.dirty {
        return s;
    }
    if s.window.target_poisoned || s.window.buffers_poisoned {
        return s;
    }
    if gpu.next_id > u32::MAX - 3 {
        return s;
    }
    let ghost g = gpu@;
    s.window.set_dimensions(s.size.width, s.size.height);
    let tex = gpu.create_texture(s.size.width, s.size.height);
    let ghost g1 = gpu@;
    proof {
        lemma_setup_preserves_others(s.window, g1, tex);
    }
    match s.window.setup_framebuffer(gpu, tex) {
        Ok(()) => {
            s.size.dirty = false;
            s.albedo = tex;
        },
        Err(_) => {
            gpu.delete_texture(tex);
        },
    }
    s
}

/// Step 3 on one surface record.
fn rebind_surface(s: Surface, gpu: &mut GpuModel) -> (r: Surface)
    requires
        old(gpu)@.wf(),
        surface_ok(s@, old(gpu)@),
    ensures
        r@ == rebind_step(s@, old(gpu)@).0,
        final(gpu)@ == rebind_step(s@, old(gpu)@).1,
        final(gpu)@.wf(),
        surface_ok(r@, final(gpu)@),
        r@.entity == s@.entity,
        r@.url == s@.url,
        r@.session == s@.session,
        r@.albedo == s@.albedo,
        r@.size == s@.size,
        final(gpu)@.next_id >= old(gpu)@.next_id,
        final(gpu)@.completeness == old(gpu)@.completeness,
        forall|id: u32|
            #![trigger final(gpu)@.tex_live(id)]
            #![trigger final(gpu)@.fb_live(id)]
            #![trigger final(gpu)@.rb_live(id)]
            id < old(gpu)@.next_id && !surface_owns(s@, id) ==> (final(gpu)@.tex_live(id) == old(gpu)@.tex_live(id)
                && final(gpu)@.fb_live(id) == old(gpu)@.fb_live(id)
                && final(gpu)@.rb_live(id) == old(gpu)@.rb_live(id)),
        forall|id: u32| #[trigger]
            surface_owns(r@, id) ==> surface_owns(s@, id) || old(gpu)@.next_id <= id,
{
    let mut s = s;
    match s.window.has_target() {
        Err(_) => return s,
        Ok(true) => return s,
        Ok(false) => {},
    }
    if !gpu.texture_is_live(s.albedo) {
        return s;
    }
    if gpu.next_id > u32::MAX - 2 {
        return s;
    }
    proof {
        lemma_setup_preserves_others(s.window, gpu@, s.albedo);
    }
    let _outcome = s.window.setup_framebuffer(gpu, s.albedo);
    s
}

/// Step 4 on one surface record.
fn navigate_surface(s: Surface) -> (r: Surface)
    ensures
        r@ == navigate_step(s@),
        r@.window == s@.window,
        r@.albedo == s@.albedo,
        r@.size == s@.size,
{
    let mut s = s;
    if s.url.dirty {
        match &mut s.session {
            Some(h) => {
                let _outcome = h.navigate(s.url.url.as_str());
                s.url.dirty = false;
            },
            None => {},
        }
    }
    s
}

/// Step 5 on one surface record, for one event.
fn deliver_event_surface(s: Surface, event: HostEvent) -> (r: Surface)
    ensures
        r@ == deliver_event_step(s@, event),
        r@.window == s@.window,
        r@.albedo == s@.albedo,
        r@.size == s@.size,
{
    let mut s = s;
    match &mut s.session {
        Some(h) => match event {
            HostEvent::Awakened => h.update(),
            HostEvent::WindowInput { event: code } => h.forward_input(code),
            HostEvent::Other => {},
        },
        None => {},
    }
    s
}

/// Step 1 over the whole surface vector.
fn run_init_pass(surfaces: &mut Vec<Surface>, next_context: u64) -> (next_out: u64)
    ensures
        views(final(surfaces)@) == init_pass(views(old(surfaces)@), next_context).0,
        next_out == init_pass(views(old(surfaces)@), next_context).1,
        final(surfaces)@.len() == old(surfaces)@.len(),
        forall|k: int|
            0 <= k < old(surfaces)@.len() ==> (#[trigger] views(final(surfaces)@)[k].window
                == views(old(surfaces)@)[k].window && views(final(surfaces)@)[k].albedo == views(
                old(surfaces)@,
            )[k].albedo && views(final(surfaces)@)[k].size == views(old(surfaces)@)[k].size),
{
    let ghost orig = surfaces@;
    let n = surfaces.len();
    let mut next = next_context;
    let mut i: usize = 0;
    while i < n
        invariant
            i <= n,
            surfaces@.len() == n,
            orig.len() == n,
            views(surfaces@).take(i as int) == init_pass(views(orig).take(i as int), next_context).0,
            next == init_pass(views(orig).take(i as int), next_context).1,
            forall|j: int| i <= j < n ==> #[trigger] views(surfaces@)[j] == views(orig)[j],
            forall|k: int|
                0 <= k < i ==> (#[trigger] views(surfaces@)[k].window == views(orig)[k].window
                    && views(surfaces@)[k].albedo == views(orig)[k].albedo && views(
                surfaces@)[k].size == views(orig)[k].size),
        decreases n - i,
    {
        let ghost pre = surfaces@;
        let s = surfaces.remove(i);
        proof {
            assert(s@ == views(pre)[i as int]);
            assert(s@ == views(orig)[i as int]);
        }
        let r = init_surface(s, next);
        surfaces.insert(i, r.0);
        next = r.1;
        proof {
            assert(views(surfaces@) =~= views(pre).update(i as int, r.0@));
            let vo = views(orig);
            assert(vo.take(i as int + 1).drop_last() =~= vo.take(i as int));
            assert(vo.take(i as int + 1).last() == vo[i as int]);
            assert(views(surfaces@).take(i as int + 1) =~= views(pre).take(i as int).push(r.0@));
        }
        i = i + 1;
    }
    proof {
        assert(views(orig).take(n as int) =~= views(orig));
        assert(views(surfaces@).take(n as int) =~= views(surfaces@));
    }
    next
}

/// Step 2 over the whole surface vector.
fn run_resize_pass(surfaces: &mut Vec<Surface>, gpu: &mut GpuModel)
    requires
        old(gpu)@.wf(),
        surfaces_ok(views(old(surfaces)@), old(gpu)@),
    ensures
        views(final(surfaces)@) == resize_pass(views(old(surfaces)@), old(gpu)@).0,
        final(gpu)@ == resize_pass(views(old(surfaces)@), old(gpu)@).1,
        final(gpu)@.wf(),
        surfaces_ok(views(final(surfaces)@), final(gpu)@),
        final(surfaces)@.len() == old(surfaces)@.len(),
{
    let ghost orig = surfaces@;
    let ghost g0 = gpu@;
    let n = surfaces.len();
    let mut i: usize = 0;
    while i < n
        invariant
            i <= n,
            surfaces@.len() == n,
            orig.len() == n,
            gpu@.wf(),
            views(surfaces@).take(i as int) == resize_pass(views(orig).take(i as int), g0).0,
            gpu@ == resize_pass(views(orig).take(i as int), g0).1,
            forall|j: int| i <= j < n ==> #[trigger] views(surfaces@)[j] == views(orig)[j],
            surfaces_ok(views(surfaces@), gpu@),
        decreases n - i,
    {
        let ghost pre = surfaces@;
        let ghost gpre = gpu@;
        let s = surfaces.remove(i);
        proof {
            assert(s@ == views(pre)[i as int]);
            assert(surface_ok(s@, gpu@));
        }
        let s2 = resize_surface(s, gpu);
        surfaces.insert(i, s2);
        proof {
            assert(views(surfaces@) =~= views(pre).update(i as int, s2@));
            let vo = views(orig);
            assert(vo.take(i as int + 1).drop_last() =~= vo.take(i as int));
            assert(vo.take(i as int + 1).last() == vo[i as int]);
            assert(views(surfaces@).take(i as int + 1) =~= views(pre).take(i as int).push(s2@));
            // the other surfaces stay tickable and disjoint
            assert forall|k: int| 0 <= k < n implies surface_ok(
                #[trigger] views(surfaces@)[k],
                gpu@,
            ) by {
                if k != i as int {
                    lemma_surface_ok_preserved(views(pre)[k], gpre, gpu@, s@);
                }
            }
            assert forall|k: int, l: int, id: u32|
                #![trigger surface_owns(views(surfaces@)[k], id), surface_owns(views(surfaces@)[l], id)]
                0 <= k < n && 0 <= l < n && k != l && surface_owns(
                    views(surfaces@)[k],
                    id,
                ) implies !surface_owns(views(surfaces@)[l], id) by {
                if k == i as int {
                    lemma_disjoint_preserved(views(pre)[l], s@, s2@, gpre);
                } else if l == i as int {
                    lemma_disjoint_preserved(views(pre)[k], s@, s2@, gpre);
                }
            }
        }
        i = i + 1;
    }
    proof {
        assert(views(orig).take(n as int) =~= views(orig));
        assert(views(surfaces@).take(n as int) =~= views(surfaces@));
    }
}

/// Step 3 over the whole surface vector.
fn run_rebind_pass(surfaces: &mut Vec<Surface>, gpu: &mut GpuModel)
    requires
        old(gpu)@.wf(),
        surfaces_ok(views(old(surfaces)@), old(gpu)@),
    ensures
        views(final(surfaces)@) == rebind_pass(views(old(surfaces)@), old(gpu)@).0,
        final(gpu)@ == rebind_pass(views(old(surfaces)@), old(gpu)@).1,
        final(gpu)@.wf(),
        surfaces_ok(views(final(surfaces)@), final(gpu)@),
        final(surfaces)@.len() == old(surfaces)@.len(),
{
    let ghost orig = surfaces@;
    let ghost g0 = gpu@;
    let n = surfaces.len();
    let mut i: usize = 0;
    while i < n
        invariant
            i <= n,
            surfaces@.len() == n,
            orig.len() == n,
            gpu@.wf(),
            views(surfaces@).take(i as int) == rebind_pass(views(orig).take(i as int), g0).0,
            gpu@ == rebind_pass(views(orig).take(i as int), g0).1,
            forall|j: int| i <= j < n ==> #[trigger] views(surfaces@)[j] == views(orig)[j],
            surfaces_ok(views(surfaces@), gpu@),
        decreases n - i,
    {
        let ghost pre = surfaces@;
        let ghost gpre = gpu@;
        let s = surfaces.remove(i);
        proof {
            assert(s@ == views(pre)[i as int]);
            assert(surface_ok(s@, gpu@));
        }
        let s2 = rebind_surface(s, gpu);
        surfaces.insert(i, s2);
        proof {
            assert(views(surfaces@) =~= views(pre).update(i as int, s2@));
            let vo = views(orig);
            assert(vo.take(i as int + 1).drop_last() =~= vo.take(i as int));
            assert(vo.take(i as int + 1).last() == vo[i as int]);
            assert(views(surfaces@).take(i as int + 1) =~= views(pre).take(i as int).push(s2@));
            assert forall|k: int| 0 <= k < n implies surface_ok(
                #[trigger] views(surfaces@)[k],
                gpu@,
            ) by {
                if k != i as int {
                    lemma_surface_ok_preserved(views(pre)[k], gpre, gpu@, s@);
                }
            }
            assert forall|k: int, l: int, id: u32|
                #![trigger surface_owns(views(surfaces@)[k], id), surface_owns(views(surfaces@)[l], id)]
                0 <= k < n && 0 <= l < n && k != l && surface_owns(
                    views(surfaces@)[k],
                    id,
                ) implies !surface_owns(views(surfaces@)[l], id) by {
                if k == i as int {
                    lemma_disjoint_preserved(views(pre)[l], s@, s2@, gpre);
                } else if l == i as int {
                    lemma_disjoint_preserved(views(pre)[k], s@, s2@, gpre);
                }
            }
        }
        i = i + 1;
    }
    proof {
        assert(views(orig).take(n as int) =~= views(orig));
        assert(views(surfaces@).take(n as int) =~= views(surfaces@));
    }
}

/// Step 4 over the whole surface vector.
fn run_navigate_pass(surfaces: &mut Vec<Surface>)
    ensures
        views(final(surfaces)@) == navigate_pass(views(old(surfaces)@)),
        final(surfaces)@.len() == old(surfaces)@.len(),
        forall|k: int|
            0 <= k < old(surfaces)@.len() ==> (#[trigger] views(final(surfaces)@)[k].window
                == views(old(surfaces)@)[k].window && views(final(surfaces)@)[k].albedo == views(
                old(surfaces)@,
            )[k].albedo && views(final(surfaces)@)[k].size == views(old(surfaces)@)[k].size),
{
    let ghost orig = surfaces@;
    let n = surfaces.len();
    let mut i: usize = 0;
    while i < n
        invariant
            i <= n,
            surfaces@.len() == n,
            orig.len() == n,
            views(surfaces@).take(i as int) == navigate_pass(views(orig).take(i as int)),
            forall|j: int| i <= j < n ==> #[trigger] views(surfaces@)[j] == views(orig)[j],
            forall|k: int|
                0 <= k < i ==> (#[trigger] views(surfaces@)[k].window == views(orig)[k].window
                    && views(surfaces@)[k].albedo == views(orig)[k].albedo && views(
                surfaces@)[k].size == views(orig)[k].size),
        decreases n - i,
    {
        let ghost pre = surfaces@;
        let s = surfaces.remove(i);
        proof {
            assert(s@ == views(pre)[i as int]);
            assert(s@ == views(orig)[i as int]);
        }
        let s2 = navigate_surface(s);
        surfaces.insert(i, s2);
        proof {
            assert(views(surfaces@) =~= views(pre).update(i as int, s2@));
            let vo = views(orig);
            assert(vo.take(i as int + 1).drop_last() =~= vo.take(i as int));
            assert(vo.take(i as int + 1).last() == vo[i as int]);
            assert(views(surfaces@).take(i as int + 1) =~= views(pre).take(i as int).push(s2@));
        }
        i = i + 1;
    }
    proof {
        assert(views(orig).take(n as int) =~= views(orig));
        assert(views(surfaces@).take(n as int) =~= views(surfaces@));
    }
}

/// One event delivered to every surface.
fn run_deliver_event_pass(surfaces: &mut Vec<Surface>, event: HostEvent)
    ensures
        views(final(surfaces)@) == deliver_event_pass(views(old(surfaces)@), event),
        final(surfaces)@.len() == old(surfaces)@.len(),
        forall|k: int|
            0 <= k < old(surfaces)@.len() ==> (#[trigger] views(final(surfaces)@)[k].window
                == views(old(surfaces)@)[k].window && views(final(surfaces)@)[k].albedo == views(
                old(surfaces)@,
            )[k].albedo && views(final(surfaces)@)[k].size == views(old(surfaces)@)[k].size),
{
    let ghost orig = surfaces@;
    let n = surfaces.len();
    let mut i: usize = 0;
    while i < n
        invariant
            i <= n,
            surfaces@.len() == n,
            orig.len() == n,
            views(surfaces@).take(i as int) == deliver_event_pass(
                views(orig).take(i as int),
                event,
            ),
            forall|j: int| i <= j < n ==> #[trigger] views(surfaces@)[j] == views(orig)[j],
            forall|k: int|
                0 <= k < i ==> (#[trigger] views(surfaces@)[k].window == views(orig)[k].window
                    && views(surfaces@)[k].albedo == views(orig)[k].albedo && views(
                surfaces@)[k].size == views(orig)[k].size),
        decreases n - i,
    {
        let ghost pre = surfaces@;
        let s = surfaces.remove(i);
        proof {
            assert(s@ == views(pre)[i as int]);
            assert(s@ == views(orig)[i as int]);
        }
        let s2 = deliver_event_surface(s, event);
        surfaces.insert(i, s2);
        proof {
            assert(views(surfaces@) =~= views(pre).update(i as int, s2@));
            let vo = views(orig);
            assert(vo.take(i as int + 1).drop_last() =~= vo.take(i as int));
            assert(vo.take(i as int + 1).last() == vo[i as int]);
            assert(views(surfaces@).take(i as int + 1) =~= views(pre).take(i as int).push(s2@));
        }
        i = i + 1;
    }
    proof {
        assert(views(orig).take(n as int) =~= views(orig));
        assert(views(surfaces@).take(n as int) =~= views(surfaces@));
    }
}

/// Step 5: the whole event batch, drained once, in order.
fn run_deliver_pass(surfaces: &mut Vec<Surface>, events: &Vec<HostEvent>)
    ensures
        views(final(surfaces)@) == deliver_pass(views(old(surfaces)@), events@),
        final(surfaces)@.len() == old(surfaces)@.len(),
        forall|k: int|
            0 <= k < old(surfaces)@.len() ==> (#[trigger] views(final(surfaces)@)[k].window
                == views(old(surfaces)@)[k].window && views(final(surfaces)@)[k].albedo == views(
                old(surfaces)@,
            )[k].albedo && views(final(surfaces)@)[k].size == views(old(surfaces)@)[k].size),
{
    let ghost orig = surfaces@;
    let m = events.len();
    let mut e: usize = 0;
    while e < m
        invariant
            e <= m,
            m == events@.len(),
            surfaces@.len() == orig.len(),
            views(surfaces@) == deliver_pass(views(orig), events@.take(e as int)),
            forall|k: int|
                0 <= k < orig.len() ==> (#[trigger] views(surfaces@)[k].window == views(
                    orig,
                )[k].window && views(surfaces@)[k].albedo == views(orig)[k].albedo && views(
                surfaces@)[k].size == views(orig)[k].size),
        decreases m - e,
    {
        run_deliver_event_pass(surfaces, events[e]);
        proof {
            assert(events@.take(e as int + 1).drop_last() =~= events@.take(e as int));
            assert(events@.take(e as int + 1).last() == events@[e as int]);
        }
        e = e + 1;
    }
    proof {
        assert(events@.take(m as int) =~= events@);
    }
}

/// Surfaces with the same GPU-facing fields are tickable and disjoint
/// under the same object table: the session and request fields play no
/// part in resource ownership.
proof fn lemma_surfaces_ok_congruence(a: Seq<SurfaceView>, b: Seq<SurfaceView>, g: GpuView)
    requires
        a.len() == b.len(),
        surfaces_ok(a, g),
        forall|k: int|
            0 <= k < a.len() ==> (#[trigger] b[k].window == a[k].window && b[k].albedo
                == a[k].albedo && b[k].size == a[k].size),
    ensures
        surfaces_ok(b, g),
{
    assert forall|i: int| 0 <= i < b.len() implies surface_ok(#[trigger] b[i], g) by {
        assert(surface_ok(a[i], g));
    }
    assert forall|i: int, j: int, id: u32|
        #![trigger surface_owns(b[i], id), surface_owns(b[j], id)]
        0 <= i < b.len() && 0 <= j < b.len() && i != j && surface_owns(b[i], id) implies
        !surface_owns(b[j], id) by {
        assert(surface_owns(a[i], id) == surface_owns(b[i], id));
        assert(surface_owns(a[j], id) == surface_owns(b[j], id));
    }
}

/// The whole effect of one driver tick on the surfaces, the object table
/// and the context counter.
pub open spec fn tick_spec(
    ss: Seq<SurfaceView>,
    g: GpuView,
    next_context: u64,
    events: Seq<HostEvent>,
) -> (Seq<SurfaceView>, GpuView, u64) {
    let init = init_pass(ss, next_context);
    let resize = resize_pass(init.0, g);
    let rebind = rebind_pass(resize.0, resize.1);
    let nav = navigate_pass(rebind.0);
    let delivered = deliver_pass(nav, events);
    (delivered, rebind.1, init.1)
}

/// The per-tick driver over all tracked surfaces. It owns nothing but the
/// browsing-context counter standing in for the identifiers the engine
/// assigns; the surface records, the object table and the event batch are
/// handed in by the embedder each tick.
pub struct ServoUiSystem {
    /// The next browsing-context identifier a new session receives.
    pub next_context_id: u64,
}

impl ServoUiSystem {
    /// A fresh driver; no context identifiers handed out yet.
    pub fn new() -> (s: Self)
        ensures
            s.next_context_id == 1,
    {
        ServoUiSystem { next_context_id: 1 }
    }

    /// One driver tick: exactly the fold [`tick_spec`] over the current
    /// state. Surfaces stay tickable and pairwise disjoint, so ticks can
    /// be chained forever.
    pub fn run(
        &mut self,
        surfaces: &mut Vec<Surface>,
        gpu: &mut GpuModel,
        events: &Vec<HostEvent>,
    )
        requires
            old(gpu)@.wf(),
            surfaces_ok(views(old(surfaces)@), old(gpu)@),
        ensures
            ({
                let tick = tick_spec(
                    views(old(surfaces)@),
                    old(gpu)@,
                    old(self).next_context_id,
                    events@,
                );
                &&& views(final(surfaces)@) == tick.0
                &&& final(gpu)@ == tick.1
                &&& final(self).next_context_id == tick.2
            }),
            final(gpu)@.wf(),
            surfaces_ok(views(final(surfaces)@), final(gpu)@),
            final(surfaces)@.len() == old(surfaces)@.len(),
    {
        let ghost v0 = views(surfaces@);
        let next = run_init_pass(surfaces, self.next_context_id);
        self.next_context_id = next;
        proof {
            lemma_surfaces_ok_congruence(v0, views(surfaces@), gpu@);
        }
        run_resize_pass(surfaces, gpu);
        run_rebind_pass(surfaces, gpu);
        let ghost v3 = views(surfaces@);
        run_navigate_pass(surfaces);
        proof {
            lemma_surfaces_ok_congruence(v3, views(surfaces@), gpu@);
        }
        let ghost v4 = views(surfaces@);
        run_deliver_pass(surfaces, events);
        proof {
            lemma_surfaces_ok_congruence(v4, views(surfaces@), gpu@);
        }
    }
}


/// A resize over a committed generation replaces it wholesale, in strict
/// teardown-before-create order: the driver records the destruction of
/// the previous framebuffer, depth buffer and target texture before any
/// new object exists, allocates the new texture and depth buffer with
/// storage of exactly the requested dimensions, and commits the new pair.
pub proof fn lemma_resize_replaces_previous_generation(s: SurfaceView, g: GpuView)
    requires
        g.wf(),
        surface_ok(s, g),
        s.size.dirty,
        !s.window.target_poisoned,
        !s.window.buffers_poisoned,
        !s.window.dimensions_poisoned,
        s.window.buffers is Some,
        s.window.target_texture is Some,
        g.next_id <= u32::MAX - 3,
        g.completeness == FRAMEBUFFER_COMPLETE,
    ensures
        ({
            let r = resize_step(s, g);
            let tex = g.next_id;
            let fb = (g.next_id + 1) as u32;
            let rb = (g.next_id + 2) as u32;
            let old_fb = s.window.buffers->Some_0.0;
            let old_rb = s.window.buffers->Some_0.1;
            let old_tex = s.window.target_texture->Some_0;
            &&& !r.0.size.dirty
            &&& r.0.albedo == tex
            &&& r.0.window.dimensions == (s.size.width, s.size.height)
            &&& r.0.window.buffers == Some((fb, rb))
            &&& !r.1.fb_live(old_fb) && !r.1.rb_live(old_rb) && !r.1.tex_live(old_tex)
            &&& r.1.fb_live(fb) && r.1.rb_live(rb) && r.1.tex_live(tex)
            &&& r.1.renderbuffers.contains((rb, s.size.width, s.size.height))
            &&& r.1.calls =~= g.calls + seq![
                GpuCall::CreateTexture { id: tex, width: s.size.width, height: s.size.height },
                GpuCall::DeleteFramebuffer { id: old_fb },
                GpuCall::DeleteRenderbuffer { id: old_rb },
                GpuCall::DeleteTexture { id: old_tex },
                GpuCall::BindTexture { id: tex },
                GpuCall::CreateFramebuffer { id: fb },
                GpuCall::BindFramebuffer { id: fb },
                GpuCall::AttachTexture { framebuffer: fb, texture: tex },
                GpuCall::CreateDepthRenderbuffer {
                    id: rb,
                    width: s.size.width,
                    height: s.size.height,
                },
                GpuCall::AttachDepthRenderbuffer { framebuffer: fb, renderbuffer: rb },
                GpuCall::CheckStatus { framebuffer: fb, status: FRAMEBUFFER_COMPLETE },
            ]
        }),
{
    lemma_live_ids_bounded(g, s.window.target_texture->Some_0);
    lemma_live_ids_bounded(g, s.window.buffers->Some_0.0);
    lemma_live_ids_bounded(g, s.window.buffers->Some_0.1);
    let created = gv_create_texture(g, s.size.width, s.size.height);
    lemma_fresh_id_not_allocated(g, g.next_id);
    lemma_fresh_id_not_allocated(created.0, created.0.next_id);
    lemma_fresh_id_not_allocated(created.0, (created.0.next_id + 1) as u32);
}

/// Setting the address dirty and then running two consecutive ticks
/// issues exactly one load command into the session, and the flag is
/// already clear after the first tick whether or not the address was
/// accepted: an address the parser refuses issues nothing and is not
/// retried.
pub proof fn lemma_url_dirty_edge_triggered(s: SurfaceView, g: GpuView, next_context: u64)
    requires
        s.url.dirty,
        s.session is Some,
        !s.size.dirty,
    ensures
        ({
            let t1 = tick_spec(seq![s], g, next_context, Seq::empty());
            let s1 = t1.0[0];
            &&& t1.0.len() == 1
            &&& !s1.url.dirty
            &&& url_parses(s.url.url) ==> s1.session == Some(
                HandleView {
                    log: s.session->Some_0.log.push(
                        CommandView::LoadUrl {
                            context: s.session->Some_0.id,
                            url: s.url.url,
                        },
                    ),
                    ..s.session->Some_0
                },
            )
            &&& !url_parses(s.url.url) ==> s1.session == s.session
            &&& ({
                let t2 = tick_spec(t1.0, t1.1, t1.2, Seq::empty());
                &&& t2.0.len() == 1
                &&& t2.0[0].session == s1.session
                &&& !t2.0[0].url.dirty
            })
        }),
{
    reveal_with_fuel(init_pass, 3);
    reveal_with_fuel(resize_pass, 3);
    reveal_with_fuel(rebind_pass, 3);
    reveal_with_fuel(navigate_pass, 3);
    reveal_with_fuel(deliver_pass, 2);
    let ss = seq![s];
    assert(ss.drop_last() =~= Seq::<SurfaceView>::empty());
    assert(ss.last() == s);
    let t1 = tick_spec(ss, g, next_context, Seq::empty());
    let a = init_step(s, next_context).0;
    assert(init_pass(ss, next_context).0 =~= seq![a]);
    assert(seq![a].drop_last() =~= Seq::<SurfaceView>::empty());
    assert(seq![a].last() == a);
    let b = resize_step(a, g).0;
    assert(resize_pass(seq![a], g).0 =~= seq![b]);
    assert(seq![b].drop_last() =~= Seq::<SurfaceView>::empty());
    assert(seq![b].last() == b);
    let gb = resize_pass(seq![a], g).1;
    let c = rebind_step(b, gb).0;
    assert(rebind_pass(seq![b], gb).0 =~= seq![c]);
    assert(seq![c].drop_last() =~= Seq::<SurfaceView>::empty());
    assert(seq![c].last() == c);
    let d = navigate_step(c);
    assert(navigate_pass(seq![c]) =~= seq![d]);
    assert(t1.0 =~= seq![d]);
    let s1 = t1.0[0];
    assert(s1 == d);
    // second tick on the now-clean surface
    assert(t1.0.drop_last() =~= Seq::<SurfaceView>::empty());
    assert(t1.0.last() == s1);
    let t2 = tick_spec(t1.0, t1.1, t1.2, Seq::empty());
    let a2 = init_step(s1, t1.2).0;
    assert(init_pass(t1.0, t1.2).0 =~= seq![a2]);
    assert(seq![a2].drop_last() =~= Seq::<SurfaceView>::empty());
    assert(seq![a2].last() == a2);
    let b2 = resize_step(a2, t1.1).0;
    assert(resize_pass(seq![a2], t1.1).0 =~= seq![b2]);
    assert(seq![b2].drop_last() =~= Seq::<SurfaceView>::empty());
    assert(seq![b2].last() == b2);
    let gb2 = resize_pass(seq![a2], t1.1).1;
    let c2 = rebind_step(b2, gb2).0;
    assert(rebind_pass(seq![b2], gb2).0 =~= seq![c2]);
    assert(seq![c2].drop_last() =~= Seq::<SurfaceView>::empty());
    assert(seq![c2].last() == c2);
    let d2 = navigate_step(c2);
    assert(navigate_pass(seq![c2]) =~= seq![d2]);
    assert(t2.0 =~= seq![d2]);
}

/// With no framebuffer committed, no target bound and the material
/// texture live in the object table, one rebind performs exactly one
/// framebuffer setup — one allocation sequence ending in one completeness
/// check — and afterwards a render target is designated again.
pub proof fn lemma_target_missing_rebind(s: SurfaceView, g: GpuView)
    requires
        g.wf(),
        surface_ok(s, g),
        s.window.target_texture is None,
        s.window.buffers is None,
        !s.window.target_poisoned,
        !s.window.buffers_poisoned,
        g.tex_live(s.albedo),
        g.next_id <= u32::MAX - 2,
        g.completeness == FRAMEBUFFER_COMPLETE,
    ensures
        ({
            let r = rebind_step(s, g);
            let fb = g.next_id;
            let rb = (g.next_id + 1) as u32;
            &&& r.0.window.target_texture == Some(s.albedo)
            &&& r.0.window.buffers == Some((fb, rb))
            &&& r.1.fb_live(fb) && r.1.rb_live(rb)
            &&& r.1.calls =~= g.calls + seq![
                GpuCall::BindTexture { id: s.albedo },
                GpuCall::CreateFramebuffer { id: fb },
                GpuCall::BindFramebuffer { id: fb },
                GpuCall::AttachTexture { framebuffer: fb, texture: s.albedo },
                GpuCall::CreateDepthRenderbuffer {
                    id: rb,
                    width: s.window.dimensions.0,
                    height: s.window.dimensions.1,
                },
                GpuCall::AttachDepthRenderbuffer { framebuffer: fb, renderbuffer: rb },
                GpuCall::CheckStatus { framebuffer: fb, status: FRAMEBUFFER_COMPLETE },
            ]
        }),
{
    lemma_fresh_id_not_allocated(g, g.next_id);
    lemma_fresh_id_not_allocated(g, (g.next_id + 1) as u32);
}

} // verus!
