use servo_ui::GpuCall;
use servo_ui::GpuModel;
use servo_ui::GpuStatus;
use servo_ui::ServoWindow;
use servo_ui::gpu::FRAMEBUFFER_COMPLETE;

fn live_framebuffers(g: &GpuModel) -> usize {
    g.framebuffers.len() - g.dead_framebuffers.len()
}

fn live_renderbuffers(g: &GpuModel) -> usize {
    g.renderbuffers.len() - g.dead_renderbuffers.len()
}

#[test]
fn setup_framebuffer_commits_a_complete_pair() {
    let mut gpu = GpuModel::new();
    let mut w = ServoWindow::new(64, 64);
    let tex = gpu.create_texture(64, 64);
    assert_eq!(w.setup_framebuffer(&mut gpu, tex), Ok(()));
    assert_eq!(w.get_target(), Some(tex));
    assert_eq!(w.has_target(), Ok(true));
    let (fb, rb) = w.buffers.expect("a pair must be committed");
    assert_eq!(live_framebuffers(&gpu), 1);
    assert_eq!(live_renderbuffers(&gpu), 1);
    // the depth renderbuffer was allocated with storage of the surface
    // dimensions
    assert!(gpu.renderbuffers.contains(&(rb, 64, 64)));
    // the completeness query was recorded, and answered complete
    assert!(gpu.calls.contains(&GpuCall::CheckStatus {
        framebuffer: fb,
        status: FRAMEBUFFER_COMPLETE
    }));
}

#[test]
fn setup_framebuffer_twice_keeps_exactly_one_live_pair() {
    let mut gpu = GpuModel::new();
    let mut w = ServoWindow::new(64, 64);
    let tex = gpu.create_texture(64, 64);
    assert_eq!(w.setup_framebuffer(&mut gpu, tex), Ok(()));
    let first = w.buffers.unwrap();
    assert_eq!(w.setup_framebuffer(&mut gpu, tex), Ok(()));
    let second = w.buffers.unwrap();
    // one live pair, the first generation destroyed exactly once
    assert_ne!(first, second);
    assert_eq!(live_framebuffers(&gpu), 1);
    assert_eq!(live_renderbuffers(&gpu), 1);
    assert_eq!(gpu.framebuffers.len(), 2);
    assert_eq!(gpu.dead_framebuffers, vec![first.0]);
    assert_eq!(gpu.dead_renderbuffers, vec![first.1]);
    // the re-bound texture survives
    assert!(gpu.texture_is_live(tex));
}

#[test]
fn incomplete_framebuffer_is_rolled_back() {
    let mut gpu = GpuModel::new();
    let mut w = ServoWindow::new(64, 64);
    let tex = gpu.create_texture(64, 64);
    gpu.set_completeness(0x8CD6);
    assert_eq!(w.setup_framebuffer(&mut gpu, tex), Err(GpuStatus::Incomplete(0x8CD6)));
    // the just-allocated objects are destroyed again and nothing is
    // committed; the binding is cleared so the next tick retries
    assert_eq!(w.buffers, None);
    assert_eq!(w.get_target(), None);
    assert_eq!(live_framebuffers(&gpu), 0);
    assert_eq!(live_renderbuffers(&gpu), 0);
    assert!(gpu.texture_is_live(tex));
}

#[test]
fn poisoned_lock_fails_setup_before_any_gpu_work() {
    let mut gpu = GpuModel::new();
    let mut w = ServoWindow::new(64, 64);
    let tex = gpu.create_texture(64, 64);
    let calls_before = gpu.calls.len();
    w.mark_buffers_poisoned();
    assert_eq!(w.setup_framebuffer(&mut gpu, tex), Err(GpuStatus::LockFailure));
    assert_eq!(gpu.calls.len(), calls_before);
    assert_eq!(w.buffers, None);
}

#[test]
fn teardown_destroys_the_pair_exactly_once() {
    let mut gpu = GpuModel::new();
    let mut w = ServoWindow::new(64, 64);
    let tex = gpu.create_texture(64, 64);
    assert_eq!(w.setup_framebuffer(&mut gpu, tex), Ok(()));
    let (fb, rb) = w.buffers.unwrap();
    assert_eq!(w.teardown(&mut gpu), Ok(()));
    assert_eq!(w.buffers, None);
    assert_eq!(w.get_target(), None);
    assert_eq!(live_framebuffers(&gpu), 0);
    assert_eq!(live_renderbuffers(&gpu), 0);
    assert_eq!(gpu.dead_framebuffers, vec![fb]);
    assert_eq!(gpu.dead_renderbuffers, vec![rb]);
    // the material's texture stays with the host
    assert!(gpu.texture_is_live(tex));
    // tearing down again destroys nothing further
    let calls = gpu.calls.len();
    assert_eq!(w.teardown(&mut gpu), Ok(()));
    assert_eq!(gpu.calls.len(), calls);
}

#[test]
fn teardown_behind_a_poisoned_lock_reports_the_failure() {
    let mut gpu = GpuModel::new();
    let mut w = ServoWindow::new(64, 64);
    let tex = gpu.create_texture(64, 64);
    assert_eq!(w.setup_framebuffer(&mut gpu, tex), Ok(()));
    w.mark_target_poisoned();
    let calls = gpu.calls.len();
    assert_eq!(w.teardown(&mut gpu), Err(GpuStatus::LockFailure));
    assert_eq!(gpu.calls.len(), calls);
    assert!(w.buffers.is_some());
}

#[test]
fn enable_and_disable_bracket_the_draw_target() {
    let mut gpu = GpuModel::new();
    let mut w = ServoWindow::new(64, 64);
    let tex = gpu.create_texture(64, 64);
    assert_eq!(w.setup_framebuffer(&mut gpu, tex), Ok(()));
    let (fb, _rb) = w.buffers.unwrap();
    assert_eq!(w.enable_fb(&mut gpu), Ok(()));
    assert_eq!(gpu.bound_framebuffer, fb);
    let n = gpu.calls.len();
    assert_eq!(gpu.calls[n - 2], GpuCall::BindFramebuffer { id: fb });
    assert_eq!(gpu.calls[n - 1], GpuCall::ConfigureDrawState);
    w.disable_fb(&mut gpu);
    assert_eq!(gpu.bound_framebuffer, 0);
    assert_eq!(*gpu.calls.last().unwrap(), GpuCall::BindFramebuffer { id: 0 });
}

#[test]
fn enable_without_a_pair_refuses_the_draw() {
    let mut gpu = GpuModel::new();
    let w = ServoWindow::new(64, 64);
    let before = gpu.calls.len();
    assert_eq!(w.enable_fb(&mut gpu), Err(()));
    assert!(!w.prepare_for_composite(&mut gpu));
    assert_eq!(gpu.calls.len(), before);
}

#[test]
fn composite_callbacks_restore_the_default_framebuffer() {
    let mut gpu = GpuModel::new();
    let mut w = ServoWindow::new(64, 64);
    let tex = gpu.create_texture(64, 64);
    assert_eq!(w.setup_framebuffer(&mut gpu, tex), Ok(()));
    assert!(w.prepare_for_composite(&mut gpu));
    assert_ne!(gpu.bound_framebuffer, 0);
    w.present(&mut gpu);
    assert_eq!(gpu.bound_framebuffer, 0);
    // present is idempotent
    w.present(&mut gpu);
    assert_eq!(gpu.bound_framebuffer, 0);
}
