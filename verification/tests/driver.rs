use servo_ui::EngineCommand;
use servo_ui::GpuCall;
use servo_ui::GpuModel;
use servo_ui::HostEvent;
use servo_ui::NavigationError;
use servo_ui::ServoHandle;
use servo_ui::ServoSize;
use servo_ui::ServoUiBundle;
use servo_ui::Surface;

fn load_count(h: &ServoHandle) -> usize {
    h.log.iter().filter(|c| matches!(c, EngineCommand::LoadUrl { .. })).count()
}

#[test]
fn first_tick_creates_the_session_and_the_framebuffer() {
    let mut system = ServoUiBundle.build();
    let mut gpu = GpuModel::new();
    let mut surfaces = vec![Surface::new(1, "https://example.com/".to_string(), 256, 256, 0)];
    system.run(&mut surfaces, &mut gpu, &vec![]);
    let s = &surfaces[0];
    let h = s.session.as_ref().expect("the first tick must create the session");
    assert_eq!(h.id, 1);
    assert_eq!(h.active, 1);
    assert_eq!(
        h.log[0],
        EngineCommand::NewBrowser { url: "https://example.com/".to_string() }
    );
    assert_eq!(h.log[1], EngineCommand::SelectBrowser { context: 1 });
    assert_eq!(system.next_context_id, 2);
    // the initial (dirty) size request was applied
    assert!(!s.size.dirty);
    assert_eq!(s.window.get_dimensions(), (256, 256));
    assert!(s.window.buffers.is_some());
}

#[test]
fn invalid_initial_address_leaves_the_surface_uninitialized() {
    let mut system = ServoUiBundle.build();
    let mut gpu = GpuModel::new();
    let mut surfaces = vec![Surface::new(1, "not a url".to_string(), 256, 256, 0)];
    system.run(&mut surfaces, &mut gpu, &vec![]);
    assert!(surfaces[0].session.is_none());
    assert_eq!(system.next_context_id, 1);
}

#[test]
fn resize_allocates_storage_of_the_requested_dimensions() {
    let mut system = ServoUiBundle.build();
    let mut gpu = GpuModel::new();
    let mut surfaces = vec![Surface::new(1, "https://example.com/".to_string(), 1024, 1024, 0)];
    system.run(&mut surfaces, &mut gpu, &vec![]);

    surfaces[0].size = ServoSize::new(640, 480);
    system.run(&mut surfaces, &mut gpu, &vec![]);
    assert_eq!(surfaces[0].window.get_dimensions(), (640, 480));
    let (_, rb) = surfaces[0].window.buffers.unwrap();
    assert!(gpu.renderbuffers.contains(&(rb, 640, 480)));
    assert!(gpu.calls.iter().any(
        |c| matches!(c, GpuCall::CreateDepthRenderbuffer { width: 640, height: 480, .. })
    ));
}

#[test]
fn resize_destroys_the_previous_generation_before_the_new_one_exists() {
    let mut system = ServoUiBundle.build();
    let mut gpu = GpuModel::new();
    let mut surfaces = vec![Surface::new(1, "https://example.com/".to_string(), 1024, 1024, 0)];
    system.run(&mut surfaces, &mut gpu, &vec![]);
    surfaces[0].size = ServoSize::new(640, 480);
    system.run(&mut surfaces, &mut gpu, &vec![]);
    let (old_fb, old_rb) = surfaces[0].window.buffers.unwrap();

    let mark = gpu.calls.len();
    surfaces[0].size = ServoSize::new(320, 240);
    system.run(&mut surfaces, &mut gpu, &vec![]);
    let delta = &gpu.calls[mark..];

    let del_fb = delta
        .iter()
        .position(|c| *c == GpuCall::DeleteFramebuffer { id: old_fb })
        .expect("the old framebuffer must be destroyed");
    let del_rb = delta
        .iter()
        .position(|c| *c == GpuCall::DeleteRenderbuffer { id: old_rb })
        .expect("the old depth buffer must be destroyed");
    let new_fb = delta
        .iter()
        .position(|c| matches!(c, GpuCall::CreateFramebuffer { .. }))
        .expect("a new framebuffer must be created");
    let new_rb = delta
        .iter()
        .position(|c| matches!(
            c,
            GpuCall::CreateDepthRenderbuffer { width: 320, height: 240, .. }
        ))
        .expect("a new depth buffer of the requested size must be created");
    // teardown strictly precedes the new generation
    assert!(del_fb < new_fb && del_fb < new_rb);
    assert!(del_rb < new_fb && del_rb < new_rb);
    // and the old pair is gone for good
    assert!(gpu.dead_framebuffers.contains(&old_fb));
    assert!(gpu.dead_renderbuffers.contains(&old_rb));
    let (fb2, rb2) = surfaces[0].window.buffers.unwrap();
    assert_ne!((old_fb, old_rb), (fb2, rb2));
    assert!(gpu.renderbuffers.contains(&(rb2, 320, 240)));
    assert_eq!(gpu.framebuffers.len() - gpu.dead_framebuffers.len(), 1);
}

#[test]
fn resize_with_poisoned_dimensions_lock_keeps_the_last_good_cell_value() {
    let mut system = ServoUiBundle.build();
    let mut gpu = GpuModel::new();
    let mut surfaces = vec![Surface::new(1, "https://example.com/".to_string(), 256, 256, 0)];
    system.run(&mut surfaces, &mut gpu, &vec![]);

    surfaces[0].window.mark_dimensions_poisoned();
    surfaces[0].size = ServoSize::new(640, 480);
    system.run(&mut surfaces, &mut gpu, &vec![]);
    // the write behind the poisoned lock was dropped: the cell keeps the
    // last-good dimensions, and the depth buffer follows the cell
    assert!(!surfaces[0].size.dirty);
    assert_eq!(surfaces[0].window.get_dimensions(), (256, 256));
    let (_, rb) = surfaces[0].window.buffers.unwrap();
    assert!(gpu.renderbuffers.contains(&(rb, 256, 256)));
    // the texture itself was allocated at the requested size: rendering
    // is best-effort after a poison event, but nothing crashes
    assert!(gpu.textures.contains(&(surfaces[0].albedo, 640, 480)));
}

#[test]
fn dirty_url_navigates_exactly_once_over_two_ticks() {
    let mut system = ServoUiBundle.build();
    let mut gpu = GpuModel::new();
    let mut surfaces = vec![Surface::new(1, "https://example.com/".to_string(), 256, 256, 0)];
    system.run(&mut surfaces, &mut gpu, &vec![]);
    let loads_before = load_count(surfaces[0].session.as_ref().unwrap());

    surfaces[0].url.goto("https://example.org/".to_string());
    system.run(&mut surfaces, &mut gpu, &vec![]);
    // the flag clears on the first tick
    assert!(!surfaces[0].url.dirty);
    system.run(&mut surfaces, &mut gpu, &vec![]);
    let loads_after = load_count(surfaces[0].session.as_ref().unwrap());
    assert_eq!(loads_after, loads_before + 1);
    assert!(surfaces[0].session.as_ref().unwrap().log.contains(
        &EngineCommand::LoadUrl { context: 1, url: "https://example.org/".to_string() }
    ));
}

#[test]
fn rejected_url_clears_the_flag_without_a_load() {
    let mut system = ServoUiBundle.build();
    let mut gpu = GpuModel::new();
    let mut surfaces = vec![Surface::new(1, "https://example.com/".to_string(), 256, 256, 0)];
    system.run(&mut surfaces, &mut gpu, &vec![]);
    let loads_before = load_count(surfaces[0].session.as_ref().unwrap());

    surfaces[0].url.goto("not a url".to_string());
    system.run(&mut surfaces, &mut gpu, &vec![]);
    assert!(!surfaces[0].url.dirty);
    system.run(&mut surfaces, &mut gpu, &vec![]);
    assert_eq!(load_count(surfaces[0].session.as_ref().unwrap()), loads_before);
}

#[test]
fn navigate_refuses_a_malformed_address_without_touching_the_engine() {
    let mut h = ServoHandle::start_servo("https://example.com/", 7);
    let log_before = h.log.clone();
    assert_eq!(h.navigate("not a url"), Err(NavigationError::InvalidUrl));
    assert_eq!(h.log, log_before);
    assert_eq!(h.active, 7);
    assert_eq!(h.navigate("https://example.org/page"), Ok(()));
    assert_eq!(
        *h.log.last().unwrap(),
        EngineCommand::LoadUrl { context: 7, url: "https://example.org/page".to_string() }
    );
}

#[test]
fn pump_delivers_the_batch_then_one_scheduling_pass() {
    let mut h = ServoHandle::start_servo("https://example.com/", 3);
    let before = h.log.len();
    h.pump(&vec![10, 20]);
    assert_eq!(h.log[before], EngineCommand::ForwardInput { event: 10 });
    assert_eq!(h.log[before + 1], EngineCommand::ForwardInput { event: 20 });
    assert_eq!(h.log[before + 2], EngineCommand::Pump);
    assert_eq!(h.log.len(), before + 3);
    // an empty batch still lets the engine run one pass
    h.pump(&vec![]);
    assert_eq!(*h.log.last().unwrap(), EngineCommand::Pump);
    assert_eq!(h.log.len(), before + 4);
}

#[test]
fn update_is_a_single_scheduling_pass() {
    let mut h = ServoHandle::start_servo("https://example.com/", 4);
    let before = h.log.len();
    h.update();
    assert_eq!(h.log.len(), before + 1);
    assert_eq!(*h.log.last().unwrap(), EngineCommand::Pump);
}

#[test]
fn missing_target_is_rebound_with_exactly_one_setup() {
    let mut system = ServoUiBundle.build();
    let mut gpu = GpuModel::new();
    let albedo = gpu.create_texture(128, 128);
    let mut s = Surface::new(1, "https://example.com/".to_string(), 128, 128, albedo);
    // only the re-bind path is pending: no resize request in flight
    s.size.dirty = false;
    let mut surfaces = vec![s];
    let mark = gpu.calls.len();
    system.run(&mut surfaces, &mut gpu, &vec![]);
    let delta = &gpu.calls[mark..];
    let checks = delta
        .iter()
        .filter(|c| matches!(c, GpuCall::CheckStatus { .. }))
        .count();
    assert_eq!(checks, 1);
    assert_eq!(surfaces[0].window.has_target(), Ok(true));
    assert_eq!(surfaces[0].window.get_target(), Some(albedo));
    assert!(surfaces[0].window.buffers.is_some());
}

#[test]
fn rebind_waits_until_the_texture_exists() {
    let mut system = ServoUiBundle.build();
    let mut gpu = GpuModel::new();
    // albedo 0 never names a live texture, so nothing can be bound yet
    let mut s = Surface::new(1, "https://example.com/".to_string(), 128, 128, 0);
    s.size.dirty = false;
    let mut surfaces = vec![s];
    system.run(&mut surfaces, &mut gpu, &vec![]);
    assert_eq!(surfaces[0].window.has_target(), Ok(false));
    assert!(surfaces[0].window.buffers.is_none());
}

#[test]
fn awakened_events_pump_every_session_once_per_event() {
    let mut system = ServoUiBundle.build();
    let mut gpu = GpuModel::new();
    let mut surfaces = vec![
        Surface::new(1, "https://example.com/".to_string(), 64, 64, 0),
        Surface::new(2, "https://example.org/".to_string(), 64, 64, 0),
    ];
    system.run(&mut surfaces, &mut gpu, &vec![]);
    let pumps = |s: &Surface| {
        s.session
            .as_ref()
            .unwrap()
            .log
            .iter()
            .filter(|c| matches!(c, EngineCommand::Pump))
            .count()
    };
    let before = (pumps(&surfaces[0]), pumps(&surfaces[1]));
    system.run(
        &mut surfaces,
        &mut gpu,
        &vec![HostEvent::Awakened, HostEvent::Other, HostEvent::Awakened],
    );
    assert_eq!(pumps(&surfaces[0]), before.0 + 2);
    assert_eq!(pumps(&surfaces[1]), before.1 + 2);
}

#[test]
fn input_events_are_forwarded_to_every_session() {
    let mut system = ServoUiBundle.build();
    let mut gpu = GpuModel::new();
    let mut surfaces = vec![Surface::new(1, "https://example.com/".to_string(), 64, 64, 0)];
    system.run(&mut surfaces, &mut gpu, &vec![]);
    system.run(&mut surfaces, &mut gpu, &vec![HostEvent::WindowInput { event: 42 }]);
    assert_eq!(
        *surfaces[0].session.as_ref().unwrap().log.last().unwrap(),
        EngineCommand::ForwardInput { event: 42 }
    );
}

#[test]
fn two_surfaces_get_distinct_contexts_and_distinct_objects() {
    let mut system = ServoUiBundle.build();
    let mut gpu = GpuModel::new();
    let mut surfaces = vec![
        Surface::new(1, "https://example.com/".to_string(), 64, 64, 0),
        Surface::new(2, "https://example.org/".to_string(), 32, 32, 0),
    ];
    system.run(&mut surfaces, &mut gpu, &vec![]);
    let a = surfaces[0].session.as_ref().unwrap();
    let b = surfaces[1].session.as_ref().unwrap();
    assert_eq!((a.id, b.id), (1, 2));
    let pa = surfaces[0].window.buffers.unwrap();
    let pb = surfaces[1].window.buffers.unwrap();
    assert_ne!(pa.0, pb.0);
    assert_ne!(pa.1, pb.1);
    assert_ne!(surfaces[0].albedo, surfaces[1].albedo);
    assert_eq!(gpu.framebuffers.len() - gpu.dead_framebuffers.len(), 2);
}

#[test]
fn a_tick_with_no_surfaces_does_nothing() {
    let mut system = ServoUiBundle.build();
    let mut gpu = GpuModel::new();
    let mut surfaces: Vec<Surface> = vec![];
    system.run(&mut surfaces, &mut gpu, &vec![HostEvent::Awakened]);
    assert!(surfaces.is_empty());
    assert!(gpu.calls.is_empty());
    assert_eq!(system.next_context_id, 1);
}
