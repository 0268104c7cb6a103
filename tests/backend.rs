use niri_hosted::backend::{Backend, CoreRequest, Headless, Winit, WindowEvent};
use niri_hosted::config::{InputConfig, ModKey};
use niri_hosted::events::{CanonicalInputEvent, ElementState};
use niri_hosted::keymap::{KeyCode, PhysicalKey};
use niri_hosted::modifiers::ModifierMask;
use niri_hosted::normalize::HostInputEvent;
use niri_hosted::output::{ipc_mode, output_mode, IdCounter, IpcMode, LogicalOutput, OutputId, OutputMode};
use niri_hosted::pacer::{FramePacer, TARGET_FRAME_TIME_US};
use niri_hosted::surface::{
    frame_step, needs_make_current, start_frame, FrameAction, FrameError, FrameStage, RenderResult, SurfaceState,
};

fn new_winit(width: u32, height: u32) -> Winit {
    let (ping, _source) = calloop::ping::make_ping().unwrap();
    let mut ids = IdCounter::new();
    Winit::new(width, height, ping, &mut ids)
}

#[test]
fn resize_reaches_output_and_ipc_snapshot() {
    let mut w = new_winit(1600, 1000);
    let requests = w.handle_window_event(WindowEvent::Resized { width: 800, height: 600 }, 1);
    assert_eq!(
        requests,
        vec![
            CoreRequest::ResizeSurface { width: 800, height: 600 },
            CoreRequest::IpcOutputsChanged,
            CoreRequest::OutputResized,
        ]
    );
    assert_eq!(w.output_mode(), OutputMode { width: 800, height: 600, refresh: 60_000 });
    let snapshot = w.ipc_outputs();
    assert_eq!(snapshot.len(), 1);
    let out = &snapshot[0].1;
    assert_eq!(out.modes[0].width, 800);
    assert_eq!(out.modes[0].height, 600);
    assert_eq!(out.logical, Some(LogicalOutput { x: 0, y: 0, width: 800, height: 600 }));
    assert_eq!(out.name, "winit");
    assert_eq!(out.current_mode, Some(0));
}

#[test]
fn new_facade_describes_window() {
    let w = new_winit(1600, 1000);
    assert_eq!(w.output_mode(), OutputMode { width: 1600, height: 1000, refresh: 60_000 });
    let snapshot = w.ipc_outputs();
    assert_eq!(snapshot[0].0.get(), 1);
    assert_eq!(snapshot[0].1.make, "Smithay");
    assert_eq!(snapshot[0].1.model, "Winit");
    assert_eq!(snapshot[0].1.modes, vec![IpcMode { width: 1600, height: 1000, refresh_rate: 60_000, is_preferred: true }]);
    assert!(snapshot[0].1.is_custom_mode);
    assert!(!snapshot[0].1.vrr_supported);
    assert_eq!(w.seat_name(), "winit");
    w.pump();
}

#[test]
fn window_events_map_to_requests() {
    let mut w = new_winit(10, 10);
    assert_eq!(w.handle_window_event(WindowEvent::CloseRequested, 1), vec![CoreRequest::Stop]);
    assert_eq!(w.handle_window_event(WindowEvent::RedrawRequested, 1), vec![CoreRequest::QueueRedraw]);
    assert!(w.handle_window_event(WindowEvent::Focused(true), 1).is_empty());
}

#[test]
fn shift_transition_first_in_batch() {
    let mut w = new_winit(10, 10);
    let shift = ModifierMask { shift: true, control: false, alt: false, super_key: false };
    let mut batch = w.handle_window_event(WindowEvent::Input(HostInputEvent::ModifiersChanged(shift)), 50);
    batch.extend(w.handle_window_event(
        WindowEvent::Input(HostInputEvent::Key {
            key: PhysicalKey::Code(KeyCode::KeyA),
            scancode: 0,
            pressed: true,
            repeat: false,
        }),
        51,
    ));
    assert_eq!(batch.len(), 2);
    match batch[0] {
        CoreRequest::Input(CanonicalInputEvent::Keyboard(k)) => {
            assert_eq!(k.key, 42);
            assert_eq!(k.state, ElementState::Pressed);
        }
        other => panic!("unexpected first request {:?}", other),
    }
    assert_eq!(w.modifiers(), shift);
}

#[test]
fn facade_drops_double_press() {
    let mut w = new_winit(10, 10);
    let q = WindowEvent::Input(HostInputEvent::Key {
        key: PhysicalKey::Code(KeyCode::KeyQ),
        scancode: 0,
        pressed: true,
        repeat: false,
    });
    let first = w.handle_window_event(q, 2_000_000);
    let second = w.handle_window_event(q, 2_009_000);
    assert_eq!(first.len(), 1);
    assert!(second.is_empty());
}

#[test]
fn surface_resize_sequence() {
    let mut s = SurfaceState::new(1600, 1000);
    assert!(s.resize(800, 600));
    assert!(!s.resize(0, 300));
    assert!(!s.resize(1024, 0));
    assert_eq!((s.width, s.height), (800, 600));
    assert!(s.resize(1, 2));
    assert_eq!((s.width, s.height), (1, 2));
    assert!(s.can_present());
    assert!(!SurfaceState::new(0, 5).can_present());
}

#[test]
fn context_and_present_decisions() {
    assert!(needs_make_current(false));
    assert!(!needs_make_current(true));
    assert_eq!(start_frame(&SurfaceState::new(800, 600)), FrameAction::Run(FrameStage::Render));
    assert_eq!(start_frame(&SurfaceState::new(0, 600)), FrameAction::Finish(RenderResult::Skipped, None));
    assert_eq!(frame_step(FrameStage::Render, true), FrameAction::Run(FrameStage::MakeCurrent));
    assert_eq!(frame_step(FrameStage::MakeCurrent, true), FrameAction::Run(FrameStage::Swap));
    assert_eq!(frame_step(FrameStage::Swap, true), FrameAction::Finish(RenderResult::Submitted, None));
    assert_eq!(
        frame_step(FrameStage::Render, false),
        FrameAction::Finish(RenderResult::Skipped, Some(FrameError::Render))
    );
    assert_eq!(
        frame_step(FrameStage::MakeCurrent, false),
        FrameAction::Finish(RenderResult::Skipped, Some(FrameError::Context))
    );
    assert_eq!(
        frame_step(FrameStage::Swap, false),
        FrameAction::Finish(RenderResult::Skipped, Some(FrameError::Present))
    );
}

#[test]
fn pacer_renders_at_most_once_per_interval() {
    let start = 1_000_000u64;
    let mut p = FramePacer::new(start, TARGET_FRAME_TIME_US);
    let mut renders = Vec::new();
    let mut now = start;
    while now < start + 100_000 {
        let step = p.tick(now);
        if step.render {
            renders.push(now);
        }
        now += 1_000;
    }
    assert_eq!(renders.len(), 5);
    for pair in renders.windows(2) {
        assert!(pair[1] - pair[0] >= TARGET_FRAME_TIME_US);
    }
    assert_eq!(renders[0], start + 17_000);
}

#[test]
fn pacer_sleep_until_next_frame() {
    let mut p = FramePacer::new(0, 16_666);
    let s = p.tick(10_000);
    assert!(!s.render);
    assert_eq!(s.sleep_us, 6_666);
    let s = p.tick(20_000);
    assert!(s.render);
    assert_eq!(s.sleep_us, 16_666);
    assert_eq!(p.last_frame_time, 20_000);
    let s = p.tick(5);
    assert!(!s.render);
    assert_eq!(s.sleep_us, 36_661);
}

#[test]
fn mode_narrowing() {
    assert_eq!(ipc_mode(70_000, 600).width, 4_464);
    assert_eq!(output_mode(3_000_000_000, 1).width, -1_294_967_296);
}

#[test]
fn output_ids_count_up() {
    let mut ids = IdCounter::new();
    assert_eq!(OutputId::next(&mut ids).get(), 1);
    assert_eq!(OutputId::next(&mut ids).get(), 2);
}

#[test]
fn mod_key_per_backend() {
    let w = Backend::Winit(new_winit(1, 1));
    let h = Backend::Headless(Headless);
    let none = InputConfig { mod_key: None, mod_key_nested: None };
    let alt = InputConfig { mod_key: Some(ModKey::Alt), mod_key_nested: None };
    let nested = InputConfig { mod_key: Some(ModKey::Alt), mod_key_nested: Some(ModKey::Ctrl) };
    assert_eq!(w.mod_key(&none), ModKey::Alt);
    assert_eq!(w.mod_key(&alt), ModKey::Super);
    assert_eq!(w.mod_key(&nested), ModKey::Ctrl);
    assert_eq!(h.mod_key(&none), ModKey::Super);
    assert_eq!(h.mod_key(&alt), ModKey::Alt);
    assert_eq!(w.seat_name(), "winit");
    assert_eq!(h.seat_name(), "headless");
}

#[test]
fn backend_winit_accessor() {
    let mut b = Backend::Winit(new_winit(3, 4));
    b.winit().handle_window_event(WindowEvent::Resized { width: 30, height: 40 }, 0);
    assert_eq!(b.winit().output_mode().width, 30);
    assert!(!b.import_dmabuf());
}

#[test]
fn pacer_time_until_next_frame() {
    let p = FramePacer::new(100, 16_666);
    assert_eq!(p.time_until_next_frame(100), 16_666);
    assert_eq!(p.time_until_next_frame(20_000), 0);
    assert_eq!(FramePacer::new(u64::MAX - 5, 16_666).time_until_next_frame(u64::MAX - 10), 10);
}

#[test]
fn id_counter_limit() {
    let ids = IdCounter::new();
    assert!(ids.can_advance());
}
