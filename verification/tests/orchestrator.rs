//! Startup order, the frame tick, shutdown, hardware bring-up, journal.

use compositor_core::backend::{
    BackendType, DeviceProbe, DiscoveredOutput, PresentationTarget, SessionEnv,
};
use compositor_core::compositor::{
    Compositor, FrameStage, Startup, StartupEvent, StartupPhase, TickAction, TickEvent,
};
use compositor_core::diagnostics::{
    check_system_requirements, exit_status, parse_command, CheckReport, CheckStatus, Command,
    SystemFindings,
};
use compositor_core::error::{CompositorError, ErrorKind};
use compositor_core::logging::{log_error_with_context, log_startup_phase, CompositorLogger};
use compositor_core::renderer::{RendererInfo, TextureFormat};
use compositor_core::server::{
    DispatchAction, ListenFailure, ListenerFailure, ProtocolExtension, WaylandServer,
};
use compositor_core::surface::{Buffer, PositionerState};
use compositor_core::wayland::{ClientState, WaylandServerState};
use compositor_core::wl_drm::{
    check_drm_master_capabilities, validate_graphics_session, DrmNodeKind, HardwareSupport,
    WlDrmEvent, WlDrmFailure, WlDrmInit, WlDrmStage,
};

fn info() -> RendererInfo {
    RendererInfo {
        api_version: 0x0040_3000,
        device_name: "Test GPU".to_string(),
        vendor_id: 0x8086,
        device_type: "INTEGRATED_GPU".to_string(),
    }
}

fn direct_probe() -> DeviceProbe {
    DeviceProbe {
        present: vec![true],
        accessible: vec![Ok(())],
        session: SessionEnv { session_type: None, has_session_id: true, login_name: None },
    }
}

fn windowed_probe() -> DeviceProbe {
    DeviceProbe {
        present: vec![],
        accessible: vec![],
        session: SessionEnv { session_type: None, has_session_id: false, login_name: None },
    }
}

fn finished_bring_up(explicit_sync: bool) -> WlDrmInit {
    let mut init = WlDrmInit::begin();
    init.step(WlDrmEvent::DevicesCounted(1));
    init.step(WlDrmEvent::NodeOpened(true));
    init.step(WlDrmEvent::DeviceFileOpened(true));
    init.step(WlDrmEvent::FdDuplicated(false));
    init.step(WlDrmEvent::SyncobjSupported(explicit_sync));
    assert!(init.is_done());
    init
}

fn panel(target: Option<PresentationTarget>) -> Vec<DiscoveredOutput> {
    vec![DiscoveredOutput {
        name: "eDP-1".to_string(),
        width: 3840,
        height: 2160,
        refresh_rate: 60,
        target,
    }]
}

fn started(probe: DeviceProbe, targets: Vec<DiscoveredOutput>) -> Compositor {
    let mut startup = Startup::begin();
    assert_eq!(startup.advance(StartupEvent::RendererCreated(Ok(info()))), Ok(StartupPhase::BackendInit));
    assert_eq!(startup.advance(StartupEvent::DevicesProbed(probe)), Ok(StartupPhase::DisplayInit));
    assert_eq!(startup.advance(StartupEvent::OutputsDiscovered(targets)), Ok(StartupPhase::ListenerInit));
    assert_eq!(startup.advance(StartupEvent::ListenerCreated(Ok(()))), Ok(StartupPhase::WlDrmInit));
    assert_eq!(
        startup.advance(StartupEvent::WlDrmFinished(finished_bring_up(true))),
        Ok(StartupPhase::SocketInit)
    );
    assert_eq!(
        startup.advance(StartupEvent::SocketBound(Ok("wayland-1".to_string()))),
        Ok(StartupPhase::Ready)
    );
    Compositor::new(startup).unwrap()
}

fn map_window(state: &mut WaylandServerState, id: u32) {
    state.new_surface(1, id).unwrap();
    let serial = state.new_toplevel(id).unwrap();
    state.ack_configure(id, serial).unwrap();
    let buffer = Buffer {
        id,
        width: 2,
        height: 2,
        format: TextureFormat::B8G8R8A8Unorm,
        data: vec![0u8; 16],
        acquire_fence: None,
        release_fence: None,
    };
    state.attach(id, Some(buffer)).unwrap();
    state.commit(id).unwrap();
}

#[test]
fn fresh_listener_has_one_output_and_nothing_else() {
    let server = WaylandServer::new();
    let output = server.state.output;
    assert_eq!((output.width, output.height, output.refresh), (3840, 2160, 60_000));
    assert_eq!((output.x, output.y), (0, 0));
    assert_eq!(server.state.serial, 0);
    assert_eq!(server.state.seat.keyboard_focus, None);
    assert_eq!(server.state.seat.pointer_focus, None);
    assert_eq!(server.state.seat.touch_focus, None);
    assert!(server.state.surfaces.is_empty());
    assert!(server.state.space.is_empty());
    assert!(server.state.renderer.is_none());
    assert_eq!(server.hardware.drm_node, None);
    assert!(!server.hardware.device_fd && !server.hardware.explicit_sync);
    assert!(!server.hardware.egl_display);
}

#[test]
fn wayland_server_init() {
    let server = WaylandServer::new();
    println!("   Socket path: {:?}", server.socket_name());
    assert_eq!(server.socket_name(), None);
    drop(server);
}

#[test]
fn compositor_initialization() {
    let start = std::time::Instant::now();
    let mut compositor = started(windowed_probe(), vec![]);
    let init_time = start.elapsed();
    println!("Compositor initialization time: {:?}", init_time);
    assert!(init_time.as_secs() < 10, "Initialization took too long");
    compositor.shutdown().expect("Failed to shutdown compositor");
}

#[test]
fn startup_runs_in_strict_order() {
    let compositor = started(direct_probe(), panel(Some(PresentationTarget { surface: 3, image_count: 2 })));
    assert!(compositor.running);
    assert_eq!(compositor.frame_count, 0);
    assert_eq!(compositor.stage, FrameStage::Idle);
    assert_eq!(compositor.wayland_socket_name(), Some("wayland-1"));
    assert_eq!(compositor.backend.backend_type(), BackendType::Drm);
    assert_eq!(compositor.backend.displays()[0].vk_surface, Some(3));
    let server = &compositor.wayland_server;
    assert!(server.hardware.explicit_sync);
    assert_eq!(server.extensions.len(), 33);
    assert_eq!(server.extensions[32], ProtocolExtension::DrmSyncobj);
    let renderer = server.state.renderer.as_ref().unwrap();
    assert_eq!(renderer.swapchain.unwrap().surface, 3);
    assert_eq!(renderer.info.device_name, "Test GPU");
}

#[test]
fn startup_failures_name_the_step() {
    let mut startup = Startup::begin();
    let error = startup
        .advance(StartupEvent::RendererCreated(Err("no device".to_string())))
        .unwrap_err();
    assert_eq!(error.kind, ErrorKind::Init);
    assert_eq!(error.message, "Failed to initialize renderer: no device");
    assert_eq!(startup.phase, StartupPhase::Failed);
    let again = startup.advance(StartupEvent::RendererCreated(Ok(info()))).unwrap_err();
    assert_eq!(again.message, "Startup step out of order");
    assert_eq!(Compositor::new(startup).err().unwrap().kind, ErrorKind::Init);

    let mut skipping = Startup::begin();
    let error = skipping.advance(StartupEvent::DevicesProbed(windowed_probe())).unwrap_err();
    assert_eq!(error.message, "Startup step out of order");
    assert_eq!(skipping.phase, StartupPhase::Failed);

    let mut startup = Startup::begin();
    startup.advance(StartupEvent::RendererCreated(Ok(info()))).unwrap();
    startup.advance(StartupEvent::DevicesProbed(windowed_probe())).unwrap();
    startup.advance(StartupEvent::OutputsDiscovered(vec![])).unwrap();
    let error = startup
        .advance(StartupEvent::ListenerCreated(Err(ListenerFailure::EventLoop(
            "no runtime dir".to_string(),
        ))))
        .unwrap_err();
    assert_eq!(
        error.message,
        "Failed to initialize Wayland server: Failed to create event loop: no runtime dir"
    );

    let mut startup = Startup::begin();
    startup.advance(StartupEvent::RendererCreated(Ok(info()))).unwrap();
    startup.advance(StartupEvent::DevicesProbed(windowed_probe())).unwrap();
    startup.advance(StartupEvent::OutputsDiscovered(vec![])).unwrap();
    startup.advance(StartupEvent::ListenerCreated(Ok(()))).unwrap();
    let mut failed = WlDrmInit::begin();
    failed.step(WlDrmEvent::DevicesCounted(0));
    let error = startup.advance(StartupEvent::WlDrmFinished(failed)).unwrap_err();
    assert_eq!(error.kind, ErrorKind::Init);
    assert_eq!(
        error.message,
        "Failed to initialize wl_drm protocol: No DRM devices found. 4K compositor requires GPU access.\nInstall proper graphics drivers."
    );

    let mut startup = Startup::begin();
    startup.advance(StartupEvent::RendererCreated(Ok(info()))).unwrap();
    startup.advance(StartupEvent::DevicesProbed(windowed_probe())).unwrap();
    startup.advance(StartupEvent::OutputsDiscovered(vec![])).unwrap();
    startup.advance(StartupEvent::ListenerCreated(Ok(()))).unwrap();
    startup.advance(StartupEvent::WlDrmFinished(finished_bring_up(false))).unwrap();
    let error = startup
        .advance(StartupEvent::SocketBound(Err(ListenFailure::Socket("address in use".to_string()))))
        .unwrap_err();
    assert_eq!(
        error.message,
        "Failed to start Wayland server: Failed to create socket: address in use"
    );
    let unfinished = Startup::begin();
    assert!(Compositor::new(unfinished).is_err());
}

#[test]
fn phase_names() {
    assert_eq!(StartupPhase::RendererInit.name(), "RENDERER_INIT");
    assert_eq!(StartupPhase::BackendInit.name(), "BACKEND_INIT");
    assert_eq!(StartupPhase::DisplayInit.name(), "DISPLAY_INIT");
    assert_eq!(StartupPhase::Ready.name(), "MAIN_LOOP");
}

#[test]
fn tick_produces_frames_and_survives_failures() {
    let mut compositor =
        started(direct_probe(), panel(Some(PresentationTarget { surface: 3, image_count: 2 })));
    map_window(&mut compositor.wayland_server.state, 10);
    map_window(&mut compositor.wayland_server.state, 20);
    assert!(matches!(compositor.tick(TickEvent::Start), TickAction::AcquireImage));
    assert_eq!(compositor.stage, FrameStage::AwaitImage);
    match compositor.tick(TickEvent::ImageAcquired(Some(1))) {
        TickAction::Submit { frame_slot, image_index, draw_list } => {
            assert_eq!(frame_slot, 0);
            assert_eq!(image_index, 1);
            assert_eq!(draw_list, vec![10, 20]);
        }
        other => panic!("expected a frame, got {:?}", other),
    }
    assert_eq!(compositor.stage, FrameStage::AwaitPresent);
    match compositor.tick(TickEvent::Presented(false)) {
        TickAction::Sleep { millis, report_frame } => {
            assert_eq!(millis, 16);
            assert_eq!(report_frame, None);
        }
        other => panic!("expected sleep, got {:?}", other),
    }
    assert_eq!(compositor.frame_count, 1);
    assert_eq!(compositor.stage, FrameStage::Idle);

    assert!(matches!(compositor.tick(TickEvent::Start), TickAction::AcquireImage));
    assert!(matches!(
        compositor.tick(TickEvent::ImageAcquired(None)),
        TickAction::Sleep { millis: 16, report_frame: None }
    ));
    assert_eq!(compositor.stage, FrameStage::Idle);
    assert_eq!(compositor.frame_count, 1);
    assert!(matches!(compositor.tick(TickEvent::Start), TickAction::AcquireImage));
    assert!(matches!(
        compositor.tick(TickEvent::ImageAcquired(Some(2))),
        TickAction::Sleep { millis: 16, report_frame: None }
    ));
    assert!(matches!(
        compositor.tick(TickEvent::Presented(true)),
        TickAction::Sleep { millis: 16, report_frame: None }
    ));
    assert_eq!(compositor.frame_count, 1);

    compositor.frame_count = 299;
    compositor.tick(TickEvent::Start);
    compositor.tick(TickEvent::ImageAcquired(Some(0)));
    assert!(matches!(
        compositor.tick(TickEvent::Presented(true)),
        TickAction::Sleep { millis: 16, report_frame: Some(300) }
    ));
}

#[test]
fn headless_tick_sleeps() {
    let mut compositor = started(windowed_probe(), vec![]);
    assert!(matches!(compositor.tick(TickEvent::Start), TickAction::AcquireImage));
    assert!(matches!(
        compositor.tick(TickEvent::ImageAcquired(Some(0))),
        TickAction::Sleep { millis: 16, report_frame: None }
    ));
    assert_eq!(compositor.stage, FrameStage::Idle);
    assert_eq!(compositor.finish(), Ok(()));
}

#[test]
fn shutdown_mid_frame_stops_at_the_next_tick() {
    let mut compositor =
        started(direct_probe(), panel(Some(PresentationTarget { surface: 3, image_count: 2 })));
    assert!(matches!(compositor.tick(TickEvent::Start), TickAction::AcquireImage));
    assert!(matches!(
        compositor.tick(TickEvent::ImageAcquired(Some(0))),
        TickAction::Submit { .. }
    ));
    assert_eq!(compositor.shutdown(), Ok(()));
    assert!(!compositor.running);
    assert!(matches!(
        compositor.tick(TickEvent::Presented(true)),
        TickAction::Sleep { millis: 16, .. }
    ));
    assert!(matches!(compositor.tick(TickEvent::Start), TickAction::Stop));
    assert!(matches!(compositor.tick(TickEvent::Start), TickAction::Stop));
    assert_eq!(compositor.wayland_server.run_step(Ok(())), DispatchAction::Stop);
    assert_eq!(compositor.shutdown(), Ok(()));
    assert!(!compositor.running);
    assert_eq!(compositor.finish(), Ok(()));
}

#[test]
fn dispatch_error_is_reported_at_the_end() {
    let mut compositor = started(windowed_probe(), vec![]);
    assert_eq!(compositor.wayland_server.run(), DispatchAction::DispatchClients);
    assert_eq!(compositor.wayland_server.run_step(Ok(())), DispatchAction::FlushClients);
    assert_eq!(compositor.wayland_server.run_step(Err("Broken pipe (os error 32)".to_string())), DispatchAction::Stop);
    compositor.shutdown().unwrap();
    let error = compositor.finish().unwrap_err();
    assert_eq!(error.kind, ErrorKind::Wayland);
    assert_eq!(error.message, "Error flushing clients: Broken pipe (os error 32)");
}

#[test]
fn client_state_disconnect_removes_the_client() {
    let mut state = WaylandServerState::new();
    map_window(&mut state, 10);
    let client = ClientState::new(1);
    assert_eq!(client.disconnected(&mut state), 1);
    assert!(state.surfaces.is_empty());
    assert!(state.space.is_empty());
    assert_eq!(client.disconnected(&mut state), 0);
}

#[test]
fn hardware_bring_up() {
    let mut init = WlDrmInit::begin();
    assert_eq!(init.stage, WlDrmStage::CountDevices);
    assert_eq!(init.step(WlDrmEvent::DevicesCounted(2)), WlDrmStage::OpenPrimaryNode);
    assert_eq!(init.step(WlDrmEvent::NodeOpened(false)), WlDrmStage::OpenRenderNode);
    assert_eq!(init.step(WlDrmEvent::NodeOpened(true)), WlDrmStage::OpenDeviceFile);
    assert_eq!(init.support.drm_node, Some(DrmNodeKind::Render));
    assert_eq!(init.step(WlDrmEvent::DeviceFileOpened(true)), WlDrmStage::DuplicateFd);
    assert_eq!(
        init.step(WlDrmEvent::FdDuplicated(true)),
        WlDrmStage::QuerySyncobj { duplicated: true }
    );
    assert_eq!(init.step(WlDrmEvent::SyncobjSupported(true)), WlDrmStage::CheckDrmMaster);
    assert_eq!(init.step(WlDrmEvent::MasterChecked(true)), WlDrmStage::CreateGbmDevice);
    assert_eq!(init.step(WlDrmEvent::GbmCreated(true)), WlDrmStage::CreateEglDisplay);
    assert_eq!(init.step(WlDrmEvent::EglCreated(Ok(()))), WlDrmStage::Done);
    assert_eq!(
        init.support,
        HardwareSupport {
            drm_node: Some(DrmNodeKind::Render),
            device_fd: true,
            explicit_sync: true,
            egl_display: true,
        }
    );
    assert_eq!(init.failure, None);
    let ended = init.clone();
    assert_eq!(init.step(WlDrmEvent::EglCreated(Err("late".to_string()))), WlDrmStage::Done);
    assert_eq!(init.step(WlDrmEvent::DevicesCounted(0)), WlDrmStage::Done);
    assert_eq!(init, ended);
    assert_eq!(init.failure, None);
    assert_eq!(init.error(), None);

    let mut none = WlDrmInit::begin();
    none.step(WlDrmEvent::DevicesCounted(0));
    assert!(none.is_done());
    assert_eq!(none.failure, Some(WlDrmFailure::NoDevices));

    let mut no_node = WlDrmInit::begin();
    no_node.step(WlDrmEvent::DevicesCounted(1));
    no_node.step(WlDrmEvent::NodeOpened(false));
    assert_eq!(no_node.step(WlDrmEvent::NodeOpened(false)), WlDrmStage::Done);
    assert_eq!(no_node.failure, None);
    assert_eq!(no_node.support.drm_node, None);

    let mut no_egl = WlDrmInit::begin();
    no_egl.step(WlDrmEvent::DevicesCounted(1));
    no_egl.step(WlDrmEvent::NodeOpened(true));
    assert_eq!(no_egl.support.drm_node, Some(DrmNodeKind::Primary));
    no_egl.step(WlDrmEvent::DeviceFileOpened(true));
    no_egl.step(WlDrmEvent::FdDuplicated(true));
    no_egl.step(WlDrmEvent::SyncobjSupported(false));
    no_egl.step(WlDrmEvent::MasterChecked(true));
    no_egl.step(WlDrmEvent::GbmCreated(true));
    assert_eq!(
        no_egl.step(WlDrmEvent::EglCreated(Err("EGL_BAD_DISPLAY".to_string()))),
        WlDrmStage::Done
    );
    assert_eq!(no_egl.failure, Some(WlDrmFailure::EglUnavailable("EGL_BAD_DISPLAY".to_string())));
    let error = no_egl.error().unwrap();
    assert_eq!(error.kind, ErrorKind::System);
    assert_eq!(
        error.message,
        "Failed to create EGL display: EGL_BAD_DISPLAY. 4K compositor requires EGL support.\nEnsure:\n1. Mesa EGL drivers are installed\n2. GPU supports EGL extensions\n3. Proper graphics driver configuration"
    );

    let mut unprivileged = WlDrmInit::begin();
    unprivileged.step(WlDrmEvent::DevicesCounted(1));
    unprivileged.step(WlDrmEvent::NodeOpened(true));
    unprivileged.step(WlDrmEvent::DeviceFileOpened(true));
    unprivileged.step(WlDrmEvent::FdDuplicated(true));
    unprivileged.step(WlDrmEvent::SyncobjSupported(true));
    assert_eq!(unprivileged.step(WlDrmEvent::MasterChecked(false)), WlDrmStage::Done);
    assert_eq!(unprivileged.failure, None);
    assert!(unprivileged.support.explicit_sync);
    assert!(!unprivileged.support.egl_display);

    let mut out_of_order = WlDrmInit::begin();
    assert_eq!(out_of_order.step(WlDrmEvent::GbmCreated(true)), WlDrmStage::Done);
    assert_eq!(out_of_order.failure, Some(WlDrmFailure::UnexpectedEvent));
}

#[test]
fn bring_up_results_reach_the_listener() {
    let mut server = WaylandServer::new();
    let unfinished = WlDrmInit::begin();
    let error = server.initialize_wl_drm(&unfinished).unwrap_err();
    assert_eq!(error.kind, ErrorKind::System);
    assert_eq!(error.message, "Hardware bring-up has not finished");
    let mut misdriven = WlDrmInit::begin();
    misdriven.step(WlDrmEvent::NodeOpened(true));
    let error = server.initialize_wl_drm(&misdriven).unwrap_err();
    assert_eq!(error.message, "Hardware bring-up was driven out of order");
    assert_eq!(server.extensions.len(), 32);
    assert_eq!(server.initialize_wl_drm(&finished_bring_up(true)), Ok(()));
    assert!(server.hardware.explicit_sync);
    assert!(server.hardware.device_fd);
    assert_eq!(server.extensions.len(), 33);
    assert_eq!(server.initialize_wl_drm(&finished_bring_up(true)), Ok(()));
    assert_eq!(server.extensions.len(), 33);
    let error = server.start_listening(Err(ListenFailure::Socket("denied".to_string()))).unwrap_err();
    assert_eq!(error, CompositorError::wayland("Failed to create socket: denied"));
    let error = server.start_listening(Err(ListenFailure::Source("full".to_string()))).unwrap_err();
    assert_eq!(error, CompositorError::wayland("Failed to insert socket source: full"));
    assert_eq!(
        ListenerFailure::Display("no memory".to_string()).error(),
        CompositorError::wayland("Failed to create display: no memory")
    );
    assert_eq!(server.socket_name(), None);
    assert_eq!(server.start_listening(Ok("wayland-7".to_string())), Ok(()));
    assert_eq!(server.socket_name(), Some("wayland-7"));
}

#[test]
fn master_capabilities_and_session() {
    assert!(!check_drm_master_capabilities(-1, 0, 0));
    assert!(!check_drm_master_capabilities(-1, -1, 13));
    assert!(check_drm_master_capabilities(0, 0, 0));
    assert!(check_drm_master_capabilities(0, 5, 99));
    assert!(check_drm_master_capabilities(0, -1, 13));
    assert!(check_drm_master_capabilities(0, -1, 1));
    assert!(!check_drm_master_capabilities(0, -1, 2));
    assert_eq!(validate_graphics_session(1), Ok(()));
    let error = validate_graphics_session(0).unwrap_err();
    assert_eq!(error.kind, ErrorKind::System);
    assert!(error.message.starts_with("No DRM devices found."));
}

#[test]
fn journal_lines() {
    let mut logger = CompositorLogger::new("/tmp/custom_compositor_logs", "20240101_120000");
    assert_eq!(logger.session_id(), "compositor_session_20240101_120000");
    assert_eq!(
        logger.log_dir(),
        "/tmp/custom_compositor_logs/compositor_session_20240101_120000"
    );
    logger.log_startup_phase("2024-01-01T12:00:00+00:00", "RENDERER_INIT", "Initializing Vulkan renderer");
    assert_eq!(
        logger.startup_log(),
        &vec![
            "[2024-01-01T12:00:00+00:00] PHASE: RENDERER_INIT - Initializing Vulkan renderer"
                .to_string()
        ]
    );
    logger.log_error("T1", "device lost", "Renderer Initialization");
    assert_eq!(
        logger.error_log(),
        &vec![
            "[T1] ERROR in Renderer Initialization".to_string(),
            "Error: device lost".to_string(),
            "---".to_string(),
        ]
    );

    let mut journal = Some(logger);
    let message = log_startup_phase(&mut journal, "T2", "BACKEND_INIT", "Initializing backend");
    assert_eq!(message, "STARTUP[BACKEND_INIT]: Initializing backend");
    assert_eq!(journal.as_ref().unwrap().startup_log().len(), 2);
    assert_eq!(
        journal.as_ref().unwrap().startup_log()[1],
        "[T2] PHASE: BACKEND_INIT - Initializing backend"
    );
    let message = log_error_with_context(&mut journal, "T3", "boom", "Display Initialization");
    assert_eq!(message, "ERROR in Display Initialization: boom");
    assert_eq!(journal.as_ref().unwrap().error_log().len(), 6);
    assert_eq!(journal.as_ref().unwrap().error_log()[3], "[T3] ERROR in Display Initialization");

    let mut nothing: Option<CompositorLogger> = None;
    assert_eq!(log_startup_phase(&mut nothing, "T", "A", "b"), "STARTUP[A]: b");
    assert_eq!(log_error_with_context(&mut nothing, "T", "e", "c"), "ERROR in c: e");
    assert!(nothing.is_none());
}

#[test]
fn error_constructors() {
    assert_eq!(CompositorError::init("a").kind, ErrorKind::Init);
    assert_eq!(CompositorError::wayland("a").kind, ErrorKind::Wayland);
    assert_eq!(CompositorError::system("a").kind, ErrorKind::System);
    assert_eq!(CompositorError::graphics("a").kind, ErrorKind::Graphics);
    assert_eq!(CompositorError::runtime("a").kind, ErrorKind::Runtime);
    assert_eq!(CompositorError::new(ErrorKind::Init, "x").message, "x");
    assert_eq!(CompositorError::with_detail(ErrorKind::Init, "a: ", "b").message, "a: b");
    assert!(CompositorError::runtime("a").is_recoverable());
    assert!(CompositorError::graphics("a").is_recoverable());
    assert!(!CompositorError::init("a").is_recoverable());
    assert!(!CompositorError::wayland("a").is_recoverable());
    assert!(!CompositorError::system("a").is_recoverable());
}

#[test]
fn command_line_and_system_check() {
    let args = |list: &[&str]| list.iter().map(|a| a.to_string()).collect::<Vec<String>>();
    assert_eq!(parse_command(&args(&[])), Command::Run);
    assert_eq!(parse_command(&args(&["compositor"])), Command::Run);
    assert_eq!(parse_command(&args(&["compositor", "--help"])), Command::Help);
    assert_eq!(parse_command(&args(&["compositor", "-h"])), Command::Help);
    assert_eq!(parse_command(&args(&["compositor", "--version"])), Command::Version);
    assert_eq!(parse_command(&args(&["compositor", "-v"])), Command::Version);
    assert_eq!(parse_command(&args(&["compositor", "--info"])), Command::Info);
    assert_eq!(parse_command(&args(&["compositor", "--check", "--help"])), Command::Check);
    assert_eq!(parse_command(&args(&["compositor", "--bogus"])), Command::Unknown);
    assert_eq!(exit_status(Command::Unknown), 1);
    assert_eq!(exit_status(Command::Check), 0);

    let ready = SystemFindings {
        vulkan_ok: true,
        drm_accessible: true,
        groups: Some((true, true)),
        session_type: Some("wayland".to_string()),
    };
    assert_eq!(
        check_system_requirements(&ready),
        CheckReport {
            vulkan: CheckStatus::Pass,
            drm: CheckStatus::Pass,
            groups: CheckStatus::Pass,
            session: CheckStatus::Pass,
            all_good: true,
        }
    );
    let limited = SystemFindings {
        vulkan_ok: false,
        drm_accessible: false,
        groups: Some((true, false)),
        session_type: Some("x11".to_string()),
    };
    assert_eq!(
        check_system_requirements(&limited),
        CheckReport {
            vulkan: CheckStatus::Fail,
            drm: CheckStatus::Warn,
            groups: CheckStatus::Warn,
            session: CheckStatus::Info,
            all_good: false,
        }
    );
    let unknown =
        SystemFindings { vulkan_ok: true, drm_accessible: false, groups: None, session_type: None };
    let report = check_system_requirements(&unknown);
    assert_eq!(report.groups, CheckStatus::Warn);
    assert_eq!(report.session, CheckStatus::Warn);
    assert!(report.all_good);
}

#[test]
fn popup_parent_is_checked_when_asked() {
    let mut state = WaylandServerState::new();
    state.new_surface(1, 10).unwrap();
    state.new_surface(1, 11).unwrap();
    state.new_toplevel(10).unwrap();
    let positioner = PositionerState {
        width: 5,
        height: 5,
        anchor_x: 0,
        anchor_y: 0,
        anchor_width: 1,
        anchor_height: 1,
        offset_x: 0,
        offset_y: 0,
    };
    state.new_popup(11, 10, positioner).unwrap();
    assert_eq!(state.popup_parent(11), Some(10));
    assert_eq!(state.popup_parent(10), None);
    assert_eq!(state.popup_parent(12), None);
    assert!(state.toplevel_destroyed(10));
    assert_eq!(state.popup_parent(11), None);
    assert!(state.destroy_surface(10));
    assert_eq!(state.popup_parent(11), None);
}
