//! The orchestrator: startup in strict order, the frame tick, shutdown.

use vstd::prelude::*;

use crate::backend::{Backend, BackendType, DeviceProbe, DiscoveredOutput};
use crate::error::CompositorError;
use crate::error::ErrorKind;
use crate::renderer::{RendererInfo, SurfaceTexture, VulkanRenderer};
use crate::server::{
    base_extensions, listen_message, listener_message, ListenFailure, ListenerFailure,
    WaylandServer,
};
use crate::space::visible_ids;
use crate::wayland::WaylandServerState;
use crate::wl_drm::{bring_up_message, WlDrmInit};

verus! {

/// The step of startup that is waited for.
#[derive(Clone, Copy, Debug, PartialEq, Eq, Structural)]
pub enum StartupPhase {
    RendererInit,
    BackendInit,
    DisplayInit,
    ListenerInit,
    WlDrmInit,
    SocketInit,
    /// Every step succeeded.
    Ready,
    /// A step failed or came out of order; startup cannot go on.
    Failed,
}

/// The outcome of one step of startup.
#[derive(Debug)]
pub enum StartupEvent {
    /// The GPU device was opened, or could not be, for the given reason.
    RendererCreated(Result<RendererInfo, String>),
    /// The device nodes and the session were probed.
    DevicesProbed(DeviceProbe),
    /// The outputs were discovered, and a presentation surface was
    /// created for each, or not.
    OutputsDiscovered(Vec<DiscoveredOutput>),
    /// The protocol substrate was set up, or could not be.
    ListenerCreated(Result<(), ListenerFailure>),
    /// The hardware bring-up ended.
    WlDrmFinished(WlDrmInit),
    /// The socket was bound under the given name, or could not be.
    SocketBound(Result<String, ListenFailure>),
}

/// The phase that produces an event.
pub open spec fn expected_phase(event: StartupEvent) -> StartupPhase {
    match event {
        StartupEvent::RendererCreated(_) => StartupPhase::RendererInit,
        StartupEvent::DevicesProbed(_) => StartupPhase::BackendInit,
        StartupEvent::OutputsDiscovered(_) => StartupPhase::DisplayInit,
        StartupEvent::ListenerCreated(_) => StartupPhase::ListenerInit,
        StartupEvent::WlDrmFinished(_) => StartupPhase::WlDrmInit,
        StartupEvent::SocketBound(_) => StartupPhase::SocketInit,
    }
}

/// Whether an event reports success. Probing always does, and so does
/// the discovery of outputs as long as the outputs can be numbered:
/// what they lack degrades the compositor, it does not stop it.
pub open spec fn event_succeeds(event: StartupEvent) -> bool {
    match event {
        StartupEvent::RendererCreated(r) => r is Ok,
        StartupEvent::DevicesProbed(_) => true,
        StartupEvent::OutputsDiscovered(outputs) => outputs@.len() <= u32::MAX,
        StartupEvent::ListenerCreated(r) => r is Ok,
        StartupEvent::WlDrmFinished(init) => WaylandServer::bring_up_succeeded(init),
        StartupEvent::SocketBound(r) => r is Ok,
    }
}

/// The message of the error that a rejected event fails startup with:
/// the step by name, and the cause as far as one was reported.
pub open spec fn failure_message(phase: StartupPhase, event: StartupEvent) -> Seq<char> {
    if phase != expected_phase(event) {
        "Startup step out of order"@
    } else {
        match event {
            StartupEvent::RendererCreated(r) => "Failed to initialize renderer: "@ + r->Err_0@,
            StartupEvent::OutputsDiscovered(_) => "Failed to initialize displays: "@
                + "Too many outputs"@,
            StartupEvent::ListenerCreated(r) => "Failed to initialize Wayland server: "@
                + listener_message(r->Err_0),
            StartupEvent::WlDrmFinished(init) => "Failed to initialize wl_drm protocol: "@
                + bring_up_message(init),
            StartupEvent::SocketBound(r) => "Failed to start Wayland server: "@
                + listen_message(r->Err_0),
            _ => "Startup step out of order"@,
        }
    }
}

/// The phase that follows a phase when its step succeeds.
pub open spec fn phase_following(phase: StartupPhase) -> StartupPhase {
    match phase {
        StartupPhase::RendererInit => StartupPhase::BackendInit,
        StartupPhase::BackendInit => StartupPhase::DisplayInit,
        StartupPhase::DisplayInit => StartupPhase::ListenerInit,
        StartupPhase::ListenerInit => StartupPhase::WlDrmInit,
        StartupPhase::WlDrmInit => StartupPhase::SocketInit,
        StartupPhase::SocketInit => StartupPhase::Ready,
        StartupPhase::Ready => StartupPhase::Ready,
        StartupPhase::Failed => StartupPhase::Failed,
    }
}

/// The position of a phase in the startup order.
pub open spec fn phase_rank(phase: StartupPhase) -> int {
    match phase {
        StartupPhase::RendererInit => 0,
        StartupPhase::BackendInit => 1,
        StartupPhase::DisplayInit => 2,
        StartupPhase::ListenerInit => 3,
        StartupPhase::WlDrmInit => 4,
        StartupPhase::SocketInit => 5,
        StartupPhase::Ready => 6,
        StartupPhase::Failed => 7,
    }
}

/// Startup in progress, with the components created so far.
pub struct Startup {
    pub phase: StartupPhase,
    pub renderer: Option<VulkanRenderer>,
    pub backend: Option<Backend>,
    pub server: Option<WaylandServer>,
}

impl StartupPhase {
    /// The name under which the phase is logged.
    pub fn name(self) -> (n: &'static str)
        ensures
            n@ == match self {
                StartupPhase::RendererInit => "RENDERER_INIT"@,
                StartupPhase::BackendInit => "BACKEND_INIT"@,
                StartupPhase::DisplayInit => "DISPLAY_INIT"@,
                StartupPhase::ListenerInit => "WAYLAND_INIT"@,
                StartupPhase::WlDrmInit => "WL_DRM_INIT"@,
                StartupPhase::SocketInit => "WAYLAND_SOCKET"@,
                StartupPhase::Ready => "MAIN_LOOP"@,
                StartupPhase::Failed => "STARTUP_FAILED"@,
            },
    {
        match self {
            StartupPhase::RendererInit => "RENDERER_INIT",
            StartupPhase::BackendInit => "BACKEND_INIT",
            StartupPhase::DisplayInit => "DISPLAY_INIT",
            StartupPhase::ListenerInit => "WAYLAND_INIT",
            StartupPhase::WlDrmInit => "WL_DRM_INIT",
            StartupPhase::SocketInit => "WAYLAND_SOCKET",
            StartupPhase::Ready => "MAIN_LOOP",
            StartupPhase::Failed => "STARTUP_FAILED",
        }
    }
}

impl Startup {
    /// The invariant of startup: each component exists from the phase
    /// after the one that creates it. The renderer moves into the store
    /// when the socket is bound.
    pub open spec fn wf(&self) -> bool {
        let rank = phase_rank(self.phase);
        &&& (1 <= rank <= 5 ==> self.renderer is Some)
        &&& (rank == 0 || rank == 6 ==> self.renderer is None)
        &&& (2 <= rank <= 6 ==> self.backend is Some && self.backend->Some_0.wf())
        &&& (rank <= 1 ==> self.backend is None)
        &&& (4 <= rank <= 6 ==> self.server is Some && self.server->Some_0.wf())
        &&& (rank <= 3 ==> self.server is None)
        &&& (rank == 6 ==> self.server->Some_0.state.renderer is Some
            && self.server->Some_0.state.socket_name is Some)
    }

    /// Startup before its first step.
    pub fn begin() -> (s: Self)
        ensures
            s.wf(),
            s.phase == StartupPhase::RendererInit,
            s.renderer is None,
            s.backend is None,
            s.server is None,
    {
        Startup { phase: StartupPhase::RendererInit, renderer: None, backend: None, server: None }
    }

    /// What a successful step leaves, by event.
    pub open spec fn advanced(before: Self, after: Self, event: StartupEvent) -> bool {
        match event {
            StartupEvent::RendererCreated(r) => {
                &&& after.renderer is Some
                &&& after.renderer->Some_0.info == r->Ok_0
                &&& after.renderer->Some_0.swapchain is None
                &&& after.renderer->Some_0.textures_view() == Map::<u32, SurfaceTexture>::empty()
                &&& after.backend == before.backend
                &&& after.server == before.server
            },
            StartupEvent::DevicesProbed(probe) => {
                &&& Backend::initialized(
                    Ok::<Backend, CompositorError>(after.backend->Some_0),
                    BackendType::Auto,
                    probe,
                )
                &&& after.renderer == before.renderer
                &&& after.server == before.server
            },
            StartupEvent::OutputsDiscovered(outputs) => {
                let backend_type = before.backend->Some_0.spec_backend_type();
                &&& after.backend->Some_0.spec_backend_type() == backend_type
                &&& after.backend->Some_0.spec_device_path()
                    == before.backend->Some_0.spec_device_path()
                &&& after.backend->Some_0.spec_displays() == Backend::initialized_displays(
                    backend_type,
                    outputs@,
                )
                &&& after.backend->Some_0.spec_primary() == Backend::initialized_primary(
                    backend_type,
                    outputs@,
                )
                &&& after.renderer == Some(
                    Backend::initialized_renderer(backend_type, before.renderer->Some_0, outputs@),
                )
                &&& after.server == before.server
            },
            StartupEvent::ListenerCreated(_) => {
                &&& after.server->Some_0.extensions@ == base_extensions()
                &&& after.server->Some_0.state.surfaces@.len() == 0
                &&& after.server->Some_0.state.space@.len() == 0
                &&& after.renderer == before.renderer
                &&& after.backend == before.backend
            },
            StartupEvent::WlDrmFinished(init) => {
                &&& after.server->Some_0.hardware == init.support
                &&& after.server->Some_0.state == before.server->Some_0.state
                &&& after.renderer == before.renderer
                &&& after.backend == before.backend
            },
            StartupEvent::SocketBound(r) => {
                &&& after.server->Some_0.state == (WaylandServerState {
                    socket_name: Some(r->Ok_0),
                    renderer: before.renderer,
                    ..before.server->Some_0.state
                })
                &&& after.server->Some_0.hardware == before.server->Some_0.hardware
                &&& after.server->Some_0.extensions == before.server->Some_0.extensions
                &&& after.renderer is None
                &&& after.backend == before.backend
            },
        }
    }

    /// Takes the outcome of one step of startup.
    ///
    /// The steps come in a strict order: renderer, backend, outputs,
    /// listener, hardware bring-up, socket. An outcome is accepted only
    /// in the phase that produces it. A step that succeeds moves startup
    /// to the next phase, which is returned. A step that fails, and one
    /// that comes out of order, fail startup for good with an init error
    /// that names the step.
    pub fn advance(&mut self, event: StartupEvent) -> (r: Result<StartupPhase, CompositorError>)
        requires
            old(self).wf(),
        ensures
            final(self).wf(),
            r is Ok <==> old(self).phase == expected_phase(event) && event_succeeds(event),
            r is Ok ==> r->Ok_0 == final(self).phase && final(self).phase == phase_following(
                old(self).phase,
            ) && Self::advanced(*old(self), *final(self), event),
            r is Err ==> final(self).phase == StartupPhase::Failed && r->Err_0.kind
                == ErrorKind::Init,
            r is Err ==> r->Err_0.message@ == failure_message(old(self).phase, event),
    {
        match (self.phase, event) {
            (StartupPhase::RendererInit, StartupEvent::RendererCreated(outcome)) => {
                match outcome {
                    Ok(info) => {
                        self.renderer = Some(VulkanRenderer::new(info));
                        self.phase = StartupPhase::BackendInit;
                        Ok(StartupPhase::BackendInit)
                    },
                    Err(reason) => {
                        self.phase = StartupPhase::Failed;
                        Err(
                            CompositorError::with_detail(
                                ErrorKind::Init,
                                "Failed to initialize renderer: ",
                                reason.as_str(),
                            ),
                        )
                    },
                }
            },
            (StartupPhase::BackendInit, StartupEvent::DevicesProbed(probe)) => {
                match Backend::new(&probe) {
                    Ok(backend) => {
                        self.backend = Some(backend);
                        self.phase = StartupPhase::DisplayInit;
                        Ok(StartupPhase::DisplayInit)
                    },
                    Err(e) => {
                        self.phase = StartupPhase::Failed;
                        Err(
                            CompositorError::with_detail(
                                ErrorKind::Init,
                                "Failed to initialize backend: ",
                                e.message.as_str(),
                            ),
                        )
                    },
                }
            },
            (StartupPhase::DisplayInit, StartupEvent::OutputsDiscovered(outputs)) => {
                if outputs.len() > u32::MAX as usize {
                    self.phase = StartupPhase::Failed;
                    return Err(
                        CompositorError::with_detail(
                            ErrorKind::Init,
                            "Failed to initialize displays: ",
                            "Too many outputs",
                        ),
                    );
                }
                let mut renderer: Option<VulkanRenderer> = None;
                core::mem::swap(&mut renderer, &mut self.renderer);
                let mut backend: Option<Backend> = None;
                core::mem::swap(&mut backend, &mut self.backend);
                match (renderer, backend) {
                    (Some(mut r), Some(mut b)) => {
                        let _ = b.initialize_displays(&mut r, &outputs);
                        self.renderer = Some(r);
                        self.backend = Some(b);
                        self.phase = StartupPhase::ListenerInit;
                        Ok(StartupPhase::ListenerInit)
                    },
                    _ => {
                        self.phase = StartupPhase::Failed;
                        Err(CompositorError::init("Failed to initialize displays"))
                    },
                }
            },
            (StartupPhase::ListenerInit, StartupEvent::ListenerCreated(outcome)) => {
                match outcome {
                    Ok(_) => {
                        self.server = Some(WaylandServer::new());
                        self.phase = StartupPhase::WlDrmInit;
                        Ok(StartupPhase::WlDrmInit)
                    },
                    Err(failure) => {
                        self.phase = StartupPhase::Failed;
                        let cause = failure.error();
                        Err(
                            CompositorError::with_detail(
                                ErrorKind::Init,
                                "Failed to initialize Wayland server: ",
                                cause.message.as_str(),
                            ),
                        )
                    },
                }
            },
            (StartupPhase::WlDrmInit, StartupEvent::WlDrmFinished(init)) => {
                let mut server: Option<WaylandServer> = None;
                core::mem::swap(&mut server, &mut self.server);
                match server {
                    Some(mut s) => {
                        match s.initialize_wl_drm(&init) {
                            Ok(_) => {
                                self.server = Some(s);
                                self.phase = StartupPhase::SocketInit;
                                Ok(StartupPhase::SocketInit)
                            },
                            Err(e) => {
                                self.server = Some(s);
                                self.phase = StartupPhase::Failed;
                                Err(
                                    CompositorError::with_detail(
                                        ErrorKind::Init,
                                        "Failed to initialize wl_drm protocol: ",
                                        e.message.as_str(),
                                    ),
                                )
                            },
                        }
                    },
                    None => {
                        self.phase = StartupPhase::Failed;
                        Err(CompositorError::init("Failed to initialize wl_drm protocol"))
                    },
                }
            },
            (StartupPhase::SocketInit, StartupEvent::SocketBound(outcome)) => {
                let mut server: Option<WaylandServer> = None;
                core::mem::swap(&mut server, &mut self.server);
                let mut renderer: Option<VulkanRenderer> = None;
                core::mem::swap(&mut renderer, &mut self.renderer);
                match (server, renderer) {
                    (Some(mut s), Some(r)) => {
                        match s.start_listening(outcome) {
                            Ok(_) => {
                                s.set_renderer(r);
                                self.server = Some(s);
                                self.phase = StartupPhase::Ready;
                                Ok(StartupPhase::Ready)
                            },
                            Err(e) => {
                                self.server = Some(s);
                                self.renderer = Some(r);
                                self.phase = StartupPhase::Failed;
                                Err(
                                    CompositorError::with_detail(
                                        ErrorKind::Init,
                                        "Failed to start Wayland server: ",
                                        e.message.as_str(),
                                    ),
                                )
                            },
                        }
                    },
                    _ => {
                        self.phase = StartupPhase::Failed;
                        Err(CompositorError::init("Failed to start Wayland server"))
                    },
                }
            },
            _ => {
                self.phase = StartupPhase::Failed;
                Err(CompositorError::init("Startup step out of order"))
            },
        }
    }
}

/// Startup is strictly ordered: a step is accepted only in its own
/// phase, success moves exactly one phase ahead, and `Ready` is six
/// successful steps from the beginning. `Failed` is never left.
pub proof fn lemma_startup_order(phase: StartupPhase, event: StartupEvent)
    ensures
        phase == expected_phase(event) ==> phase_rank(phase_following(phase)) == phase_rank(phase)
            + 1,
        phase_rank(expected_phase(event)) <= 5,
        phase == StartupPhase::Failed ==> phase != expected_phase(event),
        phase == StartupPhase::Ready ==> phase != expected_phase(event),
        phase_following(StartupPhase::Failed) == StartupPhase::Failed,
        phase_rank(StartupPhase::Ready) == 6,
{
}

/// The step of a frame that is waited for.
#[derive(Clone, Copy, Debug, PartialEq, Eq, Structural)]
pub enum FrameStage {
    /// No frame is in progress.
    Idle,
    /// An image was asked of the presentation engine.
    AwaitImage,
    /// The draw work was handed out for submission and presentation.
    AwaitPresent,
}

/// What the background loop is told.
#[derive(Clone, Copy, Debug, PartialEq, Eq, Structural)]
pub enum TickEvent {
    /// A new tick begins.
    Start,
    /// The presentation engine handed out an image, or none.
    ImageAcquired(Option<u32>),
    /// The frame was submitted; the flag says whether it was presented.
    Presented(bool),
}

/// What the background loop does next.
#[derive(Debug)]
pub enum TickAction {
    /// Leave the loop.
    Stop,
    /// Sleep, then start the next tick. `report_frame` is set when the
    /// frame just presented is one to report progress on.
    Sleep { millis: u32, report_frame: Option<u64> },
    /// Ask the presentation engine for the next image.
    AcquireImage,
    /// Draw the listed surfaces, back to front, into the image, and
    /// present it.
    Submit { frame_slot: usize, image_index: u32, draw_list: Vec<u32> },
}

/// Time between two ticks of the background loop: one frame at 60 Hz.
pub const TICK_INTERVAL_MS: u32 = 16;

/// Progress is reported once in this many frames.
pub const FRAME_REPORT_INTERVAL: u64 = 300;

/// The running compositor.
pub struct Compositor {
    pub wayland_server: WaylandServer,
    pub backend: Backend,
    /// Cleared by shutdown; the background loop reads it once per tick.
    pub running: bool,
    /// Frames presented so far; saturating.
    pub frame_count: u64,
    pub stage: FrameStage,
}

/// The frame counter after one more frame.
pub open spec fn next_frame_count(count: u64) -> u64 {
    if count < u64::MAX {
        (count + 1) as u64
    } else {
        count
    }
}

/// The frame to report, if the counter says it is time.
pub open spec fn frame_report(count: u64) -> Option<u64> {
    if count % FRAME_REPORT_INTERVAL == 0 {
        Some(count)
    } else {
        None
    }
}

impl Compositor {
    /// The invariant of the compositor: that of its parts.
    pub open spec fn wf(&self) -> bool {
        self.wayland_server.wf() && self.backend.wf()
    }

    /// Whether there is a primary output that is connected.
    pub open spec fn presentable(&self) -> bool {
        self.backend.spec_primary() is Some
            && self.backend.spec_displays()[self.backend.spec_primary()->Some_0].connected
    }

    /// The renderer of the store.
    pub open spec fn renderer(&self) -> Option<VulkanRenderer> {
        self.wayland_server.state.renderer
    }

    /// Whether a frame can be drawn into the acquired image: there is a
    /// renderer with a swapchain that the image is part of, and drawing
    /// resources for it.
    pub open spec fn frame_drawable(&self, acquired: Option<u32>) -> bool {
        &&& self.renderer() is Some
        &&& self.renderer()->Some_0.swapchain is Some
        &&& acquired is Some
        &&& acquired->Some_0 < self.renderer()->Some_0.swapchain->Some_0.image_count
        &&& self.renderer()->Some_0.compositor_renderer is Some
        &&& 0 < self.renderer()->Some_0.compositor_renderer->Some_0.image_count
        &&& acquired->Some_0 < self.renderer()->Some_0.compositor_renderer->Some_0.image_count
    }

    /// The compositor with another renderer state and frame stage.
    pub open spec fn with_frame(
        before: Self,
        renderer: Option<VulkanRenderer>,
        stage: FrameStage,
    ) -> Self {
        Compositor {
            wayland_server: WaylandServer {
                state: WaylandServerState { renderer, ..before.wayland_server.state },
                ..before.wayland_server
            },
            stage,
            ..before
        }
    }

    /// The renderer with its acquired image set or given up.
    pub open spec fn renderer_holding(
        renderer: Option<VulkanRenderer>,
        image: Option<u32>,
    ) -> Option<VulkanRenderer> {
        match renderer {
            Some(r) => Some(VulkanRenderer { acquired_image: image, ..r }),
            None => None,
        }
    }

    /// Takes over the components of a finished startup and starts
    /// running.
    ///
    /// Fails with an init error exactly when startup is not `Ready`.
    pub fn new(startup: Startup) -> (r: Result<Self, CompositorError>)
        requires
            startup.wf(),
        ensures
            r is Ok <==> startup.phase == StartupPhase::Ready,
            r is Err ==> r->Err_0.kind == ErrorKind::Init && r->Err_0.message@
                == "Startup has not completed"@,
            r is Ok ==> {
                let c = r->Ok_0;
                &&& c.wf()
                &&& c.wayland_server == startup.server->Some_0
                &&& c.backend == startup.backend->Some_0
                &&& c.running
                &&& c.frame_count == 0
                &&& c.stage == FrameStage::Idle
            },
    {
        match startup.phase {
            StartupPhase::Ready => {},
            _ => { return Err(CompositorError::init("Startup has not completed")); },
        }
        match (startup.server, startup.backend) {
            (Some(wayland_server), Some(backend)) => {
                proof {
                    backend.lemma_wf();
                }
                Ok(
                    Compositor {
                        wayland_server,
                        backend,
                        running: true,
                        frame_count: 0,
                        stage: FrameStage::Idle,
                    },
                )
            },
            _ => Err(CompositorError::init("Startup has not completed")),
        }
    }

    /// The name of the socket that clients connect to.
    pub fn wayland_socket_name(&self) -> (name: Option<&str>)
        ensures
            match name {
                Some(n) => self.wayland_server.state.socket_name is Some
                    && self.wayland_server.state.socket_name->Some_0@ == n@,
                None => self.wayland_server.state.socket_name is None,
            },
    {
        self.wayland_server.socket_name()
    }

    /// Whether the primary output is there and connected.
    pub fn has_presentable_display(&self) -> (r: bool)
        requires
            self.wf(),
        ensures
            r == self.presentable(),
    {
        match self.backend.primary_display() {
            Some(d) => d.connected,
            None => false,
        }
    }

    /// One decision of the background loop.
    ///
    /// A tick starts with `Start`: the loop stops if the compositor no
    /// longer runs; else it pumps the backend and, if a primary output
    /// is connected, asks for an image. With the image, the draw list of
    /// the mapped windows is handed out; with the presentation result,
    /// the frame is counted. Whatever fails on the way ends the tick
    /// without a frame, and the loop sleeps until the next one: no
    /// renderer failure stops the loop.
    pub fn tick(&mut self, event: TickEvent) -> (action: TickAction)
        requires
            old(self).wf(),
        ensures
            final(self).wf(),
            final(self).backend == old(self).backend,
            final(self).running == old(self).running,
            Self::ticked(*old(self), *final(self), event, action),
    {
        match (self.stage, event) {
            (FrameStage::Idle, TickEvent::Start) => {
                if !self.running {
                    return TickAction::Stop;
                }
                let _ = self.backend.process_events();
                if self.has_presentable_display() {
                    self.stage = FrameStage::AwaitImage;
                    TickAction::AcquireImage
                } else {
                    TickAction::Sleep { millis: TICK_INTERVAL_MS, report_frame: None }
                }
            },
            (FrameStage::AwaitImage, TickEvent::ImageAcquired(acquired)) => {
                let stacking = self.wayland_server.state.stacking_order();
                let drawn = match &mut self.wayland_server.state.renderer {
                    Some(r) => {
                        match r.begin_frame(acquired) {
                            Ok(image_index) => {
                                match r.render_frame(0, image_index, &stacking) {
                                    Ok(draw_list) => Some((image_index, draw_list)),
                                    Err(_) => {
                                        let _ = r.end_frame(false);
                                        None
                                    },
                                }
                            },
                            Err(_) => {
                                let _ = r.end_frame(false);
                                None
                            },
                        }
                    },
                    None => None,
                };
                match drawn {
                    Some((image_index, draw_list)) => {
                        self.stage = FrameStage::AwaitPresent;
                        TickAction::Submit { frame_slot: 0, image_index, draw_list }
                    },
                    None => {
                        self.stage = FrameStage::Idle;
                        TickAction::Sleep { millis: TICK_INTERVAL_MS, report_frame: None }
                    },
                }
            },
            (FrameStage::AwaitPresent, TickEvent::Presented(presented)) => {
                match &mut self.wayland_server.state.renderer {
                    Some(r) => {
                        let _ = r.end_frame(presented);
                    },
                    None => {},
                }
                if self.frame_count < u64::MAX {
                    self.frame_count = self.frame_count + 1;
                }
                self.stage = FrameStage::Idle;
                let report_frame = if self.frame_count % FRAME_REPORT_INTERVAL == 0 {
                    Some(self.frame_count)
                } else {
                    None
                };
                TickAction::Sleep { millis: TICK_INTERVAL_MS, report_frame }
            },
            _ => {
                self.stage = FrameStage::Idle;
                TickAction::Sleep { millis: TICK_INTERVAL_MS, report_frame: None }
            },
        }
    }

    /// What one decision of the background loop leaves and answers.
    pub open spec fn ticked(before: Self, after: Self, event: TickEvent, action: TickAction) -> bool {
        match (before.stage, event) {
            (FrameStage::Idle, TickEvent::Start) => if !before.running {
                action is Stop && after == before
            } else if before.presentable() {
                action is AcquireImage && after == (Compositor {
                    stage: FrameStage::AwaitImage,
                    ..before
                })
            } else {
                action == (TickAction::Sleep { millis: TICK_INTERVAL_MS, report_frame: None })
                    && after == before
            },
            (FrameStage::AwaitImage, TickEvent::ImageAcquired(acquired)) => if before.frame_drawable(
                acquired,
            ) {
                &&& action is Submit
                &&& action->frame_slot == 0
                &&& action->image_index == acquired->Some_0
                &&& action->draw_list@
                    == before.renderer()->Some_0.compositor_renderer->Some_0.draw_list(
                    visible_ids(
                        before.wayland_server.state.surfaces@,
                        before.wayland_server.state.space@,
                    ),
                )
                &&& after == Self::with_frame(
                    before,
                    Self::renderer_holding(before.renderer(), acquired),
                    FrameStage::AwaitPresent,
                )
            } else {
                &&& action == (TickAction::Sleep { millis: TICK_INTERVAL_MS, report_frame: None })
                &&& after == Self::with_frame(
                    before,
                    Self::renderer_holding(before.renderer(), None),
                    FrameStage::Idle,
                )
            },
            (FrameStage::AwaitPresent, TickEvent::Presented(_)) => {
                &&& action == (TickAction::Sleep {
                    millis: TICK_INTERVAL_MS,
                    report_frame: frame_report(next_frame_count(before.frame_count)),
                })
                &&& after == (Compositor {
                    frame_count: next_frame_count(before.frame_count),
                    ..Self::with_frame(
                        before,
                        Self::renderer_holding(before.renderer(), None),
                        FrameStage::Idle,
                    )
                })
            },
            _ => {
                &&& action == (TickAction::Sleep { millis: TICK_INTERVAL_MS, report_frame: None })
                &&& after == (Compositor { stage: FrameStage::Idle, ..before })
            },
        }
    }

    /// Stops the compositor: the running flag is cleared and the
    /// dispatch loop is asked to stop. The background loop stops at its
    /// next tick; a frame in progress is finished first. Shutting down
    /// twice is the same as shutting down once.
    pub fn shutdown(&mut self) -> (r: Result<(), CompositorError>)
        requires
            old(self).wf(),
        ensures
            r is Ok,
            final(self).wf(),
            !final(self).running,
            final(self).wayland_server.dispatch.stop_requested,
            *final(self) == (Compositor {
                running: false,
                wayland_server: WaylandServer {
                    dispatch: crate::server::DispatchLoop {
                        stop_requested: true,
                        ..old(self).wayland_server.dispatch
                    },
                    ..old(self).wayland_server
                },
                ..*old(self)
            }),
    {
        self.running = false;
        self.wayland_server.shutdown()
    }

    /// The result of a run that has ended: the error of the dispatch
    /// loop, if a step of it failed.
    pub fn finish(&self) -> (r: Result<(), CompositorError>)
        ensures
            r is Err <==> self.wayland_server.dispatch.failed is Some,
            r is Err ==> r->Err_0.kind == ErrorKind::Wayland && r->Err_0.message@
                == WaylandServer::dispatch_message(
                self.wayland_server.dispatch.failed->Some_0,
                self.wayland_server.failure_cause@,
            ),
    {
        self.wayland_server.pending_error()
    }
}

/// After shutdown the background loop stops at the start of its next
/// tick, and a frame in progress is at most two decisions from there:
/// every decision on an image leads to presentation or to idle, and
/// every decision on a presentation leads to idle.
pub proof fn lemma_shutdown_stops(
    before: Compositor,
    after: Compositor,
    event: TickEvent,
    action: TickAction,
)
    requires
        Compositor::ticked(before, after, event, action),
    ensures
        !before.running && before.stage == FrameStage::Idle && event == TickEvent::Start
            ==> action is Stop,
        before.stage == FrameStage::AwaitImage ==> after.stage == FrameStage::AwaitPresent
            || after.stage == FrameStage::Idle,
        before.stage == FrameStage::AwaitPresent ==> after.stage == FrameStage::Idle,
        action is Stop ==> !before.running,
        after.running == before.running,
{
}

} // verus!
