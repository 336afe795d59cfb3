//! The protocol listener: the extensions it offers, its socket, and the
//! decisions of its dispatch loop.

use vstd::prelude::*;

use crate::error::CompositorError;
use crate::error::ErrorKind;
use crate::renderer::VulkanRenderer;
use crate::wayland::{OutputMode, Seat, WaylandServerState};
use crate::wl_drm::{bring_up_message, no_support, HardwareSupport, WlDrmInit, WlDrmStage};

verus! {

/// A category of protocol objects that the listener offers to clients.
#[derive(Clone, Copy, Debug, PartialEq, Eq, Structural)]
pub enum ProtocolExtension {
    Compositor,
    XdgShell,
    LayerShell,
    Shm,
    Dmabuf,
    Output,
    RelativePointer,
    PointerConstraints,
    Presentation,
    PrimarySelection,
    DataDevice,
    XdgDecoration,
    XdgForeign,
    TabletManager,
    Viewporter,
    FractionalScale,
    ContentType,
    AlphaModifier,
    SinglePixelBuffer,
    CursorShape,
    CommitTiming,
    Fifo,
    IdleInhibit,
    KeyboardShortcutsInhibit,
    PointerGestures,
    VirtualKeyboard,
    TextInput,
    InputMethod,
    SessionLock,
    SecurityContext,
    XdgActivation,
    ForeignToplevelList,
    /// Explicit synchronization; offered only on a device that has it.
    DrmSyncobj,
}

/// The extensions that every listener offers, in the order in which
/// they are registered.
pub open spec fn base_extensions() -> Seq<ProtocolExtension> {
    seq![
        ProtocolExtension::Compositor,
        ProtocolExtension::XdgShell,
        ProtocolExtension::LayerShell,
        ProtocolExtension::Shm,
        ProtocolExtension::Dmabuf,
        ProtocolExtension::Output,
        ProtocolExtension::RelativePointer,
        ProtocolExtension::PointerConstraints,
        ProtocolExtension::Presentation,
        ProtocolExtension::PrimarySelection,
        ProtocolExtension::DataDevice,
        ProtocolExtension::XdgDecoration,
        ProtocolExtension::XdgForeign,
        ProtocolExtension::Viewporter,
        ProtocolExtension::FractionalScale,
        ProtocolExtension::TabletManager,
        ProtocolExtension::ContentType,
        ProtocolExtension::AlphaModifier,
        ProtocolExtension::SinglePixelBuffer,
        ProtocolExtension::CursorShape,
        ProtocolExtension::CommitTiming,
        ProtocolExtension::Fifo,
        ProtocolExtension::IdleInhibit,
        ProtocolExtension::KeyboardShortcutsInhibit,
        ProtocolExtension::PointerGestures,
        ProtocolExtension::VirtualKeyboard,
        ProtocolExtension::TextInput,
        ProtocolExtension::InputMethod,
        ProtocolExtension::SessionLock,
        ProtocolExtension::SecurityContext,
        ProtocolExtension::XdgActivation,
        ProtocolExtension::ForeignToplevelList,
    ]
}

/// Why the protocol substrate could not be set up.
#[derive(Debug, PartialEq, Eq)]
pub enum ListenerFailure {
    /// No event loop could be created, for the cause given.
    EventLoop(String),
    /// No display could be created, for the cause given.
    Display(String),
}

/// Why the listener does not listen.
#[derive(Debug, PartialEq, Eq)]
pub enum ListenFailure {
    /// No socket could be bound, for the cause given.
    Socket(String),
    /// The socket could not be added to the event loop, for the cause
    /// given.
    Source(String),
}

/// What is said of a substrate that could not be set up.
pub open spec fn listener_message(failure: ListenerFailure) -> Seq<char> {
    match failure {
        ListenerFailure::EventLoop(cause) => "Failed to create event loop: "@ + cause@,
        ListenerFailure::Display(cause) => "Failed to create display: "@ + cause@,
    }
}

/// What is said of a listener that does not listen.
pub open spec fn listen_message(failure: ListenFailure) -> Seq<char> {
    match failure {
        ListenFailure::Socket(cause) => "Failed to create socket: "@ + cause@,
        ListenFailure::Source(cause) => "Failed to insert socket source: "@ + cause@,
    }
}

impl ListenerFailure {
    /// The listener error that tells of this failure.
    pub fn error(&self) -> (e: CompositorError)
        ensures
            e.kind == ErrorKind::Wayland,
            e.message@ == listener_message(*self),
    {
        match self {
            ListenerFailure::EventLoop(cause) => CompositorError::with_detail(
                ErrorKind::Wayland,
                "Failed to create event loop: ",
                cause.as_str(),
            ),
            ListenerFailure::Display(cause) => CompositorError::with_detail(
                ErrorKind::Wayland,
                "Failed to create display: ",
                cause.as_str(),
            ),
        }
    }
}

impl ListenFailure {
    /// The listener error that tells of this failure.
    pub fn error(&self) -> (e: CompositorError)
        ensures
            e.kind == ErrorKind::Wayland,
            e.message@ == listen_message(*self),
    {
        match self {
            ListenFailure::Socket(cause) => CompositorError::with_detail(
                ErrorKind::Wayland,
                "Failed to create socket: ",
                cause.as_str(),
            ),
            ListenFailure::Source(cause) => CompositorError::with_detail(
                ErrorKind::Wayland,
                "Failed to insert socket source: ",
                cause.as_str(),
            ),
        }
    }
}

/// The step of the dispatch loop whose outcome is awaited.
#[derive(Clone, Copy, Debug, PartialEq, Eq, Structural)]
pub enum DispatchPhase {
    DispatchClients,
    FlushClients,
    PumpEvents,
}

/// What the dispatch loop does next.
#[derive(Clone, Copy, Debug, PartialEq, Eq, Structural)]
pub enum DispatchAction {
    /// Dispatch the pending messages of the clients.
    DispatchClients,
    /// Flush the outgoing messages.
    FlushClients,
    /// Pump the event source, waiting at most this long, then yield.
    PumpEvents { timeout_ms: u32 },
    /// Leave the loop.
    Stop,
}

/// Longest wait of one pump of the event source: one frame at 60 Hz.
pub const DISPATCH_TIMEOUT_MS: u32 = 16;

/// The state of the dispatch loop.
#[derive(Clone, Copy, Debug, PartialEq, Eq, Structural)]
pub struct DispatchLoop {
    pub phase: DispatchPhase,
    /// Shutdown was asked for.
    pub stop_requested: bool,
    /// The step that failed, once one did.
    pub failed: Option<DispatchPhase>,
}

/// The action that asks for the step of a phase.
pub open spec fn action_of(phase: DispatchPhase) -> DispatchAction {
    match phase {
        DispatchPhase::DispatchClients => DispatchAction::DispatchClients,
        DispatchPhase::FlushClients => DispatchAction::FlushClients,
        DispatchPhase::PumpEvents => DispatchAction::PumpEvents { timeout_ms: DISPATCH_TIMEOUT_MS },
    }
}

/// The phase that follows a phase: dispatch, flush, pump, and again.
pub open spec fn phase_after(phase: DispatchPhase) -> DispatchPhase {
    match phase {
        DispatchPhase::DispatchClients => DispatchPhase::FlushClients,
        DispatchPhase::FlushClients => DispatchPhase::PumpEvents,
        DispatchPhase::PumpEvents => DispatchPhase::DispatchClients,
    }
}

/// The loop after the outcome of its current step, and what it does
/// next: it stops once a stop was requested or a step has failed, and
/// otherwise goes on with the next step.
pub open spec fn dispatch_next(l: DispatchLoop, ok: bool) -> (DispatchLoop, DispatchAction) {
    if l.failed is Some {
        (l, DispatchAction::Stop)
    } else if !ok {
        (DispatchLoop { failed: Some(l.phase), ..l }, DispatchAction::Stop)
    } else if l.stop_requested {
        (l, DispatchAction::Stop)
    } else {
        (DispatchLoop { phase: phase_after(l.phase), ..l }, action_of(phase_after(l.phase)))
    }
}

/// The protocol listener.
pub struct WaylandServer {
    pub state: WaylandServerState,
    /// The extensions offered to clients, in registration order.
    pub extensions: Vec<ProtocolExtension>,
    /// What the hardware bring-up achieved.
    pub hardware: HardwareSupport,
    pub dispatch: DispatchLoop,
    /// The cause of the step of the dispatch loop that failed; empty
    /// while none has.
    pub failure_cause: String,
}

impl WaylandServer {
    /// The invariant of the listener: that of its store.
    pub open spec fn wf(&self) -> bool {
        self.state.wf()
    }

    /// A listener with an empty store that offers the base extensions,
    /// has no hardware support, no socket, and whose loop has not run.
    pub fn new() -> (server: Self)
        ensures
            server.wf(),
            server.state.surfaces@.len() == 0,
            server.state.space@.len() == 0,
            server.state.socket_name is None,
            server.state.renderer is None,
            server.state.seat == (Seat {
                keyboard_focus: None,
                pointer_focus: None,
                touch_focus: None,
            }),
            server.state.serial == 0,
            server.state.output == (OutputMode {
                width: 3840,
                height: 2160,
                refresh: 60_000,
                x: 0,
                y: 0,
            }),
            server.extensions@ == base_extensions(),
            server.hardware == no_support(),
            server.dispatch == (DispatchLoop {
                phase: DispatchPhase::DispatchClients,
                stop_requested: false,
                failed: None,
            }),
            server.failure_cause@ == Seq::<char>::empty(),
    {
        let extensions = vec![
            ProtocolExtension::Compositor,
            ProtocolExtension::XdgShell,
            ProtocolExtension::LayerShell,
            ProtocolExtension::Shm,
            ProtocolExtension::Dmabuf,
            ProtocolExtension::Output,
            ProtocolExtension::RelativePointer,
            ProtocolExtension::PointerConstraints,
            ProtocolExtension::Presentation,
            ProtocolExtension::PrimarySelection,
            ProtocolExtension::DataDevice,
            ProtocolExtension::XdgDecoration,
            ProtocolExtension::XdgForeign,
            ProtocolExtension::Viewporter,
            ProtocolExtension::FractionalScale,
            ProtocolExtension::TabletManager,
            ProtocolExtension::ContentType,
            ProtocolExtension::AlphaModifier,
            ProtocolExtension::SinglePixelBuffer,
            ProtocolExtension::CursorShape,
            ProtocolExtension::CommitTiming,
            ProtocolExtension::Fifo,
            ProtocolExtension::IdleInhibit,
            ProtocolExtension::KeyboardShortcutsInhibit,
            ProtocolExtension::PointerGestures,
            ProtocolExtension::VirtualKeyboard,
            ProtocolExtension::TextInput,
            ProtocolExtension::InputMethod,
            ProtocolExtension::SessionLock,
            ProtocolExtension::SecurityContext,
            ProtocolExtension::XdgActivation,
            ProtocolExtension::ForeignToplevelList,
        ];
        proof {
            assert(extensions@ =~= base_extensions());
        }
        WaylandServer {
            state: WaylandServerState::new(),
            extensions,
            hardware: HardwareSupport {
                drm_node: None,
                device_fd: false,
                explicit_sync: false,
                egl_display: false,
            },
            dispatch: DispatchLoop {
                phase: DispatchPhase::DispatchClients,
                stop_requested: false,
                failed: None,
            },
            failure_cause: String::new(),
        }
    }

    /// What the listener says of a failed step of its loop.
    pub open spec fn dispatch_message(phase: DispatchPhase, cause: Seq<char>) -> Seq<char> {
        match phase {
            DispatchPhase::DispatchClients => "Error dispatching clients: "@ + cause,
            DispatchPhase::FlushClients => "Error flushing clients: "@ + cause,
            DispatchPhase::PumpEvents => "Event loop error: "@ + cause,
        }
    }

    /// Whether a bring-up ended without failure.
    pub open spec fn bring_up_succeeded(init: WlDrmInit) -> bool {
        init.stage == WlDrmStage::Done && init.failure is None
    }

    /// Takes over what a finished hardware bring-up achieved. Explicit
    /// synchronization joins the offered extensions when the device has
    /// it and it is not offered yet.
    ///
    /// Fails with a system error, changing nothing, exactly when the
    /// bring-up has not ended or ended in failure.
    pub fn initialize_wl_drm(&mut self, init: &WlDrmInit) -> (r: Result<(), CompositorError>)
        ensures
            r is Ok <==> Self::bring_up_succeeded(*init),
            r is Err ==> *final(self) == *old(self) && r->Err_0.kind == ErrorKind::System
                && r->Err_0.message@ == bring_up_message(*init),
            r is Ok ==> *final(self) == (WaylandServer {
                hardware: init.support,
                extensions: final(self).extensions,
                ..*old(self)
            }) && final(self).extensions@ == if init.support.explicit_sync && !old(
                self,
            ).hardware.explicit_sync {
                old(self).extensions@.push(ProtocolExtension::DrmSyncobj)
            } else {
                old(self).extensions@
            },
    {
        match init.error() {
            Some(e) => { return Err(e); },
            None => {},
        }
        if init.support.explicit_sync && !self.hardware.explicit_sync {
            self.extensions.push(ProtocolExtension::DrmSyncobj);
        }
        self.hardware = init.support;
        Ok(())
    }

    /// Records the socket that clients connect to. `socket` is the name
    /// of the socket that was bound and added to the event loop, or why
    /// that failed.
    ///
    /// Fails with a listener error, changing nothing, exactly when the
    /// listener does not listen; the message names the step and its
    /// cause.
    pub fn start_listening(&mut self, socket: Result<String, ListenFailure>) -> (r: Result<
        (),
        CompositorError,
    >)
        ensures
            r is Ok <==> socket is Ok,
            r is Err ==> *final(self) == *old(self) && r->Err_0.kind == ErrorKind::Wayland
                && r->Err_0.message@ == listen_message(socket->Err_0),
            r is Ok ==> *final(self) == (WaylandServer {
                state: WaylandServerState { socket_name: Some(socket->Ok_0), ..old(self).state },
                ..*old(self)
            }),
    {
        match socket {
            Ok(name) => {
                self.state.socket_name = Some(name);
                Ok(())
            },
            Err(failure) => Err(failure.error()),
        }
    }

    /// Enters the dispatch loop. Returns its first action: dispatching
    /// the clients, or stopping at once if shutdown was requested or a
    /// step has failed before.
    pub fn run(&mut self) -> (action: DispatchAction)
        ensures
            final(self).dispatch == (DispatchLoop {
                phase: DispatchPhase::DispatchClients,
                ..old(self).dispatch
            }),
            *final(self) == (WaylandServer { dispatch: final(self).dispatch, ..*old(self) }),
            action == if old(self).dispatch.stop_requested || old(self).dispatch.failed is Some {
                DispatchAction::Stop
            } else {
                DispatchAction::DispatchClients
            },
    {
        self.dispatch.phase = DispatchPhase::DispatchClients;
        if self.dispatch.stop_requested || self.dispatch.failed.is_some() {
            DispatchAction::Stop
        } else {
            DispatchAction::DispatchClients
        }
    }

    /// Takes the outcome of the step that the loop asked for, which is
    /// `Ok` or the cause of its failure, and says what to do next. The
    /// cause of the first failure is kept for the report at the end.
    pub fn run_step(&mut self, outcome: Result<(), String>) -> (action: DispatchAction)
        ensures
            (final(self).dispatch, action) == dispatch_next(old(self).dispatch, outcome is Ok),
            final(self).failure_cause@ == if old(self).dispatch.failed is None && outcome is Err {
                outcome->Err_0@
            } else {
                old(self).failure_cause@
            },
            final(self).state == old(self).state,
            final(self).extensions == old(self).extensions,
            final(self).hardware == old(self).hardware,
    {
        if self.dispatch.failed.is_some() {
            return DispatchAction::Stop;
        }
        match outcome {
            Ok(_) => {},
            Err(cause) => {
                self.dispatch.failed = Some(self.dispatch.phase);
                self.failure_cause = cause;
                return DispatchAction::Stop;
            },
        }
        if self.dispatch.stop_requested {
            return DispatchAction::Stop;
        }
        match self.dispatch.phase {
            DispatchPhase::DispatchClients => {
                self.dispatch.phase = DispatchPhase::FlushClients;
                DispatchAction::FlushClients
            },
            DispatchPhase::FlushClients => {
                self.dispatch.phase = DispatchPhase::PumpEvents;
                DispatchAction::PumpEvents { timeout_ms: DISPATCH_TIMEOUT_MS }
            },
            DispatchPhase::PumpEvents => {
                self.dispatch.phase = DispatchPhase::DispatchClients;
                DispatchAction::DispatchClients
            },
        }
    }

    /// The error of the dispatch loop, if a step of it failed: the step
    /// and the cause.
    pub fn pending_error(&self) -> (r: Result<(), CompositorError>)
        ensures
            r is Err <==> self.dispatch.failed is Some,
            r is Err ==> r->Err_0.kind == ErrorKind::Wayland && r->Err_0.message@
                == Self::dispatch_message(self.dispatch.failed->Some_0, self.failure_cause@),
    {
        let cause = self.failure_cause.as_str();
        match self.dispatch.failed {
            Some(DispatchPhase::DispatchClients) => Err(
                CompositorError::with_detail(
                    ErrorKind::Wayland,
                    "Error dispatching clients: ",
                    cause,
                ),
            ),
            Some(DispatchPhase::FlushClients) => Err(
                CompositorError::with_detail(ErrorKind::Wayland, "Error flushing clients: ", cause),
            ),
            Some(DispatchPhase::PumpEvents) => Err(
                CompositorError::with_detail(ErrorKind::Wayland, "Event loop error: ", cause),
            ),
            None => Ok(()),
        }
    }

    /// Hands the renderer to the store, which uploads committed buffers
    /// to it from now on. A renderer set before is dropped.
    pub fn set_renderer(&mut self, renderer: VulkanRenderer)
        ensures
            *final(self) == (WaylandServer {
                state: WaylandServerState { renderer: Some(renderer), ..old(self).state },
                ..*old(self)
            }),
    {
        self.state.renderer = Some(renderer);
    }

    /// The name of the socket, once the listener listens.
    pub fn socket_name(&self) -> (name: Option<&str>)
        ensures
            match name {
                Some(n) => self.state.socket_name is Some && self.state.socket_name->Some_0@ == n@,
                None => self.state.socket_name is None,
            },
    {
        match &self.state.socket_name {
            Some(n) => Some(n.as_str()),
            None => None,
        }
    }

    /// Asks the dispatch loop to stop. The loop stops at its next step.
    /// Asking again changes nothing.
    pub fn shutdown(&mut self) -> (r: Result<(), CompositorError>)
        ensures
            r is Ok,
            *final(self) == (WaylandServer {
                dispatch: DispatchLoop { stop_requested: true, ..old(self).dispatch },
                ..*old(self)
            }),
    {
        self.dispatch.stop_requested = true;
        Ok(())
    }
}

/// Once shutdown is requested, the dispatch loop stops with the outcome
/// of the step in progress, whatever that outcome is; and a loop that
/// has stopped stays stopped.
pub proof fn lemma_dispatch_stops(l: DispatchLoop, ok: bool)
    ensures
        l.stop_requested ==> dispatch_next(l, ok).1 == DispatchAction::Stop,
        !ok ==> dispatch_next(l, ok).1 == DispatchAction::Stop,
        dispatch_next(l, ok).1 == DispatchAction::Stop ==> dispatch_next(
            dispatch_next(l, ok).0,
            true,
        ).1 == DispatchAction::Stop,
{
}

} // verus!
