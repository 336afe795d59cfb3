//! Core state machines of a Wayland compositor: the protocol state store,
//! the backend/display abstraction, the renderer bookkeeping and the
//! orchestrator that sequences startup, frame production and shutdown.
//!
//! Everything here works on plain values. Device access, sockets, timers
//! and GPU submission are performed by the embedding program, which feeds
//! their outcomes to the functions of this crate.

pub mod backend;
pub mod compositor;
pub mod diagnostics;
pub mod display;
pub mod error;
pub mod extensions;
pub mod logging;
pub mod renderer;
pub mod seq_facts;
pub mod server;
pub mod space;
pub mod surface;
pub mod teardown;
pub mod wayland;
pub mod wl_drm;

pub use backend::{Backend, BackendType, DisplayOutput};
pub use compositor::Compositor;
pub use error::{CompositorError, ErrorKind, ProtocolError};
pub use logging::{log_error_with_context, log_startup_phase, CompositorLogger};
pub use renderer::{CompositorRenderer, RendererInfo, VulkanRenderer};
pub use server::WaylandServer;
pub use wayland::{ClientState, WaylandServerState};
