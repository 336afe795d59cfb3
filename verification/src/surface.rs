//! Surfaces and the values that travel with them.

use vstd::prelude::*;

use crate::renderer::TextureFormat;

verus! {

/// The purpose a surface serves once it has been given one.
#[derive(Clone, Copy, Debug, PartialEq, Eq, Structural)]
pub enum Role {
    Toplevel,
    Popup,
    Layer(Layer),
}

/// The band of the desktop a layer surface belongs to.
#[derive(Clone, Copy, Debug, PartialEq, Eq, Structural)]
pub enum Layer {
    Background,
    Bottom,
    Top,
    Overlay,
}

/// Where a surface stands between creation and destruction.
#[derive(Clone, Copy, Debug, PartialEq, Eq, Structural)]
pub enum Lifecycle {
    /// No role yet; nothing of the surface is composed.
    Unrendered,
    /// A role is assigned and a configure was sent.
    Configured,
    /// A buffer was committed after the configure was acknowledged.
    Mapped,
    /// The surface is gone. No stored surface is in this state: it is
    /// what the store reports for a surface it does not hold.
    Destroyed,
}

/// How the content of a buffer is turned before it is shown.
#[derive(Clone, Copy, Debug, PartialEq, Eq, Structural)]
pub enum Transform {
    Normal,
    Rotate90,
    Rotate180,
    Rotate270,
    Flipped,
    Flipped90,
    Flipped180,
    Flipped270,
}

/// A rectangle in surface coordinates.
#[derive(Clone, Copy, Debug, PartialEq, Eq, Structural)]
pub struct Region {
    pub x: i32,
    pub y: i32,
    pub width: u32,
    pub height: u32,
}

/// Double-buffered geometry, scale, transform and regions of a surface.
#[derive(Clone, Copy, Debug, PartialEq, Eq, Structural)]
pub struct SurfaceAttributes {
    pub x: i32,
    pub y: i32,
    pub width: u32,
    pub height: u32,
    pub scale: u32,
    pub transform: Transform,
    /// The part of the surface that takes input; all of it when `None`.
    pub input_region: Option<Region>,
    /// The part of the surface that hides what is below it; none of it
    /// when `None`.
    pub opaque_region: Option<Region>,
}

/// Whether a point lies in a region, right and bottom edges excluded.
pub open spec fn region_contains(r: Region, x: int, y: int) -> bool {
    r.x <= x < r.x + r.width && r.y <= y < r.y + r.height
}

impl Region {
    /// Whether the point lies in the region.
    pub fn contains(&self, x: i64, y: i64) -> (inside: bool)
        ensures
            inside == region_contains(*self, x as int, y as int),
    {
        let right: i64 = self.x as i64 + self.width as i64;
        let bottom: i64 = self.y as i64 + self.height as i64;
        self.x as i64 <= x && x < right && self.y as i64 <= y && y < bottom
    }
}

/// Window state that takes effect only through configure, acknowledge
/// and commit.
#[derive(Clone, Copy, Debug, PartialEq, Eq, Structural)]
pub struct ToplevelState {
    pub maximized: bool,
    pub fullscreen: bool,
    pub activated: bool,
    pub width: u32,
    pub height: u32,
    /// Who draws the window frame; `None` while nothing was negotiated.
    pub decoration: Option<DecorationMode>,
}

/// A proposal sent to the client, identified by its serial.
#[derive(Clone, Copy, Debug, PartialEq, Eq, Structural)]
pub struct Configure {
    pub serial: u32,
    pub state: ToplevelState,
}

/// Who draws the window frame.
#[derive(Clone, Copy, Debug, PartialEq, Eq, Structural)]
pub enum DecorationMode {
    ClientSide,
    ServerSide,
}

/// State that protocol extensions attach to a surface. It lives inside
/// the surface, so it cannot outlive it.
#[derive(Clone, Copy, Debug, PartialEq, Eq, Structural)]
pub struct Auxiliary {
    pub idle_inhibited: bool,
    pub shortcuts_inhibited: bool,
    pub pointer_constrained: bool,
    pub fractional_scale: bool,
}

/// Pixel content handed over by a client.
#[derive(Debug)]
pub struct Buffer {
    pub id: u32,
    pub width: u32,
    pub height: u32,
    pub format: TextureFormat,
    pub data: Vec<u8>,
    /// The fence the client signals when the content is ready, where
    /// the client synchronizes explicitly. Carried, not waited on.
    pub acquire_fence: Option<u64>,
    /// The fence the compositor signals when it is done with the buffer.
    /// Carried, not signalled.
    pub release_fence: Option<u64>,
}

/// What the next commit does to the buffer of a surface.
#[derive(Debug)]
pub enum PendingBuffer {
    /// Nothing was attached since the last commit.
    Unchanged,
    /// The client attached "no buffer".
    Detach,
    /// The client attached this buffer.
    Attach(Buffer),
}

/// Placement of a popup relative to its parent.
#[derive(Clone, Copy, Debug, PartialEq, Eq, Structural)]
pub struct PositionerState {
    pub width: i32,
    pub height: i32,
    pub anchor_x: i32,
    pub anchor_y: i32,
    pub anchor_width: i32,
    pub anchor_height: i32,
    pub offset_x: i32,
    pub offset_y: i32,
}

/// A client-owned drawable region.
#[derive(Debug)]
pub struct Surface {
    pub id: u32,
    pub client: u32,
    pub role: Option<Role>,
    pub lifecycle: Lifecycle,
    /// Written by client requests.
    pub pending: SurfaceAttributes,
    /// In effect since the last commit.
    pub applied: SurfaceAttributes,
    pub pending_buffer: PendingBuffer,
    /// The buffer in effect.
    pub buffer: Option<Buffer>,
    /// The configure sent last, until it is acknowledged.
    pub proposed: Option<Configure>,
    /// The acknowledged state, until it is committed.
    pub acked: Option<ToplevelState>,
    /// The window state in effect.
    pub current: ToplevelState,
    /// Whether a configure was acknowledged since the role was assigned.
    pub initial_acked: bool,
    /// Buffers that took effect while the surface held its role;
    /// saturating.
    pub buffer_commits: u64,
    /// The surface a popup is placed against.
    pub parent: Option<u32>,
    pub aux: Auxiliary,
}

/// Attributes of a surface nobody has written to yet.
pub open spec fn default_attributes() -> SurfaceAttributes {
    SurfaceAttributes {
        x: 0,
        y: 0,
        width: 0,
        height: 0,
        scale: 1,
        transform: Transform::Normal,
        input_region: None,
        opaque_region: None,
    }
}

/// Window state with no flag set and no size proposed.
pub open spec fn default_toplevel_state() -> ToplevelState {
    ToplevelState {
        maximized: false,
        fullscreen: false,
        activated: false,
        width: 0,
        height: 0,
        decoration: None,
    }
}

/// Auxiliary state with nothing attached.
pub open spec fn default_auxiliary() -> Auxiliary {
    Auxiliary {
        idle_inhibited: false,
        shortcuts_inhibited: false,
        pointer_constrained: false,
        fractional_scale: false,
    }
}

/// A surface as it is right after creation.
pub open spec fn fresh_surface(client: u32, id: u32) -> Surface {
    Surface {
        id,
        client,
        role: None,
        lifecycle: Lifecycle::Unrendered,
        pending: default_attributes(),
        applied: default_attributes(),
        pending_buffer: PendingBuffer::Unchanged,
        buffer: None,
        proposed: None,
        acked: None,
        current: default_toplevel_state(),
        initial_acked: false,
        buffer_commits: 0,
        parent: None,
        aux: default_auxiliary(),
    }
}

/// The invariant of one surface: it is unrendered exactly while it has
/// no role, and mapped exactly once a buffer took effect under its role,
/// which needs an acknowledged configure.
pub open spec fn surface_wf(s: Surface) -> bool {
    &&& s.lifecycle != Lifecycle::Destroyed
    &&& (s.lifecycle == Lifecycle::Unrendered <==> s.role is None)
    &&& (s.lifecycle == Lifecycle::Mapped <==> s.buffer_commits >= 1)
    &&& (s.lifecycle == Lifecycle::Mapped ==> s.initial_acked)
    &&& (s.role is None ==> !s.initial_acked && s.proposed is None && s.acked is None
        && s.parent is None)
}

impl SurfaceAttributes {
    pub fn new() -> (a: Self)
        ensures
            a == default_attributes(),
    {
        SurfaceAttributes {
        x: 0,
        y: 0,
        width: 0,
        height: 0,
        scale: 1,
        transform: Transform::Normal,
        input_region: None,
        opaque_region: None,
    }
    }
}

impl ToplevelState {
    pub fn new() -> (s: Self)
        ensures
            s == default_toplevel_state(),
    {
        ToplevelState {
        maximized: false,
        fullscreen: false,
        activated: false,
        width: 0,
        height: 0,
        decoration: None,
    }
    }
}

impl Auxiliary {
    pub fn new() -> (a: Self)
        ensures
            a == default_auxiliary(),
    {
        Auxiliary {
            idle_inhibited: false,
            shortcuts_inhibited: false,
            pointer_constrained: false,
            fractional_scale: false,
        }
    }
}

impl Surface {
    /// A surface of `client` with no role, no buffer and default state.
    pub fn new(client: u32, id: u32) -> (s: Self)
        ensures
            s == fresh_surface(client, id),
            surface_wf(s),
    {
        Surface {
            id,
            client,
            role: None,
            lifecycle: Lifecycle::Unrendered,
            pending: SurfaceAttributes::new(),
            applied: SurfaceAttributes::new(),
            pending_buffer: PendingBuffer::Unchanged,
            buffer: None,
            proposed: None,
            acked: None,
            current: ToplevelState::new(),
            initial_acked: false,
            buffer_commits: 0,
            parent: None,
            aux: Auxiliary::new(),
        }
    }
}

/// Whether a positioner describes a placeable popup: a positive size and
/// an anchor rectangle that is not negative.
pub open spec fn positioner_valid(p: PositionerState) -> bool {
    p.width > 0 && p.height > 0 && p.anchor_width >= 0 && p.anchor_height >= 0
}

/// `a + b`, held within the range of `i32`.
pub open spec fn saturating_sum(a: i32, b: i32) -> i32 {
    if a + b > i32::MAX {
        i32::MAX
    } else if a + b < i32::MIN {
        i32::MIN
    } else {
        (a + b) as i32
    }
}

/// The attributes a positioner asks for: the anchor's corner moved by
/// the offset, with the positioner's size; everything else as in `base`.
pub open spec fn positioner_geometry(p: PositionerState, base: SurfaceAttributes)
    -> SurfaceAttributes {
    SurfaceAttributes {
        x: saturating_sum(p.anchor_x, p.offset_x),
        y: saturating_sum(p.anchor_y, p.offset_y),
        width: p.width as u32,
        height: p.height as u32,
        ..base
    }
}

impl PositionerState {
    pub fn is_valid(&self) -> (v: bool)
        ensures
            v == positioner_valid(*self),
    {
        self.width > 0 && self.height > 0 && self.anchor_width >= 0 && self.anchor_height >= 0
    }

    /// The attributes this positioner asks for, on top of `base`.
    pub fn geometry(&self, base: SurfaceAttributes) -> (g: SurfaceAttributes)
        requires
            positioner_valid(*self),
        ensures
            g == positioner_geometry(*self, base),
    {
        SurfaceAttributes {
            x: add_saturating(self.anchor_x, self.offset_x),
            y: add_saturating(self.anchor_y, self.offset_y),
            width: self.width as u32,
            height: self.height as u32,
            scale: base.scale,
            transform: base.transform,
            input_region: base.input_region,
            opaque_region: base.opaque_region,
        }
    }
}

/// `a + b`, held within the range of `i32`.
pub fn add_saturating(a: i32, b: i32) -> (r: i32)
    ensures
        r == saturating_sum(a, b),
{
    let sum: i64 = a as i64 + b as i64;
    if sum > i32::MAX as i64 {
        i32::MAX
    } else if sum < i32::MIN as i64 {
        i32::MIN
    } else {
        sum as i32
    }
}

/// The surface after it was given a role: configured, with the initial
/// configure outstanding.
pub open spec fn with_role(s: Surface, role: Role, parent: Option<u32>, serial: u32) -> Surface {
    Surface {
        role: Some(role),
        lifecycle: Lifecycle::Configured,
        proposed: Some(Configure { serial, state: default_toplevel_state() }),
        acked: None,
        initial_acked: false,
        parent,
        ..s
    }
}

/// The surface after its role object was destroyed: no role, and none of
/// the state that belonged to the role.
pub open spec fn without_role(s: Surface) -> Surface {
    Surface {
        role: None,
        lifecycle: Lifecycle::Unrendered,
        proposed: None,
        acked: None,
        current: default_toplevel_state(),
        initial_acked: false,
        buffer_commits: 0,
        parent: None,
        ..s
    }
}

/// The surface after the client acknowledged the outstanding configure.
pub open spec fn with_ack(s: Surface) -> Surface {
    Surface { proposed: None, acked: Some(s.proposed->Some_0.state), initial_acked: true, ..s }
}

/// The surface after the compositor proposed a new window state. The
/// state in effect is untouched.
pub open spec fn with_proposal(s: Surface, serial: u32, state: ToplevelState) -> Surface {
    Surface { proposed: Some(Configure { serial, state }), ..s }
}

/// Whether a commit of the surface is a protocol violation: a buffer is
/// attached under a role whose initial configure was never acknowledged.
pub open spec fn commit_unconfigured(s: Surface) -> bool {
    s.lifecycle == Lifecycle::Configured && s.pending_buffer is Attach && !s.initial_acked
}

/// The surface after a commit. `accepted` says whether the renderer took
/// the attached buffer; it matters only when one is attached.
pub open spec fn after_commit(s: Surface, accepted: bool) -> Surface {
    let gained = s.pending_buffer is Attach && accepted;
    Surface {
        applied: s.pending,
        pending_buffer: PendingBuffer::Unchanged,
        buffer: match s.pending_buffer {
            PendingBuffer::Unchanged => s.buffer,
            PendingBuffer::Detach => None,
            PendingBuffer::Attach(b) => if accepted {
                Some(b)
            } else {
                s.buffer
            },
        },
        current: if s.acked is Some {
            s.acked->Some_0
        } else {
            s.current
        },
        acked: None,
        buffer_commits: if s.lifecycle != Lifecycle::Unrendered && gained && s.buffer_commits
            < u64::MAX {
            (s.buffer_commits + 1) as u64
        } else {
            s.buffer_commits
        },
        lifecycle: if s.lifecycle == Lifecycle::Configured && gained {
            Lifecycle::Mapped
        } else {
            s.lifecycle
        },
        ..s
    }
}

/// A commit keeps the invariant of the surface, unless it is the
/// violation that `commit_unconfigured` describes.
pub proof fn lemma_commit_keeps_wf(s: Surface, accepted: bool)
    requires
        surface_wf(s),
        !commit_unconfigured(s),
    ensures
        surface_wf(after_commit(s, accepted)),
{
}

/// No surface is mapped before a buffer took effect under an acknowledged
/// configure: a commit maps a surface only if it was mapped already, or
/// if it is configured, acknowledged, and the commit brings a buffer that
/// the renderer accepts.
pub proof fn lemma_mapped_needs_buffer(s: Surface, accepted: bool)
    requires
        surface_wf(s),
        !commit_unconfigured(s),
    ensures
        after_commit(s, accepted).lifecycle == Lifecycle::Mapped <==> s.lifecycle
            == Lifecycle::Mapped || (s.lifecycle == Lifecycle::Configured && s.initial_acked
            && s.pending_buffer is Attach && accepted),
        with_role(s, Role::Toplevel, None, 0).lifecycle != Lifecycle::Mapped,
        surface_wf(s) && s.lifecycle == Lifecycle::Mapped ==> s.role is Some && s.initial_acked
            && s.buffer_commits >= 1,
{
}

/// Window state changes in two phases: proposing and acknowledging leave
/// the state in effect as it is; the commit after the acknowledgement
/// puts the proposed state in effect.
pub proof fn lemma_two_phase(s: Surface, serial: u32, state: ToplevelState, accepted: bool)
    ensures
        with_proposal(s, serial, state).current == s.current,
        with_ack(with_proposal(s, serial, state)).current == s.current,
        after_commit(with_ack(with_proposal(s, serial, state)), accepted).current == state,
        s.acked is None ==> after_commit(with_proposal(s, serial, state), accepted).current
            == s.current,
{
}

/// What a commit did, for the caller to act on.
#[derive(Clone, Copy, Debug, PartialEq, Eq, Structural)]
pub struct CommitOutcome {
    /// The buffer in effect changed.
    pub buffer_changed: bool,
    /// The renderer refused the attached buffer; the earlier one stays.
    pub upload_failed: bool,
    /// The buffer the client gets back: the earlier one once the new one
    /// took effect, or the new one when it was refused.
    pub released_buffer: Option<u32>,
    /// This commit mapped the surface.
    pub newly_mapped: bool,
}

/// The id of a buffer slot's content.
pub open spec fn buffer_id(slot: Option<Buffer>) -> Option<u32> {
    match slot {
        Some(b) => Some(b.id),
        None => None,
    }
}

/// What a commit of `s` reports.
pub open spec fn commit_outcome(s: Surface, accepted: bool) -> CommitOutcome {
    match s.pending_buffer {
        PendingBuffer::Unchanged => CommitOutcome {
            buffer_changed: false,
            upload_failed: false,
            released_buffer: None,
            newly_mapped: false,
        },
        PendingBuffer::Detach => CommitOutcome {
            buffer_changed: s.buffer is Some,
            upload_failed: false,
            released_buffer: buffer_id(s.buffer),
            newly_mapped: false,
        },
        PendingBuffer::Attach(b) => if accepted {
            CommitOutcome {
                buffer_changed: true,
                upload_failed: false,
                released_buffer: buffer_id(s.buffer),
                newly_mapped: s.lifecycle == Lifecycle::Configured,
            }
        } else {
            CommitOutcome {
                buffer_changed: false,
                upload_failed: true,
                released_buffer: Some(b.id),
                newly_mapped: false,
            }
        },
    }
}

} // verus!
