//! The protocol state store: every live surface with its role and
//! double-buffered state, the window stacking order, and seat focus.

use vstd::prelude::*;

use crate::error::ProtocolError;
use crate::renderer::VulkanRenderer;
use crate::surface::{
    fresh_surface, after_commit, commit_outcome, commit_unconfigured, CommitOutcome,
    positioner_geometry, positioner_valid, surface_wf, with_ack, with_proposal, with_role, Buffer,
    Configure, Layer, Lifecycle, PendingBuffer, PositionerState, Role, Surface, SurfaceAttributes,
    ToplevelState,
};

verus! {

/// A window's place in the space.
#[derive(Clone, Copy, Debug, PartialEq, Eq, Structural)]
pub struct WindowEntry {
    pub surface: u32,
    pub x: i32,
    pub y: i32,
}

/// Focus per input capability.
#[derive(Clone, Copy, Debug, PartialEq, Eq, Structural)]
pub struct Seat {
    pub keyboard_focus: Option<u32>,
    pub pointer_focus: Option<u32>,
    pub touch_focus: Option<u32>,
}

/// An output as clients see it.
#[derive(Clone, Copy, Debug, PartialEq, Eq, Structural)]
pub struct OutputMode {
    pub width: u32,
    pub height: u32,
    /// Refresh rate in millihertz.
    pub refresh: u32,
    pub x: i32,
    pub y: i32,
}

/// Per-client bookkeeping: the identity under which the store knows the
/// surfaces of one connection.
#[derive(Clone, Copy, Debug, PartialEq, Eq, Structural)]
pub struct ClientState {
    pub client: u32,
}

/// Where new toplevels are placed.
pub const DEFAULT_WINDOW_X: i32 = 100;

pub const DEFAULT_WINDOW_Y: i32 = 100;

/// Whether some surface of `surfaces` has the id.
pub open spec fn has_surface(surfaces: Seq<Surface>, id: u32) -> bool {
    exists|i: int| 0 <= i < surfaces.len() && (#[trigger] surfaces[i]).id == id
}

/// The position of the surface with the id, where there is one.
pub open spec fn surface_index(surfaces: Seq<Surface>, id: u32) -> int {
    choose|i: int| 0 <= i < surfaces.len() && (#[trigger] surfaces[i]).id == id
}

/// The surface with the id, where there is one.
pub open spec fn surface_of(surfaces: Seq<Surface>, id: u32) -> Surface {
    surfaces[surface_index(surfaces, id)]
}

/// No two surfaces share an id.
pub open spec fn distinct_ids(surfaces: Seq<Surface>) -> bool {
    forall|i: int, j: int|
        0 <= i < j < surfaces.len() ==> (#[trigger] surfaces[i]).id != (#[trigger] surfaces[j]).id
}

/// Whether the space holds a window for the surface.
pub open spec fn in_space(space: Seq<WindowEntry>, id: u32) -> bool {
    exists|k: int| 0 <= k < space.len() && (#[trigger] space[k]).surface == id
}

/// Whether a focus slot points at nothing or at a surface of `surfaces`.
pub open spec fn focus_live(surfaces: Seq<Surface>, focus: Option<u32>) -> bool {
    focus is Some ==> has_surface(surfaces, focus->Some_0)
}

/// Whether the surface with the id exists and is a toplevel.
pub open spec fn is_toplevel(surfaces: Seq<Surface>, id: u32) -> bool {
    exists|i: int|
        0 <= i < surfaces.len() && (#[trigger] surfaces[i]).id == id && surfaces[i].role == Some(
            Role::Toplevel,
        )
}

/// The next serial: serials count up and wrap around at 32 bits, as they
/// do on the wire.
pub open spec fn next_serial(serial: u32) -> u32 {
    if serial == u32::MAX {
        0
    } else {
        (serial + 1) as u32
    }
}

/// In a sequence without duplicate ids, a surface is found where it is.
pub proof fn lemma_surface_index(surfaces: Seq<Surface>, i: int)
    requires
        distinct_ids(surfaces),
        0 <= i < surfaces.len(),
    ensures
        has_surface(surfaces, surfaces[i].id),
        surface_index(surfaces, surfaces[i].id) == i,
        surface_of(surfaces, surfaces[i].id) == surfaces[i],
{
    let id = surfaces[i].id;
    let j = surface_index(surfaces, id);
    assert(0 <= j < surfaces.len() && surfaces[j].id == id);
    if j < i {
        assert(surfaces[j].id != surfaces[i].id);
    } else if i < j {
        assert(surfaces[i].id != surfaces[j].id);
    }
}

/// The authoritative state of every live protocol object.
pub struct WaylandServerState {
    pub surfaces: Vec<Surface>,
    /// Windows in stacking order, bottom first.
    pub space: Vec<WindowEntry>,
    pub seat: Seat,
    /// The serial stamped on the latest configure or focus change.
    pub serial: u32,
    pub output: OutputMode,
    pub socket_name: Option<String>,
    /// The renderer that commits upload to; `None` while headless.
    pub renderer: Option<VulkanRenderer>,
}

impl WaylandServerState {
    /// The invariant of the store. Every public operation keeps it.
    pub open spec fn wf(&self) -> bool {
        &&& distinct_ids(self.surfaces@)
        &&& forall|i: int| 0 <= i < self.surfaces@.len() ==> surface_wf(#[trigger] self.surfaces@[i])
        &&& forall|a: int, b: int|
            0 <= a < b < self.space@.len() ==> (#[trigger] self.space@[a]).surface != (
            #[trigger] self.space@[b]).surface
        &&& forall|k: int|
            0 <= k < self.space@.len() ==> is_toplevel(
                self.surfaces@,
                (#[trigger] self.space@[k]).surface,
            )
        &&& focus_live(self.surfaces@, self.seat.keyboard_focus)
        &&& focus_live(self.surfaces@, self.seat.pointer_focus)
        &&& focus_live(self.surfaces@, self.seat.touch_focus)
    }

    /// Whether the store holds a surface with the id.
    pub open spec fn contains(&self, id: u32) -> bool {
        has_surface(self.surfaces@, id)
    }

    /// The stored surface with the id.
    pub open spec fn surface(&self, id: u32) -> Surface {
        surface_of(self.surfaces@, id)
    }

    /// The lifecycle state of a surface; `Destroyed` for one that the
    /// store does not hold.
    pub open spec fn spec_lifecycle(&self, id: u32) -> Lifecycle {
        if self.contains(id) {
            self.surface(id).lifecycle
        } else {
            Lifecycle::Destroyed
        }
    }

    /// An empty store with one 3840x2160 output at 60 Hz placed at the
    /// origin, no focus, no socket and no renderer.
    pub fn new() -> (s: Self)
        ensures
            s.wf(),
            s.surfaces@.len() == 0,
            s.space@.len() == 0,
            s.seat == (Seat { keyboard_focus: None, pointer_focus: None, touch_focus: None }),
            s.serial == 0,
            s.output == (OutputMode { width: 3840, height: 2160, refresh: 60_000, x: 0, y: 0 }),
            s.socket_name is None,
            s.renderer is None,
    {
        WaylandServerState {
            surfaces: Vec::new(),
            space: Vec::new(),
            seat: Seat { keyboard_focus: None, pointer_focus: None, touch_focus: None },
            serial: 0,
            output: OutputMode { width: 3840, height: 2160, refresh: 60_000, x: 0, y: 0 },
            socket_name: None,
            renderer: None,
        }
    }

    /// Position of the surface with the id.
    pub fn find_surface(&self, id: u32) -> (r: Option<usize>)
        ensures
            r is Some <==> self.contains(id),
            r is Some ==> r->Some_0 < self.surfaces@.len() && self.surfaces@[r->Some_0 as int].id
                == id,
            r is Some && distinct_ids(self.surfaces@) ==> r->Some_0 == surface_index(
                self.surfaces@,
                id,
            ),
    {
        let mut i: usize = 0;
        while i < self.surfaces.len()
            invariant
                i <= self.surfaces.len(),
                forall|j: int| 0 <= j < i ==> (#[trigger] self.surfaces@[j]).id != id,
            decreases self.surfaces.len() - i,
        {
            if self.surfaces[i].id == id {
                proof {
                    if distinct_ids(self.surfaces@) {
                        lemma_surface_index(self.surfaces@, i as int);
                    }
                }
                return Some(i);
            }
            i += 1;
        }
        None
    }

    /// The lifecycle state of a surface; `Destroyed` for one that the
    /// store does not hold.
    pub fn lifecycle(&self, id: u32) -> (l: Lifecycle)
        requires
            self.wf(),
        ensures
            l == self.spec_lifecycle(id),
    {
        match self.find_surface(id) {
            Some(i) => self.surfaces[i].lifecycle,
            None => Lifecycle::Destroyed,
        }
    }

    /// Registers a new surface of `client`.
    ///
    /// Fails with `DuplicateSurface`, changing nothing, exactly when the
    /// id is in use. Otherwise the surface is appended with no role and
    /// default state.
    pub fn new_surface(&mut self, client: u32, id: u32) -> (r: Result<(), ProtocolError>)
        requires
            old(self).wf(),
        ensures
            final(self).wf(),
            r is Err <==> old(self).contains(id),
            r is Err ==> r == Err::<(), _>(ProtocolError::DuplicateSurface) && *final(self) == *old(
                self,
            ),
            r is Ok ==> final(self).surfaces@ == old(self).surfaces@.push(fresh_surface(client, id))
                && *final(self) == (WaylandServerState {
                surfaces: final(self).surfaces,
                ..*old(self)
            }),
    {
        if self.find_surface(id).is_some() {
            return Err(ProtocolError::DuplicateSurface);
        }
        self.surfaces.push(Surface::new(client, id));
        proof {
            let old_s = old(self).surfaces@;
            let new_s = self.surfaces@;
            assert forall|i: int, j: int| 0 <= i < j < new_s.len() implies (#[trigger] new_s[i]).id
                != (#[trigger] new_s[j]).id by {
                if j < old_s.len() {
                    assert(old_s[i].id != old_s[j].id);
                } else {
                    assert(new_s[i] == old_s[i]);
                }
            }
            assert forall|i: int| 0 <= i < new_s.len() implies surface_wf(#[trigger] new_s[i]) by {
                if i < old_s.len() {
                    assert(new_s[i] == old_s[i]);
                }
            }
            lemma_extend_keeps(old_s, new_s);
            assert forall|k: int| 0 <= k < self.space@.len() implies is_toplevel(
                new_s,
                (#[trigger] self.space@[k]).surface,
            ) by {
                assert(is_toplevel(old_s, self.space@[k].surface));
            }
        }
        Ok(())
    }
    /// Everything but the surfaces is as it was.
    pub open spec fn only_surfaces_changed(before: Self, after: Self) -> bool {
        after == (WaylandServerState { surfaces: after.surfaces, ..before })
    }

    /// Exactly the surface with the id was replaced, by `replacement`.
    pub open spec fn surface_replaced(
        before: Self,
        after: Self,
        id: u32,
        replacement: Surface,
    ) -> bool {
        after.surfaces@ == before.surfaces@.update(
            surface_index(before.surfaces@, id),
            replacement,
        )
    }

    /// Stamps and returns the next serial.
    fn bump_serial(&mut self) -> (serial: u32)
        ensures
            serial == next_serial(old(self).serial),
            *final(self) == (WaylandServerState { serial, ..*old(self) }),
    {
        let next: u32 = if self.serial == u32::MAX {
            0
        } else {
            self.serial + 1
        };
        self.serial = next;
        next
    }

    /// Gives the surface at `i` a role and sends the initial configure.
    fn assign_role(&mut self, i: usize, role: Role, parent: Option<u32>) -> (serial: u32)
        requires
            old(self).wf(),
            i < old(self).surfaces@.len(),
            old(self).surfaces@[i as int].role is None,
            role != Role::Toplevel,
        ensures
            final(self).wf(),
            serial == next_serial(old(self).serial),
            final(self).surfaces@ == old(self).surfaces@.update(
                i as int,
                with_role(old(self).surfaces@[i as int], role, parent, serial),
            ),
            *final(self) == (WaylandServerState {
                surfaces: final(self).surfaces,
                serial,
                ..*old(self)
            }),
    {
        let serial = self.bump_serial();
        self.surfaces[i].role = Some(role);
        self.surfaces[i].lifecycle = Lifecycle::Configured;
        self.surfaces[i].proposed = Some(Configure { serial, state: ToplevelState::new() });
        self.surfaces[i].acked = None;
        self.surfaces[i].initial_acked = false;
        self.surfaces[i].parent = parent;
        proof {
            let before = old(self).surfaces@;
            let r = with_role(before[i as int], role, parent, serial);
            assert(self.surfaces@ =~= before.update(i as int, r));
            lemma_update_keeps(before, i as int, r);
            assert forall|j: int| 0 <= j < self.surfaces@.len() implies surface_wf(
                #[trigger] self.surfaces@[j],
            ) by {
                assert(surface_wf(before[j]));
            }
            assert forall|k: int| 0 <= k < self.space@.len() implies is_toplevel(
                self.surfaces@,
                (#[trigger] self.space@[k]).surface,
            ) by {
                let e = self.space@[k].surface;
                assert(is_toplevel(before, e));
                lemma_toplevel_has_role(before, e, i as int);
            }
        }
        serial
    }

    /// Makes a surface a toplevel window: places it on top of the space
    /// at the default position and sends the initial configure, whose
    /// serial is returned.
    ///
    /// Fails, changing nothing, with `UnknownSurface` when the store does
    /// not hold the surface and with `RoleAlreadyAssigned` when it holds
    /// a role.
    pub fn new_toplevel(&mut self, id: u32) -> (r: Result<u32, ProtocolError>)
        requires
            old(self).wf(),
        ensures
            final(self).wf(),
            r is Err ==> *final(self) == *old(self),
            r == Err::<u32, _>(ProtocolError::UnknownSurface) <==> !old(self).contains(id),
            r == Err::<u32, _>(ProtocolError::RoleAlreadyAssigned) <==> old(self).contains(id)
                && old(self).surface(id).role is Some,
            r is Ok <==> old(self).contains(id) && old(self).surface(id).role is None,
            r is Ok ==> {
                &&& r->Ok_0 == next_serial(old(self).serial)
                &&& Self::surface_replaced(
                    *old(self),
                    *final(self),
                    id,
                    with_role(old(self).surface(id), Role::Toplevel, None, r->Ok_0),
                )
                &&& final(self).space@ == old(self).space@.push(
                    WindowEntry { surface: id, x: DEFAULT_WINDOW_X, y: DEFAULT_WINDOW_Y },
                )
                &&& *final(self) == (WaylandServerState {
                    surfaces: final(self).surfaces,
                    space: final(self).space,
                    serial: r->Ok_0,
                    ..*old(self)
                })
            },
    {
        let i = match self.find_surface(id) {
            Some(i) => i,
            None => { return Err(ProtocolError::UnknownSurface); },
        };
        if self.surfaces[i].role.is_some() {
            return Err(ProtocolError::RoleAlreadyAssigned);
        }
        let serial = self.bump_serial();
        self.surfaces[i].role = Some(Role::Toplevel);
        self.surfaces[i].lifecycle = Lifecycle::Configured;
        self.surfaces[i].proposed = Some(Configure { serial, state: ToplevelState::new() });
        self.surfaces[i].acked = None;
        self.surfaces[i].initial_acked = false;
        self.surfaces[i].parent = None;
        self.space.push(WindowEntry { surface: id, x: DEFAULT_WINDOW_X, y: DEFAULT_WINDOW_Y });
        proof {
            let before = old(self).surfaces@;
            let r = with_role(before[i as int], Role::Toplevel, None, serial);
            assert(self.surfaces@ =~= before.update(i as int, r));
            lemma_update_keeps(before, i as int, r);
            assert forall|j: int| 0 <= j < self.surfaces@.len() implies surface_wf(
                #[trigger] self.surfaces@[j],
            ) by {
                assert(surface_wf(before[j]));
            }
            let old_space = old(self).space@;
            assert forall|k: int| 0 <= k < self.space@.len() implies is_toplevel(
                self.surfaces@,
                (#[trigger] self.space@[k]).surface,
            ) by {
                if k < old_space.len() {
                    let e = old_space[k].surface;
                    assert(self.space@[k] == old_space[k]);
                    assert(is_toplevel(before, e));
                    lemma_toplevel_has_role(before, e, i as int);
                }
            }
            assert forall|a: int, b: int| 0 <= a < b < self.space@.len() implies (
            #[trigger] self.space@[a]).surface != (#[trigger] self.space@[b]).surface by {
                if b == old_space.len() {
                    assert(self.space@[a] == old_space[a]);
                    assert(is_toplevel(before, old_space[a].surface));
                    lemma_toplevel_has_role(before, old_space[a].surface, i as int);
                } else {
                    assert(old_space[a].surface != old_space[b].surface);
                }
            }
        }
        Ok(serial)
    }

    /// Makes a surface a popup of `parent`, placed as the positioner
    /// asks, and sends the initial configure, whose serial is returned.
    ///
    /// Fails, changing nothing: with `UnknownSurface` when the store does
    /// not hold the surface; else with `RoleAlreadyAssigned` when it holds
    /// a role; else with `InvalidPositioner` when the positioner has an
    /// empty size or a negative anchor; else with `InvalidParent` when the
    /// parent is the surface itself, is not held, or holds no role.
    pub fn new_popup(&mut self, id: u32, parent: u32, positioner: PositionerState) -> (r: Result<
        u32,
        ProtocolError,
    >)
        requires
            old(self).wf(),
        ensures
            final(self).wf(),
            r is Err ==> *final(self) == *old(self),
            r == Self::popup_verdict(*old(self), id, parent, positioner),
            r is Ok ==> {
                &&& Self::surface_replaced(
                    *old(self),
                    *final(self),
                    id,
                    with_role(
                        Surface {
                            pending: positioner_geometry(
                                positioner,
                                old(self).surface(id).pending,
                            ),
                            ..old(self).surface(id)
                        },
                        Role::Popup,
                        Some(parent),
                        r->Ok_0,
                    ),
                )
                &&& *final(self) == (WaylandServerState {
                    surfaces: final(self).surfaces,
                    serial: r->Ok_0,
                    ..*old(self)
                })
            },
    {
        let i = match self.find_surface(id) {
            Some(i) => i,
            None => { return Err(ProtocolError::UnknownSurface); },
        };
        if self.surfaces[i].role.is_some() {
            return Err(ProtocolError::RoleAlreadyAssigned);
        }
        if !positioner.is_valid() {
            return Err(ProtocolError::InvalidPositioner);
        }
        if parent == id {
            return Err(ProtocolError::InvalidParent);
        }
        match self.find_surface(parent) {
            None => { return Err(ProtocolError::InvalidParent); },
            Some(p) => {
                if self.surfaces[p].role.is_none() {
                    return Err(ProtocolError::InvalidParent);
                }
            },
        }
        let base = self.surfaces[i].pending;
        self.surfaces[i].pending = positioner.geometry(base);
        proof {
            let before = old(self).surfaces@;
            let r = Surface { pending: positioner_geometry(positioner, base), ..before[i as int] };
            assert(self.surfaces@ =~= before.update(i as int, r));
            lemma_update_keeps(before, i as int, r);
            assert forall|j: int| 0 <= j < self.surfaces@.len() implies surface_wf(
                #[trigger] self.surfaces@[j],
            ) by {
                assert(surface_wf(before[j]));
            }
            assert forall|k: int| 0 <= k < self.space@.len() implies is_toplevel(
                self.surfaces@,
                (#[trigger] self.space@[k]).surface,
            ) by {
                let e = self.space@[k].surface;
                assert(is_toplevel(before, e));
                lemma_toplevel_has_role(before, e, i as int);
            }
        }
        let serial = self.assign_role(i, Role::Popup, Some(parent));
        proof {
            assert(self.surfaces@ =~= old(self).surfaces@.update(
                i as int,
                with_role(
                    Surface {
                        pending: positioner_geometry(positioner, base),
                        ..old(self).surfaces@[i as int]
                    },
                    Role::Popup,
                    Some(parent),
                    serial,
                ),
            ));
        }
        Ok(serial)
    }

    /// What `new_popup` answers in a given state.
    pub open spec fn popup_verdict(
        state: Self,
        id: u32,
        parent: u32,
        positioner: PositionerState,
    ) -> Result<u32, ProtocolError> {
        if !state.contains(id) {
            Err(ProtocolError::UnknownSurface)
        } else if state.surface(id).role is Some {
            Err(ProtocolError::RoleAlreadyAssigned)
        } else if !positioner_valid(positioner) {
            Err(ProtocolError::InvalidPositioner)
        } else if parent == id || !state.contains(parent) || state.surface(parent).role is None {
            Err(ProtocolError::InvalidParent)
        } else {
            Ok(next_serial(state.serial))
        }
    }

    /// Makes a surface a layer-shell panel on `layer` and sends the
    /// initial configure, whose serial is returned.
    ///
    /// Fails, changing nothing, with `UnknownSurface` when the store does
    /// not hold the surface and with `RoleAlreadyAssigned` when it holds
    /// a role.
    pub fn new_layer_surface(&mut self, id: u32, layer: Layer) -> (r: Result<u32, ProtocolError>)
        requires
            old(self).wf(),
        ensures
            final(self).wf(),
            r is Err ==> *final(self) == *old(self),
            r == Err::<u32, _>(ProtocolError::UnknownSurface) <==> !old(self).contains(id),
            r == Err::<u32, _>(ProtocolError::RoleAlreadyAssigned) <==> old(self).contains(id)
                && old(self).surface(id).role is Some,
            r is Ok <==> old(self).contains(id) && old(self).surface(id).role is None,
            r is Ok ==> {
                &&& r->Ok_0 == next_serial(old(self).serial)
                &&& Self::surface_replaced(
                    *old(self),
                    *final(self),
                    id,
                    with_role(old(self).surface(id), Role::Layer(layer), None, r->Ok_0),
                )
                &&& *final(self) == (WaylandServerState {
                    surfaces: final(self).surfaces,
                    serial: r->Ok_0,
                    ..*old(self)
                })
            },
    {
        let i = match self.find_surface(id) {
            Some(i) => i,
            None => { return Err(ProtocolError::UnknownSurface); },
        };
        if self.surfaces[i].role.is_some() {
            return Err(ProtocolError::RoleAlreadyAssigned);
        }
        Ok(self.assign_role(i, Role::Layer(layer), None))
    }
    /// Whether the renderer (or its absence) lets an attached buffer take
    /// effect. Without a renderer every buffer does.
    pub open spec fn upload_accepted(renderer: Option<VulkanRenderer>, pending: PendingBuffer) -> bool {
        match pending {
            PendingBuffer::Attach(b) => renderer is None || renderer->Some_0.accepts_width(b.width),
            _ => true,
        }
    }

    /// What a commit of surface `id` with the given pending buffer does
    /// to the renderer: an accepted buffer becomes the texture of the
    /// surface, a detach removes the texture, anything else changes
    /// nothing.
    pub open spec fn renderer_after_commit(
        before: Option<VulkanRenderer>,
        after: Option<VulkanRenderer>,
        id: u32,
        pending: PendingBuffer,
    ) -> bool {
        match before {
            None => after is None,
            Some(rb) => after is Some && match pending {
                PendingBuffer::Unchanged => after->Some_0 == rb,
                PendingBuffer::Detach => VulkanRenderer::removal_effect(rb, after->Some_0, id),
                PendingBuffer::Attach(b) => if rb.accepts_width(b.width) {
                    VulkanRenderer::upload_effect(
                        rb,
                        after->Some_0,
                        id,
                        b.data@,
                        b.width,
                        b.height,
                        b.format,
                    )
                } else {
                    after->Some_0 == rb
                },
            },
        }
    }

    /// Records what the next commit does to the buffer of a surface:
    /// attach `buffer`, or detach when it is `None`.
    ///
    /// Fails with `UnknownSurface`, changing nothing, exactly when the
    /// store does not hold the surface.
    pub fn attach(&mut self, id: u32, buffer: Option<Buffer>) -> (r: Result<(), ProtocolError>)
        requires
            old(self).wf(),
        ensures
            final(self).wf(),
            r is Err <==> !old(self).contains(id),
            r is Err ==> r == Err::<(), _>(ProtocolError::UnknownSurface) && *final(self) == *old(
                self,
            ),
            r is Ok ==> Self::only_surfaces_changed(*old(self), *final(self))
                && Self::surface_replaced(
                *old(self),
                *final(self),
                id,
                Surface {
                    pending_buffer: match buffer {
                        Some(b) => PendingBuffer::Attach(b),
                        None => PendingBuffer::Detach,
                    },
                    ..old(self).surface(id)
                },
            ),
    {
        let i = match self.find_surface(id) {
            Some(i) => i,
            None => { return Err(ProtocolError::UnknownSurface); },
        };
        let pending = match buffer {
            Some(b) => PendingBuffer::Attach(b),
            None => PendingBuffer::Detach,
        };
        self.surfaces[i].pending_buffer = pending;
        proof {
            let before = old(self).surfaces@;
            let r = Surface { pending_buffer: pending, ..before[i as int] };
            assert(self.surfaces@ =~= before.update(i as int, r));
            lemma_replace_keeps_wf(*old(self), *self, i as int, r);
        }
        Ok(())
    }

    /// Writes the pending geometry and scale of a surface; they take
    /// effect with the next commit.
    ///
    /// Fails with `UnknownSurface`, changing nothing, exactly when the
    /// store does not hold the surface.
    pub fn set_pending(&mut self, id: u32, attributes: SurfaceAttributes) -> (r: Result<
        (),
        ProtocolError,
    >)
        requires
            old(self).wf(),
        ensures
            final(self).wf(),
            r is Err <==> !old(self).contains(id),
            r is Err ==> r == Err::<(), _>(ProtocolError::UnknownSurface) && *final(self) == *old(
                self,
            ),
            r is Ok ==> Self::only_surfaces_changed(*old(self), *final(self))
                && Self::surface_replaced(
                *old(self),
                *final(self),
                id,
                Surface { pending: attributes, ..old(self).surface(id) },
            ),
    {
        let i = match self.find_surface(id) {
            Some(i) => i,
            None => { return Err(ProtocolError::UnknownSurface); },
        };
        self.surfaces[i].pending = attributes;
        proof {
            let before = old(self).surfaces@;
            let r = Surface { pending: attributes, ..before[i as int] };
            assert(self.surfaces@ =~= before.update(i as int, r));
            lemma_replace_keeps_wf(*old(self), *self, i as int, r);
        }
        Ok(())
    }

    /// What `ack_configure` answers in a given state.
    pub open spec fn ack_verdict(state: Self, id: u32, serial: u32) -> Result<(), ProtocolError> {
        if !state.contains(id) {
            Err(ProtocolError::UnknownSurface)
        } else if state.surface(id).role is None {
            Err(ProtocolError::WrongRole)
        } else if state.surface(id).proposed != Some(
            Configure { serial, state: state.surface(id).proposed->Some_0.state },
        ) {
            Err(ProtocolError::InvalidSerial)
        } else {
            Ok(())
        }
    }

    /// The client acknowledges the configure with the given serial. The
    /// acknowledged state takes effect with the next commit.
    ///
    /// Fails, changing nothing: with `UnknownSurface` when the store does
    /// not hold the surface; else with `WrongRole` when it has no role;
    /// else with `InvalidSerial` when no configure with that serial is
    /// outstanding.
    pub fn ack_configure(&mut self, id: u32, serial: u32) -> (r: Result<(), ProtocolError>)
        requires
            old(self).wf(),
        ensures
            final(self).wf(),
            r == Self::ack_verdict(*old(self), id, serial),
            r is Err ==> *final(self) == *old(self),
            r is Ok ==> Self::only_surfaces_changed(*old(self), *final(self))
                && Self::surface_replaced(
                *old(self),
                *final(self),
                id,
                with_ack(old(self).surface(id)),
            ),
    {
        let i = match self.find_surface(id) {
            Some(i) => i,
            None => { return Err(ProtocolError::UnknownSurface); },
        };
        if self.surfaces[i].role.is_none() {
            return Err(ProtocolError::WrongRole);
        }
        let state = match self.surfaces[i].proposed {
            Some(c) => {
                if c.serial != serial {
                    return Err(ProtocolError::InvalidSerial);
                }
                c.state
            },
            None => { return Err(ProtocolError::InvalidSerial); },
        };
        self.surfaces[i].proposed = None;
        self.surfaces[i].acked = Some(state);
        self.surfaces[i].initial_acked = true;
        proof {
            let before = old(self).surfaces@;
            let r = with_ack(before[i as int]);
            assert(self.surfaces@ =~= before.update(i as int, r));
            lemma_replace_keeps_wf(*old(self), *self, i as int, r);
        }
        Ok(())
    }

    /// The compositor proposes a window state (size, maximized,
    /// fullscreen, activated) to a toplevel. Returns the serial of the
    /// configure. The state in effect does not change until the client
    /// acknowledges and commits.
    ///
    /// Fails, changing nothing, with `UnknownSurface` when the store does
    /// not hold the surface and with `WrongRole` when it is no toplevel.
    pub fn propose_state(&mut self, id: u32, state: ToplevelState) -> (r: Result<
        u32,
        ProtocolError,
    >)
        requires
            old(self).wf(),
        ensures
            final(self).wf(),
            r is Err ==> *final(self) == *old(self),
            r == Err::<u32, _>(ProtocolError::UnknownSurface) <==> !old(self).contains(id),
            r == Err::<u32, _>(ProtocolError::WrongRole) <==> old(self).contains(id) && old(
                self,
            ).surface(id).role != Some(Role::Toplevel),
            r is Ok <==> old(self).contains(id) && old(self).surface(id).role == Some(
                Role::Toplevel,
            ),
            r is Ok ==> {
                &&& r->Ok_0 == next_serial(old(self).serial)
                &&& Self::surface_replaced(
                    *old(self),
                    *final(self),
                    id,
                    with_proposal(old(self).surface(id), r->Ok_0, state),
                )
                &&& *final(self) == (WaylandServerState {
                    surfaces: final(self).surfaces,
                    serial: r->Ok_0,
                    ..*old(self)
                })
            },
    {
        let i = match self.find_surface(id) {
            Some(i) => i,
            None => { return Err(ProtocolError::UnknownSurface); },
        };
        match self.surfaces[i].role {
            Some(Role::Toplevel) => {},
            _ => { return Err(ProtocolError::WrongRole); },
        }
        let serial = self.bump_serial();
        self.surfaces[i].proposed = Some(Configure { serial, state });
        proof {
            let before = old(self).surfaces@;
            let r = with_proposal(before[i as int], serial, state);
            assert(self.surfaces@ =~= before.update(i as int, r));
            lemma_replace_keeps_wf(*old(self), *self, i as int, r);
        }
        Ok(serial)
    }

    /// Makes the pending state of a surface the state in effect.
    ///
    /// In order: the role's precondition is checked; pending geometry,
    /// scale and acknowledged window state are applied; an attached
    /// buffer is handed to the renderer and, once accepted, replaces the
    /// earlier buffer, which is released only then; a configured surface
    /// that gained a buffer becomes mapped.
    ///
    /// Fails, changing nothing, with `UnknownSurface` when the store does
    /// not hold the surface, and with `UnconfiguredBuffer` when a buffer
    /// is attached under a role whose initial configure was never
    /// acknowledged. A buffer that the renderer refuses is no failure:
    /// the earlier buffer stays and the refused one is released.
    pub fn commit(&mut self, id: u32) -> (r: Result<CommitOutcome, ProtocolError>)
        requires
            old(self).wf(),
        ensures
            final(self).wf(),
            r is Err ==> *final(self) == *old(self),
            r == Err::<CommitOutcome, _>(ProtocolError::UnknownSurface) <==> !old(self).contains(
                id,
            ),
            r == Err::<CommitOutcome, _>(ProtocolError::UnconfiguredBuffer) <==> old(
                self,
            ).contains(id) && commit_unconfigured(old(self).surface(id)),
            r is Ok <==> old(self).contains(id) && !commit_unconfigured(old(self).surface(id)),
            r is Ok ==> {
                let s = old(self).surface(id);
                let accepted = Self::upload_accepted(old(self).renderer, s.pending_buffer);
                &&& r->Ok_0 == commit_outcome(s, accepted)
                &&& Self::surface_replaced(*old(self), *final(self), id, after_commit(s, accepted))
                &&& Self::renderer_after_commit(
                    old(self).renderer,
                    final(self).renderer,
                    id,
                    s.pending_buffer,
                )
                &&& *final(self) == (WaylandServerState {
                    surfaces: final(self).surfaces,
                    renderer: final(self).renderer,
                    ..*old(self)
                })
            },
    {
        let i = match self.find_surface(id) {
            Some(i) => i,
            None => { return Err(ProtocolError::UnknownSurface); },
        };
        let attaches = match &self.surfaces[i].pending_buffer {
            PendingBuffer::Attach(_) => true,
            _ => false,
        };
        let configured = match self.surfaces[i].lifecycle {
            Lifecycle::Configured => true,
            _ => false,
        };
        if configured && attaches && !self.surfaces[i].initial_acked {
            return Err(ProtocolError::UnconfiguredBuffer);
        }
        let ghost before = old(self).surfaces@;
        let ghost s = before[i as int];
        let ghost accepted_spec = Self::upload_accepted(old(self).renderer, s.pending_buffer);
        proof {
            lemma_surface_index(before, i as int);
        }
        let mut pending = PendingBuffer::Unchanged;
        core::mem::swap(&mut pending, &mut self.surfaces[i].pending_buffer);
        let mut outcome = CommitOutcome {
            buffer_changed: false,
            upload_failed: false,
            released_buffer: None,
            newly_mapped: false,
        };
        match pending {
            PendingBuffer::Unchanged => {},
            PendingBuffer::Detach => {
                match &mut self.renderer {
                    Some(r) => {
                        let _ = r.remove_surface(id);
                    },
                    None => {},
                }
                let mut prior: Option<Buffer> = None;
                core::mem::swap(&mut prior, &mut self.surfaces[i].buffer);
                match prior {
                    Some(b) => {
                        outcome.buffer_changed = true;
                        outcome.released_buffer = Some(b.id);
                    },
                    None => {},
                }
            },
            PendingBuffer::Attach(b) => {
                let accepted = match &mut self.renderer {
                    Some(r) => r.update_surface_texture(
                        id,
                        b.data.as_slice(),
                        b.width,
                        b.height,
                        b.format,
                    ).is_ok(),
                    None => true,
                };
                if accepted {
                    let mut slot: Option<Buffer> = Some(b);
                    core::mem::swap(&mut slot, &mut self.surfaces[i].buffer);
                    outcome.buffer_changed = true;
                    match slot {
                        Some(prior) => {
                            outcome.released_buffer = Some(prior.id);
                        },
                        None => {},
                    }
                    if !matches!(self.surfaces[i].lifecycle, Lifecycle::Unrendered) {
                        if self.surfaces[i].buffer_commits < u64::MAX {
                            self.surfaces[i].buffer_commits = self.surfaces[i].buffer_commits + 1;
                        }
                    }
                    if configured {
                        self.surfaces[i].lifecycle = Lifecycle::Mapped;
                        outcome.newly_mapped = true;
                    }
                } else {
                    outcome.upload_failed = true;
                    outcome.released_buffer = Some(b.id);
                }
            },
        }
        let attributes = self.surfaces[i].pending;
        self.surfaces[i].applied = attributes;
        match self.surfaces[i].acked {
            Some(state) => {
                self.surfaces[i].current = state;
                self.surfaces[i].acked = None;
            },
            None => {},
        }
        proof {
            let r = after_commit(s, accepted_spec);
            assert(self.surfaces@[i as int] == r);
            assert(self.surfaces@ =~= before.update(i as int, r));
            crate::surface::lemma_commit_keeps_wf(s, accepted_spec);
            lemma_replace_keeps_wf(*old(self), *self, i as int, r);
        }
        Ok(outcome)
    }
}

/// Appending a surface keeps every surface that was there findable.
pub proof fn lemma_extend_keeps(before: Seq<Surface>, after: Seq<Surface>)
    requires
        after.len() == before.len() + 1,
        forall|i: int| 0 <= i < before.len() ==> after[i] == before[i],
    ensures
        forall|id: u32| has_surface(before, id) ==> has_surface(after, id),
        forall|id: u32| is_toplevel(before, id) ==> is_toplevel(after, id),
{
    assert forall|id: u32| has_surface(before, id) implies has_surface(after, id) by {
        let i = surface_index(before, id);
        assert(after[i].id == id);
    }
    assert forall|id: u32| is_toplevel(before, id) implies is_toplevel(after, id) by {
        let i = choose|i: int|
            0 <= i < before.len() && (#[trigger] before[i]).id == id && before[i].role == Some(
                Role::Toplevel,
            );
        assert(after[i].id == id && after[i].role == Some(Role::Toplevel));
    }
}

/// Replacing one surface by one of the same id keeps ids distinct and
/// every surface findable; only the replaced surface can gain or lose
/// the toplevel role.
pub proof fn lemma_update_keeps(before: Seq<Surface>, i: int, replacement: Surface)
    requires
        distinct_ids(before),
        0 <= i < before.len(),
        replacement.id == before[i].id,
    ensures
        distinct_ids(before.update(i, replacement)),
        forall|id: u32| has_surface(before.update(i, replacement), id) <==> has_surface(before, id),
        forall|id: u32|
            id != replacement.id ==> (is_toplevel(before.update(i, replacement), id)
                <==> is_toplevel(before, id)),
        forall|id: u32|
            id != replacement.id && has_surface(before, id) ==> surface_of(
                before.update(i, replacement),
                id,
            ) == surface_of(before, id),
        is_toplevel(before.update(i, replacement), replacement.id) <==> replacement.role == Some(
            Role::Toplevel,
        ),
        surface_of(before.update(i, replacement), replacement.id) == replacement,
        surface_index(before, replacement.id) == i,
{
    let after = before.update(i, replacement);
    assert forall|a: int, b: int| 0 <= a < b < after.len() implies (#[trigger] after[a]).id != (
    #[trigger] after[b]).id by {
        assert(after[a].id == before[a].id);
        assert(after[b].id == before[b].id);
    }
    assert forall|id: u32| has_surface(after, id) <==> has_surface(before, id) by {
        if has_surface(after, id) {
            let j = surface_index(after, id);
            assert(before[j].id == id);
        }
        if has_surface(before, id) {
            let j = surface_index(before, id);
            assert(after[j].id == id);
        }
    }
    assert forall|id: u32| id != replacement.id implies (is_toplevel(after, id) <==> is_toplevel(
        before,
        id,
    )) by {
        if is_toplevel(after, id) {
            let j = choose|j: int|
                0 <= j < after.len() && (#[trigger] after[j]).id == id && after[j].role == Some(
                    Role::Toplevel,
                );
            assert(before[j] == after[j]);
        }
        if is_toplevel(before, id) {
            let j = choose|j: int|
                0 <= j < before.len() && (#[trigger] before[j]).id == id && before[j].role == Some(
                    Role::Toplevel,
                );
            assert(after[j] == before[j]);
        }
    }
    assert forall|id: u32| id != replacement.id && has_surface(before, id) implies surface_of(
        after,
        id,
    ) == surface_of(before, id) by {
        let j = surface_index(before, id);
        lemma_surface_index(before, j);
        assert(after[j] == before[j]);
        lemma_surface_index(after, j);
    }
    lemma_surface_index(after, i);
    lemma_surface_index(before, i);
    if is_toplevel(after, replacement.id) {
        let j = choose|j: int|
            0 <= j < after.len() && (#[trigger] after[j]).id == replacement.id && after[j].role
                == Some(Role::Toplevel);
        lemma_surface_index(after, j);
    }
    if replacement.role == Some(Role::Toplevel) {
        assert(after[i].id == replacement.id && after[i].role == Some(Role::Toplevel));
    }
}

/// In a sequence without duplicate ids, a toplevel is found only at a
/// position that holds that role.
pub proof fn lemma_toplevel_has_role(surfaces: Seq<Surface>, id: u32, i: int)
    requires
        distinct_ids(surfaces),
        is_toplevel(surfaces, id),
        0 <= i < surfaces.len(),
    ensures
        surfaces[i].id == id ==> surfaces[i].role == Some(Role::Toplevel),
        has_surface(surfaces, id),
        surface_of(surfaces, id).role == Some(Role::Toplevel),
{
    let j = choose|j: int|
        0 <= j < surfaces.len() && (#[trigger] surfaces[j]).id == id && surfaces[j].role == Some(
            Role::Toplevel,
        );
    lemma_surface_index(surfaces, j);
    if surfaces[i].id == id {
        lemma_surface_index(surfaces, i);
    }
}

/// Replacing one surface by a well-formed one of the same id that is a
/// toplevel if the replaced one was keeps the store well-formed, whatever
/// happens to serial, output, socket name and renderer.
pub proof fn lemma_replace_keeps_wf(
    before: WaylandServerState,
    after: WaylandServerState,
    i: int,
    replacement: Surface,
)
    requires
        before.wf(),
        0 <= i < before.surfaces@.len(),
        replacement.id == before.surfaces@[i].id,
        surface_wf(replacement),
        before.surfaces@[i].role == Some(Role::Toplevel) ==> replacement.role == Some(
            Role::Toplevel,
        ),
        after.surfaces@ == before.surfaces@.update(i, replacement),
        after.space == before.space,
        after.seat == before.seat,
    ensures
        after.wf(),
        before.contains(replacement.id),
        before.surface(replacement.id) == before.surfaces@[i],
        WaylandServerState::surface_replaced(before, after, replacement.id, replacement),
{
    let bs = before.surfaces@;
    lemma_update_keeps(bs, i, replacement);
    lemma_surface_index(bs, i);
    assert forall|j: int| 0 <= j < after.surfaces@.len() implies surface_wf(
        #[trigger] after.surfaces@[j],
    ) by {
        assert(surface_wf(bs[j]));
    }
    assert forall|k: int| 0 <= k < after.space@.len() implies is_toplevel(
        after.surfaces@,
        (#[trigger] after.space@[k]).surface,
    ) by {
        let e = after.space@[k].surface;
        assert(is_toplevel(bs, e));
        lemma_toplevel_has_role(bs, e, i);
    }
}

/// Serials advance by one and wrap around at 32 bits: a serial is never
/// stamped twice in a row.
pub proof fn lemma_serial_advances(serial: u32)
    ensures
        next_serial(serial) as int == (serial + 1) % 0x1_0000_0000,
        next_serial(serial) != serial,
{
}

/// What it means that exactly one surface was replaced: the surface is
/// found again with its new state, and every other surface is found as
/// it was.
pub proof fn lemma_surface_replaced(
    before: WaylandServerState,
    after: WaylandServerState,
    id: u32,
    replacement: Surface,
)
    requires
        distinct_ids(before.surfaces@),
        before.contains(id),
        replacement.id == id,
        WaylandServerState::surface_replaced(before, after, id, replacement),
    ensures
        distinct_ids(after.surfaces@),
        after.contains(id),
        after.surface(id) == replacement,
        forall|other: u32| after.contains(other) <==> before.contains(other),
        forall|other: u32|
            other != id && before.contains(other) ==> after.surface(other) == before.surface(other),
{
    let i = surface_index(before.surfaces@, id);
    lemma_surface_index(before.surfaces@, i);
    lemma_update_keeps(before.surfaces@, i, replacement);
}

/// A role is assigned at most once: once a surface holds a role, every
/// further assignment is refused as `RoleAlreadyAssigned`, whatever role
/// is asked for, and so leaves the store as it is.
pub proof fn lemma_role_assigned_once(
    before: WaylandServerState,
    after: WaylandServerState,
    id: u32,
    replacement: Surface,
    parent: u32,
    positioner: PositionerState,
)
    requires
        before.wf(),
        before.contains(id),
        replacement.id == id,
        replacement.role is Some,
        WaylandServerState::surface_replaced(before, after, id, replacement),
    ensures
        after.contains(id),
        after.surface(id).role is Some,
        WaylandServerState::popup_verdict(after, id, parent, positioner) == Err::<u32, _>(
            ProtocolError::RoleAlreadyAssigned,
        ),
{
    let i = surface_index(before.surfaces@, id);
    lemma_surface_index(before.surfaces@, i);
    lemma_update_keeps(before.surfaces@, i, replacement);
}

} // verus!
