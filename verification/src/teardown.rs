//! Destruction: of a role, of a surface, of everything a client owns.
//! Whatever is destroyed leaves the space and the seat's focus first.

use vstd::prelude::*;

use crate::renderer::VulkanRenderer;
use crate::seq_facts::{lemma_filter_all, lemma_filter_keeps_distinct, lemma_filter_members};
use crate::surface::{surface_wf, without_role, Role, Surface};
use crate::wayland::{
    distinct_ids, has_surface, is_toplevel, lemma_surface_index, lemma_toplevel_has_role,
    lemma_update_keeps, next_serial, surface_index, surface_of, ClientState, Seat,
    WaylandServerState,
    WindowEntry,
};

verus! {

/// A focus slot after the surface `id` is gone.
pub open spec fn focus_without(focus: Option<u32>, id: u32) -> Option<u32> {
    if focus == Some(id) {
        None
    } else {
        focus
    }
}

/// The seat after the surface `id` is gone: no slot points at it.
pub open spec fn seat_without(seat: Seat, id: u32) -> Seat {
    Seat {
        keyboard_focus: focus_without(seat.keyboard_focus, id),
        pointer_focus: focus_without(seat.pointer_focus, id),
        touch_focus: focus_without(seat.touch_focus, id),
    }
}

/// The serial after a teardown: a teardown that takes focus away is a
/// focus change and is stamped with the next serial; one that leaves
/// the focus alone leaves the serial alone.
pub open spec fn serial_after_teardown(serial: u32, before: Seat, after: Seat) -> u32 {
    if after != before {
        next_serial(serial)
    } else {
        serial
    }
}

/// The space after the surface `id` is gone: its window is removed, the
/// others keep their order.
pub open spec fn space_without(space: Seq<WindowEntry>, id: u32) -> Seq<WindowEntry> {
    space.filter(|e: WindowEntry| e.surface != id)
}

/// What the removal of surface `id` does to the renderer, if there is one.
pub open spec fn renderer_without(
    before: Option<VulkanRenderer>,
    after: Option<VulkanRenderer>,
    id: u32,
) -> bool {
    match before {
        None => after is None,
        Some(rb) => after is Some && VulkanRenderer::removal_effect(rb, after->Some_0, id),
    }
}

/// Removing one surface keeps ids distinct and every other surface
/// findable as it was.
pub proof fn lemma_remove_keeps(before: Seq<Surface>, i: int)
    requires
        distinct_ids(before),
        0 <= i < before.len(),
    ensures
        distinct_ids(before.remove(i)),
        !has_surface(before.remove(i), before[i].id),
        forall|id: u32|
            id != before[i].id ==> (has_surface(before.remove(i), id) <==> has_surface(before, id)),
        forall|id: u32|
            id != before[i].id ==> (is_toplevel(before.remove(i), id) <==> is_toplevel(before, id)),
        forall|j: int|
            0 <= j < before.remove(i).len() ==> before.contains(#[trigger] before.remove(i)[j]),
{
    let after = before.remove(i);
    before.remove_ensures(i);
    assert forall|a: int, b: int| 0 <= a < b < after.len() implies (#[trigger] after[a]).id != (
    #[trigger] after[b]).id by {
        let a0 = if a < i { a } else { a + 1 };
        let b0 = if b < i { b } else { b + 1 };
        assert(after[a] == before[a0] && after[b] == before[b0]);
    }
    assert forall|j: int| 0 <= j < after.len() implies before.contains(#[trigger] after[j]) by {
        let j0 = if j < i { j } else { j + 1 };
        assert(after[j] == before[j0]);
    }
    if has_surface(after, before[i].id) {
        let j = surface_index(after, before[i].id);
        let j0 = if j < i { j } else { j + 1 };
        assert(after[j] == before[j0]);
        if j0 < i {
            assert(before[j0].id != before[i].id);
        } else {
            assert(before[i].id != before[j0].id);
        }
    }
    assert forall|id: u32| id != before[i].id implies (has_surface(after, id) <==> has_surface(
        before,
        id,
    )) by {
        if has_surface(after, id) {
            let j = surface_index(after, id);
            let j0 = if j < i { j } else { j + 1 };
            assert(after[j] == before[j0]);
        }
        if has_surface(before, id) {
            let j0 = surface_index(before, id);
            let j = if j0 < i { j0 } else { j0 - 1 };
            assert(after[j] == before[j0]);
        }
    }
    assert forall|id: u32| id != before[i].id implies (is_toplevel(after, id) <==> is_toplevel(
        before,
        id,
    )) by {
        if is_toplevel(after, id) {
            let j = choose|j: int|
                0 <= j < after.len() && (#[trigger] after[j]).id == id && after[j].role == Some(
                    Role::Toplevel,
                );
            let j0 = if j < i { j } else { j + 1 };
            assert(after[j] == before[j0]);
        }
        if is_toplevel(before, id) {
            let j0 = choose|j: int|
                0 <= j < before.len() && (#[trigger] before[j]).id == id && before[j].role == Some(
                    Role::Toplevel,
                );
            let j = if j0 < i { j0 } else { j0 - 1 };
            assert(after[j] == before[j0]);
        }
    }
}

/// The windows of a space without the window of surface `id`.
pub fn windows_without(space: &Vec<WindowEntry>, id: u32) -> (out: Vec<WindowEntry>)
    ensures
        out@ == space_without(space@, id),
{
    let ghost pred = |e: WindowEntry| e.surface != id;
    let mut out: Vec<WindowEntry> = Vec::new();
    let mut k: usize = 0;
    proof {
        reveal(Seq::filter);
        assert(space@.take(0) =~= Seq::<WindowEntry>::empty());
    }
    while k < space.len()
        invariant
            k <= space.len(),
            pred == (|e: WindowEntry| e.surface != id),
            out@ == space@.take(k as int).filter(pred),
        decreases space.len() - k,
    {
        let e: WindowEntry = space[k];
        proof {
            assert(space@.take(k + 1) =~= space@.take(k as int).push(e));
            space@.take(k as int).lemma_filter_push(e, pred);
        }
        if e.surface != id {
            out.push(e);
        }
        k += 1;
    }
    proof {
        assert(space@.take(k as int) =~= space@);
    }
    out
}

/// A seat with every slot that points at surface `id` cleared.
pub fn seat_cleared(seat: Seat, id: u32) -> (out: Seat)
    ensures
        out == seat_without(seat, id),
{
    Seat {
        keyboard_focus: if seat.keyboard_focus == Some(id) {
            None
        } else {
            seat.keyboard_focus
        },
        pointer_focus: if seat.pointer_focus == Some(id) {
            None
        } else {
            seat.pointer_focus
        },
        touch_focus: if seat.touch_focus == Some(id) {
            None
        } else {
            seat.touch_focus
        },
    }
}

/// A space without the window of one surface keeps what the store needs
/// of a space, as long as every other toplevel is still one.
pub proof fn lemma_space_without_wf(
    space: Seq<WindowEntry>,
    id: u32,
    before: Seq<Surface>,
    after: Seq<Surface>,
)
    requires
        forall|a: int, b: int|
            0 <= a < b < space.len() ==> (#[trigger] space[a]).surface != (
            #[trigger] space[b]).surface,
        forall|k: int| 0 <= k < space.len() ==> is_toplevel(before, (#[trigger] space[k]).surface),
        forall|other: u32| other != id && is_toplevel(before, other) ==> is_toplevel(after, other),
    ensures
        forall|a: int, b: int|
            0 <= a < b < space_without(space, id).len() ==> (#[trigger] space_without(
                space,
                id,
            )[a]).surface != (#[trigger] space_without(space, id)[b]).surface,
        forall|k: int|
            0 <= k < space_without(space, id).len() ==> is_toplevel(
                after,
                (#[trigger] space_without(space, id)[k]).surface,
            ),
        forall|k: int|
            0 <= k < space_without(space, id).len() ==> (#[trigger] space_without(
                space,
                id,
            )[k]).surface != id,
{
    let pred = |e: WindowEntry| e.surface != id;
    let key = |e: WindowEntry| e.surface;
    let out = space.filter(pred);
    assert forall|a: int, b: int| 0 <= a < b < space.len() implies key(space[a]) != key(
        space[b],
    ) by {
        assert(space[a].surface != space[b].surface);
    }
    lemma_filter_keeps_distinct(space, pred, key);
    lemma_filter_members(space, pred);
    assert forall|a: int, b: int| 0 <= a < b < out.len() implies (#[trigger] out[a]).surface != (
    #[trigger] out[b]).surface by {
        assert(key(out[a]) != key(out[b]));
    }
    assert forall|k: int| 0 <= k < out.len() implies is_toplevel(
        after,
        (#[trigger] out[k]).surface,
    ) && out[k].surface != id by {
        assert(pred(out[k]));
        assert(out.contains(out[k]));
        assert(space.contains(out[k]));
        let j = choose|j: int| 0 <= j < space.len() && space[j] == out[k];
        assert(is_toplevel(before, space[j].surface));
    }
}

impl WaylandServerState {
    /// What the destruction of surface `id` leaves of a store that held
    /// it: the surface is gone from the registry, its window from the
    /// space, its id from every focus slot, its texture from the
    /// renderer. A loss of focus is stamped with the next serial.
    /// Nothing else differs.
    pub open spec fn surface_destroyed(before: Self, after: Self, id: u32) -> bool {
        &&& after.surfaces@ == before.surfaces@.remove(surface_index(before.surfaces@, id))
        &&& after.space@ == space_without(before.space@, id)
        &&& after.seat == seat_without(before.seat, id)
        &&& renderer_without(before.renderer, after.renderer, id)
        &&& after.serial == serial_after_teardown(before.serial, before.seat, after.seat)
        &&& after.output == before.output
        &&& after.socket_name == before.socket_name
    }

    /// Destroys a surface. Returns whether the store held it; destroying
    /// a surface that is not held changes nothing.
    pub fn destroy_surface(&mut self, id: u32) -> (destroyed: bool)
        requires
            old(self).wf(),
        ensures
            final(self).wf(),
            destroyed == old(self).contains(id),
            !destroyed ==> *final(self) == *old(self),
            destroyed ==> Self::surface_destroyed(*old(self), *final(self), id),
            !final(self).contains(id),
            final(self).seat.keyboard_focus != Some(id),
            final(self).seat.pointer_focus != Some(id),
            final(self).seat.touch_focus != Some(id),
            forall|k: int|
                0 <= k < final(self).space@.len() ==> (#[trigger] final(self).space@[k]).surface
                    != id,
    {
        let i = match self.find_surface(id) {
            Some(i) => i,
            None => {
                proof {
                    assert forall|k: int| 0 <= k < self.space@.len() implies (
                    #[trigger] self.space@[k]).surface != id by {
                        assert(is_toplevel(self.surfaces@, self.space@[k].surface));
                    }
                }
                return false;
            },
        };
        let space = windows_without(&self.space, id);
        self.space = space;
        self.take_focus(seat_cleared(self.seat, id));
        match &mut self.renderer {
            Some(r) => {
                let _ = r.remove_surface(id);
            },
            None => {},
        }
        let _ = self.surfaces.remove(i);
        proof {
            let before = old(self).surfaces@;
            lemma_surface_index(before, i as int);
            lemma_remove_keeps(before, i as int);
            let after = self.surfaces@;
            assert(after == before.remove(i as int));
            assert forall|j: int| 0 <= j < after.len() implies surface_wf(#[trigger] after[j]) by {
                assert(before.contains(after[j]));
                let m = choose|m: int| 0 <= m < before.len() && before[m] == after[j];
                assert(surface_wf(before[m]));
            }
            lemma_space_without_wf(old(self).space@, id, before, after);
        }
        true
    }

    /// Puts a seat in place from which focus may have been taken, and
    /// stamps the change if there is one.
    fn take_focus(&mut self, seat: Seat)
        ensures
            *final(self) == (WaylandServerState {
                seat,
                serial: serial_after_teardown(old(self).serial, old(self).seat, seat),
                ..*old(self)
            }),
    {
        if seat != self.seat {
            let next: u32 = if self.serial == u32::MAX {
                0
            } else {
                self.serial + 1
            };
            self.serial = next;
        }
        self.seat = seat;
    }

    /// Takes the role from the surface at `i`: its window leaves the
    /// space and no focus slot points at it any more.
    fn drop_role(&mut self, i: usize)
        requires
            old(self).wf(),
            i < old(self).surfaces@.len(),
        ensures
            final(self).wf(),
            Self::role_destroyed(*old(self), *final(self), old(self).surfaces@[i as int].id),
            old(self).contains(old(self).surfaces@[i as int].id),
            old(self).surface(old(self).surfaces@[i as int].id) == old(self).surfaces@[i as int],
    {
        let id: u32 = self.surfaces[i].id;
        let space = windows_without(&self.space, id);
        self.space = space;
        self.take_focus(seat_cleared(self.seat, id));
        self.surfaces[i].role = None;
        self.surfaces[i].lifecycle = crate::surface::Lifecycle::Unrendered;
        self.surfaces[i].proposed = None;
        self.surfaces[i].acked = None;
        self.surfaces[i].current = crate::surface::ToplevelState::new();
        self.surfaces[i].initial_acked = false;
        self.surfaces[i].buffer_commits = 0;
        self.surfaces[i].parent = None;
        proof {
            let before = old(self).surfaces@;
            let r = without_role(before[i as int]);
            assert(self.surfaces@ =~= before.update(i as int, r));
            lemma_surface_index(before, i as int);
            lemma_update_keeps(before, i as int, r);
            let after = self.surfaces@;
            assert forall|j: int| 0 <= j < after.len() implies surface_wf(#[trigger] after[j]) by {
                assert(surface_wf(before[j]));
            }
            lemma_space_without_wf(old(self).space@, id, before, after);
        }
    }

    /// What the destruction of the role of surface `id` leaves: the
    /// surface stays, without role and role state; its window is gone
    /// from the space and its id from every focus slot. A loss of focus
    /// is stamped with the next serial.
    pub open spec fn role_destroyed(before: Self, after: Self, id: u32) -> bool {
        &&& Self::surface_replaced(before, after, id, without_role(before.surface(id)))
        &&& after.space@ == space_without(before.space@, id)
        &&& after.seat == seat_without(before.seat, id)
        &&& after.renderer == before.renderer
        &&& after.serial == serial_after_teardown(before.serial, before.seat, after.seat)
        &&& after.output == before.output
        &&& after.socket_name == before.socket_name
    }

    /// The toplevel role of a surface was destroyed. Returns whether the
    /// surface was a toplevel; if it was not, nothing changes.
    pub fn toplevel_destroyed(&mut self, id: u32) -> (destroyed: bool)
        requires
            old(self).wf(),
        ensures
            final(self).wf(),
            destroyed == (old(self).contains(id) && old(self).surface(id).role == Some(
                Role::Toplevel,
            )),
            !destroyed ==> *final(self) == *old(self),
            destroyed ==> Self::role_destroyed(*old(self), *final(self), id),
    {
        match self.find_surface(id) {
            Some(i) => {
                proof {
                    lemma_surface_index(self.surfaces@, i as int);
                }
                match self.surfaces[i].role {
                    Some(Role::Toplevel) => {
                        self.drop_role(i);
                        true
                    },
                    _ => false,
                }
            },
            None => false,
        }
    }

    /// The popup role of a surface was destroyed. Returns whether the
    /// surface was a popup; if it was not, nothing changes.
    pub fn popup_destroyed(&mut self, id: u32) -> (destroyed: bool)
        requires
            old(self).wf(),
        ensures
            final(self).wf(),
            destroyed == (old(self).contains(id) && old(self).surface(id).role == Some(
                Role::Popup,
            )),
            !destroyed ==> *final(self) == *old(self),
            destroyed ==> Self::role_destroyed(*old(self), *final(self), id),
    {
        match self.find_surface(id) {
            Some(i) => {
                proof {
                    lemma_surface_index(self.surfaces@, i as int);
                }
                match self.surfaces[i].role {
                    Some(Role::Popup) => {
                        self.drop_role(i);
                        true
                    },
                    _ => false,
                }
            },
            None => false,
        }
    }

    /// The layer role of a surface was destroyed. Returns whether the
    /// surface was a layer surface; if it was not, nothing changes.
    pub fn layer_destroyed(&mut self, id: u32) -> (destroyed: bool)
        requires
            old(self).wf(),
        ensures
            final(self).wf(),
            destroyed == (old(self).contains(id) && old(self).surface(id).role is Some && old(
                self,
            ).surface(id).role->Some_0 is Layer),
            !destroyed ==> *final(self) == *old(self),
            destroyed ==> Self::role_destroyed(*old(self), *final(self), id),
    {
        match self.find_surface(id) {
            Some(i) => {
                proof {
                    lemma_surface_index(self.surfaces@, i as int);
                }
                match self.surfaces[i].role {
                    Some(Role::Layer(_)) => {
                        self.drop_role(i);
                        true
                    },
                    _ => false,
                }
            },
            None => false,
        }
    }
}

/// Whether the surface with the id exists and belongs to the client.
pub open spec fn owned_by(surfaces: Seq<Surface>, id: u32, client: u32) -> bool {
    has_surface(surfaces, id) && surface_of(surfaces, id).client == client
}

/// The ids of the surfaces that belong to the client.
pub open spec fn owned_ids(surfaces: Seq<Surface>, client: u32) -> Set<u32> {
    Set::new(|id: u32| owned_by(surfaces, id, client))
}

/// The registry without the surfaces of the client, in the same order.
pub open spec fn surfaces_without_client(surfaces: Seq<Surface>, client: u32) -> Seq<Surface> {
    surfaces.filter(|s: Surface| s.client != client)
}

/// The space without the windows of the client, in the same order.
pub open spec fn space_without_client(
    space: Seq<WindowEntry>,
    surfaces: Seq<Surface>,
    client: u32,
) -> Seq<WindowEntry> {
    space.filter(|e: WindowEntry| !owned_by(surfaces, e.surface, client))
}

/// A focus slot after the client is gone.
pub open spec fn focus_without_client(
    focus: Option<u32>,
    surfaces: Seq<Surface>,
    client: u32,
) -> Option<u32> {
    if focus is Some && owned_by(surfaces, focus->Some_0, client) {
        None
    } else {
        focus
    }
}

/// The seat after the client is gone: no slot points at a surface of it.
pub open spec fn seat_without_client(seat: Seat, surfaces: Seq<Surface>, client: u32) -> Seat {
    Seat {
        keyboard_focus: focus_without_client(seat.keyboard_focus, surfaces, client),
        pointer_focus: focus_without_client(seat.pointer_focus, surfaces, client),
        touch_focus: focus_without_client(seat.touch_focus, surfaces, client),
    }
}

/// A renderer that differs from another in its textures at most.
pub open spec fn same_but_textures(before: VulkanRenderer, after: VulkanRenderer) -> bool {
    &&& after.info == before.info
    &&& after.swapchain == before.swapchain
    &&& after.acquired_image == before.acquired_image
    &&& after.compositor_renderer is Some <==> before.compositor_renderer is Some
    &&& after.compositor_renderer is Some ==> {
        &&& after.compositor_renderer->Some_0.image_count
            == before.compositor_renderer->Some_0.image_count
        &&& after.compositor_renderer->Some_0.swapchain_extent
            == before.compositor_renderer->Some_0.swapchain_extent
    }
}

/// What the disconnect of a client does to the renderer, if there is
/// one: the textures of the client's surfaces are gone.
pub open spec fn renderer_without_client(
    before: Option<VulkanRenderer>,
    after: Option<VulkanRenderer>,
    surfaces: Seq<Surface>,
    client: u32,
) -> bool {
    match before {
        None => after is None,
        Some(rb) => after is Some && same_but_textures(rb, after->Some_0)
            && after->Some_0.textures_view() == rb.textures_view().remove_keys(
            owned_ids(surfaces, client),
        ),
    }
}

/// The ids of the client's surfaces among the first `upto` surfaces.
pub open spec fn owned_ids_upto(surfaces: Seq<Surface>, client: u32, upto: int) -> Set<u32> {
    Set::new(
        |id: u32|
            exists|t: int|
                0 <= t < upto && t < surfaces.len() && (#[trigger] surfaces[t]).id == id
                    && surfaces[t].client == client,
    )
}

/// Over the whole registry, the ids found position by position are the
/// ids that the client owns.
pub proof fn lemma_owned_ids_upto_all(surfaces: Seq<Surface>, client: u32)
    requires
        distinct_ids(surfaces),
    ensures
        owned_ids_upto(surfaces, client, surfaces.len() as int) == owned_ids(surfaces, client),
{
    let a = owned_ids_upto(surfaces, client, surfaces.len() as int);
    let b = owned_ids(surfaces, client);
    assert forall|id: u32| a.contains(id) <==> b.contains(id) by {
        if a.contains(id) {
            let t = choose|t: int|
                0 <= t < surfaces.len() && t < surfaces.len() && (#[trigger] surfaces[t]).id == id
                    && surfaces[t].client == client;
            lemma_surface_index(surfaces, t);
        }
        if b.contains(id) {
            let t = surface_index(surfaces, id);
            assert(surfaces[t].id == id && surfaces[t].client == client);
        }
    }
    assert(a =~= b);
}

impl WaylandServerState {
    /// What the disconnect of a client leaves of the store: none of its
    /// surfaces, none of their windows, focus or textures. A loss of
    /// focus is stamped with the next serial. Everything that belongs to
    /// other clients is as it was, in the same order.
    pub open spec fn client_removed(before: Self, after: Self, client: u32) -> bool {
        &&& after.surfaces@ == surfaces_without_client(before.surfaces@, client)
        &&& after.space@ == space_without_client(before.space@, before.surfaces@, client)
        &&& after.seat == seat_without_client(before.seat, before.surfaces@, client)
        &&& renderer_without_client(before.renderer, after.renderer, before.surfaces@, client)
        &&& after.serial == serial_after_teardown(before.serial, before.seat, after.seat)
        &&& after.output == before.output
        &&& after.socket_name == before.socket_name
    }

    /// Whether the surface with the id belongs to the client.
    pub fn is_owned_by(&self, id: u32, client: u32) -> (owned: bool)
        requires
            distinct_ids(self.surfaces@),
        ensures
            owned == owned_by(self.surfaces@, id, client),
    {
        match self.find_surface(id) {
            Some(j) => {
                proof {
                    lemma_surface_index(self.surfaces@, j as int);
                }
                self.surfaces[j].client == client
            },
            None => false,
        }
    }

    /// A focus slot with a surface of the client cleared.
    fn focus_cleared_for(&self, focus: Option<u32>, client: u32) -> (out: Option<u32>)
        requires
            distinct_ids(self.surfaces@),
        ensures
            out == focus_without_client(focus, self.surfaces@, client),
    {
        match focus {
            Some(id) => if self.is_owned_by(id, client) {
                None
            } else {
                focus
            },
            None => None,
        }
    }

    /// The windows of the space that do not belong to the client.
    fn windows_without_client(&self, client: u32) -> (out: Vec<WindowEntry>)
        requires
            distinct_ids(self.surfaces@),
        ensures
            out@ == space_without_client(self.space@, self.surfaces@, client),
    {
        let ghost pred = |e: WindowEntry| !owned_by(self.surfaces@, e.surface, client);
        let mut out: Vec<WindowEntry> = Vec::new();
        let mut k: usize = 0;
        proof {
            reveal(Seq::filter);
            assert(self.space@.take(0) =~= Seq::<WindowEntry>::empty());
        }
        while k < self.space.len()
            invariant
                k <= self.space.len(),
                distinct_ids(self.surfaces@),
                pred == (|e: WindowEntry| !owned_by(self.surfaces@, e.surface, client)),
                out@ == self.space@.take(k as int).filter(pred),
            decreases self.space.len() - k,
        {
            let e: WindowEntry = self.space[k];
            proof {
                assert(self.space@.take(k + 1) =~= self.space@.take(k as int).push(e));
                self.space@.take(k as int).lemma_filter_push(e, pred);
            }
            if !self.is_owned_by(e.surface, client) {
                out.push(e);
            }
            k += 1;
        }
        proof {
            assert(self.space@.take(k as int) =~= self.space@);
        }
        out
    }

    /// Drops the textures of the client's surfaces from a renderer.
    fn drop_client_textures(&self, renderer: VulkanRenderer, client: u32) -> (out: VulkanRenderer)
        requires
            distinct_ids(self.surfaces@),
        ensures
            same_but_textures(renderer, out),
            out.textures_view() == renderer.textures_view().remove_keys(
                owned_ids(self.surfaces@, client),
            ),
    {
        let mut r = renderer;
        let ghost start = renderer.textures_view();
        let mut m: usize = 0;
        proof {
            assert(owned_ids_upto(self.surfaces@, client, 0) =~= Set::<u32>::empty());
            assert(start.remove_keys(Set::<u32>::empty()) =~= start);
        }
        while m < self.surfaces.len()
            invariant
                m <= self.surfaces.len(),
                start == renderer.textures_view(),
                same_but_textures(renderer, r),
                r.textures_view() == start.remove_keys(
                    owned_ids_upto(self.surfaces@, client, m as int),
                ),
            decreases self.surfaces.len() - m,
        {
            let ghost before_set = owned_ids_upto(self.surfaces@, client, m as int);
            let ghost after_set = owned_ids_upto(self.surfaces@, client, m + 1);
            if self.surfaces[m].client == client {
                let id: u32 = self.surfaces[m].id;
                let _ = r.remove_surface(id);
                proof {
                    assert forall|x: u32| after_set.contains(x) <==> before_set.insert(
                        id,
                    ).contains(x) by {
                        if after_set.contains(x) {
                            let t = choose|t: int|
                                0 <= t < m + 1 && t < self.surfaces@.len() && (
                                #[trigger] self.surfaces@[t]).id == x && self.surfaces@[t].client
                                    == client;
                            if t < m {
                                assert(before_set.contains(x));
                            }
                        }
                        if before_set.contains(x) {
                            let t = choose|t: int|
                                0 <= t < m && t < self.surfaces@.len() && (
                                #[trigger] self.surfaces@[t]).id == x && self.surfaces@[t].client
                                    == client;
                            assert(t < m + 1);
                        }
                        if x == id {
                            assert(self.surfaces@[m as int].id == id);
                        }
                    }
                    assert(after_set =~= before_set.insert(id));
                    assert(start.remove_keys(before_set).remove(id) =~= start.remove_keys(
                        after_set,
                    ));
                }
            } else {
                proof {
                    assert forall|x: u32| after_set.contains(x) <==> before_set.contains(x) by {
                        if after_set.contains(x) {
                            let t = choose|t: int|
                                0 <= t < m + 1 && t < self.surfaces@.len() && (
                                #[trigger] self.surfaces@[t]).id == x && self.surfaces@[t].client
                                    == client;
                            assert(t < m);
                        }
                        if before_set.contains(x) {
                            let t = choose|t: int|
                                0 <= t < m && t < self.surfaces@.len() && (
                                #[trigger] self.surfaces@[t]).id == x && self.surfaces@[t].client
                                    == client;
                            assert(t < m + 1);
                        }
                    }
                    assert(after_set =~= before_set);
                }
            }
            m += 1;
        }
        proof {
            lemma_owned_ids_upto_all(self.surfaces@, client);
        }
        r
    }

    /// Removes the surfaces of the client from the registry, keeping the
    /// others in order. Returns how many were removed.
    fn drop_client_surfaces(&mut self, client: u32) -> (removed: usize)
        ensures
            final(self).surfaces@ == surfaces_without_client(old(self).surfaces@, client),
            removed == old(self).surfaces@.len() - final(self).surfaces@.len(),
            *final(self) == (WaylandServerState { surfaces: final(self).surfaces, ..*old(self) }),
    {
        let ghost start = self.surfaces@;
        let ghost pred = |s: Surface| s.client != client;
        let ghost mut k: int = 0;
        let mut i: usize = 0;
        let mut removed: usize = 0;
        let total: usize = self.surfaces.len();
        proof {
            assert(start.len() == total);
            reveal(Seq::filter);
            assert(start.take(0) =~= Seq::<Surface>::empty());
            assert(self.surfaces@.take(0) =~= Seq::<Surface>::empty());
            assert(self.surfaces@.skip(0) =~= start.skip(0));
        }
        while i < self.surfaces.len()
            invariant
                i <= self.surfaces.len(),
                0 <= k <= start.len(),
                k == i + removed,
                start == old(self).surfaces@,
                start.len() <= usize::MAX,
                pred == (|s: Surface| s.client != client),
                self.surfaces@.take(i as int) == start.take(k).filter(pred),
                self.surfaces@.skip(i as int) == start.skip(k),
                *self == (WaylandServerState { surfaces: self.surfaces, ..*old(self) }),
            decreases self.surfaces.len() - i,
        {
            let ghost current = self.surfaces@;
            proof {
                assert(current.skip(i as int).len() == start.skip(k).len());
                assert(k < start.len());
                assert(current[i as int] == current.skip(i as int)[0]);
                assert(start[k] == start.skip(k)[0]);
                assert(start.take(k + 1) =~= start.take(k).push(start[k]));
                start.take(k).lemma_filter_push(start[k], pred);
            }
            if self.surfaces[i].client == client {
                let _ = self.surfaces.remove(i);
                proof {
                    assert(self.surfaces@.take(i as int) =~= current.take(i as int));
                    assert(self.surfaces@.skip(i as int) =~= current.skip(i as int).skip(1));
                    assert(start.skip(k + 1) =~= start.skip(k).skip(1));
                    k = k + 1;
                }
                removed += 1;
            } else {
                proof {
                    assert(current.take(i + 1) =~= current.take(i as int).push(current[i as int]));
                    assert(current.skip(i + 1) =~= current.skip(i as int).skip(1));
                    assert(start.skip(k + 1) =~= start.skip(k).skip(1));
                    k = k + 1;
                }
                i += 1;
            }
        }
        proof {
            assert(self.surfaces@.take(i as int) =~= self.surfaces@);
            assert(self.surfaces@.skip(i as int).len() == 0);
            assert(start.skip(k).len() == 0);
            assert(start.take(k) =~= start);
        }
        removed
    }

    /// A client disconnected: every surface it owns is destroyed, with
    /// its window, its focus and its texture. Returns the number of
    /// surfaces destroyed. A client that owns nothing changes nothing.
    pub fn client_disconnected(&mut self, client: u32) -> (removed: usize)
        requires
            old(self).wf(),
        ensures
            final(self).wf(),
            Self::client_removed(*old(self), *final(self), client),
            removed == old(self).surfaces@.len() - final(self).surfaces@.len(),
    {
        let space = self.windows_without_client(client);
        let seat = Seat {
            keyboard_focus: self.focus_cleared_for(self.seat.keyboard_focus, client),
            pointer_focus: self.focus_cleared_for(self.seat.pointer_focus, client),
            touch_focus: self.focus_cleared_for(self.seat.touch_focus, client),
        };
        let mut renderer: Option<VulkanRenderer> = None;
        core::mem::swap(&mut renderer, &mut self.renderer);
        let renderer = match renderer {
            Some(r) => Some(self.drop_client_textures(r, client)),
            None => None,
        };
        self.renderer = renderer;
        self.space = space;
        self.take_focus(seat);
        let removed = self.drop_client_surfaces(client);
        proof {
            lemma_client_removed(*old(self), *self, client);
        }
        removed
    }
}

/// After a client disconnected, nothing of it is reachable: no surface of
/// it is in the registry, no window in the space and no focus slot points
/// at one of its surfaces, and the store is well-formed. A second
/// disconnect of the same client finds nothing to remove.
pub proof fn lemma_client_removed(before: WaylandServerState, after: WaylandServerState, client: u32)
    requires
        before.wf(),
        WaylandServerState::client_removed(before, after, client),
    ensures
        after.wf(),
        forall|i: int|
            0 <= i < after.surfaces@.len() ==> (#[trigger] after.surfaces@[i]).client != client,
        forall|id: u32| !owned_by(after.surfaces@, id, client),
        forall|id: u32|
            after.contains(id) <==> before.contains(id) && before.surface(id).client != client,
        forall|id: u32| after.contains(id) ==> after.surface(id) == before.surface(id),
        forall|k: int|
            0 <= k < after.space@.len() ==> !owned_by(
                before.surfaces@,
                (#[trigger] after.space@[k]).surface,
                client,
            ),
        after.seat.keyboard_focus is Some ==> !owned_by(
            before.surfaces@,
            after.seat.keyboard_focus->Some_0,
            client,
        ),
        after.seat.pointer_focus is Some ==> !owned_by(
            before.surfaces@,
            after.seat.pointer_focus->Some_0,
            client,
        ),
        after.seat.touch_focus is Some ==> !owned_by(
            before.surfaces@,
            after.seat.touch_focus->Some_0,
            client,
        ),
        surfaces_without_client(after.surfaces@, client) == after.surfaces@,
        space_without_client(after.space@, after.surfaces@, client) == after.space@,
        seat_without_client(after.seat, after.surfaces@, client) == after.seat,
{
    let bs = before.surfaces@;
    let asq = after.surfaces@;
    let keep = |s: Surface| s.client != client;
    let key = |s: Surface| s.id;
    assert forall|i: int, j: int| 0 <= i < j < bs.len() implies key(bs[i]) != key(bs[j]) by {
        assert(bs[i].id != bs[j].id);
    }
    lemma_filter_keeps_distinct(bs, keep, key);
    lemma_filter_members(bs, keep);
    assert forall|i: int, j: int| 0 <= i < j < asq.len() implies (#[trigger] asq[i]).id != (
    #[trigger] asq[j]).id by {
        assert(key(asq[i]) != key(asq[j]));
    }
    assert forall|i: int| 0 <= i < asq.len() implies surface_wf(#[trigger] asq[i]) && asq[i].client
        != client by {
        assert(keep(asq[i]));
        assert(asq.contains(asq[i]));
        assert(bs.contains(asq[i]));
        let m = choose|m: int| 0 <= m < bs.len() && bs[m] == asq[i];
        assert(surface_wf(bs[m]));
    }
    assert forall|id: u32| !owned_by(asq, id, client) by {
        if has_surface(asq, id) {
            let i = surface_index(asq, id);
            assert(asq[i].client != client);
        }
    }
    assert forall|id: u32|
        (has_surface(asq, id) <==> has_surface(bs, id) && surface_of(bs, id).client != client) && (
        has_surface(asq, id) ==> surface_of(asq, id) == surface_of(bs, id)) by {
        if has_surface(asq, id) {
            let i = surface_index(asq, id);
            assert(asq.contains(asq[i]));
            assert(bs.contains(asq[i]));
            let m = choose|m: int| 0 <= m < bs.len() && bs[m] == asq[i];
            lemma_surface_index(bs, m);
            lemma_surface_index(asq, i);
        }
        if has_surface(bs, id) && surface_of(bs, id).client != client {
            let m = surface_index(bs, id);
            assert(bs.contains(bs[m]));
            assert(asq.contains(bs[m]));
            let i = choose|i: int| 0 <= i < asq.len() && asq[i] == bs[m];
            assert(asq[i].id == id);
        }
    }
    // the space
    let sp = before.space@;
    let spa = after.space@;
    let skeep = |e: WindowEntry| !owned_by(bs, e.surface, client);
    let skey = |e: WindowEntry| e.surface;
    assert forall|a: int, b: int| 0 <= a < b < sp.len() implies skey(sp[a]) != skey(sp[b]) by {
        assert(sp[a].surface != sp[b].surface);
    }
    lemma_filter_keeps_distinct(sp, skeep, skey);
    lemma_filter_members(sp, skeep);
    assert forall|a: int, b: int| 0 <= a < b < spa.len() implies (#[trigger] spa[a]).surface != (
    #[trigger] spa[b]).surface by {
        assert(skey(spa[a]) != skey(spa[b]));
    }
    assert forall|k: int| 0 <= k < spa.len() implies is_toplevel(asq, (#[trigger] spa[k]).surface)
        && !owned_by(bs, spa[k].surface, client) && !owned_by(asq, spa[k].surface, client) by {
        assert(skeep(spa[k]));
        assert(spa.contains(spa[k]));
        assert(sp.contains(spa[k]));
        let j = choose|j: int| 0 <= j < sp.len() && sp[j] == spa[k];
        let id = spa[k].surface;
        assert(is_toplevel(bs, sp[j].surface));
        lemma_toplevel_has_role(bs, id, 0);
        assert(has_surface(asq, id));
        let i = surface_index(asq, id);
        assert(asq[i].id == id);
        lemma_surface_index(asq, i);
        assert(asq[i].role == Some(Role::Toplevel));
    }
    lemma_filter_all(asq, keep);
    lemma_filter_all(spa, |e: WindowEntry| !owned_by(asq, e.surface, client));
}

impl ClientState {
    /// The bookkeeping of the connection with the given identity.
    pub fn new(client: u32) -> (state: Self)
        ensures
            state.client == client,
    {
        ClientState { client }
    }

    /// The connection went away: everything the client owns is removed
    /// from the store; see [`WaylandServerState::client_disconnected`].
    pub fn disconnected(&self, store: &mut WaylandServerState) -> (removed: usize)
        requires
            old(store).wf(),
        ensures
            final(store).wf(),
            WaylandServerState::client_removed(*old(store), *final(store), self.client),
            removed == old(store).surfaces@.len() - final(store).surfaces@.len(),
    {
        store.client_disconnected(self.client)
    }
}

/// Disconnecting a client twice is disconnecting it once: the second
/// time nothing is left to remove, and the registry, the space, the
/// focus and the textures stay as the first time left them.
pub proof fn lemma_disconnect_idempotent(
    before: WaylandServerState,
    after: WaylandServerState,
    again: WaylandServerState,
    client: u32,
)
    requires
        before.wf(),
        WaylandServerState::client_removed(before, after, client),
        WaylandServerState::client_removed(after, again, client),
    ensures
        again.surfaces@ == after.surfaces@,
        again.space@ == after.space@,
        again.seat == after.seat,
        again.serial == after.serial,
        after.renderer is Some ==> again.renderer is Some
            && again.renderer->Some_0.textures_view() == after.renderer->Some_0.textures_view(),
        after.renderer is None ==> again.renderer is None,
{
    lemma_client_removed(before, after, client);
    if after.renderer is Some {
        let tex = after.renderer->Some_0.textures_view();
        assert(owned_ids(after.surfaces@, client) =~= Set::<u32>::empty());
        assert(tex.remove_keys(Set::<u32>::empty()) =~= tex);
    }
}

} // verus!
