//! The space (stacking order, hit testing) and seat focus.

use vstd::prelude::*;

use crate::error::ProtocolError;
use crate::surface::{region_contains, Lifecycle, Surface};
use crate::teardown::{lemma_space_without_wf, space_without, windows_without};
use crate::wayland::{
    has_surface, in_space, is_toplevel, lemma_surface_index, next_serial, surface_of, Seat,
    WaylandServerState, WindowEntry,
};

verus! {

/// The input capability a focus slot belongs to.
#[derive(Clone, Copy, Debug, PartialEq, Eq, Structural)]
pub enum FocusKind {
    Keyboard,
    Pointer,
    Touch,
}

/// The seat with one focus slot pointed at `target`.
pub open spec fn seat_with_focus(seat: Seat, kind: FocusKind, target: Option<u32>) -> Seat {
    match kind {
        FocusKind::Keyboard => Seat { keyboard_focus: target, ..seat },
        FocusKind::Pointer => Seat { pointer_focus: target, ..seat },
        FocusKind::Touch => Seat { touch_focus: target, ..seat },
    }
}

/// Whether the window's surface is mapped, so that it is shown.
pub open spec fn window_visible(surfaces: Seq<Surface>, e: WindowEntry) -> bool {
    has_surface(surfaces, e.surface) && surface_of(surfaces, e.surface).lifecycle
        == Lifecycle::Mapped
}

/// Whether the window is shown and takes input at the point. The window
/// covers its applied size from its position, right and bottom edges
/// excluded; where the surface has an input region, the point must lie
/// in it as well.
pub open spec fn window_hit(surfaces: Seq<Surface>, e: WindowEntry, x: i32, y: i32) -> bool {
    let applied = surface_of(surfaces, e.surface).applied;
    &&& window_visible(surfaces, e)
    &&& e.x <= x < e.x + applied.width
    &&& e.y <= y < e.y + applied.height
    &&& (applied.input_region is Some ==> region_contains(
        applied.input_region->Some_0,
        x - e.x,
        y - e.y,
    ))
}

/// The surfaces of the shown windows, bottom first.
pub open spec fn visible_ids(surfaces: Seq<Surface>, space: Seq<WindowEntry>) -> Seq<u32> {
    space.filter(|e: WindowEntry| window_visible(surfaces, e)).map_values(
        |e: WindowEntry| e.surface,
    )
}

impl WaylandServerState {
    /// Points one focus slot of the seat at a surface, or at nothing.
    /// Returns the serial that stamps the change.
    ///
    /// Fails with `UnknownSurface`, changing nothing, exactly when the
    /// target is a surface that the store does not hold.
    pub fn set_focus(&mut self, kind: FocusKind, target: Option<u32>) -> (r: Result<
        u32,
        ProtocolError,
    >)
        requires
            old(self).wf(),
        ensures
            final(self).wf(),
            r is Err <==> target is Some && !old(self).contains(target->Some_0),
            r is Err ==> r == Err::<u32, _>(ProtocolError::UnknownSurface) && *final(self) == *old(
                self,
            ),
            r is Ok ==> r->Ok_0 == next_serial(old(self).serial) && *final(self) == (
            WaylandServerState {
                seat: seat_with_focus(old(self).seat, kind, target),
                serial: r->Ok_0,
                ..*old(self)
            }),
    {
        match target {
            Some(id) => {
                if self.find_surface(id).is_none() {
                    return Err(ProtocolError::UnknownSurface);
                }
            },
            None => {},
        }
        let serial: u32 = if self.serial == u32::MAX {
            0
        } else {
            self.serial + 1
        };
        self.serial = serial;
        match kind {
            FocusKind::Keyboard => {
                self.seat.keyboard_focus = target;
            },
            FocusKind::Pointer => {
                self.seat.pointer_focus = target;
            },
            FocusKind::Touch => {
                self.seat.touch_focus = target;
            },
        }
        Ok(serial)
    }

    /// Keyboard focus moved to a surface, or to nothing; see
    /// [`Self::set_focus`].
    pub fn focus_changed(&mut self, focused: Option<u32>) -> (r: Result<u32, ProtocolError>)
        requires
            old(self).wf(),
        ensures
            final(self).wf(),
            r is Err <==> focused is Some && !old(self).contains(focused->Some_0),
            r is Err ==> r == Err::<u32, _>(ProtocolError::UnknownSurface) && *final(self) == *old(
                self,
            ),
            r is Ok ==> r->Ok_0 == next_serial(old(self).serial) && *final(self) == (
            WaylandServerState {
                seat: Seat { keyboard_focus: focused, ..old(self).seat },
                serial: r->Ok_0,
                ..*old(self)
            }),
    {
        self.set_focus(FocusKind::Keyboard, focused)
    }

    /// Whether the window's surface is mapped.
    fn is_visible(&self, e: WindowEntry) -> (v: bool)
        requires
            self.wf(),
        ensures
            v == window_visible(self.surfaces@, e),
    {
        match self.find_surface(e.surface) {
            Some(i) => {
                proof {
                    lemma_surface_index(self.surfaces@, i as int);
                }
                matches!(self.surfaces[i].lifecycle, Lifecycle::Mapped)
            },
            None => false,
        }
    }

    /// The surfaces to compose, back to front: the windows of the space
    /// whose surface is mapped.
    pub fn stacking_order(&self) -> (order: Vec<u32>)
        requires
            self.wf(),
        ensures
            order@ == visible_ids(self.surfaces@, self.space@),
    {
        let ghost pred = |e: WindowEntry| window_visible(self.surfaces@, e);
        let ghost proj = |e: WindowEntry| e.surface;
        let mut order: Vec<u32> = Vec::new();
        let mut k: usize = 0;
        proof {
            reveal(Seq::filter);
            assert(self.space@.take(0) =~= Seq::<WindowEntry>::empty());
            assert(Seq::<WindowEntry>::empty().map_values(proj) =~= Seq::<u32>::empty());
        }
        while k < self.space.len()
            invariant
                k <= self.space.len(),
                self.wf(),
                pred == (|e: WindowEntry| window_visible(self.surfaces@, e)),
                proj == (|e: WindowEntry| e.surface),
                order@ == self.space@.take(k as int).filter(pred).map_values(proj),
            decreases self.space.len() - k,
        {
            let e: WindowEntry = self.space[k];
            proof {
                let seen = self.space@.take(k as int);
                assert(self.space@.take(k + 1) =~= seen.push(e));
                seen.lemma_filter_push(e, pred);
                assert(seen.filter(pred).push(e).map_values(proj) =~= seen.filter(pred).map_values(
                    proj,
                ).push(e.surface));
            }
            if self.is_visible(e) {
                order.push(e.surface);
            }
            k += 1;
        }
        proof {
            assert(self.space@.take(k as int) =~= self.space@);
        }
        order
    }

    /// The topmost shown window under a point, for input delivery.
    ///
    /// Returns the surface of the highest window in the stacking order
    /// that is hit; `None` when no window is.
    pub fn surface_under(&self, x: i32, y: i32) -> (r: Option<u32>)
        requires
            self.wf(),
        ensures
            r is None <==> forall|k: int|
                0 <= k < self.space@.len() ==> !window_hit(
                    self.surfaces@,
                    #[trigger] self.space@[k],
                    x,
                    y,
                ),
            r is Some ==> exists|k: int|
                {
                    &&& 0 <= k < self.space@.len()
                    &&& (#[trigger] self.space@[k]).surface == r->Some_0
                    &&& window_hit(self.surfaces@, self.space@[k], x, y)
                    &&& forall|above: int|
                        k < above < self.space@.len() ==> !window_hit(
                            self.surfaces@,
                            #[trigger] self.space@[above],
                            x,
                            y,
                        )
                },
    {
        let mut k: usize = self.space.len();
        while k > 0
            invariant
                k <= self.space.len(),
                self.wf(),
                forall|above: int|
                    k <= above < self.space@.len() ==> !window_hit(
                        self.surfaces@,
                        #[trigger] self.space@[above],
                        x,
                        y,
                    ),
            decreases k,
        {
            k -= 1;
            let e: WindowEntry = self.space[k];
            match self.find_surface(e.surface) {
                Some(i) => {
                    proof {
                        lemma_surface_index(self.surfaces@, i as int);
                    }
                    let s = &self.surfaces[i];
                    let mapped = matches!(s.lifecycle, Lifecycle::Mapped);
                    let right: i64 = e.x as i64 + s.applied.width as i64;
                    let bottom: i64 = e.y as i64 + s.applied.height as i64;
                    let takes_input = match s.applied.input_region {
                        Some(region) => region.contains(
                            x as i64 - e.x as i64,
                            y as i64 - e.y as i64,
                        ),
                        None => true,
                    };
                    if mapped && e.x <= x && (x as i64) < right && e.y <= y && (y as i64)
                        < bottom && takes_input {
                        assert(window_hit(self.surfaces@, self.space@[k as int], x, y));
                        return Some(e.surface);
                    }
                },
                None => {},
            }
        }
        None
    }

    /// The surface a popup is placed against, as far as it is still
    /// there: `None` for a surface that is no popup, and for a popup
    /// whose parent was destroyed or lost its role since.
    pub fn popup_parent(&self, id: u32) -> (parent: Option<u32>)
        requires
            self.wf(),
        ensures
            parent is Some <==> self.contains(id) && self.surface(id).parent is Some
                && self.contains(self.surface(id).parent->Some_0) && self.surface(
                self.surface(id).parent->Some_0,
            ).role is Some,
            parent is Some ==> parent == self.surface(id).parent,
    {
        let i = match self.find_surface(id) {
            Some(i) => i,
            None => { return None; },
        };
        proof {
            lemma_surface_index(self.surfaces@, i as int);
        }
        match self.surfaces[i].parent {
            Some(p) => match self.find_surface(p) {
                Some(j) => {
                    proof {
                        lemma_surface_index(self.surfaces@, j as int);
                    }
                    if self.surfaces[j].role.is_some() {
                        Some(p)
                    } else {
                        None
                    }
                },
                None => None,
            },
            None => None,
        }
    }

    /// Moves the window of a surface to the top of the stacking order.
    /// Returns whether the surface has a window; if not, nothing changes.
    pub fn raise(&mut self, id: u32) -> (raised: bool)
        requires
            old(self).wf(),
        ensures
            final(self).wf(),
            raised == in_space(old(self).space@, id),
            !raised ==> *final(self) == *old(self),
            raised ==> exists|k: int|
                {
                    &&& 0 <= k < old(self).space@.len()
                    &&& (#[trigger] old(self).space@[k]).surface == id
                    &&& final(self).space@ == space_without(old(self).space@, id).push(
                        old(self).space@[k],
                    )
                },
            *final(self) == (WaylandServerState { space: final(self).space, ..*old(self) }),
    {
        let mut k: usize = 0;
        while k < self.space.len()
            invariant
                k <= self.space.len(),
                *self == *old(self),
                self.wf(),
                forall|j: int| 0 <= j < k ==> (#[trigger] self.space@[j]).surface != id,
            decreases self.space.len() - k,
        {
            if self.space[k].surface == id {
                let entry: WindowEntry = self.space[k];
                let mut space = windows_without(&self.space, id);
                space.push(entry);
                proof {
                    let old_space = old(self).space@;
                    let rest = space_without(old_space, id);
                    lemma_space_without_wf(old_space, id, self.surfaces@, self.surfaces@);
                    assert(is_toplevel(self.surfaces@, old_space[k as int].surface));
                    assert forall|a: int, b: int| 0 <= a < b < space@.len() implies (
                    #[trigger] space@[a]).surface != (#[trigger] space@[b]).surface by {
                        if b == rest.len() {
                            assert(space@[a] == rest[a]);
                        } else {
                            assert(space@[a] == rest[a] && space@[b] == rest[b]);
                        }
                    }
                    assert forall|j: int| 0 <= j < space@.len() implies is_toplevel(
                        self.surfaces@,
                        (#[trigger] space@[j]).surface,
                    ) by {
                        if j < rest.len() {
                            assert(space@[j] == rest[j]);
                        }
                    }
                }
                self.space = space;
                return true;
            }
            k += 1;
        }
        false
    }
}

} // verus!
