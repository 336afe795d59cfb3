//! State that protocol extensions attach to a surface: inhibitors,
//! pointer constraints, fractional scaling and window decorations.

use vstd::prelude::*;

use crate::error::ProtocolError;
use crate::surface::{
    after_commit, with_ack, Auxiliary, Configure, DecorationMode, Role, Surface, ToplevelState,
};
use crate::wayland::{
    lemma_replace_keeps_wf, lemma_surface_index, next_serial, WaylandServerState,
};

verus! {

/// One piece of auxiliary state that is either attached or not.
#[derive(Clone, Copy, Debug, PartialEq, Eq, Structural)]
pub enum AuxFlag {
    IdleInhibit,
    ShortcutsInhibit,
    PointerConstraint,
    FractionalScale,
}

/// The decoration mode a client asks for.
#[derive(Clone, Copy, Debug, PartialEq, Eq, Structural)]
pub enum RequestedDecoration {
    ClientSide,
    ServerSide,
    /// A mode this compositor does not know.
    Unknown,
}

/// Auxiliary state with one flag set to `value`.
pub open spec fn aux_with_flag(aux: Auxiliary, flag: AuxFlag, value: bool) -> Auxiliary {
    match flag {
        AuxFlag::IdleInhibit => Auxiliary { idle_inhibited: value, ..aux },
        AuxFlag::ShortcutsInhibit => Auxiliary { shortcuts_inhibited: value, ..aux },
        AuxFlag::PointerConstraint => Auxiliary { pointer_constrained: value, ..aux },
        AuxFlag::FractionalScale => Auxiliary { fractional_scale: value, ..aux },
    }
}

/// The surface with one auxiliary flag set to `value`.
pub open spec fn with_flag(s: Surface, flag: AuxFlag, value: bool) -> Surface {
    Surface { aux: aux_with_flag(s.aux, flag, value), ..s }
}

/// The mode that answers a request: what the client asked for, and
/// server-side decorations where it asked for something unknown.
pub open spec fn resolved_mode(requested: RequestedDecoration) -> DecorationMode {
    match requested {
        RequestedDecoration::ClientSide => DecorationMode::ClientSide,
        RequestedDecoration::ServerSide => DecorationMode::ServerSide,
        RequestedDecoration::Unknown => DecorationMode::ServerSide,
    }
}

/// The latest window state that is on its way to the client or back:
/// what the outstanding configure proposes; else what was acknowledged
/// and awaits its commit; else the state in effect.
pub open spec fn state_in_flight(s: Surface) -> ToplevelState {
    match s.proposed {
        Some(c) => c.state,
        None => match s.acked {
            Some(a) => a,
            None => s.current,
        },
    }
}

/// The toplevel after a decoration mode was proposed to it: one new
/// configure is outstanding, which repeats the window state in flight
/// with the mode in it. The mode in effect is untouched: it follows when
/// the client acknowledges and commits.
pub open spec fn with_decoration(s: Surface, mode: DecorationMode, serial: u32) -> Surface {
    Surface {
        proposed: Some(
            Configure {
                serial,
                state: ToplevelState { decoration: Some(mode), ..state_in_flight(s) },
            },
        ),
        ..s
    }
}

/// A decoration mode takes effect in two phases: proposing it leaves the
/// mode in effect as it is, and so does the acknowledgement; the commit
/// after the acknowledgement puts it in effect.
pub proof fn lemma_decoration_two_phase(
    s: Surface,
    mode: DecorationMode,
    serial: u32,
    accepted: bool,
)
    ensures
        with_decoration(s, mode, serial).current == s.current,
        with_decoration(s, mode, serial).proposed->Some_0.state.decoration == Some(mode),
        with_decoration(s, mode, serial).proposed->Some_0.serial == serial,
        with_ack(with_decoration(s, mode, serial)).current == s.current,
        after_commit(with_ack(with_decoration(s, mode, serial)), accepted).current.decoration
            == Some(mode),
        s.acked is None ==> after_commit(with_decoration(s, mode, serial), accepted).current
            == s.current,
{
}

impl WaylandServerState {
    /// Attaches or detaches one piece of auxiliary state of a surface.
    ///
    /// Fails with `UnknownSurface`, changing nothing, exactly when the
    /// store does not hold the surface.
    pub fn set_extension_flag(&mut self, id: u32, flag: AuxFlag, value: bool) -> (r: Result<
        (),
        ProtocolError,
    >)
        requires
            old(self).wf(),
        ensures
            final(self).wf(),
            r is Err <==> !old(self).contains(id),
            r is Err ==> r == Err::<(), _>(ProtocolError::UnknownSurface) && *final(self) == *old(
                self,
            ),
            r is Ok ==> Self::only_surfaces_changed(*old(self), *final(self))
                && Self::surface_replaced(
                *old(self),
                *final(self),
                id,
                with_flag(old(self).surface(id), flag, value),
            ),
    {
        let i = match self.find_surface(id) {
            Some(i) => i,
            None => { return Err(ProtocolError::UnknownSurface); },
        };
        match flag {
            AuxFlag::IdleInhibit => {
                self.surfaces[i].aux.idle_inhibited = value;
            },
            AuxFlag::ShortcutsInhibit => {
                self.surfaces[i].aux.shortcuts_inhibited = value;
            },
            AuxFlag::PointerConstraint => {
                self.surfaces[i].aux.pointer_constrained = value;
            },
            AuxFlag::FractionalScale => {
                self.surfaces[i].aux.fractional_scale = value;
            },
        }
        proof {
            let before = old(self).surfaces@;
            let r = with_flag(before[i as int], flag, value);
            assert(self.surfaces@ =~= before.update(i as int, r));
            lemma_replace_keeps_wf(*old(self), *self, i as int, r);
        }
        Ok(())
    }

    /// A client asks that the system stay awake while the surface is
    /// shown; see [`Self::set_extension_flag`].
    pub fn inhibit(&mut self, id: u32) -> (r: Result<(), ProtocolError>)
        requires
            old(self).wf(),
        ensures
            final(self).wf(),
            r is Err <==> !old(self).contains(id),
            r is Err ==> r == Err::<(), _>(ProtocolError::UnknownSurface) && *final(self) == *old(
                self,
            ),
            r is Ok ==> Self::only_surfaces_changed(*old(self), *final(self))
                && Self::surface_replaced(
                *old(self),
                *final(self),
                id,
                with_flag(old(self).surface(id), AuxFlag::IdleInhibit, true),
            ),
    {
        self.set_extension_flag(id, AuxFlag::IdleInhibit, true)
    }

    /// The idle inhibitor of a surface was destroyed.
    pub fn uninhibit(&mut self, id: u32) -> (r: Result<(), ProtocolError>)
        requires
            old(self).wf(),
        ensures
            final(self).wf(),
            r is Err <==> !old(self).contains(id),
            r is Err ==> r == Err::<(), _>(ProtocolError::UnknownSurface) && *final(self) == *old(
                self,
            ),
            r is Ok ==> Self::only_surfaces_changed(*old(self), *final(self))
                && Self::surface_replaced(
                *old(self),
                *final(self),
                id,
                with_flag(old(self).surface(id), AuxFlag::IdleInhibit, false),
            ),
    {
        self.set_extension_flag(id, AuxFlag::IdleInhibit, false)
    }

    /// A client asks that compositor shortcuts be passed to the surface.
    pub fn new_inhibitor(&mut self, id: u32) -> (r: Result<(), ProtocolError>)
        requires
            old(self).wf(),
        ensures
            final(self).wf(),
            r is Err <==> !old(self).contains(id),
            r is Err ==> r == Err::<(), _>(ProtocolError::UnknownSurface) && *final(self) == *old(
                self,
            ),
            r is Ok ==> Self::only_surfaces_changed(*old(self), *final(self))
                && Self::surface_replaced(
                *old(self),
                *final(self),
                id,
                with_flag(old(self).surface(id), AuxFlag::ShortcutsInhibit, true),
            ),
    {
        self.set_extension_flag(id, AuxFlag::ShortcutsInhibit, true)
    }

    /// The shortcuts inhibitor of a surface was destroyed.
    pub fn inhibitor_destroyed(&mut self, id: u32) -> (r: Result<(), ProtocolError>)
        requires
            old(self).wf(),
        ensures
            final(self).wf(),
            r is Err <==> !old(self).contains(id),
            r is Err ==> r == Err::<(), _>(ProtocolError::UnknownSurface) && *final(self) == *old(
                self,
            ),
            r is Ok ==> Self::only_surfaces_changed(*old(self), *final(self))
                && Self::surface_replaced(
                *old(self),
                *final(self),
                id,
                with_flag(old(self).surface(id), AuxFlag::ShortcutsInhibit, false),
            ),
    {
        self.set_extension_flag(id, AuxFlag::ShortcutsInhibit, false)
    }

    /// A pointer constraint was created for the surface.
    pub fn new_constraint(&mut self, id: u32) -> (r: Result<(), ProtocolError>)
        requires
            old(self).wf(),
        ensures
            final(self).wf(),
            r is Err <==> !old(self).contains(id),
            r is Err ==> r == Err::<(), _>(ProtocolError::UnknownSurface) && *final(self) == *old(
                self,
            ),
            r is Ok ==> Self::only_surfaces_changed(*old(self), *final(self))
                && Self::surface_replaced(
                *old(self),
                *final(self),
                id,
                with_flag(old(self).surface(id), AuxFlag::PointerConstraint, true),
            ),
    {
        self.set_extension_flag(id, AuxFlag::PointerConstraint, true)
    }

    /// Fractional scaling was instantiated for the surface.
    pub fn new_fractional_scale(&mut self, id: u32) -> (r: Result<(), ProtocolError>)
        requires
            old(self).wf(),
        ensures
            final(self).wf(),
            r is Err <==> !old(self).contains(id),
            r is Err ==> r == Err::<(), _>(ProtocolError::UnknownSurface) && *final(self) == *old(
                self,
            ),
            r is Ok ==> Self::only_surfaces_changed(*old(self), *final(self))
                && Self::surface_replaced(
                *old(self),
                *final(self),
                id,
                with_flag(old(self).surface(id), AuxFlag::FractionalScale, true),
            ),
    {
        self.set_extension_flag(id, AuxFlag::FractionalScale, true)
    }

    /// Whether some surface keeps the system from idling.
    pub fn is_idle_inhibited(&self) -> (inhibited: bool)
        ensures
            inhibited == exists|i: int|
                0 <= i < self.surfaces@.len() && (#[trigger] self.surfaces@[i]).aux.idle_inhibited,
    {
        let mut i: usize = 0;
        while i < self.surfaces.len()
            invariant
                i <= self.surfaces.len(),
                forall|j: int| 0 <= j < i ==> !(#[trigger] self.surfaces@[j]).aux.idle_inhibited,
            decreases self.surfaces.len() - i,
        {
            if self.surfaces[i].aux.idle_inhibited {
                return true;
            }
            i += 1;
        }
        false
    }

    /// Proposes a decoration mode to a toplevel with one configure, whose
    /// serial is returned. The mode takes effect when the client has
    /// acknowledged the configure and committed.
    ///
    /// Fails, changing nothing, with `UnknownSurface` when the store does
    /// not hold the surface and with `WrongRole` when it is no toplevel.
    pub fn set_decoration(&mut self, id: u32, mode: DecorationMode) -> (r: Result<
        u32,
        ProtocolError,
    >)
        requires
            old(self).wf(),
        ensures
            final(self).wf(),
            r is Err ==> *final(self) == *old(self),
            r == Err::<u32, _>(ProtocolError::UnknownSurface) <==> !old(self).contains(id),
            r == Err::<u32, _>(ProtocolError::WrongRole) <==> old(self).contains(id) && old(
                self,
            ).surface(id).role != Some(Role::Toplevel),
            r is Ok <==> old(self).contains(id) && old(self).surface(id).role == Some(
                Role::Toplevel,
            ),
            r is Ok ==> {
                &&& r->Ok_0 == next_serial(old(self).serial)
                &&& Self::surface_replaced(
                    *old(self),
                    *final(self),
                    id,
                    with_decoration(old(self).surface(id), mode, r->Ok_0),
                )
                &&& *final(self) == (WaylandServerState {
                    surfaces: final(self).surfaces,
                    serial: r->Ok_0,
                    ..*old(self)
                })
            },
    {
        let i = match self.find_surface(id) {
            Some(i) => i,
            None => { return Err(ProtocolError::UnknownSurface); },
        };
        proof {
            lemma_surface_index(self.surfaces@, i as int);
        }
        match self.surfaces[i].role {
            Some(Role::Toplevel) => {},
            _ => { return Err(ProtocolError::WrongRole); },
        }
        let serial: u32 = if self.serial == u32::MAX {
            0
        } else {
            self.serial + 1
        };
        self.serial = serial;
        let mut state = match self.surfaces[i].proposed {
            Some(c) => c.state,
            None => match self.surfaces[i].acked {
                Some(a) => a,
                None => self.surfaces[i].current,
            },
        };
        state.decoration = Some(mode);
        self.surfaces[i].proposed = Some(Configure { serial, state });
        proof {
            let before = old(self).surfaces@;
            let r = with_decoration(before[i as int], mode, serial);
            assert(self.surfaces@ =~= before.update(i as int, r));
            lemma_replace_keeps_wf(*old(self), *self, i as int, r);
        }
        Ok(serial)
    }

    /// A client bound the decoration extension for a toplevel: the
    /// compositor draws the frame unless asked otherwise. See
    /// [`Self::set_decoration`].
    pub fn new_decoration(&mut self, id: u32) -> (r: Result<u32, ProtocolError>)
        requires
            old(self).wf(),
        ensures
            final(self).wf(),
            r is Err ==> *final(self) == *old(self),
            r == Err::<u32, _>(ProtocolError::UnknownSurface) <==> !old(self).contains(id),
            r == Err::<u32, _>(ProtocolError::WrongRole) <==> old(self).contains(id) && old(
                self,
            ).surface(id).role != Some(Role::Toplevel),
            r is Ok <==> old(self).contains(id) && old(self).surface(id).role == Some(
                Role::Toplevel,
            ),
            r is Ok ==> {
                &&& r->Ok_0 == next_serial(old(self).serial)
                &&& Self::surface_replaced(
                    *old(self),
                    *final(self),
                    id,
                    with_decoration(old(self).surface(id), DecorationMode::ServerSide, r->Ok_0),
                )
                &&& *final(self) == (WaylandServerState {
                    surfaces: final(self).surfaces,
                    serial: r->Ok_0,
                    ..*old(self)
                })
            },
    {
        self.set_decoration(id, DecorationMode::ServerSide)
    }

    /// A client asked for a decoration mode. It gets what it asked for;
    /// an unknown mode is answered with server-side decorations.
    pub fn request_mode(&mut self, id: u32, mode: RequestedDecoration) -> (r: Result<
        u32,
        ProtocolError,
    >)
        requires
            old(self).wf(),
        ensures
            final(self).wf(),
            r is Err ==> *final(self) == *old(self),
            r == Err::<u32, _>(ProtocolError::UnknownSurface) <==> !old(self).contains(id),
            r == Err::<u32, _>(ProtocolError::WrongRole) <==> old(self).contains(id) && old(
                self,
            ).surface(id).role != Some(Role::Toplevel),
            r is Ok <==> old(self).contains(id) && old(self).surface(id).role == Some(
                Role::Toplevel,
            ),
            r is Ok ==> {
                &&& r->Ok_0 == next_serial(old(self).serial)
                &&& Self::surface_replaced(
                    *old(self),
                    *final(self),
                    id,
                    with_decoration(old(self).surface(id), resolved_mode(mode), r->Ok_0),
                )
                &&& *final(self) == (WaylandServerState {
                    surfaces: final(self).surfaces,
                    serial: r->Ok_0,
                    ..*old(self)
                })
            },
    {
        let resolved = match mode {
            RequestedDecoration::ClientSide => DecorationMode::ClientSide,
            RequestedDecoration::ServerSide => DecorationMode::ServerSide,
            RequestedDecoration::Unknown => DecorationMode::ServerSide,
        };
        self.set_decoration(id, resolved)
    }

    /// A client withdrew its decoration preference: the compositor draws
    /// the frame.
    pub fn unset_mode(&mut self, id: u32) -> (r: Result<u32, ProtocolError>)
        requires
            old(self).wf(),
        ensures
            final(self).wf(),
            r is Err ==> *final(self) == *old(self),
            r == Err::<u32, _>(ProtocolError::UnknownSurface) <==> !old(self).contains(id),
            r == Err::<u32, _>(ProtocolError::WrongRole) <==> old(self).contains(id) && old(
                self,
            ).surface(id).role != Some(Role::Toplevel),
            r is Ok <==> old(self).contains(id) && old(self).surface(id).role == Some(
                Role::Toplevel,
            ),
            r is Ok ==> {
                &&& r->Ok_0 == next_serial(old(self).serial)
                &&& Self::surface_replaced(
                    *old(self),
                    *final(self),
                    id,
                    with_decoration(old(self).surface(id), DecorationMode::ServerSide, r->Ok_0),
                )
                &&& *final(self) == (WaylandServerState {
                    surfaces: final(self).surfaces,
                    serial: r->Ok_0,
                    ..*old(self)
                })
            },
    {
        self.set_decoration(id, DecorationMode::ServerSide)
    }
}

} // verus!
