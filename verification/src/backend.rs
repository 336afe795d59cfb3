//! The backend: which display hardware is used, and the outputs it
//! drives.

use vstd::prelude::*;
use vstd::string::StringExecFns;

use crate::error::CompositorError;
use crate::error::ErrorKind;
use crate::renderer::VulkanRenderer;

verus! {

/// The kind of backend to run on.
#[derive(Debug, Clone, Copy, PartialEq, Eq, Structural)]
pub enum BackendType {
    /// Windowed backend, for testing and development.
    Windowed,
    /// Direct hardware output.
    Drm,
    /// Use direct hardware output if it is available, else windowed.
    Auto,
}

/// One output of the backend.
#[derive(Debug, Clone)]
pub struct DisplayOutput {
    pub id: u32,
    pub name: String,
    pub width: u32,
    pub height: u32,
    /// Refresh rate in hertz.
    pub refresh_rate: u32,
    pub connected: bool,
    /// The presentation surface of this output; `None` when hardware
    /// presentation could not be established. Never a null handle.
    pub vk_surface: Option<u64>,
}

/// An output as contracts speak of it.
pub struct DisplayOutputView {
    pub id: u32,
    pub name: Seq<char>,
    pub width: u32,
    pub height: u32,
    pub refresh_rate: u32,
    pub connected: bool,
    pub vk_surface: Option<u64>,
}

impl View for DisplayOutput {
    type V = DisplayOutputView;

    open spec fn view(&self) -> DisplayOutputView {
        DisplayOutputView {
            id: self.id,
            name: self.name@,
            width: self.width,
            height: self.height,
            refresh_rate: self.refresh_rate,
            connected: self.connected,
            vk_surface: self.vk_surface,
        }
    }
}

/// Number of device nodes that are probed: cards 0 to 7.
pub const MAX_CARDS: u8 = 8;

/// Evidence of a display session in the process environment.
#[derive(Debug)]
pub struct SessionEnv {
    /// The session type that the environment names, if any.
    pub session_type: Option<String>,
    /// Whether the environment names a session id.
    pub has_session_id: bool,
    /// The login name, if the environment has one.
    pub login_name: Option<String>,
}

/// What was found of the device nodes and the session.
#[derive(Debug)]
pub struct DeviceProbe {
    /// `present[i]` says whether the node of card `i` exists. Cards that
    /// the list does not reach are absent.
    pub present: Vec<bool>,
    /// `accessible[i]` is the outcome of opening the node of card `i`
    /// for reading and writing: `Ok`, or the cause of the failure. Cards
    /// that the list does not reach were not opened.
    pub accessible: Vec<Result<(), String>>,
    pub session: SessionEnv,
}

/// The outcome of the attempt to create a presentation surface.
#[derive(Clone, Copy, Debug, PartialEq, Eq, Structural)]
pub struct PresentationTarget {
    pub surface: u64,
    pub image_count: u32,
}

/// An output that the driver reports, with the presentation surface
/// that was created for it, if one was.
#[derive(Debug)]
pub struct DiscoveredOutput {
    pub name: String,
    pub width: u32,
    pub height: u32,
    /// Refresh rate in hertz.
    pub refresh_rate: u32,
    pub target: Option<PresentationTarget>,
}

/// Whether the node of card `i` exists.
pub open spec fn card_present(probe: DeviceProbe, i: int) -> bool {
    0 <= i < MAX_CARDS && i < probe.present@.len() && probe.present@[i]
}

/// Whether the node of card `i` exists and can be opened.
pub open spec fn card_accessible(probe: DeviceProbe, i: int) -> bool {
    card_present(probe, i) && i < probe.accessible@.len() && probe.accessible@[i] is Ok
}

/// Why the node of card `i` is not open: the cause that the probe
/// reports, or that the card was not probed.
pub open spec fn open_failure(probe: DeviceProbe, i: int) -> Seq<char> {
    if 0 <= i < probe.accessible@.len() && probe.accessible@[i] is Err {
        probe.accessible@[i]->Err_0@
    } else {
        "device was not probed"@
    }
}

/// Whether the environment shows a display session: a Wayland session
/// type, a session id, or the superuser's login name.
pub open spec fn has_session(session: SessionEnv) -> bool {
    ||| (session.session_type is Some && session.session_type->Some_0@ == "wayland"@)
    ||| session.has_session_id
    ||| (session.login_name is Some && session.login_name->Some_0@ == "root"@)
}

/// Whether direct hardware output can be used: some card exists, the
/// environment shows a session, and some card can be opened.
pub open spec fn drm_usable(probe: DeviceProbe) -> bool {
    &&& exists|i: int| card_present(probe, i)
    &&& has_session(probe.session)
    &&& exists|i: int| card_accessible(probe, i)
}

/// The cards below `upto` that exist, lowest first.
pub open spec fn cards_below(probe: DeviceProbe, upto: int) -> Seq<u8>
    decreases upto,
{
    if upto <= 0 {
        Seq::empty()
    } else if card_present(probe, upto - 1) {
        cards_below(probe, upto - 1).push((upto - 1) as u8)
    } else {
        cards_below(probe, upto - 1)
    }
}

/// The candidate cards, lowest first.
pub open spec fn candidate_cards(probe: DeviceProbe) -> Seq<u8> {
    cards_below(probe, MAX_CARDS as int)
}

/// The candidate list holds exactly the cards that exist, in strictly
/// ascending order; so the same probe always yields the same primary.
pub proof fn lemma_cards_below(probe: DeviceProbe, upto: int)
    requires
        0 <= upto <= MAX_CARDS,
    ensures
        forall|k: int|
            0 <= k < cards_below(probe, upto).len() ==> (#[trigger] cards_below(probe, upto)[k])
                < upto && card_present(probe, cards_below(probe, upto)[k] as int),
        forall|a: int, b: int|
            0 <= a < b < cards_below(probe, upto).len() ==> cards_below(probe, upto)[a]
                < cards_below(probe, upto)[b],
        forall|i: int|
            0 <= i < upto && card_present(probe, i) ==> cards_below(probe, upto).contains(i as u8),
        cards_below(probe, upto).len() <= upto,
    decreases upto,
{
    if upto > 0 {
        lemma_cards_below(probe, upto - 1);
        let rest = cards_below(probe, upto - 1);
        let all = cards_below(probe, upto);
        if card_present(probe, upto - 1) {
            assert(all == rest.push((upto - 1) as u8));
            assert(all[rest.len() as int] == (upto - 1) as u8);
            assert forall|i: int| 0 <= i < upto && card_present(probe, i) implies all.contains(
                i as u8,
            ) by {
                if i < upto - 1 {
                    assert(rest.contains(i as u8));
                    let k = choose|k: int| 0 <= k < rest.len() && rest[k] == i as u8;
                    assert(all[k] == i as u8);
                } else {
                    assert(all[rest.len() as int] == i as u8);
                }
            }
        } else {
            assert(all == rest);
        }
    }
}

/// A decimal digit as text.
pub open spec fn digit(value: u8) -> Seq<char> {
    if value == 0 {
        "0"@
    } else if value == 1 {
        "1"@
    } else if value == 2 {
        "2"@
    } else if value == 3 {
        "3"@
    } else if value == 4 {
        "4"@
    } else if value == 5 {
        "5"@
    } else if value == 6 {
        "6"@
    } else if value == 7 {
        "7"@
    } else if value == 8 {
        "8"@
    } else {
        "9"@
    }
}

/// A card index in decimal, without leading zeros.
pub open spec fn decimal(index: u8) -> Seq<char> {
    if index < 10 {
        digit(index)
    } else if index < 100 {
        digit(index / 10) + digit(index % 10)
    } else {
        digit(index / 100) + digit((index / 10) % 10) + digit(index % 10)
    }
}

/// The path of the device node of a card.
pub open spec fn card_path(index: u8) -> Seq<char> {
    "/dev/dri/card"@ + decimal(index)
}

/// A decimal digit as text; values above nine give the digit nine.
fn digit_text(value: u8) -> (text: &'static str)
    ensures
        text@ == digit(value),
{
    if value == 0 {
        "0"
    } else if value == 1 {
        "1"
    } else if value == 2 {
        "2"
    } else if value == 3 {
        "3"
    } else if value == 4 {
        "4"
    } else if value == 5 {
        "5"
    } else if value == 6 {
        "6"
    } else if value == 7 {
        "7"
    } else if value == 8 {
        "8"
    } else {
        "9"
    }
}

/// The path of the device node of a card.
pub fn device_path(index: u8) -> (path: String)
    ensures
        path@ == card_path(index),
{
    let number = if index < 10 {
        String::from_str(digit_text(index))
    } else if index < 100 {
        String::from_str(digit_text(index / 10)).concat(digit_text(index % 10))
    } else {
        String::from_str(digit_text(index / 100)).concat(digit_text((index / 10) % 10)).concat(
            digit_text(index % 10),
        )
    };
    let path = String::from_str("/dev/dri/card").concat(number.as_str());
    path
}

/// The card that direct output uses: the lowest that exists.
pub open spec fn primary_card(probe: DeviceProbe) -> Option<u8> {
    if candidate_cards(probe).len() > 0 {
        Some(candidate_cards(probe)[0])
    } else {
        None
    }
}

/// Whether direct output can start: a card exists and the lowest one can
/// be opened.
pub open spec fn drm_startable(probe: DeviceProbe) -> bool {
    primary_card(probe) is Some && card_accessible(probe, primary_card(probe)->Some_0 as int)
}

/// What is said where direct output cannot start: that no card exists,
/// or that the lowest one could not be opened, and why. No other card is
/// tried.
pub open spec fn drm_failure_message(probe: DeviceProbe) -> Seq<char> {
    if primary_card(probe) is None {
        "No DRM devices found"@
    } else {
        "DRM device access failed: "@ + open_failure(probe, primary_card(probe)->Some_0 as int)
    }
}

/// The backend type that a request resolves to. Automatic selection
/// takes direct output only where it is usable and can start.
pub open spec fn resolved_type(requested: BackendType, probe: DeviceProbe) -> BackendType {
    match requested {
        BackendType::Auto => if drm_usable(probe) && drm_startable(probe) {
            BackendType::Drm
        } else {
            BackendType::Windowed
        },
        other => other,
    }
}

/// The one output of a windowed backend: a synthetic 1920x1080 display
/// at 60 Hz without presentation surface.
pub open spec fn windowed_output() -> DisplayOutputView {
    DisplayOutputView {
        id: 0,
        name: "Windowed Display"@,
        width: 1920,
        height: 1080,
        refresh_rate: 60,
        connected: true,
        vk_surface: None,
    }
}

/// The presentation surface an output ends up with: the created one if
/// a swapchain can be bound to it, else none.
pub open spec fn bound_surface(target: Option<PresentationTarget>, width: u32, height: u32)
    -> Option<u64> {
    match target {
        Some(t) => if VulkanRenderer::swapchain_valid(t.surface, width, height, t.image_count) {
            Some(t.surface)
        } else {
            None
        },
        None => None,
    }
}

/// The output that a discovered output becomes at position `i` of the
/// list: connected, with its position as id and with the presentation
/// surface it ends up with.
pub open spec fn bound_output(o: DiscoveredOutput, i: int) -> DisplayOutputView {
    DisplayOutputView {
        id: i as u32,
        name: o.name@,
        width: o.width,
        height: o.height,
        refresh_rate: o.refresh_rate,
        connected: true,
        vk_surface: bound_surface(o.target, o.width, o.height),
    }
}

/// The outputs that the discovered outputs become, in the same order.
pub open spec fn bound_outputs(outputs: Seq<DiscoveredOutput>) -> Seq<DisplayOutputView> {
    Seq::new(outputs.len(), |i: int| bound_output(outputs[i], i))
}

/// The renderer after one output was bound: it presents to the output's
/// surface if there is one, and is unchanged otherwise.
pub open spec fn renderer_bound(
    r: VulkanRenderer,
    target: Option<PresentationTarget>,
    width: u32,
    height: u32,
) -> VulkanRenderer {
    if bound_surface(target, width, height) is Some {
        VulkanRenderer::with_swapchain(
            r,
            target->Some_0.surface,
            width,
            height,
            target->Some_0.image_count,
        )
    } else {
        r
    }
}

/// The renderer after the first `upto` discovered outputs were bound, one
/// after the other: it presents to the surface of the last output that
/// has one.
pub open spec fn renderer_after_binding(
    r: VulkanRenderer,
    outputs: Seq<DiscoveredOutput>,
    upto: int,
) -> VulkanRenderer
    decreases upto,
{
    if upto <= 0 || upto > outputs.len() {
        r
    } else {
        renderer_bound(
            renderer_after_binding(r, outputs, upto - 1),
            outputs[upto - 1].target,
            outputs[upto - 1].width,
            outputs[upto - 1].height,
        )
    }
}

/// Whether the environment shows a display session.
pub fn session_present(session: &SessionEnv) -> (r: bool)
    ensures
        r == has_session(*session),
{
    let wayland = match &session.session_type {
        Some(t) => *t == String::from_str("wayland"),
        None => false,
    };
    let root = match &session.login_name {
        Some(n) => *n == String::from_str("root"),
        None => false,
    };
    wayland || session.has_session_id || root
}

/// Abstraction over the display and input hardware in use.
pub struct Backend {
    backend_type: BackendType,
    drm_device_path: Option<String>,
    displays: Vec<DisplayOutput>,
    primary_display: Option<usize>,
}

impl Backend {
    /// The invariant of a backend: its type is settled, it holds a
    /// device path exactly when it drives hardware directly, its
    /// primary output is one of its outputs, and every output it lists
    /// is connected.
    pub closed spec fn wf(&self) -> bool {
        &&& self.backend_type != BackendType::Auto
        &&& (self.backend_type == BackendType::Drm <==> self.drm_device_path is Some)
        &&& (self.primary_display is Some ==> self.primary_display->Some_0 < self.displays@.len())
        &&& forall|i: int| 0 <= i < self.displays@.len() ==> (#[trigger] self.displays@[i]).connected
    }

    pub closed spec fn spec_backend_type(&self) -> BackendType {
        self.backend_type
    }

    pub closed spec fn spec_device_path(&self) -> Option<Seq<char>> {
        match self.drm_device_path {
            Some(p) => Some(p@),
            None => None,
        }
    }

    pub closed spec fn spec_displays(&self) -> Seq<DisplayOutputView> {
        self.displays@.map_values(|d: DisplayOutput| d@)
    }

    pub closed spec fn spec_primary(&self) -> Option<int> {
        match self.primary_display {
            Some(i) => Some(i as int),
            None => None,
        }
    }

    /// A well-formed backend never has type `Auto`, and holds a device
    /// path exactly when its type is `Drm`.
    pub proof fn lemma_wf(&self)
        requires
            self.wf(),
        ensures
            self.spec_backend_type() != BackendType::Auto,
            self.spec_backend_type() == BackendType::Drm <==> self.spec_device_path() is Some,
            self.spec_primary() is Some ==> 0 <= self.spec_primary()->Some_0
                < self.spec_displays().len(),
            forall|i: int|
                0 <= i < self.spec_displays().len() ==> (#[trigger] self.spec_displays()[i]).connected,
    {
        assert forall|i: int| 0 <= i < self.spec_displays().len() implies (
        #[trigger] self.spec_displays()[i]).connected by {
            assert(self.displays@[i].connected);
        }
    }

    /// The candidate cards of a probe: those whose node exists, lowest
    /// first.
    pub fn enumerate_drm_devices(probe: &DeviceProbe) -> (cards: Vec<u8>)
        ensures
            cards@ == candidate_cards(*probe),
    {
        let mut cards: Vec<u8> = Vec::new();
        let mut i: u8 = 0;
        while i < MAX_CARDS
            invariant
                i <= MAX_CARDS,
                cards@ == cards_below(*probe, i as int),
            decreases MAX_CARDS - i,
        {
            if (i as usize) < probe.present.len() && probe.present[i as usize] {
                cards.push(i);
            }
            i += 1;
        }
        cards
    }

    /// Whether direct hardware output can be used.
    pub fn can_use_drm(probe: &DeviceProbe) -> (r: bool)
        ensures
            r == drm_usable(*probe),
    {
        let cards = Self::enumerate_drm_devices(probe);
        proof {
            lemma_cards_below(*probe, MAX_CARDS as int);
            if cards@.len() > 0 {
                assert(card_present(*probe, cards@[0] as int));
            }
        }
        if cards.len() == 0 {
            return false;
        }
        if !session_present(&probe.session) {
            return false;
        }
        let mut k: usize = 0;
        while k < cards.len()
            invariant
                k <= cards.len(),
                cards@ == candidate_cards(*probe),
                has_session(probe.session),
                forall|j: int| 0 <= j < k ==> !card_accessible(*probe, #[trigger] cards@[j] as int),
            decreases cards.len() - k,
        {
            let c: usize = cards[k] as usize;
            proof {
                lemma_cards_below(*probe, MAX_CARDS as int);
                assert(card_present(*probe, cards@[k as int] as int));
            }
            if c < probe.accessible.len() && probe.accessible[c].is_ok() {
                assert(card_accessible(*probe, c as int));
                return true;
            }
            k += 1;
        }
        proof {
            lemma_cards_below(*probe, MAX_CARDS as int);
            assert forall|i: int| !card_accessible(*probe, i) by {
                if card_accessible(*probe, i) {
                    assert(cards@.contains(i as u8));
                    let j = choose|j: int| 0 <= j < cards@.len() && cards@[j] == i as u8;
                    assert(!card_accessible(*probe, cards@[j] as int));
                }
            }
        }
        false
    }

    /// A windowed backend with no outputs yet.
    pub fn init_windowed_backend() -> (b: Self)
        ensures
            b.wf(),
            b.spec_backend_type() == BackendType::Windowed,
            b.spec_device_path() is None,
            b.spec_displays().len() == 0,
            b.spec_primary() is None,
    {
        Backend {
            backend_type: BackendType::Windowed,
            drm_device_path: None,
            displays: Vec::new(),
            primary_display: None,
        }
    }

    /// A backend for direct output on the lowest card that exists, with
    /// no outputs yet.
    ///
    /// Fails with an init error when no card exists or the lowest one
    /// cannot be opened; the message names the cause of the failed open.
    pub fn init_drm_backend(probe: &DeviceProbe) -> (r: Result<Self, CompositorError>)
        ensures
            r is Ok <==> drm_startable(*probe),
            r is Err ==> r->Err_0.kind == ErrorKind::Init && r->Err_0.message@
                == drm_failure_message(*probe),
            r is Ok ==> {
                let b = r->Ok_0;
                &&& b.wf()
                &&& b.spec_backend_type() == BackendType::Drm
                &&& b.spec_device_path() == Some(card_path(primary_card(*probe)->Some_0))
                &&& b.spec_displays().len() == 0
                &&& b.spec_primary() is None
            },
    {
        let cards = Self::enumerate_drm_devices(probe);
        if cards.len() == 0 {
            return Err(CompositorError::init("No DRM devices found"));
        }
        let selected: u8 = cards[0];
        proof {
            lemma_cards_below(*probe, MAX_CARDS as int);
            assert(card_present(*probe, cards@[0] as int));
        }
        let c: usize = selected as usize;
        if c < probe.accessible.len() {
            match &probe.accessible[c] {
                Ok(_) => {},
                Err(cause) => {
                    return Err(
                        CompositorError::with_detail(
                            ErrorKind::Init,
                            "DRM device access failed: ",
                            cause.as_str(),
                        ),
                    );
                },
            }
        } else {
            return Err(
                CompositorError::with_detail(
                    ErrorKind::Init,
                    "DRM device access failed: ",
                    "device was not probed",
                ),
            );
        }
        Ok(
            Backend {
                backend_type: BackendType::Drm,
                drm_device_path: Some(device_path(selected)),
                displays: Vec::new(),
                primary_display: None,
            },
        )
    }

    /// A backend of the type that suits the probe best; see
    /// [`Self::new_with_type`] with `Auto`.
    pub fn new(probe: &DeviceProbe) -> (r: Result<Self, CompositorError>)
        ensures
            Self::initialized(r, BackendType::Auto, *probe),
    {
        Self::new_with_type(BackendType::Auto, probe)
    }

    /// What initialization with a requested type yields for a probe.
    ///
    /// `Auto` resolves to direct output where that is usable and can
    /// start, and to a windowed backend otherwise; it never fails. An
    /// explicit request for direct output fails where it cannot start.
    pub open spec fn initialized(
        r: Result<Self, CompositorError>,
        requested: BackendType,
        probe: DeviceProbe,
    ) -> bool {
        let resolved = resolved_type(requested, probe);
        &&& r is Err <==> resolved == BackendType::Drm && !drm_startable(probe)
        &&& r is Err ==> r->Err_0.kind == ErrorKind::Init && r->Err_0.message@
            == drm_failure_message(probe)
        &&& r is Ok ==> {
            let b = r->Ok_0;
            &&& b.wf()
            &&& b.spec_backend_type() == resolved
            &&& b.spec_device_path() == if resolved == BackendType::Drm {
                Some(card_path(primary_card(probe)->Some_0))
            } else {
                None
            }
            &&& b.spec_displays().len() == 0
            &&& b.spec_primary() is None
        }
    }

    /// Creates a backend of the requested type.
    pub fn new_with_type(backend_type: BackendType, probe: &DeviceProbe) -> (r: Result<
        Self,
        CompositorError,
    >)
        ensures
            Self::initialized(r, backend_type, *probe),
    {
        let actual = match backend_type {
            BackendType::Auto => {
                if Self::can_use_drm(probe) {
                    match Self::init_drm_backend(probe) {
                        Ok(backend) => { return Ok(backend); },
                        Err(_) => BackendType::Windowed,
                    }
                } else {
                    BackendType::Windowed
                }
            },
            other => other,
        };
        match actual {
            BackendType::Drm => Self::init_drm_backend(probe),
            _ => Ok(Self::init_windowed_backend()),
        }
    }

    /// One pump of the backend's event sources. There is nothing to pump
    /// yet for either backend type, so the backend is left as it is.
    pub fn process_events(&mut self) -> (r: Result<(), CompositorError>)
        requires
            old(self).wf(),
        ensures
            r is Ok,
            *final(self) == *old(self),
    {
        match self.backend_type {
            BackendType::Windowed => self.process_windowed_events(),
            _ => self.process_drm_events(),
        }
    }

    fn process_windowed_events(&mut self) -> (r: Result<(), CompositorError>)
        ensures
            r is Ok,
            *final(self) == *old(self),
    {
        Ok(())
    }

    fn process_drm_events(&mut self) -> (r: Result<(), CompositorError>)
        ensures
            r is Ok,
            *final(self) == *old(self),
    {
        Ok(())
    }

    #[verifier::when_used_as_spec(spec_backend_type)]
    pub fn backend_type(&self) -> (t: BackendType)
        ensures
            t == self.spec_backend_type(),
    {
        self.backend_type
    }

    /// The path of the device in use, for direct output.
    pub fn drm_device_path(&self) -> (p: Option<&str>)
        ensures
            match p {
                Some(s) => self.spec_device_path() == Some(s@),
                None => self.spec_device_path() is None,
            },
    {
        match &self.drm_device_path {
            Some(s) => Some(s.as_str()),
            None => None,
        }
    }

    /// Whether the backend is initialized: every backend that exists is.
    pub fn is_initialized(&self) -> (r: bool)
        ensures
            r,
    {
        true
    }

    /// The outputs of the backend.
    pub fn displays(&self) -> (d: &[DisplayOutput])
        ensures
            d@.map_values(|o: DisplayOutput| o@) == self.spec_displays(),
    {
        self.displays.as_slice()
    }

    /// The primary output, if the outputs are initialized.
    pub fn primary_display(&self) -> (d: Option<&DisplayOutput>)
        requires
            self.wf(),
        ensures
            d is Some <==> self.spec_primary() is Some,
            d is Some ==> d->Some_0@ == self.spec_displays()[self.spec_primary()->Some_0],
    {
        match self.primary_display {
            Some(i) => Some(&self.displays[i]),
            None => None,
        }
    }

    /// Attaches the outcome of surface creation to one output and binds
    /// the renderer to the surface. Where no surface was created, or no
    /// swapchain can be bound to it, the output stays connected without
    /// a presentation surface and the renderer is left alone.
    pub fn create_vulkan_surface_for_display(
        display: DisplayOutput,
        renderer: &mut VulkanRenderer,
        target: Option<PresentationTarget>,
    ) -> (bound: DisplayOutput)
        ensures
            bound@ == (DisplayOutputView {
                vk_surface: bound_surface(target, display.width, display.height),
                ..display@
            }),
            *final(renderer) == renderer_bound(*old(renderer), target, display.width, display.height),
    {
        let mut display = display;
        display.vk_surface = None;
        match target {
            Some(t) => {
                if renderer.initialize_swapchain(
                    t.surface,
                    display.width,
                    display.height,
                    t.image_count,
                ).is_ok() {
                    display.vk_surface = Some(t.surface);
                }
            },
            None => {},
        }
        display
    }

    /// The outputs that initialization leaves: the one synthetic output
    /// for a windowed backend, the discovered outputs for direct output.
    pub open spec fn initialized_displays(
        backend_type: BackendType,
        outputs: Seq<DiscoveredOutput>,
    ) -> Seq<DisplayOutputView> {
        if backend_type == BackendType::Drm {
            bound_outputs(outputs)
        } else {
            seq![windowed_output()]
        }
    }

    /// The primary output that initialization leaves: the first, where
    /// there is one.
    pub open spec fn initialized_primary(
        backend_type: BackendType,
        outputs: Seq<DiscoveredOutput>,
    ) -> Option<int> {
        if backend_type == BackendType::Drm && outputs.len() == 0 {
            None
        } else {
            Some(0int)
        }
    }

    /// The renderer that initialization leaves: untouched by a windowed
    /// backend, bound to the discovered outputs in turn by direct output.
    pub open spec fn initialized_renderer(
        backend_type: BackendType,
        r: VulkanRenderer,
        outputs: Seq<DiscoveredOutput>,
    ) -> VulkanRenderer {
        if backend_type == BackendType::Drm {
            renderer_after_binding(r, outputs, outputs.len() as int)
        } else {
            r
        }
    }

    /// Whether the outputs can be numbered: direct output gives each
    /// output its position as a 32-bit id.
    pub open spec fn outputs_fit(backend_type: BackendType, outputs: Seq<DiscoveredOutput>) -> bool {
        backend_type != BackendType::Drm || outputs.len() <= u32::MAX
    }

    /// Populates the outputs. `outputs` holds what the driver reports,
    /// each with the presentation surface that was created for it, or
    /// `None` where that failed.
    ///
    /// A windowed backend gets one synthetic output without presentation
    /// surface, whatever was discovered. Direct output gets one output
    /// for each discovered one, in the same order; each is bound to its
    /// surface where there is one and stays connected without one
    /// otherwise. The first output is the primary one. Missing hardware
    /// presentation never fails the call: it degrades.
    ///
    /// Fails with an init error, changing nothing, only where direct
    /// output has more outputs than 32-bit ids.
    pub fn initialize_displays(
        &mut self,
        renderer: &mut VulkanRenderer,
        outputs: &Vec<DiscoveredOutput>,
    ) -> (r: Result<(), CompositorError>)
        requires
            old(self).wf(),
        ensures
            final(self).wf(),
            r is Ok <==> Self::outputs_fit(old(self).spec_backend_type(), outputs@),
            r is Err ==> *final(self) == *old(self) && *final(renderer) == *old(renderer)
                && r->Err_0.kind == ErrorKind::Init && r->Err_0.message@ == "Too many outputs"@,
            final(self).spec_backend_type() == old(self).spec_backend_type(),
            final(self).spec_device_path() == old(self).spec_device_path(),
            r is Ok ==> final(self).spec_displays() == Self::initialized_displays(
                old(self).spec_backend_type(),
                outputs@,
            ),
            r is Ok ==> final(self).spec_primary() == Self::initialized_primary(
                old(self).spec_backend_type(),
                outputs@,
            ),
            r is Ok ==> *final(renderer) == Self::initialized_renderer(
                old(self).spec_backend_type(),
                *old(renderer),
                outputs@,
            ),
    {
        match self.backend_type {
            BackendType::Drm => self.init_drm_displays(renderer, outputs),
            _ => self.init_windowed_displays(renderer),
        }
    }

    fn init_windowed_displays(&mut self, renderer: &mut VulkanRenderer) -> (r: Result<
        (),
        CompositorError,
    >)
        requires
            old(self).wf(),
            old(self).backend_type != BackendType::Drm,
        ensures
            r is Ok,
            final(self).wf(),
            final(self).backend_type == old(self).backend_type,
            final(self).drm_device_path == old(self).drm_device_path,
            final(self).spec_displays() == seq![windowed_output()],
            final(self).primary_display == Some(0usize),
            *final(renderer) == *old(renderer),
    {
        let display = DisplayOutput {
            id: 0,
            name: String::from_str("Windowed Display"),
            width: 1920,
            height: 1080,
            refresh_rate: 60,
            connected: true,
            vk_surface: None,
        };
        let mut displays: Vec<DisplayOutput> = Vec::new();
        displays.push(display);
        self.displays = displays;
        self.primary_display = Some(0);
        proof {
            assert(self.spec_displays() =~= seq![windowed_output()]);
        }
        Ok(())
    }

    fn init_drm_displays(
        &mut self,
        renderer: &mut VulkanRenderer,
        outputs: &Vec<DiscoveredOutput>,
    ) -> (r: Result<(), CompositorError>)
        requires
            old(self).wf(),
            old(self).backend_type == BackendType::Drm,
        ensures
            final(self).wf(),
            r is Ok <==> outputs@.len() <= u32::MAX,
            r is Err ==> *final(self) == *old(self) && *final(renderer) == *old(renderer)
                && r->Err_0.kind == ErrorKind::Init && r->Err_0.message@ == "Too many outputs"@,
            final(self).backend_type == old(self).backend_type,
            final(self).drm_device_path == old(self).drm_device_path,
            r is Ok ==> final(self).spec_displays() == bound_outputs(outputs@),
            r is Ok ==> final(self).spec_primary() == Self::initialized_primary(
                BackendType::Drm,
                outputs@,
            ),
            r is Ok ==> *final(renderer) == renderer_after_binding(
                *old(renderer),
                outputs@,
                outputs@.len() as int,
            ),
    {
        let count: usize = outputs.len();
        if count > u32::MAX as usize {
            return Err(CompositorError::init("Too many outputs"));
        }
        let mut displays: Vec<DisplayOutput> = Vec::new();
        let mut i: usize = 0;
        while i < count
            invariant
                i <= count,
                count == outputs@.len(),
                count <= u32::MAX,
                displays@.len() == i,
                forall|j: int|
                    0 <= j < i ==> (#[trigger] displays@[j])@ == bound_output(outputs@[j], j),
                *renderer == renderer_after_binding(*old(renderer), outputs@, i as int),
            decreases count - i,
        {
            let discovered = &outputs[i];
            let display = DisplayOutput {
                id: i as u32,
                name: discovered.name.clone(),
                width: discovered.width,
                height: discovered.height,
                refresh_rate: discovered.refresh_rate,
                connected: true,
                vk_surface: None,
            };
            let bound = Self::create_vulkan_surface_for_display(
                display,
                renderer,
                discovered.target,
            );
            displays.push(bound);
            i += 1;
        }
        self.displays = displays;
        self.primary_display = if count > 0 {
            Some(0)
        } else {
            None
        };
        proof {
            assert(self.spec_displays() =~= bound_outputs(outputs@));
            assert forall|j: int| 0 <= j < self.displays@.len() implies (
            #[trigger] self.displays@[j]).connected by {
                assert(self.displays@[j]@ == bound_output(outputs@[j], j));
            }
        }
        Ok(())
    }
}

/// Where no presentation surface can be bound to an output, the output
/// is left without one and the renderer is left as it was: a renderer
/// without swapchain stays without, so that starting a frame on it
/// fails recoverably instead of presenting.
pub proof fn lemma_binding_degrades(
    r: VulkanRenderer,
    target: Option<PresentationTarget>,
    width: u32,
    height: u32,
)
    requires
        target is None || !VulkanRenderer::swapchain_valid(
            target->Some_0.surface,
            width,
            height,
            target->Some_0.image_count,
        ),
    ensures
        bound_surface(target, width, height) is None,
        renderer_bound(r, target, width, height) == r,
{
}

/// Direct output for which no presentation surface could be created at
/// all still lists every discovered output as connected, each without
/// surface, and leaves the renderer as it was.
pub proof fn lemma_unbound_outputs(r: VulkanRenderer, outputs: Seq<DiscoveredOutput>, upto: int)
    requires
        0 <= upto <= outputs.len(),
        forall|i: int| 0 <= i < outputs.len() ==> (#[trigger] outputs[i]).target is None,
    ensures
        renderer_after_binding(r, outputs, upto) == r,
        bound_outputs(outputs).len() == outputs.len(),
        forall|i: int|
            0 <= i < outputs.len() ==> (#[trigger] bound_outputs(outputs)[i]).connected
                && bound_outputs(outputs)[i].vk_surface is None,
    decreases upto,
{
    if upto > 0 {
        lemma_unbound_outputs(r, outputs, upto - 1);
        assert(outputs[upto - 1].target is None);
    }
}

/// Selection is a function of the request and the probe: two
/// initializations on the same probe choose the same backend type and
/// the same primary device, and both fail or both succeed.
pub proof fn lemma_selection_deterministic(
    first: Result<Backend, CompositorError>,
    second: Result<Backend, CompositorError>,
    requested: BackendType,
    probe: DeviceProbe,
)
    requires
        Backend::initialized(first, requested, probe),
        Backend::initialized(second, requested, probe),
    ensures
        first is Ok <==> second is Ok,
        first is Ok ==> first->Ok_0.spec_backend_type() == second->Ok_0.spec_backend_type()
            && first->Ok_0.spec_device_path() == second->Ok_0.spec_device_path(),
{
}

/// With no card present, automatic selection yields a windowed backend.
pub proof fn lemma_no_cards_windowed(r: Result<Backend, CompositorError>, probe: DeviceProbe)
    requires
        Backend::initialized(r, BackendType::Auto, probe),
        forall|i: int| !card_present(probe, i),
    ensures
        r is Ok,
        r->Ok_0.spec_backend_type() == BackendType::Windowed,
        r->Ok_0.spec_device_path() is None,
{
}

/// Automatic selection never fails: where direct output is not usable
/// or cannot start, it yields a windowed backend.
pub proof fn lemma_auto_never_fails(r: Result<Backend, CompositorError>, probe: DeviceProbe)
    requires
        Backend::initialized(r, BackendType::Auto, probe),
    ensures
        r is Ok,
        !(drm_usable(probe) && drm_startable(probe)) ==> r->Ok_0.spec_backend_type()
            == BackendType::Windowed,
{
}

/// Direct output that was requested explicitly fails exactly when it
/// cannot start, be it for want of a card or of access to it.
pub proof fn lemma_explicit_drm_fails(r: Result<Backend, CompositorError>, probe: DeviceProbe)
    requires
        Backend::initialized(r, BackendType::Drm, probe),
    ensures
        r is Err <==> !drm_startable(probe),
        (forall|i: int| !card_present(probe, i)) ==> r is Err,
{
    lemma_cards_below(probe, MAX_CARDS as int);
    if candidate_cards(probe).len() > 0 {
        assert(card_present(probe, candidate_cards(probe)[0] as int));
    }
}

} // verus!
