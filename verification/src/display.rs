//! Choosing a physical display, a display mode and a display plane for
//! direct presentation.

use vstd::prelude::*;

use crate::error::CompositorError;
use crate::error::ErrorKind;

verus! {

/// A display that the presentation engine offers.
#[derive(Clone, Copy, Debug, PartialEq, Eq, Structural)]
pub struct PhysicalDisplay {
    pub handle: u64,
    pub width: u32,
    pub height: u32,
}

/// A mode that a display can be driven in.
#[derive(Clone, Copy, Debug, PartialEq, Eq, Structural)]
pub struct DisplayMode {
    pub handle: u64,
    pub width: u32,
    pub height: u32,
    /// Refresh rate in millihertz.
    pub refresh_rate: u32,
}

/// What a presentation surface is created with.
#[derive(Clone, Copy, Debug, PartialEq, Eq, Structural)]
pub struct DisplaySurfacePlan {
    pub display_mode: u64,
    pub plane_index: u32,
    pub plane_stack_index: u32,
    pub width: u32,
    pub height: u32,
}

/// The first position at or after `from` with the wanted resolution.
pub open spec fn first_match(sizes: Seq<(u32, u32)>, width: u32, height: u32, from: int) -> Option<
    int,
>
    decreases sizes.len() - from,
{
    if from < 0 || from >= sizes.len() {
        None
    } else if sizes[from] == (width, height) {
        Some(from)
    } else {
        first_match(sizes, width, height, from + 1)
    }
}

/// The position to use for a wanted resolution: the first that has it;
/// the first of all when none has it; none when there is nothing to
/// choose from.
pub open spec fn preferred_index(sizes: Seq<(u32, u32)>, width: u32, height: u32) -> Option<int> {
    match first_match(sizes, width, height, 0) {
        Some(i) => Some(i),
        None => if sizes.len() > 0 {
            Some(0)
        } else {
            None
        },
    }
}

/// `first_match` finds a match, and the first one.
pub proof fn lemma_first_match(sizes: Seq<(u32, u32)>, width: u32, height: u32, from: int)
    requires
        0 <= from <= sizes.len(),
    ensures
        match first_match(sizes, width, height, from) {
            Some(i) => from <= i < sizes.len() && sizes[i] == (width, height) && forall|j: int|
                from <= j < i ==> sizes[j] != (width, height),
            None => forall|j: int| from <= j < sizes.len() ==> sizes[j] != (width, height),
        },
    decreases sizes.len() - from,
{
    if from < sizes.len() && sizes[from] != (width, height) {
        lemma_first_match(sizes, width, height, from + 1);
    }
}

/// The resolutions of a list of displays.
pub open spec fn display_sizes(displays: Seq<PhysicalDisplay>) -> Seq<(u32, u32)> {
    displays.map_values(|d: PhysicalDisplay| (d.width, d.height))
}

/// The resolutions of a list of modes.
pub open spec fn mode_sizes(modes: Seq<DisplayMode>) -> Seq<(u32, u32)> {
    modes.map_values(|m: DisplayMode| (m.width, m.height))
}

/// The display to present an output of the given resolution on: the
/// first with that resolution, else the first of all.
pub fn select_display(available: &Vec<PhysicalDisplay>, width: u32, height: u32) -> (r: Option<
    usize,
>)
    ensures
        r is Some <==> available@.len() > 0,
        match r {
            Some(i) => Some(i as int) == preferred_index(display_sizes(available@), width, height),
            None => preferred_index(display_sizes(available@), width, height) is None,
        },
        r is Some ==> r->Some_0 < available@.len(),
{
    let ghost sizes = display_sizes(available@);
    let mut i: usize = 0;
    while i < available.len()
        invariant
            i <= available.len(),
            sizes == display_sizes(available@),
            first_match(sizes, width, height, 0) == first_match(sizes, width, height, i as int),
        decreases available.len() - i,
    {
        if available[i].width == width && available[i].height == height {
            return Some(i);
        }
        i += 1;
    }
    if available.len() > 0 {
        Some(0)
    } else {
        None
    }
}

/// The mode to drive a display in for the given resolution: the first
/// with that resolution, else the first of all.
pub fn select_display_mode(modes: &Vec<DisplayMode>, width: u32, height: u32) -> (r: Option<usize>)
    ensures
        r is Some <==> modes@.len() > 0,
        match r {
            Some(i) => Some(i as int) == preferred_index(mode_sizes(modes@), width, height),
            None => preferred_index(mode_sizes(modes@), width, height) is None,
        },
        r is Some ==> r->Some_0 < modes@.len(),
{
    let ghost sizes = mode_sizes(modes@);
    let mut i: usize = 0;
    while i < modes.len()
        invariant
            i <= modes.len(),
            sizes == mode_sizes(modes@),
            first_match(sizes, width, height, 0) == first_match(sizes, width, height, i as int),
        decreases modes.len() - i,
    {
        if modes[i].width == width && modes[i].height == height {
            return Some(i);
        }
        i += 1;
    }
    if modes.len() > 0 {
        Some(0)
    } else {
        None
    }
}

/// Whether a plane supports a display.
pub open spec fn plane_supports(supported: Seq<u64>, display: u64) -> bool {
    supported.contains(display)
}

/// Whether the list holds the display.
pub fn supports_display(supported: &Vec<u64>, display: u64) -> (r: bool)
    ensures
        r == plane_supports(supported@, display),
{
    let mut i: usize = 0;
    while i < supported.len()
        invariant
            i <= supported.len(),
            forall|j: int| 0 <= j < i ==> supported@[j] != display,
        decreases supported.len() - i,
    {
        if supported[i] == display {
            return true;
        }
        i += 1;
    }
    false
}

/// The first plane that supports the display. `planes[i]` lists the
/// displays that plane `i` supports.
pub fn find_display_plane(planes: &Vec<Vec<u64>>, display: u64) -> (r: Option<u32>)
    requires
        planes@.len() <= u32::MAX,
    ensures
        match r {
            Some(p) => p < planes@.len() && plane_supports(planes@[p as int]@, display)
                && forall|j: int| 0 <= j < p ==> !plane_supports(planes@[j]@, display),
            None => forall|j: int| 0 <= j < planes@.len() ==> !plane_supports(planes@[j]@, display),
        },
{
    let mut i: usize = 0;
    while i < planes.len()
        invariant
            i <= planes.len(),
            planes@.len() <= u32::MAX,
            forall|j: int| 0 <= j < i ==> !plane_supports(planes@[j]@, display),
        decreases planes.len() - i,
    {
        if supports_display(&planes[i], display) {
            return Some(i as u32);
        }
        i += 1;
    }
    None
}

/// Whether some plane supports the display.
pub open spec fn some_plane_supports(planes: Seq<Vec<u64>>, display: u64) -> bool {
    exists|j: int| 0 <= j < planes.len() && plane_supports((#[trigger] planes[j])@, display)
}

/// Plans the presentation surface of a display for an output of the
/// given resolution: the preferred mode, the first plane that supports
/// the display, stacked at the bottom, with the output's extent.
///
/// Fails with a graphics error when the display has no mode, and
/// otherwise when no plane supports it.
pub fn plan_display_surface(
    modes: &Vec<DisplayMode>,
    planes: &Vec<Vec<u64>>,
    display: u64,
    width: u32,
    height: u32,
) -> (r: Result<DisplaySurfacePlan, CompositorError>)
    requires
        planes@.len() <= u32::MAX,
    ensures
        r is Ok <==> modes@.len() > 0 && some_plane_supports(planes@, display),
        r is Err ==> r->Err_0.kind == ErrorKind::Graphics && r->Err_0.message@ == if modes@.len()
            == 0 {
            "No suitable display mode found"@
        } else {
            "No suitable display plane found for display"@
        },
        r is Ok ==> {
            let plan = r->Ok_0;
            &&& Some(plan.display_mode) == match preferred_index(
                mode_sizes(modes@),
                width,
                height,
            ) {
                Some(i) => Some(modes@[i].handle),
                None => None,
            }
            &&& plan.plane_index < planes@.len()
            &&& plane_supports(planes@[plan.plane_index as int]@, display)
            &&& forall|j: int| 0 <= j < plan.plane_index ==> !plane_supports(planes@[j]@, display)
            &&& plan.plane_stack_index == 0
            &&& plan.width == width
            &&& plan.height == height
        },
{
    let mode = match select_display_mode(modes, width, height) {
        Some(i) => modes[i],
        None => { return Err(CompositorError::graphics("No suitable display mode found")); },
    };
    let plane_index = match find_display_plane(planes, display) {
        Some(p) => p,
        None => {
            return Err(
                CompositorError::graphics("No suitable display plane found for display"),
            );
        },
    };
    Ok(
        DisplaySurfacePlan {
            display_mode: mode.handle,
            plane_index,
            plane_stack_index: 0,
            width,
            height,
        },
    )
}

} // verus!
