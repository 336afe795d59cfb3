//! Bring-up of hardware buffer sharing and explicit synchronization.
//!
//! The bring-up is a chain of steps on the device node, each of which
//! may fail. The chain is a state machine: it names the next step, the
//! caller performs it and reports the outcome.

use vstd::prelude::*;
use vstd::string::StringExecFns;

use crate::error::CompositorError;
use crate::error::ErrorKind;

verus! {

/// The device node that was opened.
#[derive(Clone, Copy, Debug, PartialEq, Eq, Structural)]
pub enum DrmNodeKind {
    /// The primary node, `/dev/dri/card0`.
    Primary,
    /// The render node, `/dev/dri/renderD128`.
    Render,
}

/// What the bring-up achieved.
#[derive(Clone, Copy, Debug, PartialEq, Eq, Structural)]
pub struct HardwareSupport {
    pub drm_node: Option<DrmNodeKind>,
    /// A descriptor of the device is held.
    pub device_fd: bool,
    /// Explicit synchronization is offered to clients.
    pub explicit_sync: bool,
    /// A display for zero-copy buffer import exists.
    pub egl_display: bool,
}

/// Why the bring-up failed.
#[derive(Clone, Debug, PartialEq, Eq)]
pub enum WlDrmFailure {
    /// No device node exists at all.
    NoDevices,
    /// A buffer device exists but no display could be made of it, for
    /// the cause given.
    EglUnavailable(String),
    /// An outcome was reported that the current step does not produce.
    UnexpectedEvent,
}

/// The step the bring-up waits for.
#[derive(Clone, Copy, Debug, PartialEq, Eq, Structural)]
pub enum WlDrmStage {
    CountDevices,
    OpenPrimaryNode,
    OpenRenderNode,
    OpenDeviceFile,
    DuplicateFd,
    /// `duplicated` says whether a second descriptor exists for the
    /// buffer device.
    QuerySyncobj { duplicated: bool },
    CheckDrmMaster,
    CreateGbmDevice,
    CreateEglDisplay,
    Done,
}

/// The outcome of the step that was asked for.
#[derive(Debug, PartialEq, Eq)]
pub enum WlDrmEvent {
    /// How many of the known device nodes exist.
    DevicesCounted(usize),
    NodeOpened(bool),
    DeviceFileOpened(bool),
    FdDuplicated(bool),
    SyncobjSupported(bool),
    /// Whether the device grants what buffer allocation needs; see
    /// [`check_drm_master_capabilities`].
    MasterChecked(bool),
    GbmCreated(bool),
    /// The display was made of the buffer device, or the cause why not.
    EglCreated(Result<(), String>),
}

/// The bring-up in progress.
#[derive(Clone, Debug, PartialEq, Eq)]
pub struct WlDrmInit {
    pub stage: WlDrmStage,
    pub support: HardwareSupport,
    pub failure: Option<WlDrmFailure>,
}

/// Nothing achieved.
pub open spec fn no_support() -> HardwareSupport {
    HardwareSupport { drm_node: None, device_fd: false, explicit_sync: false, egl_display: false }
}

/// The bring-up finished with what it has achieved so far.
pub open spec fn finished(init: WlDrmInit) -> WlDrmInit {
    WlDrmInit { stage: WlDrmStage::Done, ..init }
}

/// The bring-up finished with a failure.
pub open spec fn failed(init: WlDrmInit, failure: WlDrmFailure) -> WlDrmInit {
    WlDrmInit { stage: WlDrmStage::Done, failure: Some(failure), ..init }
}

/// The bring-up at another stage.
pub open spec fn at_stage(init: WlDrmInit, stage: WlDrmStage) -> WlDrmInit {
    WlDrmInit { stage, ..init }
}

/// The bring-up after the outcome of its current step.
///
/// Missing nodes, an unreadable device, a missing second descriptor,
/// missing privileges and a missing buffer device all end the bring-up
/// without failure: the compositor runs without the feature. Only two
/// outcomes fail it: no device node at all, and a buffer device of which
/// no display can be made. A bring-up that has ended stays as it ended,
/// whatever is reported to it; before that, an outcome that the current
/// step does not produce fails it.
pub open spec fn wl_drm_next(init: WlDrmInit, event: WlDrmEvent) -> WlDrmInit {
    match (init.stage, event) {
        (WlDrmStage::Done, _) => init,
        (WlDrmStage::CountDevices, WlDrmEvent::DevicesCounted(n)) => if n == 0 {
            failed(init, WlDrmFailure::NoDevices)
        } else {
            at_stage(init, WlDrmStage::OpenPrimaryNode)
        },
        (WlDrmStage::OpenPrimaryNode, WlDrmEvent::NodeOpened(ok)) => if ok {
            WlDrmInit {
                stage: WlDrmStage::OpenDeviceFile,
                support: HardwareSupport { drm_node: Some(DrmNodeKind::Primary), ..init.support },
                ..init
            }
        } else {
            at_stage(init, WlDrmStage::OpenRenderNode)
        },
        (WlDrmStage::OpenRenderNode, WlDrmEvent::NodeOpened(ok)) => if ok {
            WlDrmInit {
                stage: WlDrmStage::OpenDeviceFile,
                support: HardwareSupport { drm_node: Some(DrmNodeKind::Render), ..init.support },
                ..init
            }
        } else {
            finished(init)
        },
        (WlDrmStage::OpenDeviceFile, WlDrmEvent::DeviceFileOpened(ok)) => if ok {
            at_stage(init, WlDrmStage::DuplicateFd)
        } else {
            finished(init)
        },
        (WlDrmStage::DuplicateFd, WlDrmEvent::FdDuplicated(ok)) => WlDrmInit {
            stage: WlDrmStage::QuerySyncobj { duplicated: ok },
            support: HardwareSupport { device_fd: true, ..init.support },
            ..init
        },
        (WlDrmStage::QuerySyncobj { duplicated }, WlDrmEvent::SyncobjSupported(ok)) => WlDrmInit {
            stage: if duplicated {
                WlDrmStage::CheckDrmMaster
            } else {
                WlDrmStage::Done
            },
            support: HardwareSupport { explicit_sync: ok, ..init.support },
            ..init
        },
        (WlDrmStage::CheckDrmMaster, WlDrmEvent::MasterChecked(ok)) => if ok {
            at_stage(init, WlDrmStage::CreateGbmDevice)
        } else {
            finished(init)
        },
        (WlDrmStage::CreateGbmDevice, WlDrmEvent::GbmCreated(ok)) => if ok {
            at_stage(init, WlDrmStage::CreateEglDisplay)
        } else {
            finished(init)
        },
        (WlDrmStage::CreateEglDisplay, WlDrmEvent::EglCreated(outcome)) => match outcome {
            Ok(_) => WlDrmInit {
                stage: WlDrmStage::Done,
                support: HardwareSupport { egl_display: true, ..init.support },
                ..init
            },
            Err(cause) => failed(init, WlDrmFailure::EglUnavailable(cause)),
        },
        _ => failed(init, WlDrmFailure::UnexpectedEvent),
    }
}

/// Whether basic access to the device is there and the device either
/// grants master or refuses it for want of privilege.
///
/// `version_status` and `master_status` are the results of the version
/// and the set-master requests (`-1` on failure); `master_errno` is the
/// error of a failed set-master request.
pub open spec fn master_capable(version_status: i32, master_status: i32, master_errno: i32) -> bool {
    version_status != -1 && (master_status != -1 || master_errno == 13 || master_errno == 1)
}

/// Decides from the results of two device requests whether allocating
/// buffers on the device may be attempted.
pub fn check_drm_master_capabilities(version_status: i32, master_status: i32, master_errno: i32)
    -> (r: bool)
    ensures
        r == master_capable(version_status, master_status, master_errno),
{
    if version_status == -1 {
        return false;
    }
    if master_status != -1 {
        return true;
    }
    master_errno == 13 || master_errno == 1
}

/// What is said where no device node exists.
pub open spec fn no_devices_message() -> Seq<char> {
    "No DRM devices found. 4K compositor requires GPU access.\nInstall proper graphics drivers."@
}

/// What is said where no display could be made of the buffer device:
/// the cause, and what to look at.
pub open spec fn egl_message(cause: Seq<char>) -> Seq<char> {
    "Failed to create EGL display: "@ + cause
        + ". 4K compositor requires EGL support.\nEnsure:\n1. Mesa EGL drivers are installed\n2. GPU supports EGL extensions\n3. Proper graphics driver configuration"@
}

/// What is said of a bring-up that did not end in success: that it has
/// not ended, or why it failed.
pub open spec fn bring_up_message(init: WlDrmInit) -> Seq<char> {
    if init.stage != WlDrmStage::Done {
        "Hardware bring-up has not finished"@
    } else {
        match init.failure {
            Some(WlDrmFailure::NoDevices) => no_devices_message(),
            Some(WlDrmFailure::EglUnavailable(cause)) => egl_message(cause@),
            Some(WlDrmFailure::UnexpectedEvent) => "Hardware bring-up was driven out of order"@,
            None => "Hardware bring-up succeeded"@,
        }
    }
}

/// A graphics session needs at least one device node.
pub fn validate_graphics_session(accessible_devices: usize) -> (r: Result<(), CompositorError>)
    ensures
        r is Ok <==> accessible_devices > 0,
        r is Err ==> r->Err_0.kind == ErrorKind::System && r->Err_0.message@
            == no_devices_message(),
{
    if accessible_devices == 0 {
        return Err(
            CompositorError::system(
                "No DRM devices found. 4K compositor requires GPU access.\nInstall proper graphics drivers.",
            ),
        );
    }
    Ok(())
}

impl WlDrmInit {
    /// A bring-up that has achieved nothing yet and waits for the device
    /// nodes to be counted.
    pub fn begin() -> (init: Self)
        ensures
            init == (WlDrmInit {
                stage: WlDrmStage::CountDevices,
                support: no_support(),
                failure: None,
            }),
    {
        WlDrmInit {
            stage: WlDrmStage::CountDevices,
            support: HardwareSupport {
                drm_node: None,
                device_fd: false,
                explicit_sync: false,
                egl_display: false,
            },
            failure: None,
        }
    }

    /// Takes the outcome of the current step and moves to the next.
    /// Returns the stage that is now waited for.
    pub fn step(&mut self, event: WlDrmEvent) -> (stage: WlDrmStage)
        ensures
            *final(self) == wl_drm_next(*old(self), event),
            stage == final(self).stage,
    {
        match (self.stage, event) {
            (WlDrmStage::Done, _) => {},
            (WlDrmStage::CountDevices, WlDrmEvent::DevicesCounted(n)) => {
                if n == 0 {
                    self.fail(WlDrmFailure::NoDevices);
                } else {
                    self.stage = WlDrmStage::OpenPrimaryNode;
                }
            },
            (WlDrmStage::OpenPrimaryNode, WlDrmEvent::NodeOpened(ok)) => {
                if ok {
                    self.support.drm_node = Some(DrmNodeKind::Primary);
                    self.stage = WlDrmStage::OpenDeviceFile;
                } else {
                    self.stage = WlDrmStage::OpenRenderNode;
                }
            },
            (WlDrmStage::OpenRenderNode, WlDrmEvent::NodeOpened(ok)) => {
                if ok {
                    self.support.drm_node = Some(DrmNodeKind::Render);
                    self.stage = WlDrmStage::OpenDeviceFile;
                } else {
                    self.stage = WlDrmStage::Done;
                }
            },
            (WlDrmStage::OpenDeviceFile, WlDrmEvent::DeviceFileOpened(ok)) => {
                if ok {
                    self.stage = WlDrmStage::DuplicateFd;
                } else {
                    self.stage = WlDrmStage::Done;
                }
            },
            (WlDrmStage::DuplicateFd, WlDrmEvent::FdDuplicated(ok)) => {
                self.support.device_fd = true;
                self.stage = WlDrmStage::QuerySyncobj { duplicated: ok };
            },
            (WlDrmStage::QuerySyncobj { duplicated }, WlDrmEvent::SyncobjSupported(ok)) => {
                self.support.explicit_sync = ok;
                if duplicated {
                    self.stage = WlDrmStage::CheckDrmMaster;
                } else {
                    self.stage = WlDrmStage::Done;
                }
            },
            (WlDrmStage::CheckDrmMaster, WlDrmEvent::MasterChecked(ok)) => {
                if ok {
                    self.stage = WlDrmStage::CreateGbmDevice;
                } else {
                    self.stage = WlDrmStage::Done;
                }
            },
            (WlDrmStage::CreateGbmDevice, WlDrmEvent::GbmCreated(ok)) => {
                if ok {
                    self.stage = WlDrmStage::CreateEglDisplay;
                } else {
                    self.stage = WlDrmStage::Done;
                }
            },
            (WlDrmStage::CreateEglDisplay, WlDrmEvent::EglCreated(outcome)) => {
                match outcome {
                    Ok(_) => {
                        self.support.egl_display = true;
                        self.stage = WlDrmStage::Done;
                    },
                    Err(cause) => {
                        self.fail(WlDrmFailure::EglUnavailable(cause));
                    },
                }
            },
            _ => {
                self.fail(WlDrmFailure::UnexpectedEvent);
            },
        }
        self.stage
    }

    fn fail(&mut self, failure: WlDrmFailure)
        ensures
            *final(self) == failed(*old(self), failure),
    {
        self.stage = WlDrmStage::Done;
        self.failure = Some(failure);
    }

    /// The error of a bring-up that did not end in success; `None` for
    /// one that did.
    pub fn error(&self) -> (e: Option<CompositorError>)
        ensures
            e is None <==> self.stage == WlDrmStage::Done && self.failure is None,
            e is Some ==> e->Some_0.kind == ErrorKind::System && e->Some_0.message@
                == bring_up_message(*self),
    {
        if !self.is_done() {
            return Some(CompositorError::system("Hardware bring-up has not finished"));
        }
        match &self.failure {
            None => None,
            Some(WlDrmFailure::NoDevices) => Some(
                CompositorError::system(
                    "No DRM devices found. 4K compositor requires GPU access.\nInstall proper graphics drivers.",
                ),
            ),
            Some(WlDrmFailure::EglUnavailable(cause)) => {
                let message = String::from_str("Failed to create EGL display: ").concat(
                    cause.as_str(),
                ).concat(
                    ". 4K compositor requires EGL support.\nEnsure:\n1. Mesa EGL drivers are installed\n2. GPU supports EGL extensions\n3. Proper graphics driver configuration",
                );
                Some(CompositorError::system(message.as_str()))
            },
            Some(WlDrmFailure::UnexpectedEvent) => Some(
                CompositorError::system("Hardware bring-up was driven out of order"),
            ),
        }
    }

    /// Whether the bring-up has ended, in success or failure.
    pub fn is_done(&self) -> (done: bool)
        ensures
            done == (self.stage == WlDrmStage::Done),
    {
        matches!(self.stage, WlDrmStage::Done)
    }
}

/// A bring-up that has ended takes no further outcome: whatever is
/// reported to it, it stays as it ended, in success or in failure.
pub proof fn lemma_done_is_final(init: WlDrmInit, event: WlDrmEvent)
    requires
        init.stage == WlDrmStage::Done,
    ensures
        wl_drm_next(init, event) == init,
{
}

/// No step takes back what an earlier one achieved or reported: support
/// only grows, but for explicit synchronization, which its own query
/// decides; and a failure stays.
pub proof fn lemma_support_grows(init: WlDrmInit, event: WlDrmEvent)
    ensures
        init.support.device_fd ==> wl_drm_next(init, event).support.device_fd,
        init.support.egl_display ==> wl_drm_next(init, event).support.egl_display,
        init.support.drm_node is Some && init.stage != WlDrmStage::OpenPrimaryNode && init.stage
            != WlDrmStage::OpenRenderNode ==> wl_drm_next(init, event).support.drm_node
            == init.support.drm_node,
        init.failure is Some ==> wl_drm_next(init, event).failure is Some,
        init.failure is None && wl_drm_next(init, event).failure is Some ==> wl_drm_next(
            init,
            event,
        ).stage == WlDrmStage::Done,
{
}

} // verus!
