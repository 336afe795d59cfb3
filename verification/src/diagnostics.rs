//! What the program does for a command line, and what a check of the
//! system's requirements reports.

use vstd::prelude::*;
use vstd::string::StringExecFns;

verus! {

/// What the program was started for.
#[derive(Clone, Copy, Debug, PartialEq, Eq, Structural)]
pub enum Command {
    /// No argument: run the compositor.
    Run,
    Help,
    Version,
    Info,
    Check,
    /// An argument the program does not know: print a usage hint and
    /// exit with a failure status.
    Unknown,
}

/// The command that the first argument after the program name asks for.
pub open spec fn command_of(args: Seq<String>) -> Command {
    if args.len() <= 1 {
        Command::Run
    } else if args[1]@ == "--help"@ || args[1]@ == "-h"@ {
        Command::Help
    } else if args[1]@ == "--version"@ || args[1]@ == "-v"@ {
        Command::Version
    } else if args[1]@ == "--info"@ {
        Command::Info
    } else if args[1]@ == "--check"@ {
        Command::Check
    } else {
        Command::Unknown
    }
}

/// Reads the command off the argument list, program name first.
pub fn parse_command(args: &Vec<String>) -> (command: Command)
    ensures
        command == command_of(args@),
{
    if args.len() <= 1 {
        return Command::Run;
    }
    let arg = &args[1];
    if *arg == String::from_str("--help") || *arg == String::from_str("-h") {
        Command::Help
    } else if *arg == String::from_str("--version") || *arg == String::from_str("-v") {
        Command::Version
    } else if *arg == String::from_str("--info") {
        Command::Info
    } else if *arg == String::from_str("--check") {
        Command::Check
    } else {
        Command::Unknown
    }
}

/// The process exit status of a command that starts no compositor.
pub fn exit_status(command: Command) -> (status: i32)
    ensures
        status == if command == Command::Unknown {
            1int
        } else {
            0int
        },
{
    match command {
        Command::Unknown => 1,
        _ => 0,
    }
}

/// The verdict on one requirement.
#[derive(Clone, Copy, Debug, PartialEq, Eq, Structural)]
pub enum CheckStatus {
    Pass,
    Info,
    Warn,
    Fail,
}

/// What was found of the system.
#[derive(Debug)]
pub struct SystemFindings {
    /// A renderer could be initialized.
    pub vulkan_ok: bool,
    /// Some device node exists.
    pub drm_accessible: bool,
    /// Membership in the video and the render group, where the groups
    /// could be read.
    pub groups: Option<(bool, bool)>,
    /// The session type that the environment names, if any.
    pub session_type: Option<String>,
}

/// The verdicts of a system check.
#[derive(Clone, Copy, Debug, PartialEq, Eq, Structural)]
pub struct CheckReport {
    pub vulkan: CheckStatus,
    pub drm: CheckStatus,
    pub groups: CheckStatus,
    pub session: CheckStatus,
    /// No requirement failed. Warnings limit the compositor; they do
    /// not keep it from running.
    pub all_good: bool,
}

/// The report that findings lead to: a missing renderer fails the
/// check; missing device nodes, missing group membership and an unknown
/// session warn; a session that is not Wayland is noted.
pub open spec fn report_of(findings: SystemFindings) -> CheckReport {
    CheckReport {
        vulkan: if findings.vulkan_ok {
            CheckStatus::Pass
        } else {
            CheckStatus::Fail
        },
        drm: if findings.drm_accessible {
            CheckStatus::Pass
        } else {
            CheckStatus::Warn
        },
        groups: if findings.groups == Some((true, true)) {
            CheckStatus::Pass
        } else {
            CheckStatus::Warn
        },
        session: match findings.session_type {
            Some(t) => if t@ == "wayland"@ {
                CheckStatus::Pass
            } else {
                CheckStatus::Info
            },
            None => CheckStatus::Warn,
        },
        all_good: findings.vulkan_ok,
    }
}

/// Judges the findings of a system check, requirement by requirement.
pub fn check_system_requirements(findings: &SystemFindings) -> (report: CheckReport)
    ensures
        report == report_of(*findings),
{
    let vulkan = if findings.vulkan_ok {
        CheckStatus::Pass
    } else {
        CheckStatus::Fail
    };
    let drm = if findings.drm_accessible {
        CheckStatus::Pass
    } else {
        CheckStatus::Warn
    };
    let groups = match findings.groups {
        Some((video, render)) => if video && render {
            CheckStatus::Pass
        } else {
            CheckStatus::Warn
        },
        None => CheckStatus::Warn,
    };
    let session = match &findings.session_type {
        Some(t) => if *t == String::from_str("wayland") {
            CheckStatus::Pass
        } else {
            CheckStatus::Info
        },
        None => CheckStatus::Warn,
    };
    CheckReport { vulkan, drm, groups, session, all_good: findings.vulkan_ok }
}

} // verus!
