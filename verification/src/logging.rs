//! The diagnostics journal: startup phases and errors of one session,
//! kept in memory as the lines that are written out.

use vstd::prelude::*;
use vstd::string::StringExecFns;

verus! {

/// The journal of one session.
pub struct CompositorLogger {
    log_dir: String,
    session_id: String,
    startup_log: Vec<String>,
    error_log: Vec<String>,
}

/// The name of the session that began at `timestamp`.
pub open spec fn session_name(timestamp: Seq<char>) -> Seq<char> {
    "compositor_session_"@ + timestamp
}

/// The directory of a session below a base directory.
pub open spec fn session_dir(base: Seq<char>, timestamp: Seq<char>) -> Seq<char> {
    base + "/"@ + session_name(timestamp)
}

/// The journal line of a startup phase.
pub open spec fn startup_line(timestamp: Seq<char>, phase: Seq<char>, details: Seq<char>) -> Seq<
    char,
> {
    "["@ + timestamp + "] PHASE: "@ + phase + " - "@ + details
}

/// The first journal line of an error: when and where.
pub open spec fn error_head(timestamp: Seq<char>, context: Seq<char>) -> Seq<char> {
    "["@ + timestamp + "] ERROR in "@ + context
}

/// The second journal line of an error: what.
pub open spec fn error_body(error_msg: Seq<char>) -> Seq<char> {
    "Error: "@ + error_msg
}

/// The message that announces a startup phase.
pub open spec fn startup_message(phase: Seq<char>, details: Seq<char>) -> Seq<char> {
    "STARTUP["@ + phase + "]: "@ + details
}

/// The message that announces an error.
pub open spec fn error_message(error_msg: Seq<char>, context: Seq<char>) -> Seq<char> {
    "ERROR in "@ + context + ": "@ + error_msg
}

/// The lines of a journal as character sequences.
pub open spec fn lines_of(log: Seq<String>) -> Seq<Seq<char>> {
    log.map_values(|l: String| l@)
}

impl CompositorLogger {
    pub closed spec fn spec_session_id(&self) -> Seq<char> {
        self.session_id@
    }

    pub closed spec fn spec_log_dir(&self) -> Seq<char> {
        self.log_dir@
    }

    /// The startup journal, oldest line first.
    pub closed spec fn startup_lines(&self) -> Seq<Seq<char>> {
        lines_of(self.startup_log@)
    }

    /// The error journal, oldest line first.
    pub closed spec fn error_lines(&self) -> Seq<Seq<char>> {
        lines_of(self.error_log@)
    }

    /// An empty journal for the session that begins at `timestamp`,
    /// kept below `base_dir`.
    pub fn new(base_dir: &str, timestamp: &str) -> (logger: Self)
        ensures
            logger.spec_session_id() == session_name(timestamp@),
            logger.spec_log_dir() == session_dir(base_dir@, timestamp@),
            logger.startup_lines() == Seq::<Seq<char>>::empty(),
            logger.error_lines() == Seq::<Seq<char>>::empty(),
    {
        let session_id = String::from_str("compositor_session_").concat(timestamp);
        let log_dir = String::from_str(base_dir).concat("/").concat(session_id.as_str());
        let logger = CompositorLogger {
            log_dir,
            session_id,
            startup_log: Vec::new(),
            error_log: Vec::new(),
        };
        proof {
            assert(logger.startup_lines() =~= Seq::<Seq<char>>::empty());
            assert(logger.error_lines() =~= Seq::<Seq<char>>::empty());
        }
        logger
    }

    /// Appends the line of a startup phase to the startup journal.
    pub fn log_startup_phase(&mut self, timestamp: &str, phase: &str, details: &str)
        ensures
            final(self).startup_lines() == old(self).startup_lines().push(
                startup_line(timestamp@, phase@, details@),
            ),
            final(self).error_lines() == old(self).error_lines(),
            final(self).spec_session_id() == old(self).spec_session_id(),
            final(self).spec_log_dir() == old(self).spec_log_dir(),
    {
        let line = String::from_str("[").concat(timestamp).concat("] PHASE: ").concat(
            phase,
        ).concat(" - ").concat(details);
        self.startup_log.push(line);
        proof {
            assert(self.startup_lines() =~= old(self).startup_lines().push(
                startup_line(timestamp@, phase@, details@),
            ));
        }
    }

    /// Appends an error to the error journal: a line that says when and
    /// where, a line that says what, and a separator.
    pub fn log_error(&mut self, timestamp: &str, error_msg: &str, context: &str)
        ensures
            final(self).error_lines() == old(self).error_lines().push(
                error_head(timestamp@, context@),
            ).push(error_body(error_msg@)).push("---"@),
            final(self).startup_lines() == old(self).startup_lines(),
            final(self).spec_session_id() == old(self).spec_session_id(),
            final(self).spec_log_dir() == old(self).spec_log_dir(),
    {
        let head = String::from_str("[").concat(timestamp).concat("] ERROR in ").concat(context);
        let body = String::from_str("Error: ").concat(error_msg);
        self.error_log.push(head);
        self.error_log.push(body);
        self.error_log.push(String::from_str("---"));
        proof {
            assert(self.error_lines() =~= old(self).error_lines().push(
                error_head(timestamp@, context@),
            ).push(error_body(error_msg@)).push("---"@));
        }
    }

    /// The directory of the session.
    pub fn log_dir(&self) -> (dir: &str)
        ensures
            dir@ == self.spec_log_dir(),
    {
        self.log_dir.as_str()
    }

    /// The name of the session.
    pub fn session_id(&self) -> (id: &str)
        ensures
            id@ == self.spec_session_id(),
    {
        self.session_id.as_str()
    }

    /// The lines of the startup journal, oldest first.
    pub fn startup_log(&self) -> (lines: &Vec<String>)
        ensures
            lines_of(lines@) == self.startup_lines(),
    {
        &self.startup_log
    }

    /// The lines of the error journal, oldest first.
    pub fn error_log(&self) -> (lines: &Vec<String>)
        ensures
            lines_of(lines@) == self.error_lines(),
    {
        &self.error_log
    }
}

/// Records a startup phase in the journal, if there is one, and returns
/// the message that announces it.
pub fn log_startup_phase(
    logger: &mut Option<CompositorLogger>,
    timestamp: &str,
    phase: &str,
    details: &str,
) -> (message: String)
    ensures
        message@ == startup_message(phase@, details@),
        (*old(logger)) is None ==> (*final(logger)) is None,
        (*old(logger)) is Some ==> {
            &&& (*final(logger)) is Some
            &&& (*final(logger))->Some_0.startup_lines() == (*old(logger))->Some_0.startup_lines().push(
                startup_line(timestamp@, phase@, details@),
            )
            &&& (*final(logger))->Some_0.error_lines() == (*old(logger))->Some_0.error_lines()
            &&& (*final(logger))->Some_0.spec_session_id() == (*old(logger))->Some_0.spec_session_id()
            &&& (*final(logger))->Some_0.spec_log_dir() == (*old(logger))->Some_0.spec_log_dir()
        },
{
    match logger {
        Some(l) => {
            l.log_startup_phase(timestamp, phase, details);
        },
        None => {},
    }
    String::from_str("STARTUP[").concat(phase).concat("]: ").concat(details)
}

/// Records an error in the journal, if there is one, and returns the
/// message that announces it.
pub fn log_error_with_context(
    logger: &mut Option<CompositorLogger>,
    timestamp: &str,
    error_msg: &str,
    context: &str,
) -> (message: String)
    ensures
        message@ == error_message(error_msg@, context@),
        (*old(logger)) is None ==> (*final(logger)) is None,
        (*old(logger)) is Some ==> {
            &&& (*final(logger)) is Some
            &&& (*final(logger))->Some_0.error_lines() == (*old(logger))->Some_0.error_lines().push(
                error_head(timestamp@, context@),
            ).push(error_body(error_msg@)).push("---"@)
            &&& (*final(logger))->Some_0.startup_lines() == (*old(logger))->Some_0.startup_lines()
            &&& (*final(logger))->Some_0.spec_session_id() == (*old(logger))->Some_0.spec_session_id()
            &&& (*final(logger))->Some_0.spec_log_dir() == (*old(logger))->Some_0.spec_log_dir()
        },
{
    match logger {
        Some(l) => {
            l.log_error(timestamp, error_msg, context);
        },
        None => {},
    }
    String::from_str("ERROR in ").concat(context).concat(": ").concat(error_msg)
}

} // verus!
