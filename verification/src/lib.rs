//! A minimal leveled line logger, modelled as a verified state machine.
//!
//! The logger owns one append-mode target at a time. Each log call appends
//! exactly one line, `"<TAG> <message>\n"`, to the current target and flushes
//! it. Opening, writing and flushing the real file are the caller's side of
//! the protocol: the caller performs the requested I/O and reports its
//! outcome, and the logger's contracts pin down, for either outcome, what the
//! call returns and which bytes the target gained.

use vstd::prelude::*;

verus! {

use vstd::string::StringExecFns;

/// Severity of a log line, rendered as a fixed bracketed tag.
#[derive(Debug, Clone, Copy)]
pub enum LogLevel {
    Error,
    Warn,
    Info,
    Todo,
}

/// The bracketed tag that prefixes every line of the given level.
pub open spec fn tag_of(level: LogLevel) -> Seq<char> {
    match level {
        LogLevel::Error => "[ERROR]"@,
        LogLevel::Warn => "[WARN]"@,
        LogLevel::Info => "[INFO]"@,
        LogLevel::Todo => "[TODO]"@,
    }
}

/// The exact text a log call appends for `level` and `message`:
/// the level's tag, one space, the message, and a trailing newline.
pub open spec fn line_of(level: LogLevel, message: Seq<char>) -> Seq<char> {
    tag_of(level) + " "@ + message + "\n"@
}

impl LogLevel {
    /// The level's tag as an owned string.
    pub fn tag(&self) -> (r: String)
        ensures
            r@ == tag_of(*self),
    {
        match self {
            LogLevel::Error => "[ERROR]".to_owned(),
            LogLevel::Warn => "[WARN]".to_owned(),
            LogLevel::Info => "[INFO]".to_owned(),
            LogLevel::Todo => "[TODO]".to_owned(),
        }
    }
}

/// Renders the one line that a log call at `level` appends for `message`.
pub fn format_line(level: LogLevel, message: &str) -> (r: String)
    ensures
        r@ == line_of(level, message@),
{
    let mut r = level.tag();
    r.append(" ");
    r.append(message);
    r.append("\n");
    r
}

/// The only failure this logger knows: an open, write or flush that the
/// operating system refused.
#[derive(Debug, PartialEq, Eq)]
pub struct IoError;

/// The path a logger opens when it is first touched without an explicit
/// initialisation.
pub open spec fn default_path_spec() -> Seq<char> {
    "./.yash.log"@
}

/// The default target path as an owned string.
pub fn default_path() -> (r: String)
    ensures
        r@ == default_path_spec(),
{
    "./.yash.log".to_owned()
}

/// A leveled line logger over one append-mode target.
///
/// The state is either uninitialised (no target) or initialised with the
/// target's path. `appended` records the bytes this logger has appended to
/// the current target since that target was installed; every successful log
/// call grows it by exactly one line.
pub struct Logger {
    path: Option<String>,
    appended: Ghost<Seq<char>>,
}

/// Initialising to `path` succeeded: the logger now points at `path`, to
/// which it has appended nothing yet. The old target's contents are left as
/// they were; an open in append mode never truncates.
pub open spec fn init_transition(pre: Logger, post: Logger, path: Seq<char>) -> bool {
    &&& post.is_init()
    &&& post.path_spec() == path
    &&& post.appended() == Seq::<char>::empty()
}

/// A log call at `level` for `message` succeeded: the target is unchanged
/// and gained exactly the one line `line_of(level, message)` at its end.
pub open spec fn log_transition(pre: Logger, post: Logger, level: LogLevel, message: Seq<char>) -> bool {
    &&& post.is_init()
    &&& post.path_spec() == pre.path_spec()
    &&& post.appended() == pre.appended() + line_of(level, message)
}

impl Logger {
    /// Whether a target has been installed.
    pub closed spec fn is_init(self) -> bool {
        self.path is Some
    }

    /// The current target's path. Meaningful only when initialised.
    pub closed spec fn path_spec(self) -> Seq<char> {
        self.path->Some_0@
    }

    /// The bytes this logger has appended to the current target since the
    /// target was installed.
    pub closed spec fn appended(self) -> Seq<char> {
        self.appended@
    }

    /// A fresh logger with no target.
    pub fn new() -> (r: Logger)
        ensures
            !r.is_init(),
    {
        Logger { path: None, appended: Ghost(Seq::empty()) }
    }

    /// Whether a target has been installed.
    pub fn is_initialized(&self) -> (r: bool)
        ensures
            r == self.is_init(),
    {
        self.path.is_some()
    }

    /// Installs `filename` as the target, replacing any previous one.
    ///
    /// The caller opens `filename` in append mode, creating it if absent,
    /// and reports whether that open succeeded as `opened`. On success the
    /// logger points at the new target; on failure it is left exactly as it
    /// was and the error is returned.
    pub fn init(&mut self, filename: String, opened: bool) -> (r: Result<(), IoError>)
        ensures
            opened ==> (r is Ok && init_transition(*old(self), *final(self), filename@)),
            !opened ==> (r is Err && *final(self) == *old(self)),
    {
        if opened {
            self.path = Some(filename);
            self.appended = Ghost(Seq::empty());
            Ok(())
        } else {
            Err(IoError)
        }
    }

    /// Appends the line `line_of(level, message)` to the target and flushes.
    ///
    /// The caller writes `format_line(level, message)` to the target and
    /// flushes it, reporting the outcome as `delivered`. On success the
    /// target gained exactly that line; on failure nothing is recorded and
    /// the error is returned. Calling this before any initialisation is a
    /// contract violation, not a recoverable error.
    pub fn log(&mut self, level: LogLevel, message: &str, delivered: bool) -> (r: Result<(), IoError>)
        requires
            old(self).is_init(),
        ensures
            delivered ==> (r is Ok && log_transition(*old(self), *final(self), level, message@)),
            !delivered ==> (r is Err && *final(self) == *old(self)),
    {
        if delivered {
            self.appended = Ghost(self.appended@ + line_of(level, message@));
            Ok(())
        } else {
            Err(IoError)
        }
    }

    /// A log call fixed at the `Info` level.
    pub fn info(&mut self, message: &str, delivered: bool) -> (r: Result<(), IoError>)
        requires
            old(self).is_init(),
        ensures
            delivered ==> (r is Ok && log_transition(*old(self), *final(self), LogLevel::Info, message@)),
            !delivered ==> (r is Err && *final(self) == *old(self)),
    {
        self.log(LogLevel::Info, message, delivered)
    }

    /// A log call fixed at the `Warn` level.
    pub fn warn(&mut self, message: &str, delivered: bool) -> (r: Result<(), IoError>)
        requires
            old(self).is_init(),
        ensures
            delivered ==> (r is Ok && log_transition(*old(self), *final(self), LogLevel::Warn, message@)),
            !delivered ==> (r is Err && *final(self) == *old(self)),
    {
        self.log(LogLevel::Warn, message, delivered)
    }

    /// A log call fixed at the `Error` level.
    pub fn error(&mut self, message: &str, delivered: bool) -> (r: Result<(), IoError>)
        requires
            old(self).is_init(),
        ensures
            delivered ==> (r is Ok && log_transition(*old(self), *final(self), LogLevel::Error, message@)),
            !delivered ==> (r is Err && *final(self) == *old(self)),
    {
        self.log(LogLevel::Error, message, delivered)
    }

    /// A log call fixed at the `Todo` level.
    pub fn todo(&mut self, message: &str, delivered: bool) -> (r: Result<(), IoError>)
        requires
            old(self).is_init(),
        ensures
            delivered ==> (r is Ok && log_transition(*old(self), *final(self), LogLevel::Todo, message@)),
            !delivered ==> (r is Err && *final(self) == *old(self)),
    {
        self.log(LogLevel::Todo, message, delivered)
    }

    /// A copy of this logger writing to the same target through its own
    /// handle.
    ///
    /// The caller duplicates the underlying handle and reports whether that
    /// succeeded as `handle_ok`. The copy points at the same path and has
    /// appended nothing yet; if duplication failed, or there was no target,
    /// the copy silently has no target at all.
    pub fn duplicate(&self, handle_ok: bool) -> (r: Logger)
        ensures
            (self.is_init() && handle_ok) ==> (r.is_init() && r.path_spec() == self.path_spec()
                && r.appended() == Seq::<char>::empty()),
            !(self.is_init() && handle_ok) ==> !r.is_init(),
    {
        if handle_ok {
            match &self.path {
                Some(p) => Logger { path: Some(p.clone()), appended: Ghost(Seq::empty()) },
                None => Logger::new(),
            }
        } else {
            Logger::new()
        }
    }
}

/// Initialises (or re-initialises) the logger to a new target file.
///
/// The caller opens `filename` in append mode, creating it if absent, and
/// reports the outcome as `opened`; see [`Logger::init`].
pub fn init_loggery(logger: &mut Logger, filename: String, opened: bool) -> (r: Result<(), IoError>)
    ensures
        opened ==> (r is Ok && init_transition(*old(logger), *final(logger), filename@)),
        !opened ==> (r is Err && *final(logger) == *old(logger)),
{
    logger.init(filename, opened)
}

/// The log-and-abort entry point at the `Todo` level.
///
/// The `[TODO]` line is recorded best-effort: a failed write (`delivered`
/// false) is swallowed, never surfaced. Either way the call hands back the
/// message as the abort diagnostic; the caller must then terminate the
/// current operation unconditionally with it.
pub fn todoy(logger: &mut Logger, message: &str, delivered: bool) -> (abort: String)
    requires
        old(logger).is_init(),
    ensures
        abort@ == message@,
        delivered ==> log_transition(*old(logger), *final(logger), LogLevel::Todo, message@),
        !delivered ==> *final(logger) == *old(logger),
{
    let _ = logger.todo(message, delivered);
    message.to_owned()
}

/// Two sequential successful log calls to the same target leave its path
/// unchanged and append exactly their two lines, whole and in call order,
/// never merged or interleaved.
pub proof fn lemma_logs_in_order(
    s0: Logger,
    s1: Logger,
    s2: Logger,
    l1: LogLevel,
    m1: Seq<char>,
    l2: LogLevel,
    m2: Seq<char>,
)
    requires
        log_transition(s0, s1, l1, m1),
        log_transition(s1, s2, l2, m2),
    ensures
        s2.path_spec() == s0.path_spec(),
        s2.appended() == s0.appended() + line_of(l1, m1) + line_of(l2, m2),
{
}

/// Re-initialising redirects subsequent log calls to the new path: the new
/// target starts with nothing appended, so a following successful log call
/// puts its line there and nowhere else. Re-initialisation itself writes no
/// bytes, so lines written before it remain intact in the old file.
pub proof fn lemma_reinit_redirects(
    s0: Logger,
    s1: Logger,
    s2: Logger,
    path: Seq<char>,
    level: LogLevel,
    message: Seq<char>,
)
    requires
        init_transition(s0, s1, path),
        log_transition(s1, s2, level, message),
    ensures
        s2.path_spec() == path,
        s2.appended() == line_of(level, message),
{
    assert(s2.appended() =~= line_of(level, message));
}

} // verus!
