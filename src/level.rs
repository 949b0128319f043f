use vstd::prelude::*;

verus! {

/// Severity of an event as the tracing front end reports it, least severe first.
#[derive(Clone, Copy, Debug, PartialEq, Eq, Structural)]
pub enum Level {
    Trace,
    Debug,
    Info,
    Warn,
    Error,
}

/// The native message types that the bridge writes with, a coarser scale than [`Level`].
#[derive(Clone, Copy, Debug, PartialEq, Eq, Structural)]
pub enum OsLogType {
    Debug,
    Info,
    Error,
}

impl Level {
    /// Position of the level on the front end's scale, least severe first.
    pub open spec fn rank(self) -> nat {
        match self {
            Level::Trace => 0,
            Level::Debug => 1,
            Level::Info => 2,
            Level::Warn => 3,
            Level::Error => 4,
        }
    }
}

impl OsLogType {
    /// Position of the message type on the native scale, least severe first.
    pub open spec fn rank(self) -> nat {
        match self {
            OsLogType::Debug => 0,
            OsLogType::Info => 1,
            OsLogType::Error => 2,
        }
    }

    /// The `os_log_type_t` constant of the native API.
    pub open spec fn spec_raw(self) -> u8 {
        match self {
            OsLogType::Debug => 2,
            OsLogType::Info => 1,
            OsLogType::Error => 16,
        }
    }

    /// The `os_log_type_t` constant to hand to the native write call.
    pub fn raw(self) -> (r: u8)
        ensures
            r == self.spec_raw(),
    {
        match self {
            OsLogType::Debug => 2,
            OsLogType::Info => 1,
            OsLogType::Error => 16,
        }
    }
}

/// The native message type that events of `level` are written with: trace and
/// debug become debug messages, info stays info, warnings and errors become errors.
pub open spec fn os_log_type_of(level: Level) -> OsLogType {
    match level {
        Level::Trace | Level::Debug => OsLogType::Debug,
        Level::Info => OsLogType::Info,
        Level::Warn | Level::Error => OsLogType::Error,
    }
}

/// Maps a front-end level to the native message type it is written with.
pub fn os_log_type_for(level: Level) -> (r: OsLogType)
    ensures
        r == os_log_type_of(level),
{
    match level {
        Level::Trace => OsLogType::Debug,
        Level::Debug => OsLogType::Debug,
        Level::Info => OsLogType::Info,
        Level::Warn => OsLogType::Error,
        Level::Error => OsLogType::Error,
    }
}

/// The level mapping is total and a function of the level alone: every level has
/// exactly one native type, and a level that is at least as severe as another
/// never maps to a less severe native type.
pub proof fn lemma_level_mapping_total_and_monotone(a: Level, b: Level)
    ensures
        os_log_type_of(a) == OsLogType::Debug || os_log_type_of(a) == OsLogType::Info
            || os_log_type_of(a) == OsLogType::Error,
        a == b ==> os_log_type_of(a) == os_log_type_of(b),
        a.rank() <= b.rank() ==> os_log_type_of(a).rank() <= os_log_type_of(b).rank(),
{
}

} // verus!
