use vstd::prelude::*;

use crate::handle::{release_call, after_release, HandleState, OsLog};
use crate::level::{os_log_type_for, os_log_type_of, Level, OsLogType};
use crate::message::{has_nul, is_first_nul, to_c_string, NulError};

verus! {

/// A write was refused.
#[derive(Clone, Copy, Debug, PartialEq, Eq, Structural)]
pub enum WriteError {
    /// The native handle has been released and may not be written to.
    Released,
    /// The message holds a NUL byte and cannot be handed over as a C string.
    Encoding(NulError),
}

/// One call of the native write entry point: the handle, the message type and
/// the NUL-terminated message, with the byte count to report to the writer's caller.
#[derive(Debug, PartialEq, Eq)]
pub struct LogCall {
    pub logger: usize,
    pub log_type: OsLogType,
    pub message: Vec<u8>,
    pub accepted: usize,
}

/// Whether a writer on a handle in state `logger` accepts the message `buf`:
/// the handle is still held and the message can be encoded.
pub open spec fn accepts(logger: HandleState, buf: Seq<u8>) -> bool {
    logger.live && !has_nul(buf)
}

/// What a writer knows: the state of the handle it writes to, and the level of
/// the event it writes for.
pub struct WriterState {
    pub logger: HandleState,
    pub level: Level,
}

/// Hands out one writer per event, all writing to the handle it owns.
pub struct OsLogMakeWriter {
    logger: OsLog,
}

/// Writes the rendered text of one event to the native log.
pub struct OsLogWriter<'a> {
    logger: &'a OsLog,
    level: Level,
}

impl View for OsLogMakeWriter {
    type V = HandleState;

    closed spec fn view(&self) -> HandleState {
        self.logger@
    }
}

impl<'a> View for OsLogWriter<'a> {
    type V = WriterState;

    closed spec fn view(&self) -> WriterState {
        WriterState { logger: self.logger@, level: self.level }
    }
}

impl OsLogMakeWriter {
    /// Takes ownership of `logger`, which is released with this value.
    pub fn new(logger: OsLog) -> (r: OsLogMakeWriter)
        ensures
            r@ == logger@,
    {
        OsLogMakeWriter { logger }
    }

    /// A writer for an event of `level`.
    pub fn make_writer(&self, level: Level) -> (r: OsLogWriter<'_>)
        ensures
            r@ == (WriterState { logger: self@, level }),
    {
        OsLogWriter { logger: &self.logger, level }
    }

    /// Gives the handle up: the first call returns it, for the native release
    /// call, and every later call returns `None`.
    pub fn release(&mut self) -> (r: Option<usize>)
        ensures
            r == release_call(old(self)@),
            final(self)@ == after_release(old(self)@),
    {
        self.logger.release()
    }
}

impl<'a> OsLogWriter<'a> {
    /// Prepares the native write of the rendered message `buf`: the message
    /// type follows the event's level, the message is `buf` with a terminating
    /// NUL, and the whole of `buf` is reported as accepted. Fails where the
    /// handle has been released, or else where `buf` holds a NUL byte; the
    /// writer can be used again after either.
    pub fn log_event(&self, buf: &[u8]) -> (r: Result<LogCall, WriteError>)
        ensures
            r is Ok <==> accepts(self@.logger, buf@),
            r matches Ok(c) ==> {
                &&& c.logger == self@.logger.raw
                &&& c.log_type == os_log_type_of(self@.level)
                &&& c.message@ == buf@.push(0)
                &&& c.accepted == buf@.len()
            },
            r == Err::<LogCall, WriteError>(WriteError::Released) <==> !self@.logger.live,
            r matches Err(WriteError::Encoding(e)) ==> {
                &&& self@.logger.live
                &&& is_first_nul(buf@, e.position as int)
            },
    {
        let log_type = os_log_type_for(self.level);
        let logger = match self.logger.handle() {
            Some(raw) => raw,
            None => return Err(WriteError::Released),
        };
        match to_c_string(buf) {
            Ok(message) => Ok(LogCall { logger, log_type, message, accepted: buf.len() }),
            Err(e) => Err(WriteError::Encoding(e)),
        }
    }
}

/// A bridge built on a handle that the backend created accepts writes: its
/// handle is held, and every message without a NUL byte, the empty one among
/// them, is written without error.
pub proof fn lemma_new_handle_accepts_writes(raw: usize, buf: Seq<u8>)
    requires
        raw != 0,
        !has_nul(buf),
    ensures
        accepts(HandleState { raw, live: true }, buf),
        accepts(HandleState { raw, live: true }, Seq::<u8>::empty()),
{
}

/// A refused message leaves the bridge usable: on a held handle a message with
/// a NUL byte is refused for its encoding, not for the handle, and a message
/// without one is accepted afterwards, since a refusal changes no state.
pub proof fn lemma_refused_message_keeps_writer_usable(
    logger: HandleState,
    bad: Seq<u8>,
    good: Seq<u8>,
)
    requires
        logger.live,
        has_nul(bad),
        !has_nul(good),
    ensures
        !accepts(logger, bad),
        accepts(logger, good),
{
}

} // verus!
