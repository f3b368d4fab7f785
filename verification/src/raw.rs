//! Managing raw mode.
//!
//! Raw mode is a particular state a terminal can have. It signifies that:
//!
//! 1. No line buffering (the input is given byte-by-byte).
//! 2. The input is not written out; echoing it is up to the program.
//! 3. The output is not canonicalized (no automatic newline translation).
//!
//! On a console-mode platform both the output and the input endpoint carry a
//! flag bitmask, and entering raw mode rewrites both. The session captures the
//! two previous bitmasks exactly once and writes them back, best-effort, when
//! it is released: a failed entry leaves the terminal indistinguishable from
//! before the attempt, and a release never fails loudly.

use vstd::prelude::*;

use crate::backend::BackendModel;
use crate::backend::Endpoint;
use crate::backend::IoError;
use crate::backend::TerminalBackend;
use crate::sink::ByteSink;
use crate::sink::SinkError;

verus! {

/// Output flag: interpret virtual-terminal escape sequences written to the
/// endpoint instead of printing them.
pub const ENABLE_VIRTUAL_TERMINAL_PROCESSING: u32 = 0x0004;

/// Output flag: do not move the cursor to column one automatically when a
/// newline is written.
pub const DISABLE_NEWLINE_AUTO_RETURN: u32 = 0x0008;

/// Output flag: process control characters so escape-driven output renders.
pub const ENABLE_PROCESSED_OUTPUT: u32 = 0x0001;

/// Input flag: echo read characters back to the screen.
pub const ENABLE_ECHO_INPUT: u32 = 0x0004;

/// Input flag: deliver input only once a whole line was entered.
pub const ENABLE_LINE_INPUT: u32 = 0x0002;

/// Input flag: let the system interpret control characters in the input.
pub const ENABLE_PROCESSED_INPUT: u32 = 0x0001;

/// Input flag: encode keys as virtual-terminal escape sequences.
pub const ENABLE_VIRTUAL_TERMINAL_INPUT: u32 = 0x0200;

/// Input flag: report window size changes in the input stream.
pub const ENABLE_WINDOW_INPUT: u32 = 0x0008;

/// The output bitmask that raw mode applies, given the current bitmask:
/// virtual-terminal processing on, automatic newline translation off, and
/// processed output re-asserted. All other bits are kept.
pub open spec fn raw_output_flags(mode: u32) -> u32 {
    mode | (ENABLE_VIRTUAL_TERMINAL_PROCESSING | DISABLE_NEWLINE_AUTO_RETURN
        | ENABLE_PROCESSED_OUTPUT)
}

/// The input bitmask that raw mode applies, given the current bitmask: echo,
/// line buffering and input processing off, virtual-terminal input and window
/// reporting on. All other bits are kept.
pub open spec fn raw_input_flags(mode: u32) -> u32 {
    (mode & !(ENABLE_ECHO_INPUT | ENABLE_LINE_INPUT | ENABLE_PROCESSED_INPUT))
        | (ENABLE_VIRTUAL_TERMINAL_INPUT | ENABLE_WINDOW_INPUT)
}

/// Whether entering raw mode succeeds against a backend in state `m`: every
/// step of the entry - resolving, reading and writing both endpoints - must
/// be accepted.
pub open spec fn enter_raw_ok(m: BackendModel) -> bool {
    m.out_resolvable && m.out_readable && m.out_settable && m.in_resolvable && m.in_readable
        && m.in_settable
}

/// The backend state a successful entry leaves behind: both endpoints carry
/// their raw-mode bitmask; nothing else about the backend changes.
pub open spec fn raw_entered(m: BackendModel) -> BackendModel {
    BackendModel {
        out_mode: raw_output_flags(m.out_mode),
        in_mode: raw_input_flags(m.in_mode),
        ..m
    }
}

/// Which error a failed output-side activation reports, by the first step
/// that fails: resolution, mode read, or mode write.
pub open spec fn output_enable_error(m: BackendModel, e: IoError) -> bool {
    if !m.out_resolvable {
        e is Handle
    } else if !m.out_readable {
        e is ModeQuery
    } else {
        e is ModeSet
    }
}

/// Which error a failed input-side activation reports, by the first step
/// that fails: resolution, mode read, or mode write.
pub open spec fn input_enable_error(m: BackendModel, e: IoError) -> bool {
    if !m.in_resolvable {
        e is Handle
    } else if !m.in_readable {
        e is ModeQuery
    } else {
        e is ModeSet
    }
}

/// Which error a failed entry reports: the output side is activated first,
/// the input side second.
pub open spec fn enter_error(m: BackendModel, e: IoError) -> bool {
    if !(m.out_resolvable && m.out_readable && m.out_settable) {
        output_enable_error(m, e)
    } else {
        input_enable_error(m, e)
    }
}

/// One best-effort restoration step: if the endpoint can be resolved and
/// accepts a mode write, its flags become `flags`; otherwise the backend is
/// left as it is.
pub open spec fn restore_step(m: BackendModel, ep: Endpoint, flags: u32) -> BackendModel {
    if m.resolvable(ep) && m.settable(ep) {
        m.with_mode(ep, flags)
    } else {
        m
    }
}

/// The backend state a release leaves behind: the output endpoint is
/// restored first, the input endpoint second, each independently of the
/// other's outcome.
pub open spec fn restored(m: BackendModel, output_prev: u32, input_prev: u32) -> BackendModel {
    restore_step(restore_step(m, Endpoint::Stdout, output_prev), Endpoint::Stdin, input_prev)
}

/// Activate raw mode on the output endpoint and return the bitmask it had
/// before. Fails without touching the backend; success rewrites exactly the
/// output endpoint's flags.
pub fn enable_vt_mode_output<B: TerminalBackend>(backend: &mut B) -> (r: Result<u32, IoError>)
    ensures
        (r is Ok) == (old(backend).model().out_resolvable && old(backend).model().out_readable
            && old(backend).model().out_settable),
        r matches Ok(prev) ==> prev == old(backend).model().out_mode && final(backend).model()
            == old(backend).model().with_mode(
            Endpoint::Stdout,
            raw_output_flags(old(backend).model().out_mode),
        ),
        r is Err ==> final(backend).model() == old(backend).model(),
        r matches Err(e) ==> output_enable_error(old(backend).model(), e),
{
    let handle = match backend.resolve(Endpoint::Stdout) {
        Ok(h) => h,
        Err(e) => {
            return Err(IoError::Handle(e));
        },
    };
    let console_mode = match backend.get_mode(handle) {
        Ok(m) => m,
        Err(e) => {
            return Err(IoError::ModeQuery(e));
        },
    };
    let new_console_mode = console_mode | (ENABLE_VIRTUAL_TERMINAL_PROCESSING
        | DISABLE_NEWLINE_AUTO_RETURN | ENABLE_PROCESSED_OUTPUT);
    match backend.set_mode(handle, new_console_mode) {
        Ok(_) => Ok(console_mode),
        Err(e) => Err(IoError::ModeSet(e)),
    }
}

/// Activate raw mode on the input endpoint and return the bitmask it had
/// before. Fails without touching the backend; success rewrites exactly the
/// input endpoint's flags.
pub fn enable_vt_mode_input<B: TerminalBackend>(backend: &mut B) -> (r: Result<u32, IoError>)
    ensures
        (r is Ok) == (old(backend).model().in_resolvable && old(backend).model().in_readable
            && old(backend).model().in_settable),
        r matches Ok(prev) ==> prev == old(backend).model().in_mode && final(backend).model()
            == old(backend).model().with_mode(
            Endpoint::Stdin,
            raw_input_flags(old(backend).model().in_mode),
        ),
        r is Err ==> final(backend).model() == old(backend).model(),
        r matches Err(e) ==> input_enable_error(old(backend).model(), e),
{
    let handle = match backend.resolve(Endpoint::Stdin) {
        Ok(h) => h,
        Err(e) => {
            return Err(IoError::Handle(e));
        },
    };
    let console_mode = match backend.get_mode(handle) {
        Ok(m) => m,
        Err(e) => {
            return Err(IoError::ModeQuery(e));
        },
    };
    let mut new_console_mode = console_mode & !(ENABLE_ECHO_INPUT | ENABLE_LINE_INPUT
        | ENABLE_PROCESSED_INPUT);
    new_console_mode = new_console_mode | (ENABLE_VIRTUAL_TERMINAL_INPUT | ENABLE_WINDOW_INPUT);
    match backend.set_mode(handle, new_console_mode) {
        Ok(_) => Ok(console_mode),
        Err(e) => Err(IoError::ModeSet(e)),
    }
}

/// A terminal restorer: it keeps the previous state of both endpoints and
/// writes it back, best-effort, when the session is released.
///
/// The stored bitmasks are captured once, at entry, and never change
/// afterwards; the wrapped sink is held exclusively, and [`Self::release`]
/// consumes the session, so no write can reach the sink through a released
/// session.
pub struct RawTerminal<W> {
    output_prev: u32,
    input_prev: u32,
    output: W,
}

impl<W> RawTerminal<W> {
    /// The output endpoint's bitmask from before the session, the one that
    /// release writes back.
    pub closed spec fn spec_output_prev(&self) -> u32 {
        self.output_prev
    }

    /// The input endpoint's bitmask from before the session, the one that
    /// release writes back.
    pub closed spec fn spec_input_prev(&self) -> u32 {
        self.input_prev
    }

    /// The wrapped sink.
    pub closed spec fn spec_sink(&self) -> W {
        self.output
    }

    /// Borrow the wrapped sink.
    pub fn sink(&self) -> (r: &W)
        ensures
            *r == self.spec_sink(),
    {
        &self.output
    }

    /// Borrow the wrapped sink for writing: callers whose sink is not a
    /// [`ByteSink`] write through this, directly to the destination. The
    /// captured bitmasks cannot be reached this way.
    pub fn sink_mut(&mut self) -> (r: &mut W)
        ensures
            *r == old(self).spec_sink(),
            final(self).spec_sink() == *final(r),
            final(self).spec_output_prev() == old(self).spec_output_prev(),
            final(self).spec_input_prev() == old(self).spec_input_prev(),
    {
        &mut self.output
    }

    /// End the session: write the captured previous bitmask back to each
    /// endpoint, the input endpoint regardless of the output endpoint's
    /// outcome, and hand the wrapped sink back. Restoration is best-effort -
    /// an endpoint whose restore is rejected keeps its raw-mode flags, and no
    /// failure is reported - but it is attempted exactly once, here.
    pub fn release<B: TerminalBackend>(self, backend: &mut B) -> (sink: W)
        ensures
            sink == self.spec_sink(),
            final(backend).model() == restored(
                old(backend).model(),
                self.spec_output_prev(),
                self.spec_input_prev(),
            ),
    {
        if let Ok(handle) = backend.resolve(Endpoint::Stdout) {
            let _ = backend.set_mode(handle, self.output_prev);
        }
        if let Ok(handle) = backend.resolve(Endpoint::Stdin) {
            let _ = backend.set_mode(handle, self.input_prev);
        }
        self.output
    }
}

impl<W: ByteSink> RawTerminal<W> {
    /// Forward a write request verbatim to the wrapped sink. The session adds
    /// no buffering, framing, or transformation, and the captured bitmasks
    /// are untouched.
    pub fn write(&mut self, buf: &[u8]) -> (r: Result<usize, SinkError>)
        ensures
            final(self).spec_output_prev() == old(self).spec_output_prev(),
            final(self).spec_input_prev() == old(self).spec_input_prev(),
            r matches Ok(n) ==> n <= buf@.len() && final(self).spec_sink().sent() == old(
                self,
            ).spec_sink().sent() + buf@.subrange(0, n as int),
    {
        self.output.write(buf)
    }

    /// Forward a flush request verbatim to the wrapped sink. The captured
    /// bitmasks are untouched.
    pub fn flush(&mut self) -> (r: Result<(), SinkError>)
        ensures
            final(self).spec_output_prev() == old(self).spec_output_prev(),
            final(self).spec_input_prev() == old(self).spec_input_prev(),
            r is Ok ==> final(self).spec_sink().sent() == old(self).spec_sink().sent(),
    {
        self.output.flush()
    }
}

/// Switch the terminal behind `backend` to raw mode and take custody of
/// `sink` in the session that owns the restoration duty. The sink is only
/// carried: nothing is written to it here.
///
/// The entry is all-or-nothing: on any failure the backend is left
/// indistinguishable from before the call - in particular, an output
/// endpoint already switched is switched back before the failure is
/// reported - and no session is returned.
pub fn enter_raw_mode<W, B: TerminalBackend>(sink: W, backend: &mut B) -> (r: Result<
    RawTerminal<W>,
    IoError,
>)
    ensures
        (r is Ok) == enter_raw_ok(old(backend).model()),
        r matches Ok(t) ==> ({
            &&& t.spec_sink() == sink
            &&& t.spec_output_prev() == old(backend).model().out_mode
            &&& t.spec_input_prev() == old(backend).model().in_mode
            &&& final(backend).model() == raw_entered(old(backend).model())
        }),
        r is Err ==> final(backend).model() == old(backend).model(),
        r matches Err(e) ==> enter_error(old(backend).model(), e),
{
    let output_prev = match enable_vt_mode_output(backend) {
        Ok(prev) => prev,
        Err(e) => {
            return Err(e);
        },
    };
    let input_prev = match enable_vt_mode_input(backend) {
        Ok(prev) => prev,
        Err(e) => {
            // All-or-nothing: the output endpoint is already in raw mode,
            // so put its captured flags back before reporting the failure.
            if let Ok(handle) = backend.resolve(Endpoint::Stdout) {
                let _ = backend.set_mode(handle, output_prev);
            }
            return Err(e);
        },
    };
    Ok(RawTerminal { output_prev, input_prev, output: sink })
}

/// Types which can be converted into "raw mode" by wrapping them in a
/// session.
///
/// The conversion is defined on writers: a terminal's state is controlled
/// through the writing side, so the sink that carries the session's output is
/// also the value the session takes custody of. On a console-mode platform
/// both the input and the output endpoint still have their flags rewritten.
pub trait IntoRawMode: ByteSink {
    /// Switch the terminal behind `backend` to raw mode and wrap `self` in
    /// the session that owns the restoration duty.
    ///
    /// The entry is all-or-nothing: on any failure the backend is left
    /// indistinguishable from before the call - in particular, an output
    /// endpoint already switched is switched back before the failure is
    /// reported - and no session is returned.
    fn into_raw_mode<B: TerminalBackend>(self, backend: &mut B) -> (r: Result<
        RawTerminal<Self>,
        IoError,
    >)
        ensures
            (r is Ok) == enter_raw_ok(old(backend).model()),
            r matches Ok(t) ==> ({
                &&& t.spec_sink() == self
                &&& t.spec_output_prev() == old(backend).model().out_mode
                &&& t.spec_input_prev() == old(backend).model().in_mode
                &&& final(backend).model() == raw_entered(old(backend).model())
            }),
            r is Err ==> final(backend).model() == old(backend).model(),
            r matches Err(e) ==> enter_error(old(backend).model(), e),
    ;
}

impl<W: ByteSink> IntoRawMode for W {
    fn into_raw_mode<B: TerminalBackend>(self, backend: &mut B) -> (r: Result<
        RawTerminal<W>,
        IoError,
    >) {
        enter_raw_mode(self, backend)
    }
}

/// Restoration round trip: from any backend state that admits entry, entering
/// raw mode and then releasing the session with the captured bitmasks leaves
/// both endpoints' flags exactly as they began - no bit drift.
pub proof fn lemma_restoration_round_trip(m: BackendModel)
    requires
        enter_raw_ok(m),
    ensures
        restored(raw_entered(m), m.out_mode, m.in_mode) == m,
{
}

} // verus!
