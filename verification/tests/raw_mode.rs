//! The raw-mode session against the simulated backend: entry, restoration,
//! all-or-nothing failure handling, and sink forwarding.

use termion::ENABLE_ECHO_INPUT;
use termion::ENABLE_LINE_INPUT;
use termion::ENABLE_PROCESSED_INPUT;
use termion::ENABLE_PROCESSED_OUTPUT;
use termion::ENABLE_VIRTUAL_TERMINAL_INPUT;
use termion::ENABLE_VIRTUAL_TERMINAL_PROCESSING;
use termion::ENABLE_WINDOW_INPUT;
use termion::DISABLE_NEWLINE_AUTO_RETURN;
use termion::IntoRawMode;
use termion::IoError;
use termion::SimulatedBackend;
use termion::VecSink;
use termion::enable_vt_mode_input;
use termion::enable_vt_mode_output;

#[test]
fn restoration_round_trip() {
    let initial_out: u32 = 0x0013;
    let initial_in: u32 = 0x01F7;
    let mut backend = SimulatedBackend::new(initial_out, initial_in, 80, 24);
    let session = VecSink::new().into_raw_mode(&mut backend).unwrap();
    assert_ne!(backend.output_mode(), initial_out);
    assert_ne!(backend.input_mode(), initial_in);
    let _sink = session.release(&mut backend);
    assert_eq!(backend.output_mode(), initial_out);
    assert_eq!(backend.input_mode(), initial_in);
}

#[test]
fn all_or_nothing_entry() {
    let mut backend = SimulatedBackend::new(0x0007, 0x0003, 80, 24);
    backend.in_settable = false;
    let r = VecSink::new().into_raw_mode(&mut backend);
    assert!(matches!(r, Err(IoError::ModeSet(_))));
    assert_eq!(backend.output_mode(), 0x0007);
    assert_eq!(backend.input_mode(), 0x0003);
}

#[test]
fn scenario_vt_flags_applied_and_restored() {
    let mut backend = SimulatedBackend::new(0b0000, 0b1110, 80, 24);
    let session = VecSink::new().into_raw_mode(&mut backend).unwrap();

    let out = backend.output_mode();
    let out_set = ENABLE_VIRTUAL_TERMINAL_PROCESSING | DISABLE_NEWLINE_AUTO_RETURN
        | ENABLE_PROCESSED_OUTPUT;
    assert_eq!(out & out_set, out_set);
    assert_eq!(out, 0b1101);

    let inp = backend.input_mode();
    assert_eq!(inp & (ENABLE_ECHO_INPUT | ENABLE_LINE_INPUT | ENABLE_PROCESSED_INPUT), 0);
    let in_set = ENABLE_VIRTUAL_TERMINAL_INPUT | ENABLE_WINDOW_INPUT;
    assert_eq!(inp & in_set, in_set);
    assert_eq!(inp, 0x0208);

    let _sink = session.release(&mut backend);
    assert_eq!(backend.output_mode(), 0b0000);
    assert_eq!(backend.input_mode(), 0b1110);
}

#[test]
fn scenario_input_handle_missing() {
    let mut backend = SimulatedBackend::new(0x0019, 0x0007, 80, 24);
    backend.in_resolvable = false;
    let r = VecSink::new().into_raw_mode(&mut backend);
    assert!(matches!(r, Err(IoError::Handle(_))));
    assert_eq!(backend.output_mode(), 0x0019);
    assert_eq!(backend.input_mode(), 0x0007);
}

#[test]
fn entry_fails_when_output_handle_missing() {
    let mut backend = SimulatedBackend::new(0x0019, 0x0007, 80, 24);
    backend.out_resolvable = false;
    let r = VecSink::new().into_raw_mode(&mut backend);
    assert!(matches!(r, Err(IoError::Handle(_))));
    assert_eq!(backend.output_mode(), 0x0019);
    assert_eq!(backend.input_mode(), 0x0007);
}

#[test]
fn entry_fails_when_output_mode_unreadable() {
    let mut backend = SimulatedBackend::new(0x0019, 0x0007, 80, 24);
    backend.out_readable = false;
    let r = VecSink::new().into_raw_mode(&mut backend);
    assert!(matches!(r, Err(IoError::ModeQuery(_))));
    assert_eq!(backend.output_mode(), 0x0019);
}

#[test]
fn entry_fails_when_output_mode_rejected() {
    let mut backend = SimulatedBackend::new(0x0019, 0x0007, 80, 24);
    backend.out_settable = false;
    let r = VecSink::new().into_raw_mode(&mut backend);
    assert!(matches!(r, Err(IoError::ModeSet(_))));
    assert_eq!(backend.output_mode(), 0x0019);
}

#[test]
fn entry_fails_when_input_mode_unreadable() {
    let mut backend = SimulatedBackend::new(0x0019, 0x0007, 80, 24);
    backend.in_readable = false;
    let r = VecSink::new().into_raw_mode(&mut backend);
    assert!(matches!(r, Err(IoError::ModeQuery(_))));
    assert_eq!(backend.output_mode(), 0x0019);
    assert_eq!(backend.input_mode(), 0x0007);
}

#[test]
fn enable_vt_mode_output_returns_previous_flags() {
    let mut backend = SimulatedBackend::new(0x0010, 0, 80, 24);
    let prev = enable_vt_mode_output(&mut backend).unwrap();
    assert_eq!(prev, 0x0010);
    assert_eq!(backend.output_mode(), 0x001D);
    assert_eq!(backend.input_mode(), 0);
}

#[test]
fn enable_vt_mode_input_returns_previous_flags() {
    let mut backend = SimulatedBackend::new(0, 0x01F7, 80, 24);
    let prev = enable_vt_mode_input(&mut backend).unwrap();
    assert_eq!(prev, 0x01F7);
    assert_eq!(backend.input_mode(), 0x03F8);
    assert_eq!(backend.output_mode(), 0);
}

#[test]
fn session_forwards_writes_verbatim() {
    let mut backend = SimulatedBackend::new(0, 0, 80, 24);
    let mut session = VecSink::new().into_raw_mode(&mut backend).unwrap();
    let n = session.write(b"Hey there.").unwrap();
    assert_eq!(n, 10);
    session.flush().unwrap();
    assert_eq!(session.sink().bytes().as_slice(), b"Hey there.");
    let sink = session.release(&mut backend);
    assert_eq!(sink.into_bytes().as_slice(), b"Hey there.");
}

#[test]
fn release_is_best_effort_per_endpoint() {
    let mut backend = SimulatedBackend::new(0x0001, 0x0002, 80, 24);
    let session = VecSink::new().into_raw_mode(&mut backend).unwrap();
    // The output endpoint stops accepting mode writes while the session is
    // active; its restore fails silently, the input restore still runs.
    backend.out_settable = false;
    let _sink = session.release(&mut backend);
    assert_eq!(backend.output_mode(), 0x000D);
    assert_eq!(backend.input_mode(), 0x0002);
}
