//! The size query against the simulated backend.

use termion::IoError;
use termion::SimulatedBackend;
use termion::terminal_size;

#[test]
fn reports_the_buffer_size() {
    let backend = SimulatedBackend::new(0, 0, 80, 24);
    assert_eq!(terminal_size(&backend).unwrap(), (80, 24));
}

#[test]
fn idempotent_against_an_unchanged_backend() {
    let backend = SimulatedBackend::new(0, 0, 132, 43);
    let first = terminal_size(&backend).unwrap();
    let second = terminal_size(&backend).unwrap();
    assert_eq!(first, second);
    assert_eq!(first, (132, 43));
}

#[test]
fn requeries_after_a_change() {
    let mut backend = SimulatedBackend::new(0, 0, 80, 24);
    assert_eq!(terminal_size(&backend).unwrap(), (80, 24));
    backend.size = Some((100, 50));
    assert_eq!(terminal_size(&backend).unwrap(), (100, 50));
}

#[test]
fn fails_without_an_output_handle() {
    let mut backend = SimulatedBackend::new(0, 0, 80, 24);
    backend.out_resolvable = false;
    let r = terminal_size(&backend);
    assert!(matches!(r, Err(IoError::Handle(_))));
}

#[test]
fn fails_when_the_query_is_rejected() {
    let mut backend = SimulatedBackend::new(0, 0, 80, 24);
    backend.size = None;
    let r = terminal_size(&backend);
    assert!(matches!(r, Err(IoError::Geometry(_))));
}
