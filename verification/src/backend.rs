//! The terminal backend boundary: endpoints, handles, mode flags as a plain
//! `u32` bitmask, the error taxonomy, and the capability trait a platform
//! adapter implements.

use vstd::prelude::*;

verus! {

/// One of the two standard terminal endpoints a session touches.
#[derive(Clone, Copy, PartialEq, Eq, Structural, Debug)]
pub enum Endpoint {
    /// The input side of the terminal (key presses arrive here).
    Stdin,
    /// The output side of the terminal (writes and mode control go here).
    Stdout,
}

/// An opaque reference to a terminal endpoint, handed out by a backend's
/// `resolve`. It is a borrowed system resource, not owned by this crate.
#[derive(Clone, Copy, PartialEq, Eq, Structural, Debug)]
pub struct Handle {
    /// Which standard endpoint this handle refers to.
    pub endpoint: Endpoint,
}

/// The environment reported no valid handle for the requested endpoint.
#[derive(Clone, Copy, Debug)]
pub struct HandleError {
    /// The environment's last reported fault code.
    pub code: u32,
}

/// Reading an endpoint's current mode flags failed.
#[derive(Clone, Copy, Debug)]
pub struct ModeQueryError {
    /// The environment's last reported fault code.
    pub code: u32,
}

/// Writing an endpoint's mode flags was rejected; the endpoint's state is
/// presumed unchanged.
#[derive(Clone, Copy, Debug)]
pub struct ModeSetError {
    /// The environment's last reported fault code.
    pub code: u32,
}

/// The buffer-geometry query failed.
#[derive(Clone, Copy, Debug)]
pub struct GeometryError {
    /// The environment's last reported fault code.
    pub code: u32,
}

/// Any failure of a fallible operation of this crate: each variant wraps the
/// fault of the step that failed.
#[derive(Clone, Copy, Debug)]
pub enum IoError {
    /// No valid handle for a requested endpoint.
    Handle(HandleError),
    /// The current mode flags could not be read.
    ModeQuery(ModeQueryError),
    /// The new mode flags were rejected.
    ModeSet(ModeSetError),
    /// The geometry query failed.
    Geometry(GeometryError),
}

/// The observable state of a terminal backend, as the contracts of
/// [`TerminalBackend`] speak of it: whether each primitive succeeds, the
/// current mode flags of both endpoints, and the reported buffer size.
#[derive(Clone, Copy, Debug)]
pub struct BackendModel {
    /// Whether resolving the output endpoint yields a handle.
    pub out_resolvable: bool,
    /// Whether resolving the input endpoint yields a handle.
    pub in_resolvable: bool,
    /// Whether the output endpoint's mode can be read.
    pub out_readable: bool,
    /// Whether the input endpoint's mode can be read.
    pub in_readable: bool,
    /// Whether the output endpoint accepts a mode write.
    pub out_settable: bool,
    /// Whether the input endpoint accepts a mode write.
    pub in_settable: bool,
    /// The output endpoint's current mode flags.
    pub out_mode: u32,
    /// The input endpoint's current mode flags.
    pub in_mode: u32,
    /// The buffer size the backend reports, as (columns, rows), or `None`
    /// when the geometry query fails.
    pub size: Option<(u16, u16)>,
}

impl BackendModel {
    /// Whether `resolve` succeeds for `ep`.
    pub open spec fn resolvable(self, ep: Endpoint) -> bool {
        match ep {
            Endpoint::Stdin => self.in_resolvable,
            Endpoint::Stdout => self.out_resolvable,
        }
    }

    /// Whether `get_mode` succeeds for `ep`.
    pub open spec fn readable(self, ep: Endpoint) -> bool {
        match ep {
            Endpoint::Stdin => self.in_readable,
            Endpoint::Stdout => self.out_readable,
        }
    }

    /// Whether `set_mode` succeeds for `ep`.
    pub open spec fn settable(self, ep: Endpoint) -> bool {
        match ep {
            Endpoint::Stdin => self.in_settable,
            Endpoint::Stdout => self.out_settable,
        }
    }

    /// The current mode flags of `ep`.
    pub open spec fn mode(self, ep: Endpoint) -> u32 {
        match ep {
            Endpoint::Stdin => self.in_mode,
            Endpoint::Stdout => self.out_mode,
        }
    }

    /// The same backend state with the mode flags of `ep` replaced by
    /// `flags`: what a successful `set_mode` leaves behind.
    pub open spec fn with_mode(self, ep: Endpoint, flags: u32) -> BackendModel {
        match ep {
            Endpoint::Stdin => BackendModel { in_mode: flags, ..self },
            Endpoint::Stdout => BackendModel { out_mode: flags, ..self },
        }
    }
}

/// The four primitive operations a platform adapter must provide: handle
/// resolution, mode read, mode write, and the buffer-geometry query. The
/// contracts speak of the adapter's observable state through [`Self::model`].
///
/// Mode flags are process-wide shared state owned by the operating
/// environment; an adapter for a real console merely reflects that state.
/// [`crate::SimulatedBackend`] is a verified in-memory implementation.
pub trait TerminalBackend: Sized {
    /// The observable state this backend presents.
    spec fn model(&self) -> BackendModel;

    /// Obtain a handle to a standard endpoint. Pure query: no state changes.
    /// Fails exactly when the environment reports no valid handle.
    fn resolve(&self, ep: Endpoint) -> (r: Result<Handle, HandleError>)
        ensures
            (r is Ok) == self.model().resolvable(ep),
            r matches Ok(h) ==> h.endpoint == ep,
    ;

    /// Read the full current mode bitmask of the endpoint behind `h`,
    /// uninterpreted. Pure query: no state changes.
    fn get_mode(&self, h: Handle) -> (r: Result<u32, ModeQueryError>)
        ensures
            (r is Ok) == self.model().readable(h.endpoint),
            r matches Ok(m) ==> m == self.model().mode(h.endpoint),
    ;

    /// Replace the full mode bitmask of the endpoint behind `h`. Either the
    /// whole mask is accepted, or the call fails and the backend's state is
    /// unchanged: no partial application.
    fn set_mode(&mut self, h: Handle, flags: u32) -> (r: Result<(), ModeSetError>)
        ensures
            (r is Ok) == old(self).model().settable(h.endpoint),
            r is Ok ==> final(self).model() == old(self).model().with_mode(h.endpoint, flags),
            r is Err ==> final(self).model() == old(self).model(),
    ;

    /// Read the terminal buffer's size as (columns, rows) in one round trip.
    /// Pure query: no state changes, no caching.
    fn query_geometry(&self, h: Handle) -> (r: Result<(u16, u16), GeometryError>)
        ensures
            (r is Ok) == (self.model().size is Some),
            r matches Ok(d) ==> self.model().size == Some(d),
    ;
}

} // verus!
