//! A verified in-memory terminal backend.
//!
//! It holds both endpoints' flag bitmasks and a reported size as plain
//! values, and each primitive can be switched to fail, so the session logic
//! can be exercised against any backend state - including the failure paths a
//! real console rarely produces on demand.

use vstd::prelude::*;

use crate::backend::BackendModel;
use crate::backend::Endpoint;
use crate::backend::GeometryError;
use crate::backend::Handle;
use crate::backend::HandleError;
use crate::backend::ModeQueryError;
use crate::backend::ModeSetError;
use crate::backend::TerminalBackend;

verus! {

/// The fault code the simulated environment reports with every failure it
/// was told to produce.
pub const SIM_FAULT_CODE: u32 = 0;

/// An in-memory [`TerminalBackend`]: terminal state as plain values, with a
/// switch per primitive and endpoint that makes the primitive fail.
pub struct SimulatedBackend {
    /// Whether resolving the output endpoint yields a handle.
    pub out_resolvable: bool,
    /// Whether resolving the input endpoint yields a handle.
    pub in_resolvable: bool,
    /// Whether the output endpoint's mode can be read.
    pub out_readable: bool,
    /// Whether the input endpoint's mode can be read.
    pub in_readable: bool,
    /// Whether the output endpoint accepts a mode write.
    pub out_settable: bool,
    /// Whether the input endpoint accepts a mode write.
    pub in_settable: bool,
    /// The output endpoint's current mode flags.
    pub out_mode: u32,
    /// The input endpoint's current mode flags.
    pub in_mode: u32,
    /// The reported buffer size as (columns, rows), or `None` to make the
    /// geometry query fail.
    pub size: Option<(u16, u16)>,
}

impl SimulatedBackend {
    /// A backend on which every primitive succeeds, with the given endpoint
    /// flags and reported size.
    pub fn new(out_mode: u32, in_mode: u32, columns: u16, rows: u16) -> (r: SimulatedBackend)
        ensures
            r.model() == (BackendModel {
                out_resolvable: true,
                in_resolvable: true,
                out_readable: true,
                in_readable: true,
                out_settable: true,
                in_settable: true,
                out_mode,
                in_mode,
                size: Some((columns, rows)),
            }),
    {
        SimulatedBackend {
            out_resolvable: true,
            in_resolvable: true,
            out_readable: true,
            in_readable: true,
            out_settable: true,
            in_settable: true,
            out_mode,
            in_mode,
            size: Some((columns, rows)),
        }
    }

    /// The output endpoint's current mode flags.
    pub fn output_mode(&self) -> (r: u32)
        ensures
            r == self.model().out_mode,
    {
        self.out_mode
    }

    /// The input endpoint's current mode flags.
    pub fn input_mode(&self) -> (r: u32)
        ensures
            r == self.model().in_mode,
    {
        self.in_mode
    }
}

impl TerminalBackend for SimulatedBackend {
    open spec fn model(&self) -> BackendModel {
        BackendModel {
            out_resolvable: self.out_resolvable,
            in_resolvable: self.in_resolvable,
            out_readable: self.out_readable,
            in_readable: self.in_readable,
            out_settable: self.out_settable,
            in_settable: self.in_settable,
            out_mode: self.out_mode,
            in_mode: self.in_mode,
            size: self.size,
        }
    }

    fn resolve(&self, ep: Endpoint) -> (r: Result<Handle, HandleError>) {
        let ok = match ep {
            Endpoint::Stdin => self.in_resolvable,
            Endpoint::Stdout => self.out_resolvable,
        };
        if ok {
            Ok(Handle { endpoint: ep })
        } else {
            Err(HandleError { code: SIM_FAULT_CODE })
        }
    }

    fn get_mode(&self, h: Handle) -> (r: Result<u32, ModeQueryError>) {
        match h.endpoint {
            Endpoint::Stdin => {
                if self.in_readable {
                    Ok(self.in_mode)
                } else {
                    Err(ModeQueryError { code: SIM_FAULT_CODE })
                }
            },
            Endpoint::Stdout => {
                if self.out_readable {
                    Ok(self.out_mode)
                } else {
                    Err(ModeQueryError { code: SIM_FAULT_CODE })
                }
            },
        }
    }

    fn set_mode(&mut self, h: Handle, flags: u32) -> (r: Result<(), ModeSetError>) {
        match h.endpoint {
            Endpoint::Stdin => {
                if self.in_settable {
                    self.in_mode = flags;
                    Ok(())
                } else {
                    Err(ModeSetError { code: SIM_FAULT_CODE })
                }
            },
            Endpoint::Stdout => {
                if self.out_settable {
                    self.out_mode = flags;
                    Ok(())
                } else {
                    Err(ModeSetError { code: SIM_FAULT_CODE })
                }
            },
        }
    }

    fn query_geometry(&self, _h: Handle) -> (r: Result<(u16, u16), GeometryError>) {
        match self.size {
            Some(d) => Ok(d),
            None => Err(GeometryError { code: SIM_FAULT_CODE }),
        }
    }
}

} // verus!
