//! Querying the terminal's size.

use vstd::prelude::*;

use crate::backend::BackendModel;
use crate::backend::Endpoint;
use crate::backend::IoError;
use crate::backend::TerminalBackend;

verus! {

/// What a size query against a backend in state `m` returns: the reported
/// (columns, rows) pair when the output handle resolves and the backend
/// reports a size, and the error of the first failing step otherwise.
pub open spec fn size_query_result(m: BackendModel, r: Result<(u16, u16), IoError>) -> bool {
    &&& (r is Ok) == (m.out_resolvable && m.size is Some)
    &&& r matches Ok(d) ==> m.size == Some(d)
    &&& r matches Err(e) ==> (if !m.out_resolvable {
        e is Handle
    } else {
        e is Geometry
    })
}

/// Get the size of the terminal as (columns, rows).
///
/// Stateless and uncached: every call resolves the output handle and issues
/// one geometry round trip, so the result reflects the live value at call
/// time. Fails when the handle cannot be resolved or the query is rejected.
pub fn terminal_size<B: TerminalBackend>(backend: &B) -> (r: Result<(u16, u16), IoError>)
    ensures
        size_query_result(backend.model(), r),
{
    let handle = match backend.resolve(Endpoint::Stdout) {
        Ok(h) => h,
        Err(e) => {
            return Err(IoError::Handle(e));
        },
    };
    match backend.query_geometry(handle) {
        Ok(d) => Ok(d),
        Err(e) => Err(IoError::Geometry(e)),
    }
}

/// Idempotent geometry query: two size queries against one and the same
/// backend state succeed or fail together, and when they succeed they report
/// identical dimensions.
pub proof fn lemma_size_query_idempotent(
    m: BackendModel,
    r1: Result<(u16, u16), IoError>,
    r2: Result<(u16, u16), IoError>,
)
    requires
        size_query_result(m, r1),
        size_query_result(m, r2),
    ensures
        (r1 is Ok) == (r2 is Ok),
        r1 is Ok ==> r1 == r2,
{
}

} // verus!
