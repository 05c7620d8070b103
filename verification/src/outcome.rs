//! The orchestrator's final fold: every task's outcome is checked, and the
//! first fatal one decides the run, with the writer checked before the
//! reading pipeline and the chain's outcome used only when both are clean.

use vstd::prelude::*;
use crate::types::{EventChain, HSError};

verus! {

/// Fold the three task outcomes of one run into its result: a writer error
/// wins, then a reader error, and only when both are clean does the run
/// succeed or fail as the recorder's outcome says. A complete chain is not a
/// success if a stream half failed; an incomplete chain is not an error.
pub fn fold_outcomes(
    chain: Result<EventChain, HSError>,
    writer: Result<(), HSError>,
    reader: Result<(), HSError>,
) -> (r: Result<EventChain, HSError>)
    ensures
        writer matches Err(e) ==> (r matches Err(re) && re == e),
        writer is Ok ==> (reader matches Err(e) ==> (r matches Err(re) && re == e)),
        writer is Ok && reader is Ok ==> r == chain,
{
    match writer {
        Err(e) => Err(e),
        Ok(()) => match reader {
            Err(e) => Err(e),
            Ok(()) => chain,
        },
    }
}

} // verus!
