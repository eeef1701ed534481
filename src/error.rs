use vstd::prelude::*;

verus! {

/// The conditions under which an engine operation is refused.
#[derive(Clone, Copy, Debug, PartialEq, Eq, Structural)]
pub enum EngineError {
    /// A deviation or volatility that is not positive.
    InvalidRating,
    /// A rating period of zero length, or another unusable setting.
    InvalidSettings,
    /// A handle that this engine never issued.
    UnknownPlayer,
    /// The per-player update of a period did not produce a rating.
    NonConvergent,
}

} // verus!
