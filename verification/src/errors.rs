//! The one way an ingestion can fail.

use vstd::prelude::*;
use xflv::errors::FlvDemuxerError;

verus! {

/// Why a unit was refused.
#[derive(Debug)]
pub enum CacheError {
    /// The payload's tag header could not be decoded; the decoder's own error
    /// is carried along unchanged.
    ParseError(FlvDemuxerError),
}

} // verus!
