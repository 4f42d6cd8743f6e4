//! Descriptor of one offline star stored as a key-value file beside its
//! serialized sample payload.

use vstd::prelude::*;

verus! {

/// The fields of a star descriptor file; `samples` names the companion
/// payload file relative to the descriptor.
#[derive(Debug)]
pub struct StarToml {
    pub id: String,
    pub star_type: String,
    pub samples: String,
    pub sample_rate: i32,
    pub arima_model_file: String,
}

} // verus!
