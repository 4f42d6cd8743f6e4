//! Descriptor of one offline star as stored per row of a star database:
//! the same key-value shape as the file-based descriptor, with the sample
//! payload held inline in the row.

use vstd::prelude::*;

verus! {

#[derive(Debug)]
pub struct StarToml {
    pub id: String,
    pub star_type: String,
    pub samples: String,
    pub sample_rate: i32,
    pub arima_model_file: String,
}

} // verus!
