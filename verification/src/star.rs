//! Per-star identity and sample-source data carried through the pipeline.
//!
//! A star is identified by an opaque string key that stays unique for the
//! lifetime of a run.  In offline runs it carries its precomputed sample
//! vector and a cursor over it; in live runs the samples arrive from the
//! frame feed and the vector is absent.  The sample scalar type is left
//! generic: the window machinery never inspects sample values.

use vstd::prelude::*;

verus! {

#[derive(Debug)]
pub enum StarType {
    Constant,
    Variable,
    Unknown,
}

/// Which predictive model is attached to a star; only the trivial model
/// exists.
#[derive(Debug)]
pub enum StarModelType {
    NoModel,
}

/// One observed star: identity, classification, and (offline) its sample
/// vector together with the index of the next sample to feed.
pub struct Star<T> {
    pub id: String,
    pub uid: String,
    pub star_type: StarType,
    pub model_type: StarModelType,
    pub sample_rate: i32,
    pub samples: Option<Vec<T>>,
    pub samples_tick_index: usize,
}

/// Why a model refused its initialisation arguments.
pub struct StarModelInitErrMsg {
    pub problem_entry: String,
    pub err_msg: String,
}

pub type StarModelErr = Result<(), StarModelInitErrMsg>;

/// The trivial model: accepts any configuration and predicts nothing.
#[derive(Debug)]
pub struct NoneModel {}

impl NoneModel {
    pub fn init(&self, _args: Vec<(String, String)>) -> (r: StarModelErr)
        ensures
            r is Ok,
    {
        Ok(())
    }
}

pub fn parse_model(mtype: StarModelType, _mfile: String) -> (r: NoneModel)
    ensures
        r == (NoneModel {  }),
{
    match mtype {
        StarModelType::NoModel => NoneModel {  },
    }
}

} // verus!
