//! Run-wide configuration choices that the pipeline's logic branches on.
//!
//! Argument parsing itself is an adapter concern; what lives here are the
//! enumerations those arguments select from, and the verified reading of
//! the DC-normalization table: which side — star windows, templates, both —
//! each mode adjusts, and how.

use vstd::prelude::*;

verus! {

/// How a local test run orders its reported score streams.
pub enum SortOpt {
    NoSort,
    Increasing,
    Decreasing,
}

/// DC normalization applied before correlation.  Windows and templates with
/// different DC offsets are incomparable, so each mode names an adjustment
/// for the star side, the template side, or both.
#[derive(Clone, Copy, Debug)]
pub enum DCNorm {
    NoNorm,
    MeanRemoveTemplate,
    MeanRemoveStar,
    MeanRemoveTemplateAndStar,
    MeanRemoveConstBumpStarAndNormAtZeroTemplate,
    NormAtZeroTemplate,
    NormAtZeroStar,
    NormAtZeroTemplateAndStar,
    NormAtZeroStarAndMeanRemoveTemplate,
    NormAtZeroTemplateAndMeanRemoveStar,
    HistMeanRemoveStar,
    HistMeanRemoveStarAndTemplate,
    HistMeanRemoveStarAndNormAtZeroTemplate,
}

/// The adjustment one side of the correlation receives.
#[derive(Clone, Copy, Debug, PartialEq, Eq, Structural)]
pub enum SideAdjustment {
    /// Left as it is.
    Untouched,
    /// Its mean is subtracted.
    MeanRemove,
    /// Its minimum is subtracted, putting the floor at zero.
    NormAtZero,
    /// The star's historical mean estimate is subtracted.
    HistMeanRemove,
    /// Its mean is subtracted and a fixed positive offset is added back.
    MeanRemoveConstBump,
}

/// The star-window side of the normalization table.
pub open spec fn star_side_spec(dc: DCNorm) -> SideAdjustment {
    match dc {
        DCNorm::NoNorm => SideAdjustment::Untouched,
        DCNorm::MeanRemoveTemplate => SideAdjustment::Untouched,
        DCNorm::MeanRemoveStar => SideAdjustment::MeanRemove,
        DCNorm::MeanRemoveTemplateAndStar => SideAdjustment::MeanRemove,
        DCNorm::MeanRemoveConstBumpStarAndNormAtZeroTemplate => SideAdjustment::MeanRemoveConstBump,
        DCNorm::NormAtZeroTemplate => SideAdjustment::Untouched,
        DCNorm::NormAtZeroStar => SideAdjustment::NormAtZero,
        DCNorm::NormAtZeroTemplateAndStar => SideAdjustment::NormAtZero,
        DCNorm::NormAtZeroStarAndMeanRemoveTemplate => SideAdjustment::NormAtZero,
        DCNorm::NormAtZeroTemplateAndMeanRemoveStar => SideAdjustment::MeanRemove,
        DCNorm::HistMeanRemoveStar => SideAdjustment::HistMeanRemove,
        DCNorm::HistMeanRemoveStarAndTemplate => SideAdjustment::HistMeanRemove,
        DCNorm::HistMeanRemoveStarAndNormAtZeroTemplate => SideAdjustment::HistMeanRemove,
    }
}

/// The template side of the normalization table, applied once at bank
/// construction.
pub open spec fn template_side_spec(dc: DCNorm) -> SideAdjustment {
    match dc {
        DCNorm::NoNorm => SideAdjustment::Untouched,
        DCNorm::MeanRemoveTemplate => SideAdjustment::MeanRemove,
        DCNorm::MeanRemoveStar => SideAdjustment::Untouched,
        DCNorm::MeanRemoveTemplateAndStar => SideAdjustment::MeanRemove,
        DCNorm::MeanRemoveConstBumpStarAndNormAtZeroTemplate => SideAdjustment::NormAtZero,
        DCNorm::NormAtZeroTemplate => SideAdjustment::NormAtZero,
        DCNorm::NormAtZeroStar => SideAdjustment::Untouched,
        DCNorm::NormAtZeroTemplateAndStar => SideAdjustment::NormAtZero,
        DCNorm::NormAtZeroStarAndMeanRemoveTemplate => SideAdjustment::MeanRemove,
        DCNorm::NormAtZeroTemplateAndMeanRemoveStar => SideAdjustment::NormAtZero,
        DCNorm::HistMeanRemoveStar => SideAdjustment::Untouched,
        DCNorm::HistMeanRemoveStarAndTemplate => SideAdjustment::MeanRemove,
        DCNorm::HistMeanRemoveStarAndNormAtZeroTemplate => SideAdjustment::NormAtZero,
    }
}

pub fn star_side(dc: DCNorm) -> (r: SideAdjustment)
    ensures
        r == star_side_spec(dc),
{
    match dc {
        DCNorm::NoNorm => SideAdjustment::Untouched,
        DCNorm::MeanRemoveTemplate => SideAdjustment::Untouched,
        DCNorm::MeanRemoveStar => SideAdjustment::MeanRemove,
        DCNorm::MeanRemoveTemplateAndStar => SideAdjustment::MeanRemove,
        DCNorm::MeanRemoveConstBumpStarAndNormAtZeroTemplate => SideAdjustment::MeanRemoveConstBump,
        DCNorm::NormAtZeroTemplate => SideAdjustment::Untouched,
        DCNorm::NormAtZeroStar => SideAdjustment::NormAtZero,
        DCNorm::NormAtZeroTemplateAndStar => SideAdjustment::NormAtZero,
        DCNorm::NormAtZeroStarAndMeanRemoveTemplate => SideAdjustment::NormAtZero,
        DCNorm::NormAtZeroTemplateAndMeanRemoveStar => SideAdjustment::MeanRemove,
        DCNorm::HistMeanRemoveStar => SideAdjustment::HistMeanRemove,
        DCNorm::HistMeanRemoveStarAndTemplate => SideAdjustment::HistMeanRemove,
        DCNorm::HistMeanRemoveStarAndNormAtZeroTemplate => SideAdjustment::HistMeanRemove,
    }
}

pub fn template_side(dc: DCNorm) -> (r: SideAdjustment)
    ensures
        r == template_side_spec(dc),
{
    match dc {
        DCNorm::NoNorm => SideAdjustment::Untouched,
        DCNorm::MeanRemoveTemplate => SideAdjustment::MeanRemove,
        DCNorm::MeanRemoveStar => SideAdjustment::Untouched,
        DCNorm::MeanRemoveTemplateAndStar => SideAdjustment::MeanRemove,
        DCNorm::MeanRemoveConstBumpStarAndNormAtZeroTemplate => SideAdjustment::NormAtZero,
        DCNorm::NormAtZeroTemplate => SideAdjustment::NormAtZero,
        DCNorm::NormAtZeroStar => SideAdjustment::Untouched,
        DCNorm::NormAtZeroTemplateAndStar => SideAdjustment::NormAtZero,
        DCNorm::NormAtZeroStarAndMeanRemoveTemplate => SideAdjustment::MeanRemove,
        DCNorm::NormAtZeroTemplateAndMeanRemoveStar => SideAdjustment::NormAtZero,
        DCNorm::HistMeanRemoveStar => SideAdjustment::Untouched,
        DCNorm::HistMeanRemoveStarAndTemplate => SideAdjustment::MeanRemove,
        DCNorm::HistMeanRemoveStarAndNormAtZeroTemplate => SideAdjustment::NormAtZero,
    }
}

/// Reporting options for a local test run.
pub struct LogOpts {
    pub sort: SortOpt,
    pub plot: bool,
}

} // verus!
