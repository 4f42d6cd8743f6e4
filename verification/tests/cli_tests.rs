use matched_filter::cli::DCNorm;
use matched_filter::cli::SideAdjustment;
use matched_filter::cli::star_side;
use matched_filter::cli::template_side;

#[test]
fn test_dc_norm_table() {
    // no normalization touches neither side
    assert_eq!(star_side(DCNorm::NoNorm), SideAdjustment::Untouched);
    assert_eq!(template_side(DCNorm::NoNorm), SideAdjustment::Untouched);

    // single-sided modes leave the other side alone
    assert_eq!(star_side(DCNorm::MeanRemoveStar), SideAdjustment::MeanRemove);
    assert_eq!(template_side(DCNorm::MeanRemoveStar), SideAdjustment::Untouched);
    assert_eq!(star_side(DCNorm::MeanRemoveTemplate), SideAdjustment::Untouched);
    assert_eq!(template_side(DCNorm::MeanRemoveTemplate), SideAdjustment::MeanRemove);

    // both-sided modes adjust both
    assert_eq!(star_side(DCNorm::MeanRemoveTemplateAndStar), SideAdjustment::MeanRemove);
    assert_eq!(template_side(DCNorm::MeanRemoveTemplateAndStar), SideAdjustment::MeanRemove);
    assert_eq!(star_side(DCNorm::NormAtZeroTemplateAndStar), SideAdjustment::NormAtZero);
    assert_eq!(template_side(DCNorm::NormAtZeroTemplateAndStar), SideAdjustment::NormAtZero);

    // mixed modes
    assert_eq!(
        star_side(DCNorm::NormAtZeroStarAndMeanRemoveTemplate),
        SideAdjustment::NormAtZero
    );
    assert_eq!(
        template_side(DCNorm::NormAtZeroStarAndMeanRemoveTemplate),
        SideAdjustment::MeanRemove
    );
    assert_eq!(
        star_side(DCNorm::MeanRemoveConstBumpStarAndNormAtZeroTemplate),
        SideAdjustment::MeanRemoveConstBump
    );
    assert_eq!(
        template_side(DCNorm::MeanRemoveConstBumpStarAndNormAtZeroTemplate),
        SideAdjustment::NormAtZero
    );

    // the historical mean applies to stars only; its template side is the
    // plain adjustment named in the mode
    assert_eq!(star_side(DCNorm::HistMeanRemoveStar), SideAdjustment::HistMeanRemove);
    assert_eq!(template_side(DCNorm::HistMeanRemoveStar), SideAdjustment::Untouched);
    assert_eq!(
        template_side(DCNorm::HistMeanRemoveStarAndTemplate),
        SideAdjustment::MeanRemove
    );
    assert_eq!(
        template_side(DCNorm::HistMeanRemoveStarAndNormAtZeroTemplate),
        SideAdjustment::NormAtZero
    );
}
