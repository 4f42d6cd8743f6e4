//! The correlation detector's algebra, in exact arithmetic.
//!
//! The kernel correlates a window's spectrum against each template column
//! with the double-sided form `S^H T + S^T conj T` and reduces the real
//! part to a score.  Its single-precision execution lives with the
//! accelerator adapter; what is proved here is the algebra that justifies
//! it: every bin's double-sided contribution is a real number — twice the
//! real inner product of the bin values, so no imaginary residue and none
//! of the spurious maxima a magnitude-based detector admits — and a signal
//! whose spectrum is zero scores exactly zero against every template.  In
//! floating point the same quantities carry only rounding noise.

use vstd::prelude::*;

verus! {

/// Complex product over exact `(re, im)` pairs.
pub open spec fn cmul(a: (int, int), b: (int, int)) -> (int, int) {
    (a.0 * b.0 - a.1 * b.1, a.0 * b.1 + a.1 * b.0)
}

/// Complex conjugate.
pub open spec fn cconj(a: (int, int)) -> (int, int) {
    (a.0, -a.1)
}

/// Complex sum.
pub open spec fn cadd(a: (int, int), b: (int, int)) -> (int, int) {
    (a.0 + b.0, a.1 + b.1)
}

/// One frequency bin's contribution to the double-sided detector:
/// `conj(s) * t + s * conj(t)`.
pub open spec fn double_sided_bin(s: (int, int), t: (int, int)) -> (int, int) {
    cadd(cmul(cconj(s), t), cmul(s, cconj(t)))
}

/// The double-sided contribution of a bin is real, and equals twice the
/// real inner product of the bin values: the detector preserves the real
/// symmetry of the score.
pub proof fn lemma_double_sided_bin_real(s: (int, int), t: (int, int))
    ensures
        double_sided_bin(s, t).1 == 0,
        double_sided_bin(s, t).0 == 2 * (s.0 * t.0 + s.1 * t.1),
{
    assert(double_sided_bin(s, t).1 == 0 && double_sided_bin(s, t).0 == 2 * (s.0 * t.0 + s.1
        * t.1)) by (nonlinear_arith);
}

/// The double-sided score of one spectrum against one template column: the
/// bin contributions summed over the rows both share.
pub open spec fn double_sided_score(
    spectrum: Seq<(int, int)>,
    template: Seq<(int, int)>,
) -> (int, int)
    decreases spectrum.len(),
{
    if spectrum.len() == 0 || template.len() == 0 {
        (0int, 0int)
    } else {
        cadd(
            double_sided_bin(spectrum[0], template[0]),
            double_sided_score(spectrum.drop_first(), template.drop_first()),
        )
    }
}

/// The whole score is real: its imaginary part vanishes bin by bin.
pub proof fn lemma_double_sided_score_real(spectrum: Seq<(int, int)>, template: Seq<(int, int)>)
    ensures
        double_sided_score(spectrum, template).1 == 0,
    decreases spectrum.len(),
{
    if spectrum.len() > 0 && template.len() > 0 {
        lemma_double_sided_bin_real(spectrum[0], template[0]);
        lemma_double_sided_score_real(spectrum.drop_first(), template.drop_first());
    }
}

/// A signal with an all-zero spectrum scores exactly zero against every
/// template; what a run observes on a zero input is rounding noise alone.
pub proof fn lemma_zero_spectrum_scores_zero(spectrum: Seq<(int, int)>, template: Seq<(int, int)>)
    requires
        forall|i: int| 0 <= i < spectrum.len() ==> #[trigger] spectrum[i] == (0int, 0int),
    ensures
        double_sided_score(spectrum, template) == (0int, 0int),
    decreases spectrum.len(),
{
    if spectrum.len() > 0 && template.len() > 0 {
        assert(forall|i: int|
            0 <= i < spectrum.drop_first().len() ==> #[trigger] spectrum.drop_first()[i] == (
            0int,
            0int,
            ));
        lemma_zero_spectrum_scores_zero(spectrum.drop_first(), template.drop_first());
        assert(double_sided_bin((0int, 0int), template[0]) == (0int, 0int)) by (nonlinear_arith);
    }
}

} // verus!
