//! Structural layout of the template bank.
//!
//! The bank holds FFT-transformed templates, batched into groups so that
//! each accelerator matrix product stays within memory.  What is verified
//! here is the layout arithmetic that every group must agree on: the shared
//! FFT length (the next power of two above the longest raw template), the
//! shared positive-frequency row bound derived from it, and the batching of
//! consecutive templates into groups of at most the requested size.  The
//! numeric contents of the group matrices are produced outside the crate.

use vstd::prelude::*;

verus! {

/// Descriptor for a template pack: the file holding the serialized raw
/// waveforms, and whether they are stored already transformed.
pub struct TemplateToml {
    pub templates: String,
    pub pre_fft: bool,
}

/// Layout of one batch of templates.  `max_len` is the last retained
/// frequency row, so every group matrix has `max_len + 1` rows; the numeric
/// matrix itself lives with the accelerator adapter.
pub struct TemplateGroup {
    pub num_templates: usize,
    pub max_len: usize,
    pub fft_len: usize,
}

/// The whole bank: group layouts in template order.
pub struct Templates {
    pub templates: Vec<TemplateGroup>,
    pub pre_fft: bool,
}

pub open spec fn pow2(e: nat) -> nat
    decreases e,
{
    if e == 0 {
        1
    } else {
        2 * pow2((e - 1) as nat)
    }
}

pub open spec fn is_pow2(n: nat) -> bool {
    exists|e: nat| n == pow2(e)
}

/// The last positive-frequency row retained from an FFT of this length,
/// following the usual frequency-bin layout for even and odd lengths.
pub open spec fn spec_half_len(fft_len: nat) -> nat {
    if fft_len % 2 == 1 {
        ((fft_len - 1) / 2) as nat
    } else {
        ((fft_len / 2) - 1) as nat
    }
}

/// The smallest power of two that is at least `n`.
pub fn next_pow2(n: usize) -> (r: usize)
    requires
        1 <= n <= usize::MAX / 2,
    ensures
        is_pow2(r as nat),
        r >= n,
        r < 2 * n,
{
    let mut p: usize = 1;
    proof {
        assert(1nat == pow2(0));
    }
    while p < n
        invariant
            n <= usize::MAX / 2,
            is_pow2(p as nat),
            1 <= p < 2 * n,
        decreases 2 * n - p,
    {
        proof {
            let e = choose|e: nat| p as nat == pow2(e);
            assert(2 * p as nat == pow2(e + 1));
        }
        p = p * 2;
    }
    p
}

pub fn half_len(fft_len: usize) -> (r: usize)
    requires
        fft_len >= 1,
    ensures
        r == spec_half_len(fft_len as nat),
{
    if fft_len % 2 == 1 {
        (fft_len - 1) / 2
    } else {
        fft_len / 2 - 1
    }
}

/// What a planned bank guarantees for raw template lengths `lens` and a
/// group bound `group_sz`: one shared FFT length, a power of two at least
/// as large as every template (and minimal among powers of two for the
/// longest one); one shared row bound derived from it; groups of between 1
/// and `group_sz` templates that cover the templates in order, all full but
/// possibly the last.
pub open spec fn bank_layout_ok(bank: Templates, lens: Seq<usize>, group_sz: usize) -> bool {
    let groups = bank.templates@;
    let fft = groups[0].fft_len as nat;
    &&& groups.len() >= 1
    &&& is_pow2(fft)
    &&& (forall|i: int| 0 <= i < lens.len() ==> lens[i] as nat <= fft)
    &&& (exists|i: int| 0 <= i < lens.len() && fft < 2 * (lens[i] as nat))
    &&& (forall|g: int|
        0 <= g < groups.len() ==> (#[trigger] groups[g]).fft_len == groups[0].fft_len)
    &&& (forall|g: int| #![auto]
        0 <= g < groups.len() ==> groups[g].max_len as nat == spec_half_len(fft))
    &&& (forall|g: int| #![auto]
        0 <= g < groups.len() ==> groups[g].num_templates == if lens.len() - g * group_sz
            < group_sz {
            lens.len() - g * group_sz
        } else {
            group_sz as int
        })
    &&& (groups.len() - 1) * group_sz < lens.len() <= groups.len() * group_sz
}

/// Plans the bank layout: the shared FFT length and row bound, and the
/// batching of the templates into groups of at most `template_group_sz`.
pub fn plan_template_groups(
    template_lens: &Vec<usize>,
    template_group_sz: usize,
    pre_fft: bool,
) -> (r: Templates)
    requires
        template_lens@.len() >= 1,
        template_group_sz >= 1,
        forall|i: int|
            0 <= i < template_lens@.len() ==> 1 <= #[trigger] template_lens@[i] <= usize::MAX
                / 2,
    ensures
        r.pre_fft == pre_fft,
        bank_layout_ok(r, template_lens@, template_group_sz),
{
    let n = template_lens.len();
    let mut max_raw: usize = template_lens[0];
    let ghost mut max_at: int = 0;
    let mut i: usize = 1;
    while i < n
        invariant
            1 <= i <= n,
            n == template_lens@.len(),
            0 <= max_at < i,
            max_raw == template_lens@[max_at],
            forall|j: int| 0 <= j < i ==> #[trigger] template_lens@[j] <= max_raw,
        decreases n - i,
    {
        if template_lens[i] > max_raw {
            max_raw = template_lens[i];
            proof {
                max_at = i as int;
            }
        }
        i = i + 1;
    }

    let fft = next_pow2(max_raw);
    let half = half_len(fft);

    let k = template_group_sz;
    let mut groups: Vec<TemplateGroup> = Vec::new();
    let mut consumed: usize = 0;
    proof {
        assert(groups@.len() == 0);
        assert((groups@.len() as int) * (k as int) == 0);
    }
    while consumed < n
        invariant
            consumed <= n,
            n == template_lens@.len(),
            1 <= k,
            (groups@.len() as int) * (k as int) <= n as int ==> consumed as int == (
            groups@.len() as int) * (k as int),
            (groups@.len() as int) * (k as int) > n as int ==> consumed == n,
            forall|g: int| #![auto]
                0 <= g < groups@.len() ==> groups@[g].num_templates == if n - g * k < k {
                    n - g * k
                } else {
                    k as int
                },
            forall|g: int| #![auto]
                0 <= g < groups@.len() ==> groups@[g].fft_len == fft && groups@[g].max_len
                    == half,
            forall|g: int| #![auto] 0 <= g < groups@.len() ==> groups@[g].num_templates >= 1,
        decreases n - consumed,
    {
        let remaining = n - consumed;
        let take = if remaining < k {
            remaining
        } else {
            k
        };
        let ghost glen = groups@.len();
        proof {
            // The loop has consumed exactly `glen` full groups so far.
            assert((glen as int) * (k as int) <= n as int);
            assert(consumed as int == (glen as int) * (k as int));
            assert(((glen as int) + 1) * (k as int) == (glen as int) * (k as int) + (
            k as int)) by (nonlinear_arith);
        }
        groups.push(TemplateGroup { num_templates: take, max_len: half, fft_len: fft });
        consumed = consumed + take;
    }

    proof {
        let glen = groups@.len() as int;
        let ki = template_group_sz as int;
        let ni = template_lens@.len() as int;
        assert(glen >= 1);
        assert(glen * ki >= ni);
        assert((glen - 1) * ki == glen * ki - ki) by (nonlinear_arith);
        assert(groups@[glen - 1].num_templates >= 1);
        if ni - (glen - 1) * ki < ki {
            assert(groups@[glen - 1].num_templates == ni - (glen - 1) * ki);
            assert((glen - 1) * ki < ni);
        } else {
            assert((glen - 1) * ki < ni);
        }
        // The longest raw template witnesses minimality of the FFT length.
        assert(0 <= max_at < ni && (fft as nat) < 2 * (template_lens@[max_at] as nat));
    }

    Templates { templates: groups, pre_fft }
}

/// Every group of a planned bank shares one FFT length and one row bound:
/// all group matrices downstream have the same number of rows, and that FFT
/// length is a power of two no smaller than any template.
pub proof fn lemma_bank_rows_shared(bank: Templates, lens: Seq<usize>, group_sz: usize)
    requires
        bank_layout_ok(bank, lens, group_sz),
    ensures
        is_pow2(bank.templates@[0].fft_len as nat),
        forall|i: int|
            0 <= i < lens.len() ==> lens[i] as nat <= bank.templates@[0].fft_len as nat,
        forall|g: int|
            0 <= g < bank.templates@.len() ==> (#[trigger] bank.templates@[g]).max_len
                == bank.templates@[0].max_len && bank.templates@[g].fft_len
                == bank.templates@[0].fft_len,
{
}

} // verus!
