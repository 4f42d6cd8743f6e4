//! Ground-truth oracles: was a detection at a given sample time a true
//! positive for a given star?
//!
//! The oracles that know their data encode the answer in the star's name
//! (`key=value` attributes separated by commas) or in fixed signal bounds.
//! The anomaly-detection-point metric that reporting derives from a true
//! positive is a floating-point formula and is computed by the reporting
//! adapter; what is verified here is the classification itself and the
//! attribute parsing it rests on.

use vstd::prelude::*;

use crate::utils::contains_sub;
use crate::utils::contains_substr;
use crate::utils::digits_val;
use crate::utils::is_digit_seq;
use crate::utils::parse_usize;
use crate::utils::split_by;
use crate::utils::split_str;
use crate::utils::str_eq;

verus! {

/// First segment that contains `sub` as a substring.
pub open spec fn find_containing(segs: Seq<Seq<char>>, sub: Seq<char>) -> Option<int>
    decreases segs.len(),
{
    if segs.len() == 0 {
        None
    } else if contains_sub(segs[0], sub) {
        Some(0int)
    } else {
        match find_containing(segs.drop_first(), sub) {
            Some(i) => Some(i + 1),
            None => None,
        }
    }
}

proof fn lemma_find_containing_at(segs: Seq<Seq<char>>, sub: Seq<char>, i: int)
    requires
        0 <= i < segs.len(),
        contains_sub(segs[i], sub),
        forall|j: int| 0 <= j < i ==> !contains_sub(#[trigger] segs[j], sub),
    ensures
        find_containing(segs, sub) == Some(i),
    decreases segs.len(),
{
    if i == 0 {
    } else {
        lemma_find_containing_at(segs.drop_first(), sub, i - 1);
    }
}

proof fn lemma_find_containing_none(segs: Seq<Seq<char>>, sub: Seq<char>)
    requires
        forall|j: int| 0 <= j < segs.len() ==> !contains_sub(#[trigger] segs[j], sub),
    ensures
        find_containing(segs, sub) is None,
    decreases segs.len(),
{
    if segs.len() > 0 {
        lemma_find_containing_none(segs.drop_first(), sub);
    }
}

/// First segment whose key part — what precedes its first `=` — equals
/// `key`.
pub open spec fn find_key_seg(segs: Seq<Seq<char>>, key: Seq<char>) -> Option<int>
    decreases segs.len(),
{
    if segs.len() == 0 {
        None
    } else if split_by(segs[0], '=')[0] == key {
        Some(0int)
    } else {
        match find_key_seg(segs.drop_first(), key) {
            Some(i) => Some(i + 1),
            None => None,
        }
    }
}

proof fn lemma_find_key_seg_at(segs: Seq<Seq<char>>, key: Seq<char>, i: int)
    requires
        0 <= i < segs.len(),
        split_by(segs[i], '=')[0] == key,
        forall|j: int| 0 <= j < i ==> split_by(#[trigger] segs[j], '=')[0] != key,
    ensures
        find_key_seg(segs, key) == Some(i),
    decreases segs.len(),
{
    if i == 0 {
    } else {
        lemma_find_key_seg_at(segs.drop_first(), key, i - 1);
    }
}

proof fn lemma_find_key_seg_none(segs: Seq<Seq<char>>, key: Seq<char>)
    requires
        forall|j: int| 0 <= j < segs.len() ==> split_by(#[trigger] segs[j], '=')[0] != key,
    ensures
        find_key_seg(segs, key) is None,
    decreases segs.len(),
{
    if segs.len() > 0 {
        lemma_find_key_seg_none(segs.drop_first(), key);
    }
}

/// The value of the attribute `key` in a star name of comma-separated
/// `key=value` pairs; empty if the key is absent.
pub open spec fn attr_value(star: Seq<char>, key: Seq<char>) -> Seq<char> {
    let segs = split_by(star, ',');
    match find_key_seg(segs, key) {
        Some(i) => split_by(segs[i], '=')[1],
        None => Seq::empty(),
    }
}

/// Every comma segment of the name carries an `=`-separated value.
pub open spec fn name_pairs_ok(star: Seq<char>) -> bool {
    forall|i: int|
        0 <= i < split_by(star, ',').len() ==> split_by(
            #[trigger] split_by(star, ',')[i],
            '=',
        ).len() >= 2
}

/// The attribute `key` is present with a numeric value that fits.
pub open spec fn numeric_attr_ok(star: Seq<char>, key: Seq<char>) -> bool {
    &&& find_key_seg(split_by(star, ','), key) is Some
    &&& is_digit_seq(attr_value(star, key))
    &&& digits_val(attr_value(star, key)) <= usize::MAX
}

/// An oracle for detections.  `valid_spec` says whether this oracle's
/// answers mean anything; `query_ok` which star names it can be asked
/// about; `tp_spec` its answer.
pub trait Tester: Sized {
    spec fn valid_spec(&self) -> bool;

    spec fn query_ok(&self, star: Seq<char>) -> bool;

    spec fn tp_spec(&self, star: Seq<char>, sample_time: nat) -> bool;

    fn is_true_positive(&self, star: &str, sample_time: usize) -> (r: bool)
        requires
            self.query_ok(star@),
        ensures
            r == self.tp_spec(star@, sample_time as nat),
    ;

    fn is_false_positive(&self, star: &str, sample_time: usize) -> (r: bool)
        requires
            self.query_ok(star@),
        ensures
            r == !self.tp_spec(star@, sample_time as nat),
    {
        !self.is_true_positive(star, sample_time)
    }

    fn is_valid(&self) -> (r: bool)
        ensures
            r == self.valid_spec(),
    ;
}

/// The oracle used when no ground truth exists: it classifies everything
/// as a true positive but declares itself invalid, so reporting ignores it.
pub struct NoneTester {}

impl Tester for NoneTester {
    open spec fn valid_spec(&self) -> bool {
        false
    }

    open spec fn query_ok(&self, star: Seq<char>) -> bool {
        true
    }

    open spec fn tp_spec(&self, star: Seq<char>, sample_time: nat) -> bool {
        true
    }

    fn is_true_positive(&self, _star: &str, _sample_time: usize) -> (r: bool) {
        true
    }

    fn is_valid(&self) -> (r: bool) {
        false
    }
}

/// Oracle for synthetic runs whose star names carry the signal bounds as
/// `tl` and `tr` attributes: a detection is true exactly strictly between
/// them.
pub struct TartanTester {
    #[allow(unused)]
    start_len: usize,
    #[allow(unused)]
    end_len: usize,
}

impl TartanTester {
    /// Builds the oracle from the signal bounds of the run's descriptor;
    /// the descriptor file itself is read by the configuration adapter.
    pub fn new(start_len: usize, end_len: usize) -> (r: TartanTester) {
        TartanTester { start_len, end_len }
    }

    /// The `len` attribute of a synthetic star name: the value of the first
    /// comma segment mentioning `len`.
    pub open spec fn name_len_segment(star: Seq<char>) -> Seq<char> {
        let segs = split_by(star, ',');
        match find_containing(segs, seq!['l', 'e', 'n']) {
            Some(i) => segs[i],
            None => Seq::empty(),
        }
    }

    /// The name carries a well-formed `len` attribute.
    pub open spec fn name_len_ok(star: Seq<char>) -> bool {
        &&& find_containing(split_by(star, ','), seq!['l', 'e', 'n']) is Some
        &&& split_by(Self::name_len_segment(star), '=').len() >= 2
        &&& is_digit_seq(split_by(Self::name_len_segment(star), '=')[1])
        &&& digits_val(split_by(Self::name_len_segment(star), '=')[1]) <= usize::MAX
    }

    /// The signal length encoded in a synthetic star name.
    pub fn star_name_to_len(star: &str) -> (r: usize)
        requires
            Self::name_len_ok(star@),
        ensures
            r as int == digits_val(split_by(Self::name_len_segment(star@), '=')[1]),
    {
        let segs = split_str(star, ',');
        let n = segs.len();
        let mut i: usize = 0;
        proof {
            reveal_strlit("len");
            assert("len"@ =~= seq!['l', 'e', 'n']);
        }
        while i < n
            invariant
                i <= n,
                n == segs@.len(),
                segs@.map_values(|x: String| x@) == split_by(star@, ','),
                forall|j: int| 0 <= j < i ==> !contains_sub((#[trigger] segs@[j])@, seq!['l', 'e', 'n']),
                "len"@ == seq!['l', 'e', 'n'],
                Self::name_len_ok(star@),
            decreases n - i,
        {
            if contains_substr(segs[i].as_str(), "len") {
                proof {
                    lemma_find_containing_at(
                        segs@.map_values(|x: String| x@),
                        seq!['l', 'e', 'n'],
                        i as int,
                    );
                }
                let parts = split_str(segs[i].as_str(), '=');
                return parse_usize(parts[1].as_str());
            }
            i = i + 1;
        }
        proof {
            lemma_find_containing_none(segs@.map_values(|x: String| x@), seq!['l', 'e', 'n']);
        }
        // The well-formedness premise guarantees a `len` segment exists.
        proof {
            assert(false);
        }
        0
    }

    /// All `key=value` attributes of a synthetic star name, in name order.
    pub fn star_name_to_attrs(star: &str) -> (r: Vec<(String, String)>)
        requires
            name_pairs_ok(star@),
        ensures
            r@.len() == split_by(star@, ',').len(),
            forall|i: int|
                0 <= i < r@.len() ==> (#[trigger] r@[i]).0@ == split_by(
                    split_by(star@, ',')[i],
                    '=',
                )[0] && r@[i].1@ == split_by(split_by(star@, ',')[i], '=')[1],
    {
        let segs = split_str(star, ',');
        let n = segs.len();
        let mut out: Vec<(String, String)> = Vec::new();
        let mut i: usize = 0;
        while i < n
            invariant
                i <= n,
                n == segs@.len(),
                segs@.map_values(|x: String| x@) == split_by(star@, ','),
                name_pairs_ok(star@),
                out@.len() == i,
                forall|j: int|
                    0 <= j < i ==> (#[trigger] out@[j]).0@ == split_by(
                        split_by(star@, ',')[j],
                        '=',
                    )[0] && out@[j].1@ == split_by(split_by(star@, ',')[j], '=')[1],
            decreases n - i,
        {
            let parts = split_str(segs[i].as_str(), '=');
            proof {
                assert(parts@.map_values(|x: String| x@) == split_by(
                    split_by(star@, ',')[i as int],
                    '=',
                ));
            }
            let key = parts[0].clone();
            let val = parts[1].clone();
            out.push((key, val));
            i = i + 1;
        }
        out
    }
}

impl Tester for TartanTester {
    open spec fn valid_spec(&self) -> bool {
        true
    }

    open spec fn query_ok(&self, star: Seq<char>) -> bool {
        &&& name_pairs_ok(star)
        &&& numeric_attr_ok(star, seq!['t', 'l'])
        &&& numeric_attr_ok(star, seq!['t', 'r'])
    }

    open spec fn tp_spec(&self, star: Seq<char>, sample_time: nat) -> bool {
        &&& digits_val(attr_value(star, seq!['t', 'l'])) < sample_time
        &&& sample_time < digits_val(attr_value(star, seq!['t', 'r']))
    }

    fn is_true_positive(&self, star: &str, sample_time: usize) -> (r: bool) {
        let attrs = TartanTester::star_name_to_attrs(star);
        proof {
            reveal_strlit("tl");
            reveal_strlit("tr");
            assert("tl"@ =~= seq!['t', 'l']);
            assert("tr"@ =~= seq!['t', 'r']);
        }
        let t_left = lookup_numeric_attr(star, &attrs, "tl");
        let t_right = lookup_numeric_attr(star, &attrs, "tr");
        t_left < sample_time && sample_time < t_right
    }

    fn is_valid(&self) -> (r: bool) {
        true
    }
}

/// Finds the named numeric attribute among the parsed pairs and reads its
/// value.
fn lookup_numeric_attr(
    star: &str,
    attrs: &Vec<(String, String)>,
    key: &str,
) -> (r: usize)
    requires
        numeric_attr_ok(star@, key@),
        attrs@.len() == split_by(star@, ',').len(),
        forall|i: int|
            0 <= i < attrs@.len() ==> (#[trigger] attrs@[i]).0@ == split_by(
                split_by(star@, ',')[i],
                '=',
            )[0] && attrs@[i].1@ == split_by(split_by(star@, ',')[i], '=')[1],
    ensures
        r as int == digits_val(attr_value(star@, key@)),
{
    let n = attrs.len();
    let mut i: usize = 0;
    while i < n
        invariant
            i <= n,
            n == attrs@.len(),
            numeric_attr_ok(star@, key@),
            attrs@.len() == split_by(star@, ',').len(),
            forall|j: int|
                0 <= j < attrs@.len() ==> (#[trigger] attrs@[j]).0@ == split_by(
                    split_by(star@, ',')[j],
                    '=',
                )[0] && attrs@[j].1@ == split_by(split_by(star@, ',')[j], '=')[1],
            forall|j: int| 0 <= j < i ==> split_by(#[trigger] split_by(star@, ',')[j], '=')[0] != key@,
        decreases n - i,
    {
        if str_eq(attrs[i].0.as_str(), key) {
            proof {
                lemma_find_key_seg_at(split_by(star@, ','), key@, i as int);
            }
            return parse_usize(attrs[i].1.as_str());
        }
        i = i + 1;
    }
    proof {
        lemma_find_key_seg_none(split_by(star@, ','), key@);
    }
    // The numeric-attribute premise guarantees the key exists.
    proof {
        assert(false);
    }
    0
}

/// Oracle for the survey's real data runs: the event window is a fixed
/// sample-time range.
pub struct NFDTester {}

impl Tester for NFDTester {
    open spec fn valid_spec(&self) -> bool {
        true
    }

    open spec fn query_ok(&self, star: Seq<char>) -> bool {
        true
    }

    open spec fn tp_spec(&self, star: Seq<char>, sample_time: nat) -> bool {
        40320 <= sample_time <= 46080
    }

    fn is_true_positive(&self, _star: &str, sample_time: usize) -> (r: bool) {
        sample_time >= 40320 && sample_time <= 46080
    }

    fn is_valid(&self) -> (r: bool) {
        true
    }
}

} // verus!
