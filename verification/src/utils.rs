//! Small string helpers shared across the pipeline: character-exact string
//! comparison, and localisation of data paths named inside descriptor files.

use vstd::prelude::*;
use vstd::string::StrSliceExecFns;
use vstd::string::StringExecFns;

verus! {

/// Character-for-character equality of two string slices.
pub fn str_eq(a: &str, b: &str) -> (r: bool)
    ensures
        r == (a@ == b@),
{
    let alen = a.unicode_len();
    let blen = b.unicode_len();
    if alen != blen {
        return false;
    }
    let mut i: usize = 0;
    while i < alen
        invariant
            i <= alen,
            alen == a@.len(),
            blen == b@.len(),
            alen == blen,
            forall|j: int| 0 <= j < i ==> a@[j] == b@[j],
        decreases alen - i,
    {
        if a.get_char(i) != b.get_char(i) {
            return false;
        }
        i = i + 1;
    }
    proof {
        assert(a@ =~= b@);
    }
    true
}

/// Splitting a character sequence at every occurrence of `sep`.  Splitting
/// never yields an empty list: a sequence without separators is one
/// segment, and each separator ends a segment.
pub open spec fn split_by(s: Seq<char>, sep: char) -> Seq<Seq<char>>
    decreases s.len(),
{
    if s.len() == 0 {
        seq![Seq::<char>::empty()]
    } else {
        let rest = split_by(s.drop_first(), sep);
        if s[0] == sep {
            seq![Seq::<char>::empty()] + rest
        } else {
            seq![seq![s[0]] + rest[0]] + rest.drop_first()
        }
    }
}

pub proof fn lemma_split_by_nonempty(s: Seq<char>, sep: char)
    ensures
        split_by(s, sep).len() >= 1,
    decreases s.len(),
{
    if s.len() > 0 {
        lemma_split_by_nonempty(s.drop_first(), sep);
    }
}

/// A sequence without the separator splits into itself alone.
pub proof fn lemma_split_by_nosep(s: Seq<char>, sep: char)
    requires
        forall|j: int| 0 <= j < s.len() ==> s[j] != sep,
    ensures
        split_by(s, sep) == seq![s],
    decreases s.len(),
{
    if s.len() == 0 {
        assert(split_by(s, sep) =~~= seq![s]);
    } else {
        lemma_split_by_nosep(s.drop_first(), sep);
        assert(seq![s[0]] + s.drop_first() =~= s);
        assert(split_by(s, sep) =~~= seq![s]);
    }
}

/// With the first separator at `i`, the split is the prefix before it
/// followed by the split of what comes after it.
pub proof fn lemma_split_by_first_sep(s: Seq<char>, sep: char, i: int)
    requires
        0 <= i < s.len(),
        s[i] == sep,
        forall|j: int| 0 <= j < i ==> s[j] != sep,
    ensures
        split_by(s, sep) == seq![s.take(i)] + split_by(s.skip(i + 1), sep),
    decreases i,
{
    lemma_split_by_nonempty(s.skip(i + 1), sep);
    if i == 0 {
        assert(s.drop_first() =~= s.skip(1));
        assert(s.take(0) =~= Seq::<char>::empty());
        assert(split_by(s, sep) =~~= seq![s.take(0)] + split_by(s.skip(1), sep));
    } else {
        let t = s.drop_first();
        assert(t[i - 1] == sep);
        lemma_split_by_first_sep(t, sep, i - 1);
        assert(t.skip(i) =~= s.skip(i + 1));
        assert(seq![s[0]] + t.take(i - 1) =~= s.take(i));
        assert(split_by(s, sep) =~~= seq![s.take(i)] + split_by(s.skip(i + 1), sep));
    }
}

/// Splits `s` at every occurrence of `sep`.
pub fn split_str(s: &str, sep: char) -> (r: Vec<String>)
    ensures
        r@.map_values(|x: String| x@) == split_by(s@, sep),
        r@.len() >= 1,
{
    let len = s.unicode_len();
    let mut out: Vec<String> = Vec::new();
    let mut start: usize = 0;
    let mut i: usize = 0;
    proof {
        assert(s@.skip(0) =~= s@);
        assert(out@.map_values(|x: String| x@) =~= Seq::<Seq<char>>::empty());
        assert(Seq::<Seq<char>>::empty() + split_by(s@, sep) =~~= split_by(s@, sep));
    }
    while i < len
        invariant
            start <= i <= len,
            len == s@.len(),
            forall|j: int| start <= j < i ==> s@[j] != sep,
            split_by(s@, sep) == out@.map_values(|x: String| x@) + split_by(
                s@.skip(start as int),
                sep,
            ),
        decreases len - i,
    {
        if s.get_char(i) == sep {
            let ghost pre = out@;
            let seg = s.substring_char(start, i).to_owned();
            out.push(seg);
            proof {
                let tail = s@.skip(start as int);
                assert(tail[i - start] == sep);
                lemma_split_by_first_sep(tail, sep, i - start);
                assert(tail.take(i - start) =~= s@.subrange(start as int, i as int));
                assert(tail.skip(i - start + 1) =~= s@.skip(i + 1));
                assert(out@.map_values(|x: String| x@) =~= pre.map_values(|x: String| x@)
                    + seq![s@.subrange(start as int, i as int)]);
                assert(out@.map_values(|x: String| x@) + split_by(s@.skip(i + 1), sep) =~~= (
                pre.map_values(|x: String| x@) + split_by(s@.skip(start as int), sep)));
            }
            start = i + 1;
        }
        i = i + 1;
    }
    let ghost pre = out@;
    let seg = s.substring_char(start, len).to_owned();
    out.push(seg);
    proof {
        let tail = s@.skip(start as int);
        lemma_split_by_nosep(tail, sep);
        assert(tail =~= s@.subrange(start as int, len as int));
        assert(out@.map_values(|x: String| x@) =~= pre.map_values(|x: String| x@) + seq![tail]);
        assert(out@.map_values(|x: String| x@) =~~= pre.map_values(|x: String| x@) + split_by(
            tail,
            sep,
        ));
    }
    out
}

/// `sub` occurs contiguously somewhere in `s`.
pub open spec fn contains_sub(s: Seq<char>, sub: Seq<char>) -> bool {
    exists|k: int|
        0 <= k <= s.len() - sub.len() && #[trigger] s.subrange(k, k + sub.len() as int) == sub
}

/// Whether `sub` occurs contiguously in `s`.
pub fn contains_substr(s: &str, sub: &str) -> (r: bool)
    ensures
        r == contains_sub(s@, sub@),
{
    let slen = s.unicode_len();
    let sublen = sub.unicode_len();
    if sublen > slen {
        proof {
            assert(!contains_sub(s@, sub@));
        }
        return false;
    }
    let mut k: usize = 0;
    while k <= slen - sublen
        invariant
            0 <= k <= slen - sublen + 1,
            sublen <= slen,
            slen == s@.len(),
            sublen == sub@.len(),
            forall|k2: int|
                0 <= k2 < k ==> #[trigger] s@.subrange(k2, k2 + sub@.len() as int) != sub@,
        decreases slen - sublen - k + 1,
    {
        let mut j: usize = 0;
        let mut all_eq = true;
        while all_eq && j < sublen
            invariant
                0 <= j <= sublen,
                k + sublen <= slen,
                slen == s@.len(),
                sublen == sub@.len(),
                all_eq ==> forall|j2: int| 0 <= j2 < j ==> s@[k + j2] == sub@[j2],
                !all_eq ==> s@.subrange(k as int, k + sub@.len() as int) != sub@,
            decreases sublen - j,
        {
            if s.get_char(k + j) != sub.get_char(j) {
                proof {
                    let sr = s@.subrange(k as int, k + sub@.len() as int);
                    assert(sr[j as int] == s@[k + j]);
                    assert(sr != sub@);
                }
                all_eq = false;
            }
            j = j + 1;
        }
        if all_eq {
            proof {
                assert(s@.subrange(k as int, k + sub@.len() as int) =~= sub@);
            }
            return true;
        }
        proof {
            if sublen == 0 {
                assert(s@.subrange(k as int, k as int) =~= sub@);
            }
        }
        k = k + 1;
    }
    proof {
        assert(!contains_sub(s@, sub@));
    }
    false
}

/// A nonempty run of decimal digits.
pub open spec fn is_digit_seq(s: Seq<char>) -> bool {
    &&& s.len() >= 1
    &&& forall|i: int| 0 <= i < s.len() ==> '0' <= #[trigger] s[i] <= '9'
}

/// The number the digits spell out.
pub open spec fn digits_val(s: Seq<char>) -> int
    decreases s.len(),
{
    if s.len() == 0 {
        0
    } else {
        digits_val(s.drop_last()) * 10 + (s.last() as int - '0' as int)
    }
}

proof fn lemma_digits_val_take_succ(s: Seq<char>, i: int)
    requires
        0 <= i < s.len(),
    ensures
        digits_val(s.take(i + 1)) == digits_val(s.take(i)) * 10 + (s[i] as int - '0' as int),
{
    assert(s.take(i + 1).drop_last() =~= s.take(i));
}

proof fn lemma_digits_val_nonneg(s: Seq<char>)
    requires
        forall|i: int| 0 <= i < s.len() ==> '0' <= #[trigger] s[i] <= '9',
    ensures
        digits_val(s) >= 0,
    decreases s.len(),
{
    if s.len() > 0 {
        assert(forall|i: int|
            0 <= i < s.drop_last().len() ==> '0' <= #[trigger] s.drop_last()[i] <= '9');
        lemma_digits_val_nonneg(s.drop_last());
    }
}

proof fn lemma_digits_val_prefix_le(s: Seq<char>, i: int)
    requires
        0 <= i <= s.len(),
        forall|j: int| 0 <= j < s.len() ==> '0' <= #[trigger] s[j] <= '9',
    ensures
        digits_val(s.take(i)) <= digits_val(s),
    decreases s.len() - i,
{
    if i == s.len() {
        assert(s.take(i) =~= s);
    } else {
        lemma_digits_val_take_succ(s, i);
        assert(forall|j: int| 0 <= j < s.take(i).len() ==> '0' <= #[trigger] s.take(i)[j] <= '9');
        lemma_digits_val_nonneg(s.take(i));
        lemma_digits_val_prefix_le(s, i + 1);
    }
}

/// Reads a decimal number; the caller guarantees that the text is digits
/// only and that the value fits.
pub fn parse_usize(s: &str) -> (v: usize)
    requires
        is_digit_seq(s@),
        digits_val(s@) <= usize::MAX,
    ensures
        v as int == digits_val(s@),
{
    let len = s.unicode_len();
    let mut acc: usize = 0;
    let mut i: usize = 0;
    proof {
        assert(s@.take(0) =~= Seq::<char>::empty());
    }
    while i < len
        invariant
            0 <= i <= len,
            len == s@.len(),
            is_digit_seq(s@),
            digits_val(s@) <= usize::MAX,
            acc as int == digits_val(s@.take(i as int)),
        decreases len - i,
    {
        let c = s.get_char(i);
        let d = (c as u32 - '0' as u32) as usize;
        proof {
            lemma_digits_val_take_succ(s@, i as int);
            lemma_digits_val_prefix_le(s@, i + 1);
        }
        acc = acc * 10 + d;
        i = i + 1;
    }
    proof {
        assert(s@.take(len as int) =~= s@);
    }
    acc
}

/// The position of the last path separator in `s`, if any.
pub open spec fn last_slash(s: Seq<char>) -> Option<int>
    decreases s.len(),
{
    if s.len() == 0 {
        None
    } else if s[s.len() - 1] == '/' {
        Some(s.len() - 1)
    } else {
        last_slash(s.drop_last())
    }
}

proof fn lemma_last_slash_at(s: Seq<char>, i: int)
    requires
        0 <= i < s.len(),
        s[i] == '/',
        forall|j: int| i < j < s.len() ==> s[j] != '/',
    ensures
        last_slash(s) == Some(i),
    decreases s.len(),
{
    if s.len() - 1 == i {
    } else {
        assert(s.drop_last()[i] == '/');
        lemma_last_slash_at(s.drop_last(), i);
    }
}

proof fn lemma_last_slash_none(s: Seq<char>)
    requires
        forall|j: int| 0 <= j < s.len() ==> s[j] != '/',
    ensures
        last_slash(s) is None,
    decreases s.len(),
{
    if s.len() > 0 {
        lemma_last_slash_none(s.drop_last());
    }
}

/// What the localised path looks like: a data file that is already absolute
/// is kept; otherwise it is appended to the directory of the descriptor
/// file, and a descriptor without a directory part leaves the data file
/// untouched.
pub open spec fn normalized_path(star_file: Seq<char>, data_file: Seq<char>) -> Seq<char> {
    if data_file.len() > 0 && data_file[0] == '/' {
        data_file
    } else {
        match last_slash(star_file) {
            Some(j) => star_file.take(j) + seq!['/'] + data_file,
            None => data_file,
        }
    }
}

/// Descriptor files name their payload files relative to themselves; this
/// rewrites such a name into a path usable from the process's own working
/// directory.
pub fn normalize_local_data_paths(star_file: &str, data_file: &str) -> (r: String)
    ensures
        r@ == normalized_path(star_file@, data_file@),
{
    let dlen = data_file.unicode_len();
    let data_is_absolute: bool = if dlen > 0 {
        data_file.get_char(0) == '/'
    } else {
        false
    };
    if data_is_absolute {
        return data_file.to_owned();
    }
    let slen = star_file.unicode_len();
    let mut i: usize = slen;
    while i > 0
        invariant
            i <= slen,
            slen == star_file@.len(),
            !(data_file@.len() > 0 && data_file@[0] == '/'),
            forall|j: int| i <= j < slen ==> star_file@[j] != '/',
        decreases i,
    {
        i = i - 1;
        if star_file.get_char(i) == '/' {
            proof {
                lemma_last_slash_at(star_file@, i as int);
            }
            let base = star_file.substring_char(0, i);
            let mut out = base.to_owned();
            out.append("/");
            out.append(data_file);
            proof {
                reveal_strlit("/");
                assert("/"@ =~= seq!['/']);
                assert(out@ =~= star_file@.take(i as int) + seq!['/'] + data_file@);
            }
            return out;
        }
    }
    proof {
        lemma_last_slash_none(star_file@);
    }
    data_file.to_owned()
}

} // verus!
