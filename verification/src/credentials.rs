//! The credential record: a bounded network name and secret, and the
//! trimming that strips quote, null and whitespace padding from both
//! ends of a stored value.
use vstd::prelude::*;

verus! {

/// Maximum byte length of a network name.
pub const MAX_NAME_LEN: usize = 32;

/// Maximum byte length of a secret.
pub const MAX_SECRET_LEN: usize = 64;

/// Padding bytes that are stripped from both ends of a value: the null
/// terminator, the double quote, and ASCII whitespace.
pub open spec fn is_pad(b: u8) -> bool {
    b == 0u8 || b == 34u8 || b == 32u8 || b == 9u8 || b == 10u8 || b == 13u8
}

/// The value with all leading and trailing padding bytes removed.
pub open spec fn trim_spec(s: Seq<u8>) -> Seq<u8>
    decreases s.len(),
{
    if s.len() == 0 {
        s
    } else if is_pad(s[0]) {
        trim_spec(s.subrange(1, s.len() as int))
    } else if is_pad(s[s.len() - 1]) {
        trim_spec(s.subrange(0, s.len() - 1))
    } else {
        s
    }
}

/// A value carries no padding at either end.
pub open spec fn is_trimmed(s: Seq<u8>) -> bool {
    s.len() == 0 || (!is_pad(s[0]) && !is_pad(s[s.len() - 1]))
}

/// Trimming never grows a value and always yields a trimmed value.
pub proof fn lemma_trim_spec_trimmed(s: Seq<u8>)
    ensures
        is_trimmed(trim_spec(s)),
        trim_spec(s).len() <= s.len(),
    decreases s.len(),
{
    if s.len() == 0 {
    } else if is_pad(s[0]) {
        lemma_trim_spec_trimmed(s.subrange(1, s.len() as int));
    } else if is_pad(s[s.len() - 1]) {
        lemma_trim_spec_trimmed(s.subrange(0, s.len() - 1));
    }
}

/// A trimmed value is unchanged by trimming; hence trimming is
/// idempotent.
pub proof fn lemma_trim_spec_of_trimmed(s: Seq<u8>)
    requires
        is_trimmed(s),
    ensures
        trim_spec(s) == s,
{
}

/// Trimming twice is the same as trimming once.
pub proof fn lemma_trim_spec_idempotent(s: Seq<u8>)
    ensures
        trim_spec(trim_spec(s)) == trim_spec(s),
{
    lemma_trim_spec_trimmed(s);
    lemma_trim_spec_of_trimmed(trim_spec(s));
}

/// When everything before `lo` and everything from `hi` on is padding,
/// and the bytes at `lo` and `hi - 1` are not, the trimmed value is
/// exactly the slice between `lo` and `hi`.
proof fn lemma_trim_spec_subrange(s: Seq<u8>, lo: int, hi: int)
    requires
        0 <= lo <= hi <= s.len(),
        forall|j: int| 0 <= j < lo ==> is_pad(s[j]),
        forall|j: int| hi <= j < s.len() ==> is_pad(s[j]),
        lo < hi ==> !is_pad(s[lo]) && !is_pad(s[hi - 1]),
    ensures
        trim_spec(s) == s.subrange(lo, hi),
    decreases s.len(),
{
    if s.len() == 0 {
        assert(s.subrange(lo, hi) =~= s);
    } else if is_pad(s[0]) {
        let s1 = s.subrange(1, s.len() as int);
        if lo > 0 {
            lemma_trim_spec_subrange(s1, lo - 1, hi - 1);
            assert(s1.subrange(lo - 1, hi - 1) =~= s.subrange(lo, hi));
        } else {
            // `lo == 0` with a padding first byte forces `lo == hi`, so
            // every byte of `s` is padding and the trim is empty.
            assert(lo == hi);
            lemma_trim_spec_subrange(s1, 0, 0);
            assert(s1.subrange(0, 0) =~= s.subrange(lo, hi));
        }
    } else if is_pad(s[s.len() - 1]) {
        let s2 = s.subrange(0, s.len() - 1);
        assert(lo == 0);
        assert(lo < hi);
        assert(hi <= s.len() - 1);
        lemma_trim_spec_subrange(s2, lo, hi);
        assert(s2.subrange(lo, hi) =~= s.subrange(lo, hi));
    } else {
        assert(lo == 0);
        assert(hi == s.len());
        assert(s.subrange(lo, hi) =~= s);
    }
}

/// Whether a byte is padding; the executable twin of [`is_pad`].
pub fn is_pad_byte(b: u8) -> (r: bool)
    ensures
        r == is_pad(b),
{
    b == 0 || b == 34 || b == 32 || b == 9 || b == 10 || b == 13
}

/// Strips leading and trailing padding bytes from a value.
pub fn trim(v: &Vec<u8>) -> (r: Vec<u8>)
    ensures
        r@ == trim_spec(v@),
{
    let mut lo: usize = 0;
    loop
        invariant
            lo <= v.len(),
            forall|j: int| 0 <= j < lo ==> is_pad(v@[j]),
        ensures
            lo <= v.len(),
            forall|j: int| 0 <= j < lo ==> is_pad(v@[j]),
            lo == v.len() || !is_pad(v@[lo as int]),
        decreases v.len() - lo,
    {
        if lo < v.len() && is_pad_byte(v[lo]) {
            lo = lo + 1;
        } else {
            break;
        }
    }
    let mut hi: usize = v.len();
    loop
        invariant
            lo <= hi <= v.len(),
            forall|j: int| hi <= j < v@.len() ==> is_pad(v@[j]),
        ensures
            lo <= hi <= v.len(),
            forall|j: int| hi <= j < v@.len() ==> is_pad(v@[j]),
            hi == lo || !is_pad(v@[hi - 1]),
        decreases hi,
    {
        if hi > lo && is_pad_byte(v[hi - 1]) {
            hi = hi - 1;
        } else {
            break;
        }
    }
    let mut r: Vec<u8> = Vec::new();
    let mut i: usize = lo;
    while i < hi
        invariant
            lo <= i <= hi <= v.len(),
            r@ == v@.subrange(lo as int, i as int),
        decreases hi - i,
    {
        r.push(v[i]);
        proof {
            assert(r@ =~= v@.subrange(lo as int, i + 1));
        }
        i = i + 1;
    }
    proof {
        lemma_trim_spec_subrange(v@, lo as int, hi as int);
    }
    r
}

/// A (network name, secret) pair. Both fields are byte strings bounded
/// at write time; values read back from the store are additionally
/// trimmed of padding.
pub struct Credentials {
    pub name: Vec<u8>,
    pub secret: Vec<u8>,
}

impl Credentials {
    /// Both fields fit their maximum length.
    pub open spec fn wf(&self) -> bool {
        self.name@.len() <= MAX_NAME_LEN && self.secret@.len() <= MAX_SECRET_LEN
    }

    pub fn new(name: Vec<u8>, secret: Vec<u8>) -> (r: Credentials)
        ensures
            r.name@ == name@,
            r.secret@ == secret@,
    {
        Credentials { name, secret }
    }
}

} // verus!
