use vstd::prelude::*;
use vstd::string::StrSliceExecFns;

verus! {

/// The characters of `s` with every line feed and carriage return removed,
/// in their original order.
pub open spec fn spec_strip_newlines(s: Seq<char>) -> Seq<char>
    decreases s.len(),
{
    if s.len() == 0 {
        Seq::<char>::empty()
    } else {
        let rest = spec_strip_newlines(s.drop_last());
        if s.last() == '\n' || s.last() == '\r' {
            rest
        } else {
            rest.push(s.last())
        }
    }
}

/// True when `s` ends with `suffix`.
pub open spec fn spec_ends_with(s: Seq<char>, suffix: Seq<char>) -> bool {
    s.len() >= suffix.len() && s.subrange(s.len() - suffix.len(), s.len() as int) == suffix
}

/// The final path segment of `s`: everything after the last `/`, or all of
/// `s` when it holds no `/`.
pub open spec fn spec_basename(s: Seq<char>) -> Seq<char>
    decreases s.len(),
{
    if s.len() == 0 {
        Seq::<char>::empty()
    } else if s.last() == '/' {
        Seq::<char>::empty()
    } else {
        spec_basename(s.drop_last()).push(s.last())
    }
}

/// Stripping line breaks distributes over concatenation: the payload of a
/// wrapped transfer is the concatenation of its parts' payloads.
pub proof fn lemma_strip_newlines_append(a: Seq<char>, b: Seq<char>)
    ensures
        spec_strip_newlines(a + b) == spec_strip_newlines(a) + spec_strip_newlines(b),
    decreases b.len(),
{
    if b.len() == 0 {
        assert(a + b =~= a);
        assert(spec_strip_newlines(a) + spec_strip_newlines(b) =~= spec_strip_newlines(a));
    } else {
        lemma_strip_newlines_append(a, b.drop_last());
        assert((a + b).drop_last() =~= a + b.drop_last());
        assert((a + b).last() == b.last());
        if !(b.last() == '\n' || b.last() == '\r') {
            assert(spec_strip_newlines(a) + spec_strip_newlines(b.drop_last()).push(b.last())
                =~= (spec_strip_newlines(a) + spec_strip_newlines(b.drop_last())).push(b.last()));
        }
    }
}

/// A text that holds no line break is its own payload: stripping leaves it
/// unchanged.
pub proof fn lemma_strip_newlines_no_breaks(s: Seq<char>)
    requires
        forall|i: int| 0 <= i < s.len() ==> s[i] != '\n' && s[i] != '\r',
    ensures
        spec_strip_newlines(s) == s,
    decreases s.len(),
{
    if s.len() > 0 {
        lemma_strip_newlines_no_breaks(s.drop_last());
        assert(s.drop_last().push(s.last()) =~= s);
    }
}

/// Relies on `String::push`: it appends exactly the one character `c` at
/// the end of the string.
#[verifier::external_body]
fn push_char(s: &mut String, c: char)
    ensures
        final(s)@ == old(s)@.push(c),
{
    s.push(c);
}

/// Copy of `s` with `\n` and `\r` removed: the remote may wrap a base64
/// payload across fixed-width lines, and those breaks are not part of the
/// encoded data.
pub fn strip_newlines(s: &str) -> (r: String)
    ensures
        r@ == spec_strip_newlines(s@),
{
    let n: usize = s.unicode_len();
    let mut r = String::new();
    let mut i: usize = 0;
    while i < n
        invariant
            n == s@.len(),
            i <= n,
            r@ == spec_strip_newlines(s@.take(i as int)),
        decreases n - i,
    {
        let c = s.get_char(i);
        proof {
            assert(s@.take(i + 1).drop_last() =~= s@.take(i as int));
            assert(s@.take(i + 1).last() == s@[i as int]);
        }
        if c != '\n' && c != '\r' {
            push_char(&mut r, c);
        }
        i = i + 1;
    }
    proof {
        assert(s@.take(n as int) =~= s@);
    }
    r
}

/// True when `s` ends with `suffix`, compared character by character.
pub fn str_ends_with(s: &str, suffix: &str) -> (r: bool)
    ensures
        r == spec_ends_with(s@, suffix@),
{
    let n: usize = s.unicode_len();
    let m: usize = suffix.unicode_len();
    if m > n {
        return false;
    }
    let mut i: usize = 0;
    while i < m
        invariant
            n == s@.len(),
            m == suffix@.len(),
            m <= n,
            i <= m,
            forall|j: int| 0 <= j < i ==> s@[n - m + j] == suffix@[j],
        decreases m - i,
    {
        if s.get_char(n - m + i) != suffix.get_char(i) {
            proof {
                assert(!spec_ends_with(s@, suffix@)) by {
                    if spec_ends_with(s@, suffix@) {
                        assert(s@.subrange(n - m, n as int)[i as int] == suffix@[i as int]);
                    }
                }
            }
            return false;
        }
        i = i + 1;
    }
    proof {
        assert(s@.subrange(n - m, n as int) =~= suffix@);
    }
    true
}

/// When every character of `s` from position `k` on differs from `/` and
/// `k` sits just after a `/` (or at the start), the basename of `s` is the
/// tail of `s` from `k`.
proof fn lemma_basename_is_tail(s: Seq<char>, k: int)
    requires
        0 <= k <= s.len(),
        forall|i: int| k <= i < s.len() ==> s[i] != '/',
        k == 0 || s[k - 1] == '/',
    ensures
        spec_basename(s) == s.subrange(k, s.len() as int),
    decreases s.len(),
{
    if k == s.len() {
        assert(s.subrange(k, s.len() as int) =~= Seq::<char>::empty());
    } else {
        let s0 = s.drop_last();
        assert(s.last() != '/');
        lemma_basename_is_tail(s0, k);
        assert(s0.subrange(k, s0.len() as int).push(s.last()) =~= s.subrange(k, s.len() as int));
    }
}

/// The final path segment of `path`: everything after its last `/`.
pub fn basename(path: &str) -> (r: String)
    ensures
        r@ == spec_basename(path@),
{
    let n: usize = path.unicode_len();
    let mut start: usize = 0;
    let mut i: usize = 0;
    while i < n
        invariant
            n == path@.len(),
            i <= n,
            start <= i,
            start == 0 || path@[start - 1] == '/',
            forall|j: int| start <= j < i ==> path@[j] != '/',
        decreases n - i,
    {
        if path.get_char(i) == '/' {
            start = i + 1;
        }
        i = i + 1;
    }
    let tail = path.substring_char(start, n);
    proof {
        lemma_basename_is_tail(path@, start as int);
    }
    tail.to_owned()
}

} // verus!
