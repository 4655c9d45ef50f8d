//! Normalisation and comparison of captured output.
use vstd::prelude::*;

verus! {

/// The ASCII whitespace bytes: space, tab, line feed, form feed and carriage return.
pub open spec fn is_space(b: u8) -> bool {
    b == 0x20u8 || b == 0x09u8 || b == 0x0au8 || b == 0x0cu8 || b == 0x0du8
}

/// `s` with each carriage return that directly precedes a line feed removed.
pub open spec fn unify_line_endings(s: Seq<u8>) -> Seq<u8>
    decreases s.len(),
{
    if s.len() == 0 {
        s
    } else if s.len() >= 2 && s[0] == 0x0du8 && s[1] == 0x0au8 {
        unify_line_endings(s.drop_first())
    } else {
        seq![s[0]] + unify_line_endings(s.drop_first())
    }
}

/// `s` without its trailing whitespace.
pub open spec fn trim_end(s: Seq<u8>) -> Seq<u8>
    decreases s.len(),
{
    if s.len() > 0 && is_space(s.last()) {
        trim_end(s.drop_last())
    } else {
        s
    }
}

/// The form in which output is compared: line endings unified, trailing whitespace dropped.
pub open spec fn normalize(s: Seq<u8>) -> Seq<u8> {
    trim_end(unify_line_endings(s))
}

/// Whether the captured output `actual` counts as the expected output `expected`.
pub open spec fn outputs_match(expected: Seq<u8>, actual: Seq<u8>) -> bool {
    normalize(expected) == normalize(actual)
}

pub fn is_space_byte(b: u8) -> (r: bool)
    ensures
        r == is_space(b),
{
    b == 0x20u8 || b == 0x09u8 || b == 0x0au8 || b == 0x0cu8 || b == 0x0du8
}

/// Returns `s` in the form in which output is compared.
pub fn normalize_output(s: &[u8]) -> (r: Vec<u8>)
    ensures
        r@ == normalize(s@),
{
    let n = s.len();
    let mut out: Vec<u8> = Vec::new();
    let mut i: usize = 0;
    assert(s@.subrange(0, n as int) =~= s@);
    assert(out@ + unify_line_endings(s@) =~= unify_line_endings(s@));
    while i < n
        invariant
            n == s@.len(),
            i <= n,
            out@ + unify_line_endings(s@.subrange(i as int, n as int)) == unify_line_endings(s@),
        decreases n - i,
    {
        let ghost rest = s@.subrange(i as int, n as int);
        assert(rest.drop_first() =~= s@.subrange(i + 1, n as int));
        let ghost before = out@;
        if i + 1 < n && s[i] == 0x0du8 && s[i + 1] == 0x0au8 {
        } else {
            out.push(s[i]);
            assert(out@ + unify_line_endings(rest.drop_first()) =~= before + (seq![s[i as int]]
                + unify_line_endings(rest.drop_first())));
        }
        i = i + 1;
    }
    assert(s@.subrange(n as int, n as int) =~= Seq::<u8>::empty());
    assert(out@ + Seq::<u8>::empty() =~= out@);
    while out.len() > 0 && is_space_byte(out[out.len() - 1])
        invariant
            trim_end(out@) == normalize(s@),
        decreases out.len(),
    {
        out.pop();
    }
    out
}

/// Whether two byte strings are equal.
pub fn bytes_equal(a: &[u8], b: &[u8]) -> (r: bool)
    ensures
        r == (a@ == b@),
{
    if a.len() != b.len() {
        return false;
    }
    let mut i: usize = 0;
    while i < a.len()
        invariant
            a@.len() == b@.len(),
            i <= a@.len(),
            forall|j: int| 0 <= j < i ==> a@[j] == b@[j],
        decreases a@.len() - i,
    {
        if a[i] != b[i] {
            return false;
        }
        i = i + 1;
    }
    assert(a@ =~= b@);
    true
}

/// Whether the captured output `actual` counts as the expected output `expected`.
pub fn output_matches(expected: &[u8], actual: &[u8]) -> (r: bool)
    ensures
        r == outputs_match(expected@, actual@),
{
    let e = normalize_output(expected);
    let a = normalize_output(actual);
    bytes_equal(e.as_slice(), a.as_slice())
}

} // verus!
