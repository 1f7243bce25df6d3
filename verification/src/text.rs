//! Character-level helpers on strings: blank checks, prefix and substring
//! tests, as the request handlers need them.
use vstd::prelude::*;

verus! {

/// Unicode `White_Space` property, the set that `char::is_whitespace` and
/// `str::trim` use.
pub open spec fn is_white_space_char(c: char) -> bool {
    let n = c as u32;
    ||| 0x09 <= n <= 0x0D
    ||| n == 0x20
    ||| n == 0x85
    ||| n == 0xA0
    ||| n == 0x1680
    ||| 0x2000 <= n <= 0x200A
    ||| n == 0x2028
    ||| n == 0x2029
    ||| n == 0x202F
    ||| n == 0x205F
    ||| n == 0x3000
}

/// A text is blank when trimming it leaves nothing: every character is white space.
pub open spec fn is_blank_spec(s: Seq<char>) -> bool {
    forall|i: int| 0 <= i < s.len() ==> is_white_space_char(#[trigger] s[i])
}

/// `prefix` is the beginning of `s`.
pub open spec fn starts_with_spec(s: Seq<char>, prefix: Seq<char>) -> bool {
    prefix.len() <= s.len() && s.subrange(0, prefix.len() as int) == prefix
}

/// `needle` occurs somewhere in `s`.
pub open spec fn contains_spec(s: Seq<char>, needle: Seq<char>) -> bool {
    exists|i: int|
        0 <= i && i + needle.len() <= s.len() && #[trigger] s.subrange(i, i + needle.len()) == needle
}

/// Whether `c` is white space.
pub fn is_white_space(c: char) -> (b: bool)
    ensures
        b == is_white_space_char(c),
{
    let n = c as u32;
    (0x09 <= n && n <= 0x0D) || n == 0x20 || n == 0x85 || n == 0xA0 || n == 0x1680 || (0x2000
        <= n && n <= 0x200A) || n == 0x2028 || n == 0x2029 || n == 0x202F || n == 0x205F || n
        == 0x3000
}

/// The characters of `s`, in order.
pub fn chars_of(s: &str) -> (v: Vec<char>)
    ensures
        v@ == s@,
{
    let mut v: Vec<char> = Vec::new();
    for c in it: s.chars()
        invariant
            it.seq() == s@,
            v@ == it.seq().subrange(0, it.index() as int),
    {
        v.push(c);
    }
    v
}

/// Whether `s` is empty after trimming white space at both ends.
pub fn is_blank(s: &str) -> (b: bool)
    ensures
        b == is_blank_spec(s@),
{
    let cs = chars_of(s);
    let mut i: usize = 0;
    while i < cs.len()
        invariant
            i <= cs@.len(),
            cs@ == s@,
            forall|j: int| 0 <= j < i ==> is_white_space_char(#[trigger] cs@[j]),
        decreases cs@.len() - i,
    {
        if !is_white_space(cs[i]) {
            return false;
        }
        i = i + 1;
    }
    true
}

fn matches_at(s: &Vec<char>, needle: &Vec<char>, at: usize) -> (b: bool)
    requires
        at + needle@.len() <= s@.len(),
    ensures
        b == (s@.subrange(at as int, at + needle@.len()) == needle@),
{
    let mut k: usize = 0;
    let ghost slen = s@.len();
    assert(slen == s.len());
    while k < needle.len()
        invariant
            k <= needle@.len(),
            slen == s@.len(),
            slen <= usize::MAX,
            at + needle@.len() <= s@.len(),
            forall|j: int| 0 <= j < k ==> s@[at + j] == needle@[j],
        decreases needle@.len() - k,
    {
        if s[at + k] != needle[k] {
            assert(s@.subrange(at as int, at + needle@.len())[k as int] != needle@[k as int]);
            return false;
        }
        k = k + 1;
    }
    assert(s@.subrange(at as int, at + needle@.len()) =~= needle@);
    true
}

/// Whether `s` begins with `prefix`.
pub fn starts_with(s: &str, prefix: &str) -> (b: bool)
    ensures
        b == starts_with_spec(s@, prefix@),
{
    let cs = chars_of(s);
    let ps = chars_of(prefix);
    if ps.len() > cs.len() {
        return false;
    }
    matches_at(&cs, &ps, 0)
}

/// Whether `needle` occurs in `s`.
pub fn contains(s: &str, needle: &str) -> (b: bool)
    ensures
        b == contains_spec(s@, needle@),
{
    let cs = chars_of(s);
    let ns = chars_of(needle);
    if ns.len() > cs.len() {
        return false;
    }
    if ns.len() == 0 {
        assert(s@.subrange(0, 0int + needle@.len()) =~= needle@);
        return true;
    }
    let last = cs.len() - ns.len();
    let mut i: usize = 0;
    while i <= last
        invariant
            last + ns@.len() == cs@.len(),
            ns@.len() >= 1,
            last < cs@.len() <= usize::MAX,
            cs@ == s@,
            ns@ == needle@,
            forall|j: int|
                0 <= j < i && j <= last ==> #[trigger] cs@.subrange(j, j + ns@.len()) != ns@,
        decreases last + 1 - i,
    {
        if matches_at(&cs, &ns, i) {
            assert(s@.subrange(i as int, i + needle@.len()) == needle@);
            return true;
        }
        i = i + 1;
    }
    false
}

} // verus!
