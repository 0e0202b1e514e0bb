//! Whitespace and trimming of the text fields that callers send.

use vstd::prelude::*;
use vstd::std_specs::iter::IteratorSpec;
use vstd::string::*;

verus! {

/// The characters that carry the Unicode property `White_Space`.
pub open spec fn is_space(c: char) -> bool {
    let u = c as u32;
    ||| 0x09 <= u <= 0x0D
    ||| u == 0x20
    ||| u == 0x85
    ||| u == 0xA0
    ||| u == 0x1680
    ||| 0x2000 <= u <= 0x200A
    ||| u == 0x2028
    ||| u == 0x2029
    ||| u == 0x202F
    ||| u == 0x205F
    ||| u == 0x3000
}

/// `s` without the whitespace it begins with.
pub open spec fn skip_leading(s: Seq<char>) -> Seq<char>
    decreases s.len(),
{
    if s.len() > 0 && is_space(s.first()) {
        skip_leading(s.drop_first())
    } else {
        s
    }
}

/// `s` without the whitespace it ends with.
pub open spec fn skip_trailing(s: Seq<char>) -> Seq<char>
    decreases s.len(),
{
    if s.len() > 0 && is_space(s.last()) {
        skip_trailing(s.drop_last())
    } else {
        s
    }
}

/// `s` without the whitespace at either end.
pub open spec fn trimmed(s: Seq<char>) -> Seq<char> {
    skip_trailing(skip_leading(s))
}

/// A text is blank when nothing is left of it after trimming.
pub open spec fn is_blank(s: Seq<char>) -> bool {
    trimmed(s).len() == 0
}

/// Whether every character of `s` is whitespace.
pub open spec fn all_spaces(s: Seq<char>) -> bool {
    forall|i: int| 0 <= i < s.len() ==> is_space(#[trigger] s[i])
}

/// Skipping leading whitespace that ends at `a` leaves the rest of the text.
pub proof fn skip_leading_window(s: Seq<char>, a: int)
    requires
        0 <= a <= s.len(),
        all_spaces(s.subrange(0, a)),
        a < s.len() ==> !is_space(s[a]),
    ensures
        skip_leading(s) == s.subrange(a, s.len() as int),
    decreases a,
{
    if a == 0 {
        assert(s.subrange(0, s.len() as int) =~= s);
    } else {
        assert(s.subrange(0, a)[0] == s[0]);
        let rest = s.drop_first();
        assert forall|i: int| 0 <= i < a - 1 implies is_space(
            #[trigger] rest.subrange(0, a - 1)[i],
        ) by {
            assert(rest.subrange(0, a - 1)[i] == s.subrange(0, a)[i + 1]);
        }
        skip_leading_window(rest, a - 1);
        assert(rest.subrange(a - 1, rest.len() as int) =~= s.subrange(a, s.len() as int));
    }
}

/// Skipping trailing whitespace that begins at `b` leaves the text before it.
pub proof fn skip_trailing_window(s: Seq<char>, b: int)
    requires
        0 <= b <= s.len(),
        all_spaces(s.subrange(b, s.len() as int)),
        b > 0 ==> !is_space(s[b - 1]),
    ensures
        skip_trailing(s) == s.subrange(0, b),
    decreases s.len() - b,
{
    if b == s.len() {
        assert(s.subrange(0, b) =~= s);
    } else {
        let n = s.len() as int;
        assert(s.subrange(b, n)[n - 1 - b] == s[n - 1]);
        let rest = s.drop_last();
        assert forall|i: int| 0 <= i < n - 1 - b implies is_space(
            #[trigger] rest.subrange(b, n - 1)[i],
        ) by {
            assert(rest.subrange(b, n - 1)[i] == s.subrange(b, n)[i]);
        }
        skip_trailing_window(rest, b);
        assert(rest.subrange(0, b) =~= s.subrange(0, b));
    }
}

/// Trimming keeps exactly the characters from the first to the last one that
/// is not whitespace.
pub proof fn trimmed_window(s: Seq<char>, a: int, b: int)
    requires
        0 <= a < b <= s.len(),
        all_spaces(s.subrange(0, a)),
        all_spaces(s.subrange(b, s.len() as int)),
        !is_space(s[a]),
        !is_space(s[b - 1]),
    ensures
        trimmed(s) == s.subrange(a, b),
{
    let n = s.len() as int;
    skip_leading_window(s, a);
    let t = s.subrange(a, n);
    assert forall|i: int| 0 <= i < n - b implies is_space(
        #[trigger] t.subrange(b - a, n - a)[i],
    ) by {
        assert(t.subrange(b - a, n - a)[i] == s.subrange(b, n)[i]);
    }
    skip_trailing_window(t, b - a);
    assert(t.subrange(0, b - a) =~= s.subrange(a, b));
}

/// A text of whitespace alone trims to nothing.
pub proof fn trimmed_of_spaces(s: Seq<char>)
    requires
        all_spaces(s),
    ensures
        trimmed(s) == Seq::<char>::empty(),
{
    assert(s.subrange(0, s.len() as int) =~= s);
    skip_leading_window(s, s.len() as int);
    assert(s.subrange(s.len() as int, s.len() as int) =~= Seq::<char>::empty());
}

/// A text that neither begins nor ends with whitespace is its own trimming.
pub proof fn trimmed_of_tight(s: Seq<char>)
    requires
        s.len() > 0 ==> !is_space(s.first()) && !is_space(s.last()),
    ensures
        trimmed(s) == s,
{
}

/// Whether `c` is whitespace.
pub fn is_whitespace(c: char) -> (space: bool)
    ensures
        space == is_space(c),
{
    let u: u32 = c as u32;
    (0x09 <= u && u <= 0x0D) || u == 0x20 || u == 0x85 || u == 0xA0 || u == 0x1680 || (0x2000 <= u
        && u <= 0x200A) || u == 0x2028 || u == 0x2029 || u == 0x202F || u == 0x205F || u == 0x3000
}

/// `s` without the whitespace at either end, found in one pass over `s`.
pub fn trim(s: &str) -> (t: &str)
    ensures
        t@ == trimmed(s@),
{
    broadcast use group_string_axioms;

    let n: usize = s.unicode_len();
    let mut chars = s.chars();
    let mut i: usize = 0;
    let mut start: usize = 0;
    let mut end: usize = 0;
    while i < n
        invariant
            n == s@.len(),
            i <= n,
            chars.remaining() == s@.subrange(i as int, n as int),
            chars.obeys_prophetic_iter_laws(),
            start <= end <= i,
            end == 0 ==> start == 0 && all_spaces(s@.subrange(0, i as int)),
            end > 0 ==> {
                &&& start < end
                &&& all_spaces(s@.subrange(0, start as int))
                &&& !is_space(s@[start as int])
                &&& !is_space(s@[end - 1])
                &&& all_spaces(s@.subrange(end as int, i as int))
            },
        decreases n - i,
    {
        let ghost before = s@.subrange(i as int, n as int);
        let next = chars.next();
        assert(next == Some(before[0]));
        assert(before[0] == s@[i as int]);
        assert(before.drop_first() =~= s@.subrange(i + 1, n as int));
        let c = next.unwrap();
        if is_whitespace(c) {
            proof {
                if end == 0 {
                    assert forall|j: int| 0 <= j < i + 1 implies is_space(
                        #[trigger] s@.subrange(0, i + 1)[j],
                    ) by {
                        if j < i {
                            assert(s@.subrange(0, i as int)[j] == s@[j]);
                        }
                    }
                } else {
                    assert forall|j: int| 0 <= j < i + 1 - end implies is_space(
                        #[trigger] s@.subrange(end as int, i + 1)[j],
                    ) by {
                        if j < i - end {
                            assert(s@.subrange(end as int, i as int)[j] == s@[end + j]);
                        }
                    }
                }
            }
        } else {
            if end == 0 {
                start = i;
            }
            end = i + 1;
            assert(s@.subrange(end as int, i + 1) =~= Seq::<char>::empty());
        }
        i += 1;
    }
    proof {
        if end == 0 {
            assert(s@.subrange(0, n as int) =~= s@);
            trimmed_of_spaces(s@);
            assert(s@.subrange(0, 0) =~= Seq::<char>::empty());
        } else {
            trimmed_window(s@, start as int, end as int);
        }
    }
    s.substring_char(start, end)
}

/// Whether nothing is left of `s` after trimming.
pub fn blank(s: &str) -> (nothing: bool)
    ensures
        nothing == is_blank(s@),
{
    trim(s).unicode_len() == 0
}

/// Whether `a` and `b` are the same text, found by comparing their bytes.
pub fn same(a: &str, b: &str) -> (equal: bool)
    ensures
        equal == (a@ == b@),
{
    let x = a.as_bytes();
    let y = b.as_bytes();
    proof {
        vstd::utf8::encode_utf8_decode_utf8(a@);
        vstd::utf8::encode_utf8_decode_utf8(b@);
    }
    if x.len() != y.len() {
        return false;
    }
    let n: usize = x.len();
    let mut i: usize = 0;
    while i < n
        invariant
            i <= n,
            n == x@.len(),
            n == y@.len(),
            x@ == vstd::utf8::encode_utf8(a@),
            y@ == vstd::utf8::encode_utf8(b@),
            forall|j: int| 0 <= j < i ==> x@[j] == y@[j],
        decreases n - i,
    {
        if x[i] != y[i] {
            return false;
        }
        i += 1;
    }
    assert(x@ =~= y@);
    true
}

} // verus!
