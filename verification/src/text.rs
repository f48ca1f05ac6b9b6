//! Verified text helpers the request layer is built on: character-exact
//! string equality, whitespace trimming, splitting on a separator,
//! order-keeping deduplication, and decimal rendering of port numbers.
use vstd::prelude::*;
use vstd::string::*;

verus! {

/// The whitespace characters trimming removes from either end of a
/// segment: space, tab, line feed, carriage return.
pub open spec fn is_space(c: char) -> bool {
    c == ' ' || c == '\t' || c == '\n' || c == '\r'
}

/// How many whitespace characters the sequence starts with.
pub open spec fn leading_spaces(s: Seq<char>) -> int
    decreases s.len(),
{
    if s.len() == 0 {
        0
    } else if !is_space(s[0]) {
        0
    } else {
        1 + leading_spaces(s.drop_first())
    }
}

/// How many whitespace characters the sequence ends with.
pub open spec fn trailing_spaces(s: Seq<char>) -> int
    decreases s.len(),
{
    if s.len() == 0 {
        0
    } else if !is_space(s.last()) {
        0
    } else {
        1 + trailing_spaces(s.drop_last())
    }
}

/// The sequence with leading and trailing whitespace removed.
pub open spec fn trim_spec(s: Seq<char>) -> Seq<char> {
    if leading_spaces(s) == s.len() {
        Seq::empty()
    } else {
        s.subrange(leading_spaces(s), s.len() - trailing_spaces(s))
    }
}

/// `leading_spaces` is the unique boundary: everything before it is
/// whitespace and the character at it (if any) is not.
proof fn lemma_leading_spaces_at(s: Seq<char>, i: int)
    requires
        0 <= i <= s.len(),
        forall|j: int| 0 <= j < i ==> is_space(s[j]),
        i == s.len() || !is_space(s[i]),
    ensures
        leading_spaces(s) == i,
    decreases s.len(),
{
    if s.len() == 0 {
    } else if i == 0 {
    } else {
        assert(is_space(s[0]));
        lemma_leading_spaces_at(s.drop_first(), i - 1);
    }
}

/// `trailing_spaces` counts from the unique boundary `e`: everything from
/// `e` on is whitespace and the character before it (if any) is not.
proof fn lemma_trailing_spaces_at(s: Seq<char>, e: int)
    requires
        0 <= e <= s.len(),
        forall|j: int| e <= j < s.len() ==> is_space(s[j]),
        e == 0 || !is_space(s[e - 1]),
    ensures
        trailing_spaces(s) == s.len() - e,
    decreases s.len(),
{
    if s.len() == 0 {
    } else if e == s.len() {
        assert(s.last() == s[e - 1]);
    } else {
        assert(is_space(s.last()));
        lemma_trailing_spaces_at(s.drop_last(), e);
    }
}

/// Whether the character is one the trimming removes.
pub fn is_space_char(c: char) -> (r: bool)
    ensures
        r == is_space(c),
{
    c == ' ' || c == '\t' || c == '\n' || c == '\r'
}

/// Character-exact equality of two string slices.
pub fn str_eq(a: &str, b: &str) -> (r: bool)
    ensures
        r == (a@ == b@),
{
    let na = a.unicode_len();
    let nb = b.unicode_len();
    if na != nb {
        return false;
    }
    let mut i: usize = 0;
    while i < na
        invariant
            0 <= i <= na,
            na == a@.len(),
            na == b@.len(),
            forall|j: int| 0 <= j < i ==> a@[j] == b@[j],
        decreases na - i,
    {
        if a.get_char(i) != b.get_char(i) {
            return false;
        }
        i += 1;
    }
    proof {
        assert(a@ =~= b@);
    }
    true
}

/// The slice with whitespace removed from both ends, as an owned string.
pub fn trim_str(s: &str) -> (r: String)
    ensures
        r@ == trim_spec(s@),
{
    let n = s.unicode_len();
    let mut lo: usize = 0;
    while lo < n && is_space_char(s.get_char(lo))
        invariant
            0 <= lo <= n,
            n == s@.len(),
            forall|j: int| 0 <= j < lo ==> is_space(s@[j]),
        decreases n - lo,
    {
        lo += 1;
    }
    proof {
        lemma_leading_spaces_at(s@, lo as int);
    }
    if lo == n {
        String::new()
    } else {
        let mut hi: usize = n;
        while lo < hi && is_space_char(s.get_char(hi - 1))
            invariant
                lo <= hi <= n,
                n == s@.len(),
                lo < n,
                !is_space(s@[lo as int]),
                forall|j: int| hi <= j < n ==> is_space(s@[j]),
            decreases hi,
        {
            hi -= 1;
        }
        assert(lo < hi);
        proof {
            lemma_trailing_spaces_at(s@, hi as int);
        }
        let part = s.substring_char(lo, hi);
        part.to_owned()
    }
}

/// The segments of `s` between occurrences of `sep`; an empty input is
/// one empty segment, and every separator adds one segment.
pub open spec fn split_on(s: Seq<char>, sep: char) -> Seq<Seq<char>>
    decreases s.len(),
{
    if s.len() == 0 {
        seq![Seq::<char>::empty()]
    } else if s[0] == sep {
        seq![Seq::<char>::empty()] + split_on(s.drop_first(), sep)
    } else {
        let rest = split_on(s.drop_first(), sep);
        rest.update(0, seq![s[0]] + rest[0])
    }
}

/// A split always has at least one segment.
pub proof fn lemma_split_on_len(s: Seq<char>, sep: char)
    ensures
        split_on(s, sep).len() >= 1,
    decreases s.len(),
{
    if s.len() == 0 {
    } else {
        lemma_split_on_len(s.drop_first(), sep);
    }
}

/// How one more character extends a split: a separator opens a fresh
/// empty segment, any other character lands at the end of the last one.
pub proof fn lemma_split_on_push(s: Seq<char>, sep: char, c: char)
    ensures
        c == sep ==> split_on(s.push(c), sep) == split_on(s, sep).push(Seq::<char>::empty()),
        c != sep ==> split_on(s.push(c), sep) == split_on(s, sep).update(
            split_on(s, sep).len() - 1,
            split_on(s, sep).last().push(c),
        ),
    decreases s.len(),
{
    lemma_split_on_len(s, sep);
    let t = s.push(c);
    if s.len() == 0 {
        assert(t =~= seq![c]);
        assert(t.drop_first() =~= Seq::<char>::empty());
        reveal_with_fuel(split_on, 3);
        if c == sep {
            assert(split_on(t, sep) =~~= split_on(s, sep).push(Seq::<char>::empty()));
        } else {
            assert(split_on(t, sep) =~~= split_on(s, sep).update(0, seq![c]));
            assert(split_on(s, sep).last().push(c) =~= seq![c]);
        }
    } else {
        assert(t[0] == s[0]);
        assert(t.drop_first() =~= s.drop_first().push(c));
        lemma_split_on_push(s.drop_first(), sep, c);
        lemma_split_on_len(s.drop_first(), sep);
        let sd = split_on(s.drop_first(), sep);
        if s[0] == sep {
            if c == sep {
                assert(split_on(t, sep) =~~= split_on(s, sep).push(Seq::<char>::empty()));
            } else {
                assert(split_on(t, sep) =~~= split_on(s, sep).update(
                    split_on(s, sep).len() - 1,
                    split_on(s, sep).last().push(c),
                ));
            }
        } else {
            if c == sep {
                assert(split_on(t, sep) =~~= split_on(s, sep).push(Seq::<char>::empty()));
            } else {
                if sd.len() == 1 {
                    assert(seq![s[0]] + sd.last().push(c) =~= (seq![s[0]] + sd[0]).push(c));
                    assert(split_on(t, sep) =~~= split_on(s, sep).update(
                        split_on(s, sep).len() - 1,
                        split_on(s, sep).last().push(c),
                    ));
                } else {
                    assert(split_on(t, sep) =~~= split_on(s, sep).update(
                        split_on(s, sep).len() - 1,
                        split_on(s, sep).last().push(c),
                    ));
                }
            }
        }
    }
}

/// The segments of `s` between occurrences of `sep`, in order, as owned
/// strings.
pub fn split_char(s: &str, sep: char) -> (parts: Vec<String>)
    ensures
        parts@.map_values(|p: String| p@) == split_on(s@, sep),
{
    let n = s.unicode_len();
    let mut parts: Vec<String> = Vec::new();
    let mut start: usize = 0;
    let mut i: usize = 0;
    proof {
        assert(split_on(s@.subrange(0, 0), sep) =~~= parts@.map_values(|p: String| p@).push(
            s@.subrange(0, 0),
        ));
    }
    while i < n
        invariant
            0 <= start <= i <= n,
            n == s@.len(),
            split_on(s@.subrange(0, i as int), sep) == parts@.map_values(|p: String| p@).push(
                s@.subrange(start as int, i as int),
            ),
        decreases n - i,
    {
        let c = s.get_char(i);
        proof {
            lemma_split_on_push(s@.subrange(0, i as int), sep, c);
            assert(s@.subrange(0, i + 1 as int) =~= s@.subrange(0, i as int).push(s@[i as int]));
        }
        if c == sep {
            let part = s.substring_char(start, i);
            parts.push(part.to_owned());
            start = i + 1;
            proof {
                assert(s@.subrange(start as int, i + 1 as int) =~= Seq::<char>::empty());
                assert(split_on(s@.subrange(0, i + 1 as int), sep) =~~= parts@.map_values(
                    |p: String| p@,
                ).push(s@.subrange(start as int, i + 1 as int)));
            }
        } else {
            proof {
                let old_last = s@.subrange(start as int, i as int);
                assert(old_last.push(s@[i as int]) =~= s@.subrange(start as int, i + 1 as int));
                let m = parts@.map_values(|p: String| p@);
                assert(m.push(old_last).update(m.len() as int, old_last.push(s@[i as int]))
                    =~~= m.push(s@.subrange(start as int, i + 1 as int)));
            }
        }
        i += 1;
    }
    let part = s.substring_char(start, n);
    parts.push(part.to_owned());
    proof {
        assert(s@.subrange(0, n as int) =~= s@);
        assert(parts@.map_values(|p: String| p@) =~~= split_on(s@, sep));
    }
    parts
}

/// The sequence with later repetitions of an element removed: each
/// element keeps its first occurrence only.
pub open spec fn dedup_first(s: Seq<Seq<char>>) -> Seq<Seq<char>>
    decreases s.len(),
{
    if s.len() == 0 {
        Seq::empty()
    } else {
        let rest = dedup_first(s.drop_last());
        if rest.contains(s.last()) {
            rest
        } else {
            rest.push(s.last())
        }
    }
}

/// Deduplication keeps membership: an element is in the result exactly
/// when it is in the input.
pub proof fn lemma_dedup_first_contains(s: Seq<Seq<char>>, x: Seq<char>)
    ensures
        dedup_first(s).contains(x) == s.contains(x),
    decreases s.len(),
{
    if s.len() == 0 {
    } else {
        lemma_dedup_first_contains(s.drop_last(), x);
        let rest = dedup_first(s.drop_last());
        if rest.contains(x) {
            let i = choose|i: int| 0 <= i < rest.len() && rest[i] == x;
            assert(dedup_first(s)[i] == x);
            assert(dedup_first(s).contains(x));
            let i2 = choose|i2: int| 0 <= i2 < s.drop_last().len() && s.drop_last()[i2] == x;
            assert(s[i2] == x);
            assert(s.contains(x));
        } else if s.last() == x {
            assert(dedup_first(s) == rest.push(x));
            assert(dedup_first(s)[rest.len() as int] == x);
            assert(dedup_first(s).contains(x));
            assert(s[s.len() - 1] == x);
            assert(s.contains(x));
        } else {
            if s.contains(x) {
                let k = choose|k: int| 0 <= k < s.len() && s[k] == x;
                assert(s.drop_last()[k] == x);
                assert(s.drop_last().contains(x));
            }
            if dedup_first(s).contains(x) {
                let k = choose|k: int|
                    0 <= k < dedup_first(s).len() && dedup_first(s)[k] == x;
                assert(rest.contains(x));
            }
        }
    }
}

/// Deduplication leaves no two equal elements.
pub proof fn lemma_dedup_first_distinct(s: Seq<Seq<char>>)
    ensures
        forall|i: int, j: int|
            0 <= i < j < dedup_first(s).len() ==> dedup_first(s)[i] != dedup_first(s)[j],
    decreases s.len(),
{
    if s.len() == 0 {
    } else {
        lemma_dedup_first_distinct(s.drop_last());
        let rest = dedup_first(s.drop_last());
        if !rest.contains(s.last()) {
            assert forall|i: int, j: int|
                0 <= i < j < dedup_first(s).len() implies dedup_first(s)[i] != dedup_first(
                s,
            )[j] by {
                if j == dedup_first(s).len() - 1 {
                    assert(rest[i] != s.last());
                }
            }
        }
    }
}

/// Whether one of the strings in `v` has exactly the characters of `t`.
pub fn contains_str(v: &Vec<String>, t: &str) -> (r: bool)
    ensures
        r == v@.map_values(|p: String| p@).contains(t@),
{
    let n = v.len();
    let mut i: usize = 0;
    while i < n
        invariant
            0 <= i <= n,
            n == v@.len(),
            forall|j: int| 0 <= j < i ==> v@[j]@ != t@,
        decreases n - i,
    {
        if str_eq(v[i].as_str(), t) {
            assert(v@.map_values(|p: String| p@)[i as int] == t@);
            return true;
        }
        i += 1;
    }
    proof {
        let m = v@.map_values(|p: String| p@);
        assert forall|j: int| 0 <= j < n implies #[trigger] m[j] != t@ by {
            assert(v@[j]@ != t@);
        }
    }
    false
}

/// The decimal digit character for a value below ten.
pub open spec fn digit_char(d: int) -> char {
    if d == 0 {
        '0'
    } else if d == 1 {
        '1'
    } else if d == 2 {
        '2'
    } else if d == 3 {
        '3'
    } else if d == 4 {
        '4'
    } else if d == 5 {
        '5'
    } else if d == 6 {
        '6'
    } else if d == 7 {
        '7'
    } else if d == 8 {
        '8'
    } else {
        '9'
    }
}

/// The decimal rendering of a natural number, most significant digit
/// first, with no leading zero except for zero itself.
pub open spec fn dec_spec(n: int) -> Seq<char>
    decreases n,
{
    if n < 10 {
        seq![digit_char(n)]
    } else {
        dec_spec(n / 10).push(digit_char(n % 10))
    }
}

/// The one-character string for a decimal digit.
fn digit_str(d: u16) -> (r: &'static str)
    requires
        d < 10,
    ensures
        r@ == seq![digit_char(d as int)],
{
    proof {
        reveal_strlit("0");
        reveal_strlit("1");
        reveal_strlit("2");
        reveal_strlit("3");
        reveal_strlit("4");
        reveal_strlit("5");
        reveal_strlit("6");
        reveal_strlit("7");
        reveal_strlit("8");
        reveal_strlit("9");
    }
    let r = if d == 0 {
        "0"
    } else if d == 1 {
        "1"
    } else if d == 2 {
        "2"
    } else if d == 3 {
        "3"
    } else if d == 4 {
        "4"
    } else if d == 5 {
        "5"
    } else if d == 6 {
        "6"
    } else if d == 7 {
        "7"
    } else if d == 8 {
        "8"
    } else {
        "9"
    };
    proof {
        assert(r@ =~= seq![digit_char(d as int)]);
    }
    r
}

/// The decimal rendering of a port number (or any 16-bit value).
pub fn u16_to_decimal(n: u16) -> (r: String)
    ensures
        r@ == dec_spec(n as int),
    decreases n,
{
    if n < 10 {
        digit_str(n).to_owned()
    } else {
        let mut s = u16_to_decimal(n / 10);
        s.append(digit_str(n % 10));
        proof {
            assert(s@ =~= dec_spec(n as int));
        }
        s
    }
}

} // verus!
