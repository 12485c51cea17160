//! Text primitives shared by the library: substring search, replacement,
//! decimal rendering and case mapping, each with a specification over the
//! character sequence that a string views as.

use vstd::prelude::*;
use vstd::string::*;

verus! {

broadcast use vstd::string::group_string_axioms;

/// `pat` occurs in `s` starting at position `i`.
pub open spec fn occurs_at(s: Seq<char>, pat: Seq<char>, i: int) -> bool {
    &&& 0 <= i
    &&& i + pat.len() <= s.len()
    &&& s.subrange(i, i + pat.len()) == pat
}

/// `pat` occurs somewhere in `s`.
pub open spec fn has_substring(s: Seq<char>, pat: Seq<char>) -> bool {
    exists|i: int| occurs_at(s, pat, i)
}

/// The characters of a string slice, as a vector.
pub fn chars_of(s: &str) -> (v: Vec<char>)
    ensures
        v@ == s@,
{
    let mut v: Vec<char> = Vec::new();
    for c in it: s.chars()
        invariant
            v@ == it.seq().take(it.index() as int),
            it.seq() == s@,
    {
        v.push(c);
    }
    v
}

/// Whether `pat` occurs at position `i` of `s`.
fn occurs_at_exec(s: &Vec<char>, pat: &Vec<char>, i: usize) -> (r: bool)
    requires
        i + pat@.len() <= s@.len(),
    ensures
        r == occurs_at(s@, pat@, i as int),
{
    let mut j: usize = 0;
    while j < pat.len()
        invariant
            i + pat@.len() <= s@.len(),
            s@.len() == s.len(),
            j <= pat@.len(),
            forall|k: int| 0 <= k < j ==> s@[i + k] == pat@[k],
        decreases pat@.len() - j,
    {
        if s[i + j] != pat[j] {
            assert(s@.subrange(i as int, i + pat@.len())[j as int] != pat@[j as int]);
            return false;
        }
        j = j + 1;
    }
    assert(s@.subrange(i as int, i + pat@.len()) =~= pat@);
    true
}

/// `i` is the first position at or after `from` where `pat` occurs.
pub open spec fn is_first_occurrence(s: Seq<char>, pat: Seq<char>, from: int, i: int) -> bool {
    &&& from <= i
    &&& occurs_at(s, pat, i)
    &&& forall|k: int| from <= k < i ==> !occurs_at(s, pat, k)
}

/// The first position at or after `from` where `pat` occurs in `s`, as
/// `str::find` reports it on the suffix starting at `from`.
pub open spec fn find_spec(s: Seq<char>, pat: Seq<char>, from: int) -> Option<int> {
    if exists|i: int| from <= i && occurs_at(s, pat, i) {
        Some(choose|i: int| is_first_occurrence(s, pat, from, i))
    } else {
        None
    }
}

proof fn lemma_find_spec_some(s: Seq<char>, pat: Seq<char>, from: int, i: int)
    requires
        is_first_occurrence(s, pat, from, i),
    ensures
        find_spec(s, pat, from) == Some(i),
{
    assert(from <= i && occurs_at(s, pat, i));
    let j = choose|j: int| is_first_occurrence(s, pat, from, j);
    assert(is_first_occurrence(s, pat, from, j));
    if j < i {
        assert(!occurs_at(s, pat, j));
    }
    if i < j {
        assert(!occurs_at(s, pat, i));
    }
}

/// The first position at or after `from` where `pat` occurs in `s`.
pub fn find_from(s: &Vec<char>, pat: &Vec<char>, from: usize) -> (r: Option<usize>)
    ensures
        match r {
            Some(i) => is_first_occurrence(s@, pat@, from as int, i as int),
            None => forall|k: int| from <= k ==> !occurs_at(s@, pat@, k),
        },
        r == match find_spec(s@, pat@, from as int) {
            Some(i) => Some(i as usize),
            None => None::<usize>,
        },
{
    let r = find_from_scan(s, pat, from);
    proof {
        match r {
            Some(i) => { lemma_find_spec_some(s@, pat@, from as int, i as int); },
            None => {},
        }
    }
    r
}

fn find_from_scan(s: &Vec<char>, pat: &Vec<char>, from: usize) -> (r: Option<usize>)
    ensures
        match r {
            Some(i) => is_first_occurrence(s@, pat@, from as int, i as int),
            None => forall|k: int| from <= k ==> !occurs_at(s@, pat@, k),
        },
{
    if pat.len() > s.len() {
        return None;
    }
    let last = s.len() - pat.len();
    let mut i = from;
    while i <= last
        invariant
            last + pat@.len() == s@.len(),
            from <= i,
            forall|k: int| from <= k < i ==> !occurs_at(s@, pat@, k),
        decreases last - i,
    {
        if occurs_at_exec(s, pat, i) {
            return Some(i);
        }
        if i == last {
            return None;
        }
        i = i + 1;
    }
    None
}

/// Whether `pat` occurs in `s`.
pub fn contains_chars(s: &Vec<char>, pat: &Vec<char>) -> (r: bool)
    ensures
        r == has_substring(s@, pat@),
{
    match find_from(s, pat, 0) {
        Some(i) => {
            assert(occurs_at(s@, pat@, i as int));
            true
        },
        None => false,
    }
}

/// Whether two strings hold the same characters.
pub fn str_equal(a: &str, b: &str) -> (r: bool)
    ensures
        r == (a@ == b@),
{
    let av = chars_of(a);
    let bv = chars_of(b);
    if av.len() != bv.len() {
        return false;
    }
    let r = occurs_at_exec(&av, &bv, 0);
    proof {
        if r {
            assert(av@.subrange(0, bv@.len() as int) =~= av@);
        } else {
            if av@ == bv@ {
                assert(av@.subrange(0, bv@.len() as int) =~= av@);
            }
        }
    }
    r
}

/// The number of line feeds in `s`.
pub open spec fn newline_count(s: Seq<char>) -> nat
    decreases s.len(),
{
    if s.len() == 0 {
        0
    } else if s.last() == '\n' {
        newline_count(s.drop_last()) + 1
    } else {
        newline_count(s.drop_last())
    }
}

proof fn lemma_newline_count_bound(s: Seq<char>)
    ensures
        newline_count(s) <= s.len(),
    decreases s.len(),
{
    if s.len() > 0 {
        lemma_newline_count_bound(s.drop_last());
    }
}

/// The number of lines `str::lines` yields: one per line feed, plus one
/// for a last line that does not end in a line feed.
pub open spec fn line_count(s: Seq<char>) -> nat {
    newline_count(s) + if s.len() > 0 && s.last() != '\n' { 1nat } else { 0nat }
}

/// The number of lines of `s`, as `s.lines().count()` gives it.
pub fn count_lines(s: &str) -> (n: usize)
    ensures
        n == line_count(s@),
{
    let v = chars_of(s);
    let mut n: usize = 0;
    let mut i: usize = 0;
    while i < v.len()
        invariant
            i <= v@.len(),
            n <= i,
            n == newline_count(v@.take(i as int)),
        decreases v@.len() - i,
    {
        let ghost t = v@.take(i + 1);
        assert(t.drop_last() =~= v@.take(i as int));
        if v[i] == '\n' {
            n = n + 1;
        }
        i = i + 1;
    }
    assert(v@.take(v@.len() as int) =~= v@);
    proof {
        if v@.len() > 0 {
            lemma_newline_count_bound(v@.drop_last());
        }
    }
    if v.len() > 0 && v[v.len() - 1] != '\n' {
        n = n + 1;
    }
    n
}

/// Whether `pat` occurs in `s`.
pub fn str_contains(s: &str, pat: &str) -> (r: bool)
    ensures
        r == has_substring(s@, pat@),
{
    let sv = chars_of(s);
    let pv = chars_of(pat);
    contains_chars(&sv, &pv)
}


/// `s` with every leftmost, non-overlapping occurrence of `pat` replaced by
/// `rep`, scanning left to right (the pattern must not be empty).
pub open spec fn replace_all(s: Seq<char>, pat: Seq<char>, rep: Seq<char>) -> Seq<char>
    decreases s.len(),
{
    if pat.len() == 0 || s.len() < pat.len() {
        s
    } else if s.subrange(0, pat.len() as int) == pat {
        rep + replace_all(s.skip(pat.len() as int), pat, rep)
    } else {
        seq![s[0]] + replace_all(s.skip(1), pat, rep)
    }
}

/// How many times `pat` occurs in `s`, counting the leftmost
/// non-overlapping matches from the start, as `str::matches` counts them for
/// a non-empty literal pattern.
pub open spec fn match_count(s: Seq<char>, pat: Seq<char>) -> nat
    decreases s.len(),
{
    if pat.len() == 0 || s.len() < pat.len() {
        0
    } else if s.subrange(0, pat.len() as int) == pat {
        1 + match_count(s.skip(pat.len() as int), pat)
    } else {
        match_count(s.skip(1), pat)
    }
}

proof fn lemma_count_step(s: Seq<char>, pat: Seq<char>, i: int)
    requires
        pat.len() > 0,
        0 <= i <= s.len(),
    ensures
        occurs_at(s, pat, i) ==> match_count(s.skip(i), pat) == 1 + match_count(s.skip(i + pat.len()), pat),
        !occurs_at(s, pat, i) && i + pat.len() <= s.len()
            ==> match_count(s.skip(i), pat) == match_count(s.skip(i + 1), pat),
        s.len() < i + pat.len() ==> match_count(s.skip(i), pat) == 0,
{
    if i + pat.len() <= s.len() {
        assert(s.skip(i).subrange(0, pat.len() as int) =~= s.subrange(i, i + pat.len()));
        assert(s.skip(i).skip(pat.len() as int) =~= s.skip(i + pat.len()));
        assert(s.skip(i).skip(1) =~= s.skip(i + 1));
    }
}

/// How many times `pat` occurs in `s`, counting non-overlapping matches
/// from the left (the pattern must not be empty).
pub fn count_matches(s: &str, pat: &str) -> (n: usize)
    requires
        pat@.len() > 0,
    ensures
        n == match_count(s@, pat@),
{
    let sv = chars_of(s);
    let pv = chars_of(pat);
    let mut n: usize = 0;
    let mut i: usize = 0;
    assert(sv@.skip(0) =~= sv@);
    while i < sv.len()
        invariant
            sv@ == s@,
            pv@ == pat@,
            pv@.len() > 0,
            i <= sv@.len(),
            n <= i,
            n + match_count(sv@.skip(i as int), pv@) == match_count(sv@, pv@),
        decreases sv@.len() - i,
    {
        proof {
            lemma_count_step(sv@, pv@, i as int);
        }
        if pv.len() <= sv.len() - i {
            if occurs_at_exec(&sv, &pv, i) {
                n = n + 1;
                i = i + pv.len();
            } else {
                i = i + 1;
            }
        } else {
            i = sv.len();
            assert(sv@.skip(i as int) =~= Seq::<char>::empty());
        }
    }
    assert(sv@.skip(i as int) =~= Seq::<char>::empty());
    n
}

/// Appends one character to a string.
///
/// Calls `String::push`, which std documents as appending the character to
/// the end of the string; the contract says exactly that.
#[verifier::external_body]
pub(crate) fn push_char(s: &mut String, c: char)
    ensures
        final(s)@ == old(s)@.push(c),
{
    s.push(c);
}

/// A new string holding the given characters.
pub fn string_from_chars(v: &Vec<char>) -> (s: String)
    ensures
        s@ == v@,
{
    let mut s = String::new();
    let mut i: usize = 0;
    while i < v.len()
        invariant
            i <= v@.len(),
            s@ == v@.take(i as int),
        decreases v@.len() - i,
    {
        push_char(&mut s, v[i]);
        assert(v@.take(i as int).push(v@[i as int]) =~= v@.take(i + 1));
        i = i + 1;
    }
    assert(v@.take(v@.len() as int) =~= v@);
    s
}

proof fn lemma_replace_step_match(s: Seq<char>, pat: Seq<char>, rep: Seq<char>, i: int)
    requires
        pat.len() > 0,
        0 <= i,
        occurs_at(s, pat, i),
    ensures
        replace_all(s.skip(i), pat, rep) == rep + replace_all(s.skip(i + pat.len()), pat, rep),
{
    assert(s.skip(i).subrange(0, pat.len() as int) =~= s.subrange(i, i + pat.len()));
    assert(s.skip(i).skip(pat.len() as int) =~= s.skip(i + pat.len()));
}

proof fn lemma_replace_step_skip(s: Seq<char>, pat: Seq<char>, rep: Seq<char>, i: int)
    requires
        pat.len() > 0,
        0 <= i < s.len(),
        !occurs_at(s, pat, i),
    ensures
        replace_all(s.skip(i), pat, rep) == if i + pat.len() <= s.len() {
            seq![s[i]] + replace_all(s.skip(i + 1), pat, rep)
        } else {
            s.skip(i)
        },
{
    if i + pat.len() <= s.len() {
        assert(s.skip(i).subrange(0, pat.len() as int) =~= s.subrange(i, i + pat.len()));
        assert(s.skip(i).skip(1) =~= s.skip(i + 1));
        assert(s.skip(i)[0] == s[i]);
    }
}

/// `s` with every occurrence of `pat` replaced by `rep`, as `str::replace`
/// does for a non-empty pattern.
pub fn replace_str(s: &str, pat: &str, rep: &str) -> (r: String)
    requires
        pat@.len() > 0,
    ensures
        r@ == replace_all(s@, pat@, rep@),
{
    let sv = chars_of(s);
    let pv = chars_of(pat);
    let rv = chars_of(rep);
    let mut out: Vec<char> = Vec::new();
    let mut i: usize = 0;
    assert(sv@.skip(0) =~= sv@);
    assert(out@ + replace_all(sv@.skip(0), pv@, rv@) =~= replace_all(sv@, pv@, rv@));
    while i < sv.len()
        invariant
            pv@ == pat@,
            sv@ == s@,
            rv@ == rep@,
            pv@.len() > 0,
            i <= sv@.len(),
            out@ + replace_all(sv@.skip(i as int), pv@, rv@) == replace_all(sv@, pv@, rv@),
        decreases sv@.len() - i,
    {
        if pv.len() <= sv.len() - i && occurs_at_exec(&sv, &pv, i) {
            proof {
                lemma_replace_step_match(sv@, pv@, rv@, i as int);
            }
            let ghost old_out = out@;
            let mut k: usize = 0;
            while k < rv.len()
                invariant
                    k <= rv@.len(),
                    out@ == old_out + rv@.take(k as int),
                decreases rv@.len() - k,
            {
                out.push(rv[k]);
                assert(rv@.take(k as int).push(rv@[k as int]) =~= rv@.take(k + 1));
                k = k + 1;
            }
            assert(rv@.take(rv@.len() as int) =~= rv@);
            assert(out@ + replace_all(sv@.skip(i + pv@.len()), pv@, rv@) =~= old_out + (rv@
                + replace_all(sv@.skip(i + pv@.len()), pv@, rv@)));
            i = i + pv.len();
        } else {
            proof {
                if i + pv@.len() <= sv@.len() {
                    assert(!occurs_at(sv@, pv@, i as int));
                } else {
                    assert(!occurs_at(sv@, pv@, i as int));
                }
                lemma_replace_step_skip(sv@, pv@, rv@, i as int);
            }
            if pv.len() <= sv.len() - i {
                let ghost old_out = out@;
                out.push(sv[i]);
                assert(out@ + replace_all(sv@.skip(i + 1), pv@, rv@) =~= old_out + (seq![sv@[i as int]]
                    + replace_all(sv@.skip(i + 1), pv@, rv@)));
                i = i + 1;
            } else {
                let ghost old_out = out@;
                let ghost tail = sv@.skip(i as int);
                while i < sv.len()
                    invariant
                        i <= sv@.len(),
                        out@ + sv@.skip(i as int) == old_out + tail,
                    decreases sv@.len() - i,
                {
                    let ghost before = out@;
                    out.push(sv[i]);
                    assert(sv@.skip(i as int) =~= seq![sv@[i as int]] + sv@.skip(i + 1));
                    assert(out@ + sv@.skip(i + 1) =~= before + sv@.skip(i as int));
                    i = i + 1;
                }
                assert(sv@.skip(i as int) =~= Seq::<char>::empty());
                assert(out@ =~= old_out + tail);
                assert(replace_all(sv@.skip(sv@.len() as int), pv@, rv@) =~= Seq::<char>::empty()) by {
                    assert(sv@.skip(sv@.len() as int) =~= Seq::<char>::empty());
                }
                assert(out@ + replace_all(sv@.skip(i as int), pv@, rv@) =~= out@);
            }
        }
    }
    assert(sv@.skip(sv@.len() as int) =~= Seq::<char>::empty());
    assert(replace_all(sv@.skip(i as int), pv@, rv@) =~= Seq::<char>::empty());
    assert(out@ =~= replace_all(sv@, pv@, rv@));
    string_from_chars(&out)
}

/// The base-ten digits of a natural number, most significant first, with no
/// leading zeros (`0` renders as `"0"`).
pub open spec fn decimal(n: nat) -> Seq<char>
    decreases n,
{
    if n < 10 {
        seq![digit_char(n)]
    } else {
        decimal(n / 10).push(digit_char(n % 10))
    }
}

/// The character of a decimal digit.
pub open spec fn digit_char(d: nat) -> char {
    if d == 0 { '0' }
    else if d == 1 { '1' }
    else if d == 2 { '2' }
    else if d == 3 { '3' }
    else if d == 4 { '4' }
    else if d == 5 { '5' }
    else if d == 6 { '6' }
    else if d == 7 { '7' }
    else if d == 8 { '8' }
    else { '9' }
}

/// A signed integer in base ten, with a leading `-` when negative.
pub open spec fn signed_decimal(n: int) -> Seq<char> {
    if n < 0 {
        seq!['-'] + decimal((-n) as nat)
    } else {
        decimal(n as nat)
    }
}

fn digit_exec(d: u64) -> (c: char)
    requires
        d < 10,
    ensures
        c == digit_char(d as nat),
{
    if d == 0 { '0' }
    else if d == 1 { '1' }
    else if d == 2 { '2' }
    else if d == 3 { '3' }
    else if d == 4 { '4' }
    else if d == 5 { '5' }
    else if d == 6 { '6' }
    else if d == 7 { '7' }
    else if d == 8 { '8' }
    else { '9' }
}

fn decimal_chars(n: u64) -> (v: Vec<char>)
    ensures
        v@ == decimal(n as nat),
    decreases n,
{
    if n < 10 {
        let mut v = Vec::new();
        v.push(digit_exec(n));
        assert(v@ =~= seq![digit_char(n as nat)]);
        v
    } else {
        let mut v = decimal_chars(n / 10);
        v.push(digit_exec(n % 10));
        v
    }
}

/// An unsigned integer in base ten, as `{}` formats it.
pub fn fmt_u64(n: u64) -> (s: String)
    ensures
        s@ == decimal(n as nat),
{
    let v = decimal_chars(n);
    string_from_chars(&v)
}

/// A signed integer in base ten, as `{}` formats it.
pub fn fmt_i64(n: i64) -> (s: String)
    ensures
        s@ == signed_decimal(n as int),
{
    if n < 0 {
        let m: u64 = if n == i64::MIN { 9223372036854775808u64 } else { (-n) as u64 };
        let mut v: Vec<char> = Vec::new();
        v.push('-');
        let mut d = decimal_chars(m);
        v.append(&mut d);
        assert(v@ =~= seq!['-'] + decimal((-(n as int)) as nat));
        string_from_chars(&v)
    } else {
        fmt_u64(n as u64)
    }
}

/// A string holding a copy of `s`.
pub fn owned(s: &str) -> (r: String)
    ensures
        r@ == s@,
{
    String::from_str(s)
}

/// `a` followed by `b`.
pub fn join2(a: &str, b: &str) -> (r: String)
    ensures
        r@ == a@ + b@,
{
    let mut r = String::from_str(a);
    r.append(b);
    r
}

/// `a`, `b` and `c` in sequence.
pub fn join3(a: &str, b: &str, c: &str) -> (r: String)
    ensures
        r@ == a@ + b@ + c@,
{
    let mut r = String::from_str(a);
    r.append(b);
    r.append(c);
    r
}

/// `s` ends with `suffix`.
pub open spec fn ends_with_spec(s: Seq<char>, suffix: Seq<char>) -> bool {
    suffix.len() <= s.len() && s.subrange(s.len() - suffix.len(), s.len() as int) == suffix
}

/// `s` begins with `prefix`.
pub open spec fn starts_with_spec(s: Seq<char>, prefix: Seq<char>) -> bool {
    prefix.len() <= s.len() && s.subrange(0, prefix.len() as int) == prefix
}

/// Whether `s` ends with `suffix`.
pub fn ends_with_chars(s: &Vec<char>, suffix: &Vec<char>) -> (r: bool)
    ensures
        r == ends_with_spec(s@, suffix@),
{
    if suffix.len() > s.len() {
        return false;
    }
    occurs_at_exec(s, suffix, s.len() - suffix.len())
}

/// A string holding `v[from..to]`.
pub fn string_from_range(v: &Vec<char>, from: usize, to: usize) -> (s: String)
    requires
        from <= to <= v@.len(),
    ensures
        s@ == v@.subrange(from as int, to as int),
{
    let mut s = String::new();
    let mut i: usize = from;
    while i < to
        invariant
            from <= i <= to,
            to <= v@.len(),
            s@ == v@.subrange(from as int, i as int),
        decreases to - i,
    {
        push_char(&mut s, v[i]);
        assert(v@.subrange(from as int, i as int).push(v@[i as int]) =~= v@.subrange(from as int, i + 1));
        i = i + 1;
    }
    s
}

/// Whether `s` ends with `suffix`.
pub fn str_ends_with(s: &str, suffix: &str) -> (r: bool)
    ensures
        r == ends_with_spec(s@, suffix@),
{
    let sv = chars_of(s);
    let pv = chars_of(suffix);
    if pv.len() > sv.len() {
        return false;
    }
    let r = occurs_at_exec(&sv, &pv, sv.len() - pv.len());
    r
}

/// Whether `s` begins with `prefix`.
pub fn str_starts_with(s: &str, prefix: &str) -> (r: bool)
    ensures
        r == starts_with_spec(s@, prefix@),
{
    let sv = chars_of(s);
    let pv = chars_of(prefix);
    if pv.len() > sv.len() {
        return false;
    }
    occurs_at_exec(&sv, &pv, 0)
}

/// The White_Space property of Unicode, which `char::is_whitespace` tests:
/// the controls tab to carriage return (U+0009 to U+000D), space, next line
/// (U+0085), no-break space (U+00A0), the Ogham space mark (U+1680), the
/// spaces U+2000 to U+200A, the line and paragraph separators (U+2028,
/// U+2029), the narrow no-break space (U+202F), the medium mathematical
/// space (U+205F) and the ideographic space (U+3000).
pub open spec fn unicode_whitespace(c: char) -> bool {
    let n = c as u32;
    ||| 0x9 <= n <= 0xD
    ||| n == 0x20
    ||| n == 0x85
    ||| n == 0xA0
    ||| n == 0x1680
    ||| 0x2000 <= n <= 0x200A
    ||| n == 0x2028
    ||| n == 0x2029
    ||| n == 0x202F
    ||| n == 0x205F
    ||| n == 0x3000
}

/// Whether a character is white space, as `char::is_whitespace` tells.
pub(crate) fn is_whitespace(c: char) -> (b: bool)
    ensures
        b == unicode_whitespace(c),
{
    let n: u32 = c as u32;
    (0x9 <= n && n <= 0xD) || n == 0x20 || n == 0x85 || n == 0xA0 || n == 0x1680 || (0x2000 <= n && n <= 0x200A)
        || n == 0x2028 || n == 0x2029 || n == 0x202F || n == 0x205F || n == 0x3000
}

/// Scanning state of `split_ws`: position `i`, the word read so far `cur`,
/// and the words completed `acc`.
pub open spec fn split_ws_from(s: Seq<char>, i: int, cur: Seq<char>, acc: Seq<Seq<char>>) -> Seq<Seq<char>>
    decreases s.len() - i,
{
    if i < 0 || i >= s.len() {
        if cur.len() > 0 { acc.push(cur) } else { acc }
    } else if unicode_whitespace(s[i]) {
        if cur.len() > 0 {
            split_ws_from(s, i + 1, Seq::empty(), acc.push(cur))
        } else {
            split_ws_from(s, i + 1, Seq::empty(), acc)
        }
    } else {
        split_ws_from(s, i + 1, cur.push(s[i]), acc)
    }
}

/// The words of `s`: its maximal runs of non-whitespace characters, in
/// order, as `str::split_whitespace` yields them.
pub open spec fn split_ws(s: Seq<char>) -> Seq<Seq<char>> {
    split_ws_from(s, 0, Seq::empty(), Seq::empty())
}

/// The words of `s`, as character vectors.
pub fn split_whitespace_chars(s: &str) -> (words: Vec<Vec<char>>)
    ensures
        words@.len() == split_ws(s@).len(),
        forall|i: int| 0 <= i < words@.len() ==> #[trigger] words@[i]@ == split_ws(s@)[i],
{
    let sv = chars_of(s);
    let mut words: Vec<Vec<char>> = Vec::new();
    let mut cur: Vec<char> = Vec::new();
    let mut i: usize = 0;
    let ghost acc: Seq<Seq<char>> = Seq::empty();
    while i < sv.len()
        invariant
            sv@ == s@,
            i <= sv@.len(),
            words@.len() == acc.len(),
            forall|j: int| 0 <= j < words@.len() ==> #[trigger] words@[j]@ == acc[j],
            split_ws_from(sv@, i as int, cur@, acc) == split_ws(s@),
        decreases sv@.len() - i,
    {
        let c = sv[i];
        let ghost old_cur = cur@;
        let ghost old_acc = acc;
        assert(split_ws_from(sv@, i as int, old_cur, old_acc) == if unicode_whitespace(sv@[i as int]) {
            if old_cur.len() > 0 {
                split_ws_from(sv@, i + 1, Seq::empty(), old_acc.push(old_cur))
            } else {
                split_ws_from(sv@, i + 1, Seq::empty(), old_acc)
            }
        } else {
            split_ws_from(sv@, i + 1, old_cur.push(sv@[i as int]), old_acc)
        });
        if is_whitespace(c) {
            if cur.len() > 0 {
                proof {
                    acc = acc.push(cur@);
                }
                words.push(cur);
                cur = Vec::new();
                assert(cur@ =~= Seq::<char>::empty());
            } else {
                assert(cur@ =~= Seq::<char>::empty());
            }
        } else {
            cur.push(c);
        }
        i = i + 1;
    }
    if cur.len() > 0 {
        proof {
            acc = acc.push(cur@);
        }
        words.push(cur);
    }
    words
}

/// `s` without its leading whitespace.
pub open spec fn trim_front(s: Seq<char>) -> Seq<char>
    decreases s.len(),
{
    if s.len() > 0 && unicode_whitespace(s[0]) {
        trim_front(s.skip(1))
    } else {
        s
    }
}

/// `s` without its trailing whitespace.
pub open spec fn trim_back(s: Seq<char>) -> Seq<char>
    decreases s.len(),
{
    if s.len() > 0 && unicode_whitespace(s.last()) {
        trim_back(s.drop_last())
    } else {
        s
    }
}

/// `s` without leading and trailing whitespace, as `str::trim` gives it.
pub open spec fn trim_spec(s: Seq<char>) -> Seq<char> {
    trim_back(trim_front(s))
}

/// `s` without leading and trailing whitespace.
pub fn trim_chars(s: &Vec<char>) -> (r: Vec<char>)
    ensures
        r@ == trim_spec(s@),
{
    let mut a: usize = 0;
    assert(s@.skip(0) =~= s@);
    while a < s.len() && is_whitespace(s[a])
        invariant
            a <= s@.len(),
            trim_front(s@) == trim_front(s@.skip(a as int)),
        decreases s@.len() - a,
    {
        assert(s@.skip(a as int).skip(1) =~= s@.skip(a as int + 1));
        a = a + 1;
    }
    assert(trim_front(s@) == s@.skip(a as int)) by {
        if a < s@.len() {
            assert(s@.skip(a as int)[0] == s@[a as int]);
        } else {
            assert(s@.skip(a as int).len() == 0);
        }
    }
    let mut b: usize = s.len();
    while b > a && is_whitespace(s[b - 1])
        invariant
            a <= b <= s@.len(),
            trim_front(s@) == s@.skip(a as int),
            trim_spec(s@) == trim_back(s@.subrange(a as int, b as int)),
        decreases b - a,
    {
        assert(s@.subrange(a as int, b as int).drop_last() =~= s@.subrange(a as int, b as int - 1));
        b = b - 1;
    }
    proof {
        assert(s@.skip(a as int) =~= s@.subrange(a as int, s@.len() as int));
        if b > a {
            assert(s@.subrange(a as int, b as int).last() == s@[b - 1]);
        } else {
            assert(s@.subrange(a as int, b as int).len() == 0);
        }
    }
    let mut r: Vec<char> = Vec::new();
    let mut i: usize = a;
    while i < b
        invariant
            a <= i <= b <= s@.len(),
            r@ == s@.subrange(a as int, i as int),
        decreases b - i,
    {
        r.push(s[i]);
        i = i + 1;
        assert(r@ =~= s@.subrange(a as int, i as int));
    }
    r
}

/// The pieces of `s` between the `sep` characters, empty pieces included.
pub open spec fn split_on(s: Seq<char>, sep: char) -> Seq<Seq<char>>
    decreases s.len(),
{
    if s.len() == 0 {
        seq![Seq::<char>::empty()]
    } else {
        let rest = split_on(s.drop_last(), sep);
        if s.last() == sep {
            rest.push(Seq::empty())
        } else {
            rest.update(rest.len() - 1, rest.last().push(s.last()))
        }
    }
}

pub proof fn lemma_split_on_nonempty(s: Seq<char>, sep: char)
    ensures
        split_on(s, sep).len() >= 1,
    decreases s.len(),
{
    if s.len() > 0 {
        lemma_split_on_nonempty(s.drop_last(), sep);
    }
}

/// The pieces of `s` between the `sep` characters.
pub fn split_chars(s: &Vec<char>, sep: char) -> (pieces: Vec<Vec<char>>)
    ensures
        pieces@.len() == split_on(s@, sep).len(),
        forall|i: int| 0 <= i < pieces@.len() ==> #[trigger] pieces@[i]@ == split_on(s@, sep)[i],
{
    let mut pieces: Vec<Vec<char>> = Vec::new();
    let mut cur: Vec<char> = Vec::new();
    let mut i: usize = 0;
    while i < s.len()
        invariant
            i <= s@.len(),
            pieces@.len() + 1 == split_on(s@.take(i as int), sep).len(),
            forall|j: int| 0 <= j < pieces@.len() ==> #[trigger] pieces@[j]@ == split_on(s@.take(i as int), sep)[j],
            cur@ == split_on(s@.take(i as int), sep).last(),
        decreases s@.len() - i,
    {
        proof {
            assert(s@.take(i as int + 1).drop_last() =~= s@.take(i as int));
            lemma_split_on_nonempty(s@.take(i as int), sep);
        }
        let c = s[i];
        if c == sep {
            pieces.push(cur);
            cur = Vec::new();
            assert(cur@ =~= Seq::<char>::empty());
        } else {
            cur.push(c);
        }
        i = i + 1;
    }
    assert(s@.take(s@.len() as int) =~= s@);
    pieces.push(cur);
    pieces
}

/// The first line of `s`, as `str::lines` yields it: none for empty text,
/// else the text up to the first newline, a carriage return before that
/// newline removed.
pub open spec fn first_line(s: Seq<char>) -> Option<Seq<char>> {
    if s.len() == 0 {
        None
    } else {
        let p = split_on(s, '\n')[0];
        if p.len() < s.len() && p.len() > 0 && p.last() == '\r' {
            Some(p.drop_last())
        } else {
            Some(p)
        }
    }
}

/// The views of a sequence of strings.
pub open spec fn strings_view(v: Seq<String>) -> Seq<Seq<char>> {
    v.map_values(|s: String| s@)
}

/// Appends a string to a vector of strings.
pub fn push_line(v: &mut Vec<String>, s: String)
    ensures
        strings_view(final(v)@) == strings_view(old(v)@).push(s@),
        final(v)@.len() == old(v)@.len() + 1,
{
    let ghost before = strings_view(v@);
    v.push(s);
    assert(strings_view(v@) =~= before.push(s@));
}

/// The parts joined into one text, `sep` between each two.
pub open spec fn join_with(parts: Seq<Seq<char>>, sep: Seq<char>) -> Seq<char>
    decreases parts.len(),
{
    if parts.len() == 0 {
        Seq::empty()
    } else if parts.len() == 1 {
        parts[0]
    } else {
        join_with(parts.drop_last(), sep) + sep + parts.last()
    }
}

/// The strings of `parts` joined, `sep` between each two, as
/// `[String]::join` does.
pub fn join_strings(parts: &Vec<String>, sep: &str) -> (r: String)
    ensures
        r@ == join_with(strings_view(parts@), sep@),
{
    let ghost all = strings_view(parts@);
    let mut r = String::new();
    let mut i: usize = 0;
    while i < parts.len()
        invariant
            i <= parts@.len(),
            all == strings_view(parts@),
            r@ == join_with(all.take(i as int), sep@),
        decreases parts@.len() - i,
    {
        assert(all.take(i as int + 1).drop_last() =~= all.take(i as int));
        assert(all[i as int] == parts@[i as int]@);
        if i > 0 {
            r.append(sep);
        } else {
            assert(r@ =~= Seq::<char>::empty());
        }
        r.append(parts[i].as_str());
        i = i + 1;
    }
    assert(all.take(parts@.len() as int) =~= all);
    r
}

/// A vector of one string.
pub fn svec1(a: &str) -> (v: Vec<String>)
    ensures
        strings_view(v@) == seq![a@],
{
    let mut v = Vec::new();
    v.push(owned(a));
    assert(strings_view(v@) =~= seq![a@]);
    v
}

/// A vector of two strings.
pub fn svec2(a: &str, b: &str) -> (v: Vec<String>)
    ensures
        strings_view(v@) == seq![a@, b@],
{
    let mut v = Vec::new();
    v.push(owned(a));
    v.push(owned(b));
    assert(strings_view(v@) =~= seq![a@, b@]);
    v
}

/// A vector of three strings.
pub fn svec3(a: &str, b: &str, c: &str) -> (v: Vec<String>)
    ensures
        strings_view(v@) == seq![a@, b@, c@],
{
    let mut v = Vec::new();
    v.push(owned(a));
    v.push(owned(b));
    v.push(owned(c));
    assert(strings_view(v@) =~= seq![a@, b@, c@]);
    v
}

/// A vector of four strings.
pub fn svec4(a: &str, b: &str, c: &str, d: &str) -> (v: Vec<String>)
    ensures
        strings_view(v@) == seq![a@, b@, c@, d@],
{
    let mut v = Vec::new();
    v.push(owned(a));
    v.push(owned(b));
    v.push(owned(c));
    v.push(owned(d));
    assert(strings_view(v@) =~= seq![a@, b@, c@, d@]);
    v
}

/// Whether `v` holds a string equal to `s`.
pub fn contains_string(v: &Vec<String>, s: &str) -> (r: bool)
    ensures
        r == strings_view(v@).contains(s@),
{
    let mut i: usize = 0;
    while i < v.len()
        invariant
            i <= v@.len(),
            forall|j: int| 0 <= j < i ==> v@[j]@ != s@,
        decreases v@.len() - i,
    {
        if str_equal(v[i].as_str(), s) {
            assert(strings_view(v@)[i as int] == s@);
            return true;
        }
        i = i + 1;
    }
    assert forall|j: int| 0 <= j < strings_view(v@).len() implies strings_view(v@)[j] != s@ by {
        assert(strings_view(v@)[j] == v@[j]@);
    }
    false
}

/// The text `{:?}` prints for a string: quoted, with `str::escape_debug`
/// escapes inside.
pub uninterp spec fn debug_text(s: Seq<char>) -> Seq<char>;

/// Formats a string with `{:?}`. The result is a function of the
/// characters alone; the contract names it `debug_text` and says nothing
/// more of it.
#[verifier::external_body]
pub(crate) fn debug_str(s: &str) -> (r: String)
    ensures
        r@ == debug_text(s@),
{
    format!("{:?}", s)
}

/// Lower-case mapping of a character sequence, as `str::to_lowercase`
/// computes it from the Unicode case tables.
pub uninterp spec fn lowercase(s: Seq<char>) -> Seq<char>;

/// Upper-case mapping of a character sequence, as `str::to_uppercase`
/// computes it from the Unicode case tables.
pub uninterp spec fn uppercase(s: Seq<char>) -> Seq<char>;

/// Calls `str::to_lowercase`. The result depends on the characters of `s`
/// alone (Unicode's lower-case mapping); the contract names it `lowercase`
/// and says nothing more of it.
#[verifier::external_body]
pub(crate) fn to_lower(s: &str) -> (r: String)
    ensures
        r@ == lowercase(s@),
{
    s.to_lowercase()
}

/// Calls `str::to_uppercase`. The result depends on the characters of `s`
/// alone (Unicode's upper-case mapping); the contract names it `uppercase`
/// and says nothing more of it.
#[verifier::external_body]
pub(crate) fn to_upper(s: &str) -> (r: String)
    ensures
        r@ == uppercase(s@),
{
    s.to_uppercase()
}

} // verus!
