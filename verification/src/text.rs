//! Verified text utilities: decimal rendering and parsing, prefix and
//! line handling, list joining and splitting, and substring search.
//!
//! The configuration codec and the error classifiers are built on these.

use vstd::prelude::*;
use vstd::string::StrSliceExecFns;
use vstd::string::StringExecFns;

verus! {

// ---------------------------------------------------------------------------
// Decimal digits
// ---------------------------------------------------------------------------

pub open spec fn is_digit_char(c: char) -> bool {
    48 <= c as u32 <= 57
}

pub open spec fn digit_val(c: char) -> int {
    c as u32 - 48
}

pub open spec fn digit_char(d: int) -> char {
    if d == 0 {
        '0'
    } else if d == 1 {
        '1'
    } else if d == 2 {
        '2'
    } else if d == 3 {
        '3'
    } else if d == 4 {
        '4'
    } else if d == 5 {
        '5'
    } else if d == 6 {
        '6'
    } else if d == 7 {
        '7'
    } else if d == 8 {
        '8'
    } else {
        '9'
    }
}

pub proof fn lemma_digit_char_val(d: int)
    requires
        0 <= d < 10,
    ensures
        is_digit_char(digit_char(d)),
        digit_val(digit_char(d)) == d,
{
}

/// The decimal rendering of a non-negative integer, most significant
/// digit first, with no leading zeros (and `0` rendered as "0").
pub open spec fn dec_rep(n: int) -> Seq<char>
    decreases n,
{
    if n < 10 {
        seq![digit_char(n)]
    } else {
        dec_rep(n / 10) + seq![digit_char(n % 10)]
    }
}

pub open spec fn all_digits(s: Seq<char>) -> bool {
    forall|i: int| 0 <= i < s.len() ==> is_digit_char(#[trigger] s[i])
}

/// The value of a digit string, read left to right.
pub open spec fn digits_val(s: Seq<char>) -> int
    decreases s.len(),
{
    if s.len() == 0 {
        0
    } else {
        digits_val(s.drop_last()) * 10 + digit_val(s.last())
    }
}

pub proof fn lemma_dec_rep_ok(n: int)
    requires
        n >= 0,
    ensures
        dec_rep(n).len() >= 1,
        all_digits(dec_rep(n)),
        digits_val(dec_rep(n)) == n,
    decreases n,
{
    if n < 10 {
        lemma_digit_char_val(n);
        assert(dec_rep(n) =~= seq![digit_char(n)]);
        assert(dec_rep(n).drop_last() =~= Seq::<char>::empty());
        assert(dec_rep(n).last() == digit_char(n));
        assert(digits_val(dec_rep(n)) == digits_val(Seq::<char>::empty()) * 10 + digit_val(
            digit_char(n),
        ));
    } else {
        lemma_dec_rep_ok(n / 10);
        lemma_digit_char_val(n % 10);
        let s = dec_rep(n);
        assert(s =~= dec_rep(n / 10) + seq![digit_char(n % 10)]);
        assert(s.drop_last() =~= dec_rep(n / 10));
        assert(s.last() == digit_char(n % 10));
        assert(digits_val(s) == (n / 10) * 10 + n % 10);
        assert((n / 10) * 10 + n % 10 == n) by (nonlinear_arith)
            requires n >= 10,
        ;
    }
}

/// A single decimal digit as a one-character string.
fn digit_str(d: u8) -> (r: String)
    requires
        d < 10,
    ensures
        r@ =~= seq![digit_char(d as int)],
{
    proof {
        reveal_strlit("0");
        reveal_strlit("1");
        reveal_strlit("2");
        reveal_strlit("3");
        reveal_strlit("4");
        reveal_strlit("5");
        reveal_strlit("6");
        reveal_strlit("7");
        reveal_strlit("8");
        reveal_strlit("9");
    }
    match d {
        0 => String::from_str("0"),
        1 => String::from_str("1"),
        2 => String::from_str("2"),
        3 => String::from_str("3"),
        4 => String::from_str("4"),
        5 => String::from_str("5"),
        6 => String::from_str("6"),
        7 => String::from_str("7"),
        8 => String::from_str("8"),
        _ => String::from_str("9"),
    }
}

/// Renders `n` in decimal.
pub fn u64_to_dec(n: u64) -> (r: String)
    ensures
        r@ == dec_rep(n as int),
    decreases n,
{
    if n < 10 {
        digit_str(n as u8)
    } else {
        let mut s = u64_to_dec(n / 10);
        let d = digit_str((n % 10) as u8);
        s.append(d.as_str());
        proof {
            assert(s@ =~= dec_rep((n / 10) as int) + seq![digit_char(n as int % 10)]);
        }
        s
    }
}

/// The value a digit string denotes, if it is non-empty, all digits,
/// and fits in a `u64`.
pub open spec fn parse_u64_spec(s: Seq<char>) -> Option<u64> {
    if s.len() >= 1 && all_digits(s) && digits_val(s) <= u64::MAX {
        Some(digits_val(s) as u64)
    } else {
        None
    }
}

pub proof fn lemma_digits_val_nonneg(s: Seq<char>)
    requires
        all_digits(s),
    ensures
        digits_val(s) >= 0,
    decreases s.len(),
{
    if s.len() > 0 {
        assert(is_digit_char(s[s.len() - 1]));
        lemma_digits_val_nonneg(s.drop_last());
        assert(digits_val(s.drop_last()) * 10 >= 0) by (nonlinear_arith)
            requires digits_val(s.drop_last()) >= 0,
        ;
    }
}

proof fn lemma_digits_val_take_step(s: Seq<char>, i: int)
    requires
        0 <= i < s.len(),
    ensures
        digits_val(s.take(i + 1)) == digits_val(s.take(i)) * 10 + digit_val(s[i]),
{
    assert(s.take(i + 1).drop_last() =~= s.take(i));
    assert(s.take(i + 1).last() == s[i]);
}

/// Parses a decimal `u64`: the whole string must be one or more digits
/// and the value must fit.
pub fn parse_u64_dec(s: &str) -> (r: Option<u64>)
    ensures
        r == parse_u64_spec(s@),
{
    let n = s.unicode_len();
    if n == 0 {
        return None;
    }
    let mut acc: u64 = 0;
    let mut i: usize = 0;
    while i < n
        invariant
            0 <= i <= n,
            n == s@.len(),
            all_digits(s@.take(i as int)),
            acc == digits_val(s@.take(i as int)),
        decreases n - i,
    {
        let c = s.get_char(i);
        let v = c as u32;
        if !(48 <= v && v <= 57) {
            assert(!is_digit_char(s@[i as int]));
            return None;
        }
        let d = (v - 48) as u64;
        proof {
            assert(all_digits(s@.take(i + 1))) by {
                assert(forall|j: int| 0 <= j < i + 1 ==> s@.take(i + 1)[j] == s@.take(
                    i as int,
                ).push(s@[i as int])[j]);
                assert(s@.take(i + 1) =~= s@.take(i as int).push(s@[i as int]));
            }
            lemma_digits_val_take_step(s@, i as int);
            lemma_digits_val_nonneg(s@.take(i as int));
        }
        if acc > (u64::MAX - d) / 10 {
            // The prefix already exceeds what a u64 can hold, and more
            // digits only increase the value.
            proof {
                assert(digits_val(s@.take(i + 1)) > u64::MAX) by (nonlinear_arith)
                    requires
                        digits_val(s@.take(i + 1)) == digits_val(s@.take(i as int)) * 10
                            + digit_val(s@[i as int]),
                        digits_val(s@.take(i as int)) == acc,
                        acc > (u64::MAX - digit_val(s@[i as int])) / 10,
                        0 <= digit_val(s@[i as int]) < 10,
                ;
                if all_digits(s@) {
                    lemma_digits_prefix_exceeds(s@, i + 1);
                }
            }
            return None;
        }
        proof {
            assert(acc * 10 + d <= u64::MAX) by (nonlinear_arith)
                requires
                    acc <= (u64::MAX - d) / 10,
                    0 <= d < 10,
                    acc >= 0,
            ;
        }
        acc = acc * 10 + d;
        i = i + 1;
    }
    proof {
        assert(s@.take(n as int) =~= s@);
    }
    Some(acc)
}

/// If a prefix of a digit string already exceeds `u64::MAX`, so does the
/// whole string.
proof fn lemma_digits_prefix_exceeds(s: Seq<char>, i: int)
    requires
        0 <= i <= s.len(),
        all_digits(s),
        digits_val(s.take(i)) > u64::MAX,
    ensures
        digits_val(s) > u64::MAX,
    decreases s.len() - i,
{
    if i == s.len() {
        assert(s.take(i) =~= s);
    } else {
        lemma_digits_val_take_step(s, i);
        assert(is_digit_char(s[i]));
        assert(digits_val(s.take(i + 1)) > u64::MAX) by (nonlinear_arith)
            requires
                digits_val(s.take(i + 1)) == digits_val(s.take(i)) * 10 + digit_val(s[i]),
                digits_val(s.take(i)) > u64::MAX,
                digit_val(s[i]) >= 0,
        ;
        lemma_digits_prefix_exceeds(s, i + 1);
    }
}

/// The value a digit string denotes, if it fits in a `u32`.
pub open spec fn parse_u32_spec(s: Seq<char>) -> Option<u32> {
    if s.len() >= 1 && all_digits(s) && digits_val(s) <= u32::MAX {
        Some(digits_val(s) as u32)
    } else {
        None
    }
}

pub fn parse_u32_dec(s: &str) -> (r: Option<u32>)
    ensures
        r == parse_u32_spec(s@),
{
    match parse_u64_dec(s) {
        None => {
            proof {
                if s@.len() >= 1 && all_digits(s@) {
                    lemma_digits_val_nonneg(s@);
                }
            }
            None
        },
        Some(v) => {
            proof {
                if s@.len() >= 1 && all_digits(s@) {
                    lemma_digits_val_nonneg(s@);
                }
            }
            if v <= 0xffff_ffff {
                Some(v as u32)
            } else {
                None
            }
        },
    }
}

/// The decimal rendering parses back to the same value.
pub proof fn lemma_dec_roundtrip_u32(n: u32)
    ensures
        parse_u32_spec(dec_rep(n as int)) == Some(n),
{
    lemma_dec_rep_ok(n as int);
}

// ---------------------------------------------------------------------------
// Character search, prefixes, lines
// ---------------------------------------------------------------------------

/// Index of the first occurrence of `c` in `s`.
pub open spec fn find_char(s: Seq<char>, c: char) -> Option<int>
    decreases s.len(),
{
    if s.len() == 0 {
        None
    } else if s[0] == c {
        Some(0)
    } else {
        match find_char(s.drop_first(), c) {
            None => None,
            Some(i) => Some(i + 1),
        }
    }
}

pub proof fn lemma_find_char(s: Seq<char>, c: char)
    ensures
        match find_char(s, c) {
            None => forall|i: int| 0 <= i < s.len() ==> s[i] != c,
            Some(i) => 0 <= i < s.len() && s[i] == c && forall|j: int| 0 <= j < i ==> s[j] != c,
        },
    decreases s.len(),
{
    if s.len() > 0 && s[0] != c {
        lemma_find_char(s.drop_first(), c);
        assert(forall|j: int| 1 <= j < s.len() ==> s[j] == s.drop_first()[j - 1]);
    }
}

pub fn find_char_in(s: &str, c: char) -> (r: Option<usize>)
    ensures
        r matches Some(i) ==> find_char(s@, c) == Some(i as int) && i < s@.len(),
        r is None ==> find_char(s@, c) is None,
{
    let n = s.unicode_len();
    let mut i: usize = 0;
    while i < n
        invariant
            0 <= i <= n,
            n == s@.len(),
            forall|j: int| 0 <= j < i ==> s@[j] != c,
        decreases n - i,
    {
        if s.get_char(i) == c {
            proof {
                lemma_find_char(s@, c);
            }
            return Some(i);
        }
        i = i + 1;
    }
    proof {
        lemma_find_char(s@, c);
    }
    None
}

/// Splits at the first newline: the line before it and the remainder
/// after it.
pub open spec fn split_line(s: Seq<char>) -> Option<(Seq<char>, Seq<char>)> {
    match find_char(s, '\n') {
        None => None,
        Some(i) => Some((s.take(i), s.skip(i + 1))),
    }
}

pub fn split_line_at(s: &str) -> (r: Option<(&str, &str)>)
    ensures
        r is Some <==> split_line(s@) is Some,
        r matches Some((a, b)) ==> split_line(s@) == Some((a@, b@)),
{
    let n = s.unicode_len();
    match find_char_in(s, '\n') {
        None => None,
        Some(i) => {
            proof {
                lemma_find_char(s@, '\n');
            }
            let a = s.substring_char(0, i);
            let b = s.substring_char(i + 1, n);
            proof {
                assert(a@ =~= s@.take(i as int));
                assert(b@ =~= s@.skip(i + 1));
            }
            Some((a, b))
        },
    }
}

/// The remainder of `s` after the prefix `p`, if `s` starts with `p`.
pub open spec fn strip_prefix(s: Seq<char>, p: Seq<char>) -> Option<Seq<char>> {
    if p.len() <= s.len() && s.take(p.len() as int) == p {
        Some(s.skip(p.len() as int))
    } else {
        None
    }
}

pub fn strip_prefix_of<'a>(s: &'a str, p: &str) -> (r: Option<&'a str>)
    ensures
        r is Some <==> strip_prefix(s@, p@) is Some,
        r matches Some(t) ==> strip_prefix(s@, p@) == Some(t@),
{
    let sl = s.unicode_len();
    let pl = p.unicode_len();
    if pl > sl {
        return None;
    }
    let mut i: usize = 0;
    while i < pl
        invariant
            0 <= i <= pl <= sl,
            sl == s@.len(),
            pl == p@.len(),
            forall|j: int| 0 <= j < i ==> s@[j] == p@[j],
        decreases pl - i,
    {
        if s.get_char(i) != p.get_char(i) {
            proof {
                assert(s@.take(pl as int)[i as int] != p@[i as int]);
            }
            return None;
        }
        i = i + 1;
    }
    let t = s.substring_char(pl, sl);
    proof {
        assert(s@.take(pl as int) =~= p@);
        assert(t@ =~= s@.skip(pl as int));
    }
    Some(t)
}

// ---------------------------------------------------------------------------
// Comma-separated lists
// ---------------------------------------------------------------------------

/// The separator used when joining address lists.
pub open spec fn list_sep() -> Seq<char> {
    ", "@
}

/// The views of a sequence of strings.
pub open spec fn seq_views(v: Seq<String>) -> Seq<Seq<char>> {
    Seq::new(v.len(), |i: int| v[i]@)
}

/// Joins entries with `", "`.
pub open spec fn join_views(l: Seq<Seq<char>>) -> Seq<char>
    decreases l.len(),
{
    if l.len() == 0 {
        Seq::empty()
    } else if l.len() == 1 {
        l[0]
    } else {
        l[0] + list_sep() + join_views(l.drop_first())
    }
}

pub open spec fn sep_at(s: Seq<char>, i: int) -> bool {
    0 <= i && i + 2 <= s.len() && s[i] == ',' && s[i + 1] == ' '
}

/// Index of the first `", "` in `s`.
pub open spec fn find_sep(s: Seq<char>) -> Option<int>
    decreases s.len(),
{
    if s.len() < 2 {
        None
    } else if s[0] == ',' && s[1] == ' ' {
        Some(0)
    } else {
        match find_sep(s.drop_first()) {
            None => None,
            Some(i) => Some(i + 1),
        }
    }
}

pub proof fn lemma_find_sep(s: Seq<char>)
    ensures
        match find_sep(s) {
            None => forall|i: int| !sep_at(s, i),
            Some(i) => sep_at(s, i) && forall|j: int| 0 <= j < i ==> !sep_at(s, j),
        },
    decreases s.len(),
{
    if s.len() >= 2 && !(s[0] == ',' && s[1] == ' ') {
        lemma_find_sep(s.drop_first());
        assert(forall|j: int| 1 <= j && j + 2 <= s.len() ==> #[trigger] s[j] == s.drop_first()[j
            - 1] && s[j + 1] == s.drop_first()[j]);
        assert(forall|j: int| sep_at(s, j) && j >= 1 ==> sep_at(s.drop_first(), j - 1));
        assert(forall|j: int| sep_at(s.drop_first(), j) ==> sep_at(s, j + 1));
    }
}

/// Splits on each `", "`. Never returns an empty list.
///
/// The bounds test mirrors what `lemma_find_sep` guarantees of the
/// index, so that the recursion visibly shortens the sequence.
pub open spec fn split_views(s: Seq<char>) -> Seq<Seq<char>>
    decreases s.len(),
{
    match find_sep(s) {
        None => seq![s],
        Some(i) => if 0 <= i && i + 2 <= s.len() {
            seq![s.take(i)] + split_views(s.skip(i + 2))
        } else {
            seq![s]
        },
    }
}

/// Splitting on the separator and joining again restores the string.
pub proof fn lemma_join_split(s: Seq<char>)
    ensures
        split_views(s).len() >= 1,
        join_views(split_views(s)) == s,
    decreases s.len(),
{
    lemma_find_sep(s);
    reveal_strlit(", ");
    match find_sep(s) {
        None => {
            assert(join_views(seq![s]) == s);
        },
        Some(i) => {
            assert(sep_at(s, i));
            lemma_join_split(s.skip(i + 2));
            let rest = split_views(s.skip(i + 2));
            assert(split_views(s) =~= seq![s.take(i)] + rest);
            let whole = seq![s.take(i)] + rest;
            assert(whole.len() >= 2);
            assert(whole[0] == s.take(i));
            assert(whole.drop_first() =~= rest);
            assert(join_views(whole) == s.take(i) + list_sep() + s.skip(i + 2));
            assert(s.take(i) + list_sep() + s.skip(i + 2) =~= s);
        },
    }
}

fn find_sep_in(s: &str) -> (r: Option<usize>)
    ensures
        r matches Some(i) ==> find_sep(s@) == Some(i as int) && sep_at(s@, i as int),
        r is None ==> find_sep(s@) is None,
{
    let n = s.unicode_len();
    if n < 2 {
        proof {
            lemma_find_sep(s@);
        }
        return None;
    }
    let mut i: usize = 0;
    while i < n - 1
        invariant
            0 <= i <= n - 1,
            n == s@.len(),
            n >= 2,
            forall|j: int| 0 <= j < i ==> !sep_at(s@, j),
        decreases n - i,
    {
        if s.get_char(i) == ',' && s.get_char(i + 1) == ' ' {
            proof {
                assert(sep_at(s@, i as int));
                lemma_find_sep(s@);
            }
            return Some(i);
        }
        proof {
            assert(!sep_at(s@, i as int));
        }
        i = i + 1;
    }
    proof {
        lemma_find_sep(s@);
        assert(forall|j: int| sep_at(s@, j) ==> 0 <= j < n - 1);
    }
    None
}

/// Joins the entries of `v` with `", "`.
pub fn join_list(v: &Vec<String>) -> (r: String)
    ensures
        r@ == join_views(seq_views(v@)),
{
    let r = join_from(v, 0);
    proof {
        assert(seq_views(v@).skip(0) =~= seq_views(v@));
    }
    r
}

fn join_from(v: &Vec<String>, i: usize) -> (r: String)
    requires
        i <= v.len(),
    ensures
        r@ == join_views(seq_views(v@).skip(i as int)),
    decreases v.len() - i,
{
    let n = v.len();
    if i == n {
        let r = String::new();
        proof {
            assert(seq_views(v@).skip(i as int) =~= Seq::<Seq<char>>::empty());
        }
        r
    } else if i + 1 == n {
        let r = v[i].clone();
        proof {
            assert(seq_views(v@).skip(i as int).len() == 1);
            assert(seq_views(v@).skip(i as int)[0] == v@[i as int]@);
        }
        r
    } else {
        let mut r = v[i].clone();
        r.append(", ");
        let rest = join_from(v, i + 1);
        r.append(rest.as_str());
        proof {
            let l = seq_views(v@).skip(i as int);
            assert(l.len() >= 2);
            assert(l[0] == v@[i as int]@);
            assert(l.drop_first() =~= seq_views(v@).skip(i + 1));
            assert(r@ =~= l[0] + list_sep() + join_views(l.drop_first()));
        }
        r
    }
}

/// Splits `s` on each `", "`.
pub fn split_list(s: &str) -> (r: Vec<String>)
    ensures
        seq_views(r@) == split_views(s@),
        r@.len() >= 1,
    decreases s@.len(),
{
    match find_sep_in(s) {
        None => {
            let mut v: Vec<String> = Vec::new();
            v.push(String::from_str(s));
            proof {
                assert(seq_views(v@) =~= split_views(s@));
            }
            v
        },
        Some(i) => {
            let n = s.unicode_len();
            let head = s.substring_char(0, i);
            let tail = s.substring_char(i + 2, n);
            proof {
                assert(head@ =~= s@.take(i as int));
                assert(tail@ =~= s@.skip(i + 2));
            }
            let mut rest = split_list(tail);
            rest.insert(0, String::from_str(head));
            proof {
                assert(seq_views(rest@) =~= split_views(s@));
            }
            rest
        },
    }
}

// ---------------------------------------------------------------------------
// Substring search and equality
// ---------------------------------------------------------------------------

/// `p` occurs somewhere in `s`.
pub open spec fn contains_seq(s: Seq<char>, p: Seq<char>) -> bool {
    exists|i: int| 0 <= i && i + p.len() <= s.len() && #[trigger] s.subrange(i, i + p.len() as int)
        == p
}

/// Whether `s@.subrange(i, i + p@.len()) == p@`.
fn match_at(s: &str, i: usize, p: &str) -> (r: bool)
    requires
        i + p@.len() <= s@.len(),
    ensures
        r == (s@.subrange(i as int, i + p@.len() as int) == p@),
{
    let sl = s.unicode_len();
    let pl = p.unicode_len();
    let mut j: usize = 0;
    while j < pl
        invariant
            0 <= j <= pl,
            pl == p@.len(),
            sl == s@.len(),
            i + pl <= sl,
            forall|k: int| 0 <= k < j ==> s@[i + k] == p@[k],
        decreases pl - j,
    {
        if s.get_char(i + j) != p.get_char(j) {
            proof {
                assert(s@.subrange(i as int, i + pl as int)[j as int] != p@[j as int]);
            }
            return false;
        }
        j = j + 1;
    }
    proof {
        assert(s@.subrange(i as int, i + pl as int) =~= p@);
    }
    true
}

/// Substring search.
pub fn contains_substr(s: &str, p: &str) -> (r: bool)
    ensures
        r == contains_seq(s@, p@),
{
    let sl = s.unicode_len();
    let pl = p.unicode_len();
    if pl > sl {
        return false;
    }
    if pl == 0 {
        proof {
            assert(s@.subrange(0, 0 + p@.len() as int) =~= p@);
        }
        return true;
    }
    let mut i: usize = 0;
    while i <= sl - pl
        invariant
            0 <= i <= sl - pl + 1,
            1 <= pl <= sl,
            sl == s@.len(),
            pl == p@.len(),
            forall|k: int| 0 <= k < i ==> #[trigger] s@.subrange(k, k + p@.len() as int) != p@,
        decreases sl - i,
    {
        if match_at(s, i, p) {
            return true;
        }
        i = i + 1;
    }
    false
}

/// String equality over views.
pub fn str_eq(a: &str, b: &str) -> (r: bool)
    ensures
        r == (a@ == b@),
{
    let al = a.unicode_len();
    let bl = b.unicode_len();
    if al != bl {
        return false;
    }
    let r = match_at(a, 0, b);
    proof {
        assert(a@.subrange(0, a@.len() as int) =~= a@);
    }
    r
}

} // verus!
