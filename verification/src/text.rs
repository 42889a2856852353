//! Text helpers shared by the snapshot and the renderer: ASCII case
//! folding, string comparison, decimal formatting and parsing, and joining
//! lines with newlines.

use vstd::prelude::*;

verus! {

/// ASCII lower-casing of one character; other characters are unchanged.
pub open spec fn lower_char(c: char) -> char {
    if 65 <= c as u32 && c as u32 <= 90 {
        ((c as u32) + 32) as char
    } else {
        c
    }
}

/// ASCII lower-casing of a whole character sequence.
pub open spec fn lower_seq(s: Seq<char>) -> Seq<char> {
    s.map_values(|c: char| lower_char(c))
}

/// The view of an optional string.
pub open spec fn opt_view(o: Option<String>) -> Option<Seq<char>> {
    match o {
        Some(s) => Some(s@),
        None => None,
    }
}

pub fn to_ascii_lower(c: char) -> (r: char)
    ensures
        r == lower_char(c),
{
    let u = c as u32;
    if 65 <= u && u <= 90 {
        let b = (u + 32) as u8;
        proof {
            assert(b == u + 32) by (bit_vector)
                requires
                    65 <= u && u <= 90,
                    b == ((u + 32) as u8),
            ;
        }
        b as char
    } else {
        c
    }
}

/// Character-wise string equality, stated over the views.
pub fn str_eq(a: &str, b: &str) -> (r: bool)
    ensures
        r == (a@ == b@),
{
    let alen = a.unicode_len();
    let blen = b.unicode_len();
    if alen != blen {
        return false;
    }
    let mut i: usize = 0;
    while i < alen
        invariant
            alen == a@.len(),
            alen == b@.len(),
            i <= alen,
            forall|j: int| 0 <= j < i ==> a@[j] == b@[j],
        decreases alen - i,
    {
        if a.get_char(i) != b.get_char(i) {
            return false;
        }
        i += 1;
    }
    proof {
        assert(a@ =~= b@);
    }
    true
}

/// Case-insensitive string equality: equality of the lower-cased views.
pub fn str_eq_ci(a: &str, b: &str) -> (r: bool)
    ensures
        r == (lower_seq(a@) == lower_seq(b@)),
{
    let alen = a.unicode_len();
    let blen = b.unicode_len();
    if alen != blen {
        proof {
            assert(lower_seq(a@).len() == a@.len());
            assert(lower_seq(b@).len() == b@.len());
        }
        return false;
    }
    let mut i: usize = 0;
    while i < alen
        invariant
            alen == a@.len(),
            alen == b@.len(),
            i <= alen,
            forall|j: int| 0 <= j < i ==> lower_char(a@[j]) == lower_char(b@[j]),
        decreases alen - i,
    {
        if to_ascii_lower(a.get_char(i)) != to_ascii_lower(b.get_char(i)) {
            proof {
                assert(lower_seq(a@)[i as int] == lower_char(a@[i as int]));
                assert(lower_seq(b@)[i as int] == lower_char(b@[i as int]));
            }
            return false;
        }
        i += 1;
    }
    proof {
        assert(lower_seq(a@) =~= lower_seq(b@));
    }
    true
}

/// The decimal digit characters, in order.
pub open spec fn digit_char(d: int) -> char {
    if d == 0 {
        '0'
    } else if d == 1 {
        '1'
    } else if d == 2 {
        '2'
    } else if d == 3 {
        '3'
    } else if d == 4 {
        '4'
    } else if d == 5 {
        '5'
    } else if d == 6 {
        '6'
    } else if d == 7 {
        '7'
    } else if d == 8 {
        '8'
    } else {
        '9'
    }
}

/// The decimal notation of a natural number, without leading zeros.
pub open spec fn dec_str(n: nat) -> Seq<char>
    decreases n,
{
    if n < 10 {
        seq![digit_char(n as int)]
    } else {
        dec_str(n / 10).push(digit_char((n % 10) as int))
    }
}

/// A digit character.
pub open spec fn is_digit(c: char) -> bool {
    48 <= c as u32 && c as u32 <= 57
}

pub open spec fn all_digits(s: Seq<char>) -> bool {
    forall|i: int| 0 <= i < s.len() ==> is_digit(s[i])
}

/// The numeric value of a digit character.
pub open spec fn digit_val(c: char) -> int {
    c as u32 - 48
}

/// The numeric value of a digit sequence read as a decimal number.
pub open spec fn dec_val(s: Seq<char>) -> int
    decreases s.len(),
{
    if s.len() == 0 {
        0
    } else {
        dec_val(s.drop_last()) * 10 + digit_val(s.last())
    }
}

fn digit_str(d: u128) -> (r: &'static str)
    requires
        d < 10,
    ensures
        r@ =~= seq![digit_char(d as int)],
{
    proof {
        reveal_strlit("0");
        reveal_strlit("1");
        reveal_strlit("2");
        reveal_strlit("3");
        reveal_strlit("4");
        reveal_strlit("5");
        reveal_strlit("6");
        reveal_strlit("7");
        reveal_strlit("8");
        reveal_strlit("9");
    }
    if d == 0 {
        "0"
    } else if d == 1 {
        "1"
    } else if d == 2 {
        "2"
    } else if d == 3 {
        "3"
    } else if d == 4 {
        "4"
    } else if d == 5 {
        "5"
    } else if d == 6 {
        "6"
    } else if d == 7 {
        "7"
    } else if d == 8 {
        "8"
    } else {
        "9"
    }
}

/// Decimal notation of an unsigned number.
pub fn u128_to_string(n: u128) -> (s: String)
    ensures
        s@ == dec_str(n as nat),
    decreases n,
{
    if n < 10 {
        String::from_str(digit_str(n))
    } else {
        let mut s = u128_to_string(n / 10);
        s.append(digit_str(n % 10));
        proof {
            assert(s@ =~= dec_str(n as nat));
        }
        s
    }
}

/// Decimal notation of a signed number: a minus sign before the digits of
/// its magnitude when negative.
pub open spec fn int_str(v: int) -> Seq<char> {
    if v < 0 {
        seq!['-'] + dec_str((-v) as nat)
    } else {
        dec_str(v as nat)
    }
}

pub fn i64_to_string(v: i64) -> (s: String)
    ensures
        s@ == int_str(v as int),
{
    if v < 0 {
        let mag: u128 = (-(v as i128)) as u128;
        let mut s = String::from_str("-");
        let digits = u128_to_string(mag);
        s.append(digits.as_str());
        proof {
            reveal_strlit("-");
            assert(s@ =~= int_str(v as int));
        }
        s
    } else {
        u128_to_string(v as u128)
    }
}

/// What parsing a decimal string yields: the numeric value when the string
/// is nonempty, all digits, and the value fits; nothing otherwise.
pub open spec fn spec_parse_u32(s: Seq<char>) -> Option<u32> {
    if s.len() > 0 && all_digits(s) && dec_val(s) <= u32::MAX {
        Some(dec_val(s) as u32)
    } else {
        None
    }
}

/// Parses a string of decimal digits.
pub fn parse_u32(s: &str) -> (r: Option<u32>)
    ensures
        r == spec_parse_u32(s@),
{
    let len = s.unicode_len();
    if len == 0 {
        return None;
    }
    let mut acc: u32 = 0;
    let mut i: usize = 0;
    while i < len
        invariant
            len == s@.len(),
            0 < len,
            i <= len,
            all_digits(s@.take(i as int)),
            acc == dec_val(s@.take(i as int)),
        decreases len - i,
    {
        let c = s.get_char(i);
        let u = c as u32;
        if u < 48 || 57 < u {
            proof {
                assert(!is_digit(s@[i as int]));
            }
            return None;
        }
        let d = u - 48;
        if acc > (u32::MAX - d) / 10 {
            proof {
                if all_digits(s@) {
                    lemma_dec_val_grows(s@, i as int);
                }
            }
            return None;
        }
        acc = acc * 10 + d;
        proof {
            assert(s@.take(i + 1 as int).drop_last() =~= s@.take(i as int));
            assert(s@.take(i + 1 as int).last() == s@[i as int]);
        }
        i += 1;
    }
    proof {
        assert(s@.take(len as int) =~= s@);
    }
    Some(acc)
}

/// A digit-prefix of a digit string never exceeds the whole string's value.
proof fn lemma_dec_val_grows(s: Seq<char>, i: int)
    requires
        0 <= i < s.len(),
        all_digits(s),
        dec_val(s.take(i)) * 10 + digit_val(s[i]) > u32::MAX,
    ensures
        dec_val(s) > u32::MAX,
    decreases s.len() - i,
{
    if i == s.len() - 1 {
        assert(s.take(i) =~= s.drop_last());
    } else {
        assert(dec_val(s.take(i)) * 10 + digit_val(s[i]) > u32::MAX);
        assert(s.take(i + 1).drop_last() =~= s.take(i));
        assert(s.take(i + 1).last() == s[i]);
        assert(dec_val(s.take(i + 1)) == dec_val(s.take(i)) * 10 + digit_val(s[i]));
        assert(is_digit(s[i + 1]));
        assert(dec_val(s.take(i + 1)) * 10 + digit_val(s[i + 1]) > u32::MAX);
        lemma_dec_val_grows(s, i + 1);
    }
}

/// The pieces joined by the separator.
pub open spec fn join_sep(xs: Seq<Seq<char>>, sep: Seq<char>) -> Seq<char>
    decreases xs.len(),
{
    if xs.len() == 0 {
        Seq::empty()
    } else if xs.len() == 1 {
        xs[0]
    } else {
        join_sep(xs.drop_last(), sep) + sep + xs.last()
    }
}

pub fn join_with(xs: &Vec<String>, sep: &str) -> (r: String)
    ensures
        r@ == join_sep(xs.deep_view(), sep@),
{
    let mut r = String::new();
    let mut i: usize = 0;
    proof {
        assert(xs.deep_view().take(0) =~= Seq::<Seq<char>>::empty());
    }
    while i < xs.len()
        invariant
            i <= xs.len(),
            xs.deep_view().len() == xs.len(),
            forall|j: int| 0 <= j < xs.len() ==> xs.deep_view()[j] == xs[j]@,
            r@ == join_sep(xs.deep_view().take(i as int), sep@),
        decreases xs.len() - i,
    {
        if i > 0 {
            r.append(sep);
        }
        r.append(xs[i].as_str());
        proof {
            let dv = xs.deep_view();
            assert(dv.take(i + 1 as int).drop_last() =~= dv.take(i as int));
            assert(dv.take(i + 1 as int).last() == dv[i as int]);
            assert(r@ =~= join_sep(dv.take(i + 1 as int), sep@));
        }
        i += 1;
    }
    proof {
        assert(xs.deep_view().take(xs.len() as int) =~= xs.deep_view());
    }
    r
}

/// `n` copies of a piece of text, one after the other.
pub open spec fn repeat_seq(s: Seq<char>, n: nat) -> Seq<char>
    decreases n,
{
    if n == 0 {
        Seq::empty()
    } else {
        repeat_seq(s, (n - 1) as nat) + s
    }
}

pub fn repeat_str(s: &str, n: usize) -> (r: String)
    ensures
        r@ == repeat_seq(s@, n as nat),
{
    let mut r = String::new();
    let mut i: usize = 0;
    while i < n
        invariant
            i <= n,
            r@ == repeat_seq(s@, i as nat),
        decreases n - i,
    {
        r.append(s);
        i += 1;
    }
    r
}

/// The part of a path after its last slash: the whole path when it has no
/// slash, empty when it ends in one.
pub open spec fn spec_basename(f: Seq<char>) -> Seq<char>
    decreases f.len(),
{
    if f.len() == 0 {
        f
    } else if f.last() == '/' {
        Seq::empty()
    } else {
        spec_basename(f.drop_last()).push(f.last())
    }
}

pub fn basename(f: &str) -> (r: String)
    ensures
        r@ == spec_basename(f@),
{
    let len = f.unicode_len();
    let mut r = String::new();
    let mut i: usize = len;
    while i > 0
        invariant
            len == f@.len(),
            i <= len,
            r@ == f@.skip(i as int),
            forall|j: int| i <= j < len ==> f@[j] != '/',
        decreases i,
    {
        let c = f.get_char(i - 1);
        if c == '/' {
            proof {
                lemma_basename_after_slash(f@, i as int);
            }
            return r;
        }
        let mut r2 = String::new();
        push_char_at(&mut r2, f, i - 1);
        r2.append(r.as_str());
        proof {
            assert(r2@ =~= f@.skip(i - 1 as int));
        }
        r = r2;
        i -= 1;
    }
    proof {
        lemma_basename_full(f@);
        assert(r@ =~= spec_basename(f@));
    }
    r
}

/// When position `i - 1` holds the last slash, the basename is exactly the
/// text after it.
proof fn lemma_basename_after_slash(f: Seq<char>, i: int)
    requires
        1 <= i <= f.len(),
        f[i - 1] == '/',
        forall|j: int| i <= j < f.len() ==> f[j] != '/',
    ensures
        spec_basename(f) == f.skip(i),
    decreases f.len() - i,
{
    if i == f.len() {
        assert(f.last() == '/');
        assert(f.skip(i) =~= Seq::<char>::empty());
    } else {
        assert(f.last() != '/');
        lemma_basename_after_slash(f.drop_last(), i);
        assert(f.drop_last().skip(i) =~= f.skip(i).drop_last());
        assert(spec_basename(f) =~= f.skip(i));
    }
}

/// A path with no slash at all is its own basename.
proof fn lemma_basename_full(f: Seq<char>)
    requires
        forall|j: int| 0 <= j < f.len() ==> f[j] != '/',
    ensures
        spec_basename(f) == f,
    decreases f.len(),
{
    if f.len() > 0 {
        lemma_basename_full(f.drop_last());
        assert(spec_basename(f) =~= f);
    }
}

/// Appends the character at position `i` of `f`.
pub fn push_char_at(s: &mut String, f: &str, i: usize)
    requires
        i < f@.len(),
        i < usize::MAX,
    ensures
        final(s)@ == old(s)@.push(f@[i as int]),
{
    let piece = f.substring_char(i, i + 1);
    s.append(piece);
    proof {
        assert(old(s)@ + f@.subrange(i as int, i + 1 as int) =~= old(s)@.push(f@[i as int]));
    }
}

/// `n` copies of one character.
pub open spec fn repeat_char(c: char, n: nat) -> Seq<char>
    decreases n,
{
    if n == 0 {
        Seq::empty()
    } else {
        repeat_char(c, (n - 1) as nat).push(c)
    }
}

/// Appends `n` newline characters.
pub fn push_newlines(s: &mut String, n: usize)
    ensures
        final(s)@ == old(s)@ + repeat_char('\n', n as nat),
{
    let mut i: usize = 0;
    while i < n
        invariant
            i <= n,
            s@ == old(s)@ + repeat_char('\n', i as nat),
        decreases n - i,
    {
        s.append("\n");
        proof {
            reveal_strlit("\n");
            assert(s@ =~= old(s)@ + repeat_char('\n', (i + 1) as nat));
        }
        i += 1;
    }
}

/// A copy of an optional string.
pub fn opt_str_clone(o: &Option<String>) -> (r: Option<String>)
    ensures
        r == *o,
{
    match o {
        Some(s) => Some(s.clone()),
        None => None,
    }
}

/// View-level equality of two optional strings.
pub fn opt_str_eq(a: &Option<String>, b: &Option<String>) -> (r: bool)
    ensures
        r == (opt_view(*a) == opt_view(*b)),
{
    match (a, b) {
        (None, None) => true,
        (Some(x), Some(y)) => *x == *y,
        _ => false,
    }
}

} // verus!
