//! Characters, decimal numbers and space-separated tokens: the textual
//! ground the wire protocol is built on.

use vstd::prelude::*;

verus! {

/// The numeric value of a decimal digit character; 10 for anything else.
pub open spec fn digit_val(c: char) -> int {
    if c == '0' {
        0
    } else if c == '1' {
        1
    } else if c == '2' {
        2
    } else if c == '3' {
        3
    } else if c == '4' {
        4
    } else if c == '5' {
        5
    } else if c == '6' {
        6
    } else if c == '7' {
        7
    } else if c == '8' {
        8
    } else if c == '9' {
        9
    } else {
        10
    }
}

/// The decimal digit character for a value below 10; '9' otherwise.
pub open spec fn digit_char(d: int) -> char {
    if d == 0 {
        '0'
    } else if d == 1 {
        '1'
    } else if d == 2 {
        '2'
    } else if d == 3 {
        '3'
    } else if d == 4 {
        '4'
    } else if d == 5 {
        '5'
    } else if d == 6 {
        '6'
    } else if d == 7 {
        '7'
    } else if d == 8 {
        '8'
    } else {
        '9'
    }
}

pub open spec fn is_digit_char(c: char) -> bool {
    digit_val(c) < 10
}

pub open spec fn all_digits(s: Seq<char>) -> bool {
    forall|i: int| 0 <= i < s.len() ==> is_digit_char(#[trigger] s[i])
}

/// The value of a digit string read as a decimal number.
pub open spec fn dec_val(s: Seq<char>) -> int
    decreases s.len(),
{
    if s.len() == 0 {
        0
    } else {
        dec_val(s.drop_last()) * 10 + digit_val(s.last())
    }
}

/// The canonical decimal rendering of a number: no sign, no leading zeros.
pub open spec fn dec_chars(v: nat) -> Seq<char>
    decreases v,
{
    if v < 10 {
        seq![digit_char(v as int)]
    } else {
        dec_chars(v / 10).push(digit_char((v % 10) as int))
    }
}

/// The digits of a number token, behind an optional leading '+' sign.
pub open spec fn digits_part(tok: Seq<char>) -> Seq<char> {
    if tok.len() > 0 && tok[0] == '+' {
        tok.drop_first()
    } else {
        tok
    }
}

/// A token that reads as an unsigned decimal number: at least one digit,
/// nothing but digits after the optional leading '+'.
pub open spec fn is_number_token(tok: Seq<char>) -> bool {
    digits_part(tok).len() > 0 && all_digits(digits_part(tok))
}

/// The numeric value of a number token.
pub open spec fn token_val(tok: Seq<char>) -> int {
    dec_val(digits_part(tok))
}

pub proof fn lemma_dec_val_nonneg(s: Seq<char>)
    ensures
        dec_val(s) >= 0,
    decreases s.len(),
{
    if s.len() > 0 {
        lemma_dec_val_nonneg(s.drop_last());
    }
}

/// Reading more digits never shrinks the value: the value of a prefix is a
/// lower bound for the value of the whole digit string.
pub proof fn lemma_dec_val_prefix(s: Seq<char>, k: int)
    requires
        0 <= k <= s.len(),
    ensures
        dec_val(s.take(k)) <= dec_val(s),
    decreases s.len() - k,
{
    if k < s.len() {
        lemma_dec_val_prefix(s, k + 1);
        assert(s.take(k + 1).drop_last() =~= s.take(k));
        assert(s.take(k + 1).last() == s[k]);
        lemma_dec_val_nonneg(s.take(k));
        assert(dec_val(s.take(k + 1)) == dec_val(s.take(k)) * 10 + digit_val(s[k]));
    } else {
        assert(s.take(k) =~= s);
    }
}

/// The canonical rendering is made of digits only, is never empty, and
/// reads back as the number it renders.
pub proof fn lemma_dec_chars(v: nat)
    ensures
        dec_chars(v).len() >= 1,
        all_digits(dec_chars(v)),
        dec_val(dec_chars(v)) == v,
    decreases v,
{
    if v < 10 {
        let s = seq![digit_char(v as int)];
        assert(dec_chars(v) =~= s);
        assert(s.drop_last() =~= Seq::<char>::empty());
        assert(s.last() == digit_char(v as int));
        assert(dec_val(Seq::<char>::empty()) == 0);
        assert(dec_val(s) == digit_val(digit_char(v as int)));
    } else {
        lemma_dec_chars(v / 10);
        let pre = dec_chars(v / 10);
        let c = digit_char((v % 10) as int);
        assert(dec_chars(v) == pre.push(c));
        assert(pre.push(c).drop_last() =~= pre);
        assert(pre.push(c).last() == c);
        assert(digit_val(c) == v % 10);
        assert(dec_val(dec_chars(v)) == dec_val(pre) * 10 + digit_val(c));
        assert(all_digits(pre.push(c))) by {
            assert(forall|i: int|
                0 <= i < pre.len() ==> pre.push(c)[i] == #[trigger] pre[i]);
        }
    }
}

/// A digit character is never a space.
pub proof fn lemma_digits_no_space(s: Seq<char>)
    requires
        all_digits(s),
    ensures
        forall|i: int| 0 <= i < s.len() ==> s[i] != ' ',
{
    assert forall|i: int| 0 <= i < s.len() implies s[i] != ' ' by {
        assert(is_digit_char(s[i]));
    }
}

/// What a string splits to on single spaces: the empty string is one empty
/// token, and each space ends the token before it.
pub open spec fn split_spec(s: Seq<char>) -> Seq<Seq<char>>
    decreases s.len(),
{
    if s.len() == 0 {
        seq![Seq::<char>::empty()]
    } else if s[0] == ' ' {
        seq![Seq::<char>::empty()] + split_spec(s.drop_first())
    } else {
        let rest = split_spec(s.drop_first());
        seq![seq![s[0]] + rest[0]] + rest.drop_first()
    }
}

pub proof fn lemma_split_len(s: Seq<char>)
    ensures
        split_spec(s).len() >= 1,
    decreases s.len(),
{
    if s.len() > 0 {
        lemma_split_len(s.drop_first());
    }
}

/// A string without spaces splits to exactly itself.
pub proof fn lemma_split_no_space(t: Seq<char>)
    requires
        forall|i: int| 0 <= i < t.len() ==> t[i] != ' ',
    ensures
        split_spec(t) == seq![t],
    decreases t.len(),
{
    if t.len() == 0 {
        assert(split_spec(t) =~~= seq![t]);
    } else {
        assert(t[0] != ' ');
        lemma_split_no_space(t.drop_first());
        let rest = split_spec(t.drop_first());
        assert(rest == seq![t.drop_first()]);
        assert(rest.drop_first() =~= Seq::<Seq<char>>::empty());
        assert(seq![t[0]] + t.drop_first() =~= t);
        assert(split_spec(t) == seq![seq![t[0]] + rest[0]] + rest.drop_first());
        assert(split_spec(t) =~~= seq![t]);
    }
}

/// Splitting a string that starts with a space-free token, a space, and a
/// remainder yields that token followed by the split of the remainder.
pub proof fn lemma_split_sep(t: Seq<char>, rest: Seq<char>)
    requires
        forall|i: int| 0 <= i < t.len() ==> t[i] != ' ',
    ensures
        split_spec(t + seq![' '] + rest) == seq![t] + split_spec(rest),
    decreases t.len(),
{
    let s = t + seq![' '] + rest;
    if t.len() == 0 {
        assert(s[0] == ' ');
        assert(s.drop_first() =~= rest);
        assert(split_spec(s) =~~= seq![t] + split_spec(rest));
    } else {
        assert(s[0] == t[0]);
        assert(t[0] != ' ');
        assert(s.drop_first() =~= t.drop_first() + seq![' '] + rest);
        lemma_split_sep(t.drop_first(), rest);
        let inner = split_spec(t.drop_first() + seq![' '] + rest);
        assert(inner == seq![t.drop_first()] + split_spec(rest));
        lemma_split_len(rest);
        assert(inner[0] == t.drop_first());
        assert(seq![s[0]] + inner[0] =~= t);
        assert(inner.drop_first() =~= split_spec(rest));
        assert(split_spec(s.drop_first()) == inner);
        assert(split_spec(s) == seq![seq![s[0]] + inner[0]] + inner.drop_first());
        assert(split_spec(s) =~~= seq![t] + split_spec(rest));
    }
}

/// Characters of two equal-view strings agree; used to compare tokens.
pub fn str_eq(a: &str, b: &str) -> (r: bool)
    ensures
        r == (a@ == b@),
{
    let an = a.unicode_len();
    let bn = b.unicode_len();
    if an != bn {
        return false;
    }
    let mut i: usize = 0;
    while i < an
        invariant
            an == a@.len(),
            an == b@.len(),
            0 <= i <= an,
            forall|j: int| 0 <= j < i ==> a@[j] == b@[j],
        decreases an - i,
    {
        if a.get_char(i) != b.get_char(i) {
            return false;
        }
        i = i + 1;
    }
    proof {
        assert(a@ =~= b@);
    }
    true
}

/// The decimal digit character of a value below 10, as a one-character
/// string slice.
pub fn digit_str(d: u8) -> (r: &'static str)
    requires
        d < 10,
    ensures
        r@ == seq![digit_char(d as int)],
{
    proof {
        reveal_strlit("0");
        reveal_strlit("1");
        reveal_strlit("2");
        reveal_strlit("3");
        reveal_strlit("4");
        reveal_strlit("5");
        reveal_strlit("6");
        reveal_strlit("7");
        reveal_strlit("8");
        reveal_strlit("9");
    }
    match d {
        0 => "0",
        1 => "1",
        2 => "2",
        3 => "3",
        4 => "4",
        5 => "5",
        6 => "6",
        7 => "7",
        8 => "8",
        _ => "9",
    }
}

/// Render a number in decimal.
pub fn u128_to_string(v: u128) -> (r: String)
    ensures
        r@ == dec_chars(v as nat),
    decreases v,
{
    if v < 10 {
        let r = digit_str(v as u8).to_owned();
        proof {
            assert(r@ =~= dec_chars(v as nat));
        }
        r
    } else {
        let mut r = u128_to_string(v / 10);
        let d = digit_str((v % 10) as u8);
        r.append(d);
        proof {
            assert(r@ =~= dec_chars(v as nat));
        }
        r
    }
}

/// The digit value of a character, if it is one.
fn char_digit(c: char) -> (r: Option<u64>)
    ensures
        (match r {
            Some(d) => digit_val(c) == d && d < 10,
            None => digit_val(c) == 10,
        }),
{
    match c {
        '0' => Some(0),
        '1' => Some(1),
        '2' => Some(2),
        '3' => Some(3),
        '4' => Some(4),
        '5' => Some(5),
        '6' => Some(6),
        '7' => Some(7),
        '8' => Some(8),
        '9' => Some(9),
        _ => None,
    }
}

/// Parse a token as an unsigned decimal number of at most `max`, in the
/// shape Rust's unsigned parsers accept: an optional leading '+', then at
/// least one digit. Returns the value exactly when the token has that shape
/// and its value fits.
pub fn parse_bounded(tok: &str, max: u64) -> (r: Option<u64>)
    requires
        max <= u32::MAX,
    ensures
        (match r {
            Some(v) => is_number_token(tok@) && token_val(tok@) <= max && v == token_val(tok@),
            None => !(is_number_token(tok@) && token_val(tok@) <= max),
        }),
{
    let n = tok.unicode_len();
    let start: usize = if n > 0 && tok.get_char(0) == '+' {
        1
    } else {
        0
    };
    let ghost dp = digits_part(tok@);
    proof {
        assert(dp =~= tok@.subrange(start as int, n as int));
    }
    if start >= n {
        proof {
            assert(dp.len() == 0);
        }
        return None;
    }
    let mut acc: u64 = 0;
    let mut j: usize = start;
    while j < n
        invariant
            max <= u32::MAX,
            n == tok@.len(),
            start <= j <= n,
            dp == digits_part(tok@),
            dp =~= tok@.subrange(start as int, n as int),
            acc == dec_val(tok@.subrange(start as int, j as int)),
            all_digits(tok@.subrange(start as int, j as int)),
            acc <= max,
        decreases n - j,
    {
        let c = tok.get_char(j);
        let ghost pre = tok@.subrange(start as int, j as int);
        let ghost cur = tok@.subrange(start as int, j as int + 1);
        proof {
            assert(cur.drop_last() =~= pre);
            assert(cur.last() == tok@[j as int]);
        }
        let d = match char_digit(c) {
            Some(d) => d,
            None => {
                proof {
                    assert(!is_digit_char(dp[j - start]));
                }
                return None;
            },
        };
        proof {
            assert(all_digits(cur)) by {
                assert(forall|i: int| 0 <= i < pre.len() ==> cur[i] == #[trigger] pre[i]);
            }
        }
        if d > max || acc > (max - d) / 10 {
            proof {
                // The value read so far already exceeds the bound, and more
                // digits can only grow it.
                assert(dec_val(cur) == acc * 10 + d);
                if d > max {
                    assert(acc * 10 >= 0) by (nonlinear_arith)
                        requires
                            acc >= 0,
                    ;
                } else {
                    assert(acc * 10 + d > max) by (nonlinear_arith)
                        requires
                            acc > (max - d) / 10,
                            d < 10,
                            acc >= 0,
                            max >= d,
                    ;
                }
                if is_number_token(tok@) {
                    lemma_dec_val_prefix(dp, j + 1 - start as int);
                    assert(dp.take(j + 1 - start as int) =~= cur);
                }
            }
            return None;
        }
        acc = acc * 10 + d;
        j = j + 1;
        proof {
            assert(acc == dec_val(cur));
        }
    }
    proof {
        assert(tok@.subrange(start as int, n as int) =~= dp);
    }
    Some(acc)
}

/// Split a string on single space characters, as the wire protocol reads
/// its fields: the empty string is one empty token, and consecutive spaces
/// produce empty tokens between them.
pub fn split_str(s: &str) -> (toks: Vec<String>)
    ensures
        toks.deep_view() == split_spec(s@),
        toks.len() >= 1,
{
    let n = s.unicode_len();
    let mut toks: Vec<String> = Vec::new();
    let mut start: usize = 0;
    let mut i: usize = 0;
    proof {
        assert(s@.skip(0) =~= s@);
        assert(toks.deep_view() + split_spec(s@) =~= split_spec(s@));
    }
    while i < n
        invariant
            n == s@.len(),
            0 <= start <= i <= n,
            forall|k: int| start <= k < i ==> s@[k] != ' ',
            toks.deep_view() + split_spec(s@.skip(start as int)) =~= split_spec(s@),
        decreases n - i,
    {
        if s.get_char(i) == ' ' {
            let tok = s.substring_char(start, i).to_owned();
            proof {
                let t = s@.subrange(start as int, i as int);
                assert(s@.skip(start as int) =~= t + seq![' '] + s@.skip(i as int + 1));
                lemma_split_sep(t, s@.skip(i as int + 1));
                assert(toks.deep_view().push(t) =~= toks.deep_view() + seq![t]);
            }
            let ghost old_toks = toks.deep_view();
            toks.push(tok);
            proof {
                assert(toks.deep_view() =~= old_toks.push(s@.subrange(start as int, i as int)));
                assert(toks.deep_view() + split_spec(s@.skip(i as int + 1)) =~= split_spec(s@));
            }
            start = i + 1;
        }
        i = i + 1;
    }
    let tok = s.substring_char(start, n).to_owned();
    proof {
        let t = s@.subrange(start as int, n as int);
        assert(s@.skip(start as int) =~= t);
        lemma_split_no_space(t);
        assert(toks.deep_view().push(t) =~= toks.deep_view() + seq![t]);
    }
    let ghost old_toks = toks.deep_view();
    toks.push(tok);
    proof {
        assert(toks.deep_view() =~= old_toks.push(s@.subrange(start as int, n as int)));
        assert(toks.deep_view() =~= split_spec(s@));
    }
    toks
}

} // verus!
