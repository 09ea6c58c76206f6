//! Reading the user id out of a token. A token's first part, up to its
//! first `.`, is the user id's decimal digits in base64 (standard alphabet,
//! padding optional).

use vstd::prelude::*;
use crate::bootstrap::{digits_value, is_digit, lemma_digits_value_grows};
use crate::text::chars_of;

verus! {

/// The position of the first `.` of `t` at or after `i`, or the length of
/// `t` when there is none.
pub open spec fn first_dot_from(t: Seq<char>, i: int) -> int
    decreases t.len() - i,
{
    if i < 0 || i >= t.len() {
        t.len() as int
    } else if t[i] == '.' {
        i
    } else {
        first_dot_from(t, i + 1)
    }
}

/// The part of a token before its first `.` (all of it when it has none).
pub open spec fn id_part(t: Seq<char>) -> Seq<char> {
    t.subrange(0, first_dot_from(t, 0))
}

/// `s` without its base64 padding: one or two trailing `=`.
pub open spec fn unpadded(s: Seq<char>) -> Seq<char> {
    if s.len() >= 2 && s[s.len() - 1] == '=' && s[s.len() - 2] == '=' {
        s.subrange(0, s.len() - 2)
    } else if s.len() >= 1 && s[s.len() - 1] == '=' {
        s.subrange(0, s.len() - 1)
    } else {
        s
    }
}

/// The six bits a base64 character stands for.
pub open spec fn sextet(c: char) -> Option<u8> {
    let n = c as u32;
    if 65 <= n <= 90 {
        Some((n - 65) as u8)
    } else if 97 <= n <= 122 {
        Some((n - 71) as u8)
    } else if 48 <= n <= 57 {
        Some((n + 4) as u8)
    } else if n == 43 {
        Some(62u8)
    } else if n == 47 {
        Some(63u8)
    } else {
        None
    }
}

/// The value of the base64 character `s[i]` (meaningful when it is one).
pub open spec fn sx(s: Seq<char>, i: int) -> int {
    sextet(s[i])->0 as int
}

/// The bytes that unpadded base64 text stands for: each four characters
/// give three bytes, and a last group of two or three gives one or two.
pub open spec fn decode_groups(s: Seq<char>) -> Seq<u8>
    decreases s.len(),
{
    if s.len() < 2 {
        Seq::empty()
    } else if s.len() == 2 {
        seq![(sx(s, 0) * 4 + sx(s, 1) / 16) as u8]
    } else if s.len() == 3 {
        seq![(sx(s, 0) * 4 + sx(s, 1) / 16) as u8, ((sx(s, 1) % 16) * 16 + sx(s, 2) / 4) as u8]
    } else {
        seq![
            (sx(s, 0) * 4 + sx(s, 1) / 16) as u8,
            ((sx(s, 1) % 16) * 16 + sx(s, 2) / 4) as u8,
            ((sx(s, 2) % 4) * 64 + sx(s, 3)) as u8,
        ] + decode_groups(s.subrange(4, s.len() as int))
    }
}

/// Whether every character of `s` is a base64 character.
pub open spec fn all_sextets(s: Seq<char>) -> bool {
    forall|i: int| 0 <= i < s.len() ==> (#[trigger] sextet(s[i])) is Some
}

/// The bytes base64 text stands for, or `None` when it holds a character
/// outside the alphabet or ends in a lone character.
pub open spec fn base64_decode(s: Seq<char>) -> Option<Seq<u8>> {
    let body = unpadded(s);
    if all_sextets(body) && body.len() % 4 != 1 {
        Some(decode_groups(body))
    } else {
        None
    }
}

/// The length of the sign of decimal text: 1 for a leading `+`, else 0.
pub open spec fn sign_len(b: Seq<u8>) -> int {
    if b.len() > 0 && b[0] == 43 {
        1
    } else {
        0
    }
}

/// The unsigned 64-bit number decimal text spells (`str::parse::<u64>`):
/// an optional `+`, then one or more ASCII digits, the value fitting.
pub open spec fn parse_u64_spec(b: Seq<u8>) -> Option<u64> {
    let st = sign_len(b);
    let n = b.len() - st;
    if n > 0 && (forall|k: int| st <= k < b.len() ==> is_digit(#[trigger] b[k])) && digits_value(
        b,
        st,
        n,
    ) <= u64::MAX {
        Some(digits_value(b, st, n) as u64)
    } else {
        None
    }
}

/// The user id a token names, if its first part reads as one.
pub open spec fn token_user_id(t: Seq<char>) -> Option<u64> {
    match base64_decode(id_part(t)) {
        Some(b) => parse_u64_spec(b),
        None => None,
    }
}

/// `Some` of `p + x` for `Some(x)`, `None` for `None`.
pub open spec fn prepend(p: Seq<u8>, o: Option<Seq<u8>>) -> Option<Seq<u8>> {
    match o {
        Some(x) => Some(p + x),
        None => None,
    }
}

/// The six bits a base64 character stands for.
pub fn sextet_of(c: char) -> (r: Option<u8>)
    ensures
        r == sextet(c),
{
    let n = c as u32;
    if 65 <= n && n <= 90 {
        Some((n - 65) as u8)
    } else if 97 <= n && n <= 122 {
        Some((n - 71) as u8)
    } else if 48 <= n && n <= 57 {
        Some((n + 4) as u8)
    } else if n == 43 {
        Some(62u8)
    } else if n == 47 {
        Some(63u8)
    } else {
        None
    }
}

/// The value of a character known to be a base64 character.
fn sextet_value(c: char) -> (r: u8)
    requires
        sextet(c) is Some,
    ensures
        r == sextet(c)->0,
        r < 64,
{
    match sextet_of(c) {
        Some(v) => v,
        None => 0,
    }
}

/// Decodes the base64 text `s[0..n]`, whose characters are all base64 and
/// whose length does not leave a lone character.
fn decode_prefix(s: &Vec<char>, n: usize) -> (out: Vec<u8>)
    requires
        n <= s@.len(),
        all_sextets(s@.subrange(0, n as int)),
        n % 4 != 1,
    ensures
        out@ == decode_groups(s@.subrange(0, n as int)),
{
    let ghost body = s@.subrange(0, n as int);
    let mut out: Vec<u8> = Vec::new();
    let mut i: usize = 0;
    assert(body.subrange(0, n as int) =~= body);
    assert(out@ + decode_groups(body) =~= decode_groups(body));
    while n - i >= 4
        invariant
            i <= n <= s@.len(),
            i % 4 == 0,
            body == s@.subrange(0, n as int),
            all_sextets(body),
            decode_groups(body) == out@ + decode_groups(body.subrange(i as int, n as int)),
        decreases n - i,
    {
        let ghost rest = body.subrange(i as int, n as int);
        assert(sextet(body[i as int]) is Some);
        assert(sextet(body[i + 1]) is Some);
        assert(sextet(body[i + 2]) is Some);
        assert(sextet(body[i + 3]) is Some);
        let a = sextet_value(s[i]);
        let b = sextet_value(s[i + 1]);
        let c = sextet_value(s[i + 2]);
        let d = sextet_value(s[i + 3]);
        let b0: u8 = a * 4 + b / 16;
        let b1: u8 = (b % 16) * 16 + c / 4;
        let b2: u8 = (c % 4) * 64 + d;
        proof {
            assert(rest.subrange(4, rest.len() as int) =~= body.subrange(i + 4, n as int));
            assert(sx(rest, 0) == a && sx(rest, 1) == b && sx(rest, 2) == c && sx(rest, 3) == d);
        }
        let ghost before = out@;
        out.push(b0);
        out.push(b1);
        out.push(b2);
        i = i + 4;
        proof {
            assert(out@ =~= before + seq![b0, b1, b2]);
            assert(decode_groups(rest) == seq![b0, b1, b2] + decode_groups(
                body.subrange(i as int, n as int),
            ));
            assert(out@ + decode_groups(body.subrange(i as int, n as int)) =~= before
                + decode_groups(rest));
        }
    }
    let ghost rest = body.subrange(i as int, n as int);
    if i + 2 <= n {
        assert(sextet(body[i as int]) is Some);
        assert(sextet(body[i + 1]) is Some);
        let a = sextet_value(s[i]);
        let b = sextet_value(s[i + 1]);
        assert(sx(rest, 0) == a && sx(rest, 1) == b);
        let ghost before = out@;
        out.push(a * 4 + b / 16);
        if i + 3 <= n {
            assert(sextet(body[i + 2]) is Some);
            let c = sextet_value(s[i + 2]);
            assert(sx(rest, 2) == c);
            out.push((b % 16) * 16 + c / 4);
        }
        proof {
            assert(out@ =~= before + decode_groups(rest));
        }
    } else {
        assert(rest.len() == 0);
        assert(out@ =~= out@ + decode_groups(rest));
    }
    out
}

/// Decodes base64 text, padding optional: `None` when a character is
/// outside the standard alphabet or the text ends in a lone character.
pub fn base64_decode_chars(s: &Vec<char>) -> (r: Option<Vec<u8>>)
    ensures
        match r {
            Some(b) => base64_decode(s@) == Some(b@),
            None => base64_decode(s@) is None,
        },
{
    let len = s.len();
    let n: usize = if len >= 2 && s[len - 1] == '=' && s[len - 2] == '=' {
        len - 2
    } else if len >= 1 && s[len - 1] == '=' {
        len - 1
    } else {
        len
    };
    let ghost body = s@.subrange(0, n as int);
    assert(body =~= unpadded(s@));
    let mut i: usize = 0;
    while i < n
        invariant
            i <= n <= s@.len(),
            body == s@.subrange(0, n as int),
            body == unpadded(s@),
            forall|k: int| 0 <= k < i ==> (#[trigger] sextet(body[k])) is Some,
        decreases n - i,
    {
        if sextet_of(s[i]).is_none() {
            assert(sextet(body[i as int]) is None);
            return None;
        }
        i = i + 1;
    }
    if n % 4 == 1 {
        return None;
    }
    Some(decode_prefix(s, n))
}

/// The unsigned 64-bit number the decimal text `b` spells
/// (`str::parse::<u64>`): an optional `+`, then ASCII digits.
pub fn parse_u64_bytes(b: &Vec<u8>) -> (r: Option<u64>)
    ensures
        r == parse_u64_spec(b@),
{
    let st: usize = if b.len() > 0 && b[0] == 43 {
        1
    } else {
        0
    };
    let len = b.len();
    if st == len {
        return None;
    }
    let mut k = st;
    while k < len
        invariant
            st <= k <= len,
            len == b@.len(),
            st as int == sign_len(b@),
            forall|j: int| st <= j < k ==> is_digit(#[trigger] b@[j]),
        decreases len - k,
    {
        if b[k] < 48 || b[k] > 57 {
            assert(!is_digit(b@[k as int]));
            return None;
        }
        k = k + 1;
    }
    let n = len - st;
    let mut acc: u64 = 0;
    let mut i: usize = 0;
    while i < n
        invariant
            i <= n,
            n == len - st,
            len == b@.len(),
            st as int == sign_len(b@),
            forall|j: int| st <= j < len ==> is_digit(#[trigger] b@[j]),
            acc as nat == digits_value(b@, st as int, i as int),
        decreases n - i,
    {
        assert(is_digit(b@[st + i]));
        let d = (b[st + i] - 48) as u64;
        let ghost before = acc;
        match acc.checked_mul(10) {
            Some(m) => match m.checked_add(d) {
                Some(v) => {
                    acc = v;
                },
                None => {
                    proof {
                        lemma_digits_value_grows(b@, st as int, i + 1, n as int);
                    }
                    return None;
                },
            },
            None => {
                proof {
                    lemma_digits_value_grows(b@, st as int, i + 1, n as int);
                }
                return None;
            },
        }
        i = i + 1;
    }
    Some(acc)
}

/// The user id a token names: its part before the first `.`, decoded from
/// base64, read as a decimal number. `None` when it does not read as one.
pub fn parse_id_from_token(token: &str) -> (r: Option<u64>)
    ensures
        r == token_user_id(token@),
{
    let v = chars_of(token);
    let mut end: usize = 0;
    while end < v.len() && v[end] != '.'
        invariant
            end <= v@.len(),
            v@ == token@,
            first_dot_from(token@, 0) == first_dot_from(token@, end as int),
        decreases v@.len() - end,
    {
        end = end + 1;
    }
    let mut part: Vec<char> = Vec::new();
    let mut i: usize = 0;
    while i < end
        invariant
            i <= end <= v@.len(),
            part@ == v@.subrange(0, i as int),
        decreases end - i,
    {
        part.push(v[i]);
        i = i + 1;
        assert(part@ =~= v@.subrange(0, i as int));
    }
    assert(part@ == id_part(token@));
    match base64_decode_chars(&part) {
        Some(bytes) => parse_u64_bytes(&bytes),
        None => None,
    }
}

} // verus!
