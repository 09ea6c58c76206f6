//! What a user client reads from the web client's page: the API version it
//! uses, and the token of the Cloudflare challenge.
//!
//! The API version is read from the page's characters, since the pattern's
//! `\d` is a Unicode decimal digit. The challenge token is read from the
//! page's UTF-8 bytes: its pattern is ASCII, and in UTF-8 an ASCII byte only
//! ever encodes that ASCII character, so matching bytes is matching
//! characters.

use vstd::prelude::*;
use vstd::string::StringExecFns;
use crate::text::chars_of;

verus! {

/// `"API_VERSION":`.
pub open spec fn api_version_key() -> Seq<char> {
    seq!['"', 'A', 'P', 'I', '_', 'V', 'E', 'R', 'S', 'I', 'O', 'N', '"', ':']
}

/// Whether `c` is a Unicode decimal digit (general category Nd), as the
/// `regex` crate's `\d` matches it.
pub uninterp spec fn unicode_decimal_digit(c: char) -> bool;

/// Whether `c` is an ASCII decimal digit.
pub open spec fn is_ascii_digit(c: char) -> bool {
    48 <= (c as u32) <= 57
}

/// Whether `key` occurs in `s` at `p`.
pub open spec fn chars_occur_at(s: Seq<char>, key: Seq<char>, p: int) -> bool {
    0 <= p && p + key.len() <= s.len() && s.subrange(p, p + key.len()) == key
}

/// The length of the run of Unicode decimal digits of `s` from `start`.
pub open spec fn unicode_digit_run(s: Seq<char>, start: int) -> int
    decreases s.len() - start,
{
    if 0 <= start < s.len() && unicode_decimal_digit(s[start]) {
        1 + unicode_digit_run(s, start + 1)
    } else {
        0
    }
}

/// The length of the run of ASCII digits of `s` from `start`.
pub open spec fn ascii_digit_run(s: Seq<char>, start: int) -> int
    decreases s.len() - start,
{
    if 0 <= start < s.len() && is_ascii_digit(s[start]) {
        1 + ascii_digit_run(s, start + 1)
    } else {
        0
    }
}

/// The number that the ASCII digits `s[start..start + len]` spell.
pub open spec fn char_digits_value(s: Seq<char>, start: int, len: int) -> nat
    decreases len,
{
    if len <= 0 {
        0
    } else {
        char_digits_value(s, start, len - 1) * 10 + ((s[start + len - 1] as u32) - 48) as nat
    }
}

/// Whether the pattern `"API_VERSION":(\d+)` matches at `p`.
pub open spec fn api_version_matches_at(s: Seq<char>, p: int) -> bool {
    chars_occur_at(s, api_version_key(), p) && unicode_digit_run(s, p + api_version_key().len()) > 0
}

/// The leftmost position at or after `from` where the API version pattern
/// matches.
pub open spec fn first_api_version_match(s: Seq<char>, from: int) -> Option<int>
    decreases s.len() - from,
{
    if from < 0 || from >= s.len() {
        None
    } else if api_version_matches_at(s, from) {
        Some(from)
    } else {
        first_api_version_match(s, from + 1)
    }
}

/// The API version a page names: the digits that follow the first
/// `"API_VERSION":`, read as a `u8` (`str::parse::<u8>`). The errors: none
/// found; a number that does not fit (found among the leading ASCII
/// digits); a Unicode digit that is not an ASCII one.
pub open spec fn api_version_spec(s: Seq<char>) -> Result<u8, Seq<char>> {
    match first_api_version_match(s, 0) {
        None => Err("Failed to find API version"@),
        Some(p) => {
            let start = p + api_version_key().len();
            let a = ascii_digit_run(s, start);
            let v = char_digits_value(s, start, a);
            if v > 255 {
                Err("number too large to fit in target type"@)
            } else if a < unicode_digit_run(s, start) {
                Err("invalid digit found in string"@)
            } else {
                Ok(v as u8)
            }
        },
    }
}

/// `r:'` in ASCII.
pub open spec fn challenge_key() -> Seq<u8> {
    seq![114u8, 58u8, 39u8]
}

/// The ASCII apostrophe.
pub open spec fn apostrophe() -> u8 {
    39u8
}

/// Whether `b` is an ASCII decimal digit.
pub open spec fn is_digit(b: u8) -> bool {
    48 <= b <= 57
}

/// Whether `b` is a lower-case hexadecimal digit.
pub open spec fn is_hex(b: u8) -> bool {
    (48 <= b <= 57) || (97 <= b <= 102)
}

/// Whether `key` occurs in `s` at `p`.
pub open spec fn occurs_at(s: Seq<u8>, key: Seq<u8>, p: int) -> bool {
    0 <= p && p + key.len() <= s.len() && s.subrange(p, p + key.len()) == key
}

/// The length of the run of lower-case hexadecimal digits of `s` from
/// `start`.
pub open spec fn hex_run(s: Seq<u8>, start: int) -> int
    decreases s.len() - start,
{
    if 0 <= start < s.len() && is_hex(s[start]) {
        1 + hex_run(s, start + 1)
    } else {
        0
    }
}

/// Whether the pattern `r:'([a-f0-9]+)'` matches at `p`.
pub open spec fn challenge_matches_at(s: Seq<u8>, p: int) -> bool {
    let start = p + challenge_key().len();
    let end = start + hex_run(s, start);
    &&& occurs_at(s, challenge_key(), p)
    &&& hex_run(s, start) > 0
    &&& end < s.len()
    &&& s[end] == apostrophe()
}

/// The leftmost position at or after `from` where the challenge pattern
/// matches.
pub open spec fn first_challenge_match(s: Seq<u8>, from: int) -> Option<int>
    decreases s.len() - from,
{
    if from < 0 || from >= s.len() {
        None
    } else if challenge_matches_at(s, from) {
        Some(from)
    } else {
        first_challenge_match(s, from + 1)
    }
}

/// The number that the digits `s[start..start + len]` spell.
pub open spec fn digits_value(s: Seq<u8>, start: int, len: int) -> nat
    decreases len,
{
    if len <= 0 {
        0
    } else {
        digits_value(s, start, len - 1) * 10 + (s[start + len - 1] - 48) as nat
    }
}

/// The challenge token a page holds, if any.
pub open spec fn challenge_spec(s: Seq<u8>) -> Option<Seq<u8>> {
    match first_challenge_match(s, 0) {
        None => None,
        Some(p) => {
            let start = p + challenge_key().len();
            Some(s.subrange(start, start + hex_run(s, start)))
        },
    }
}

/// `regex`'s `\d` on one character: whether it is a Unicode decimal digit.
/// Its result is named `unicode_decimal_digit` (the `regex` documentation
/// gives `\d` as `\p{Nd}`). The pattern is valid and small, so it always
/// compiles.
#[verifier::external_body]
fn is_unicode_digit(c: char) -> (b: bool)
    ensures
        b == unicode_decimal_digit(c),
{
    let mut buf = [0u8; 4];
    match regex::Regex::new(r"^\d$") {
        Ok(re) => re.is_match(c.encode_utf8(&mut buf)),
        Err(_) => false,
    }
}

/// Whether `key` occurs in `s` at `p`.
pub fn chars_occur(s: &Vec<char>, key: &[char], p: usize) -> (b: bool)
    ensures
        b == chars_occur_at(s@, key@, p as int),
{
    if p > s.len() || key.len() > s.len() - p {
        return false;
    }
    let slen = s.len();
    let mut i: usize = 0;
    while i < key.len()
        invariant
            i <= key@.len(),
            slen == s@.len(),
            p + key@.len() <= s@.len(),
            forall|k: int| 0 <= k < i ==> s@[p + k] == key@[k],
        decreases key@.len() - i,
    {
        if s[p + i] != key[i] {
            assert(s@.subrange(p as int, p + key@.len())[i as int] != key@[i as int]);
            return false;
        }
        i = i + 1;
    }
    assert(s@.subrange(p as int, p + key@.len()) =~= key@);
    true
}

/// The length of the run of Unicode decimal digits of `s` from `start`.
pub fn count_unicode_digits(s: &Vec<char>, start: usize) -> (n: usize)
    requires
        start <= s@.len(),
    ensures
        n as int == unicode_digit_run(s@, start as int),
        start + n <= s@.len(),
{
    let mut end = start;
    while end < s.len() && is_unicode_digit(s[end])
        invariant
            start <= end <= s@.len(),
            unicode_digit_run(s@, start as int) == (end - start) + unicode_digit_run(s@, end as int),
        decreases s@.len() - end,
    {
        end = end + 1;
    }
    end - start
}

/// The length of the run of ASCII digits of `s` from `start`.
pub fn count_ascii_digits(s: &Vec<char>, start: usize) -> (n: usize)
    requires
        start <= s@.len(),
    ensures
        n as int == ascii_digit_run(s@, start as int),
        start + n <= s@.len(),
{
    let mut end = start;
    while end < s.len() && 48 <= (s[end] as u32) && (s[end] as u32) <= 57
        invariant
            start <= end <= s@.len(),
            ascii_digit_run(s@, start as int) == (end - start) + ascii_digit_run(s@, end as int),
        decreases s@.len() - end,
    {
        end = end + 1;
    }
    end - start
}

/// Every character inside an ASCII digit run is an ASCII digit.
pub proof fn lemma_ascii_digit_run_prefix(s: Seq<char>, start: int, k: int)
    requires
        start <= k < start + ascii_digit_run(s, start),
    ensures
        is_ascii_digit(s[k]),
    decreases k - start,
{
    if k > start {
        lemma_ascii_digit_run_prefix(s, start + 1, k);
    }
}

/// Reading more ASCII digits never makes the value smaller.
pub proof fn lemma_char_digits_value_grows(s: Seq<char>, start: int, i: int, len: int)
    requires
        0 <= i <= len,
        forall|k: int| start <= k < start + len ==> is_ascii_digit(#[trigger] s[k]),
    ensures
        char_digits_value(s, start, i) <= char_digits_value(s, start, len),
    decreases len - i,
{
    if i < len {
        lemma_char_digits_value_grows(s, start, i + 1, len);
        assert(char_digits_value(s, start, i + 1) == char_digits_value(s, start, i) * 10 + ((s[start
            + i] as u32) - 48) as nat);
    }
}

/// The value of the ASCII digits `s[start..start + len]`, or `None` once it
/// exceeds 255.
pub fn char_digits_to_u8(s: &Vec<char>, start: usize, len: usize) -> (r: Option<u8>)
    requires
        start + len <= s@.len(),
        forall|k: int| start <= k < start + len ==> is_ascii_digit(#[trigger] s@[k]),
    ensures
        match r {
            Some(v) => v as nat == char_digits_value(s@, start as int, len as int),
            None => char_digits_value(s@, start as int, len as int) > 255,
        },
{
    let slen = s.len();
    let mut acc: u64 = 0;
    let mut i: usize = 0;
    while i < len
        invariant
            i <= len,
            slen == s@.len(),
            start + len <= s@.len(),
            forall|k: int| start <= k < start + len ==> is_ascii_digit(#[trigger] s@[k]),
            acc as nat == char_digits_value(s@, start as int, i as int),
            acc <= 255,
        decreases len - i,
    {
        assert(is_ascii_digit(s@[start + i]));
        let d = ((s[start + i] as u32) - 48) as u64;
        acc = acc * 10 + d;
        i = i + 1;
        if acc > 255 {
            proof {
                lemma_char_digits_value_grows(s@, start as int, i as int, len as int);
            }
            return None;
        }
    }
    Some(acc as u8)
}

/// The API version the web client's page names: the digits after the
/// first `"API_VERSION":` that a digit follows, read as a `u8`.
pub fn parse_api_version(body: &str) -> (r: Result<u8, String>)
    ensures
        match (r, api_version_spec(body@)) {
            (Ok(a), Ok(b)) => a == b,
            (Err(a), Err(b)) => a@ == b,
            _ => false,
        },
{
    let s = chars_of(body);
    let key: [char; 14] = ['"', 'A', 'P', 'I', '_', 'V', 'E', 'R', 'S', 'I', 'O', 'N', '"', ':'];
    assert(key@ =~= api_version_key());
    let mut p: usize = 0;
    while p < s.len()
        invariant
            p <= s@.len(),
            s@ == body@,
            key@ == api_version_key(),
            first_api_version_match(s@, 0) == first_api_version_match(s@, p as int),
        decreases s@.len() - p,
    {
        if chars_occur(&s, key.as_slice(), p) {
            let start = p + 14;
            let n = count_unicode_digits(&s, start);
            if n > 0 {
                let a = count_ascii_digits(&s, start);
                proof {
                    assert forall|k: int| start <= k < start + a implies is_ascii_digit(
                        #[trigger] s@[k],
                    ) by {
                        lemma_ascii_digit_run_prefix(s@, start as int, k);
                    }
                }
                return match char_digits_to_u8(&s, start, a) {
                    None => Err(String::from_str("number too large to fit in target type")),
                    Some(v) => if a < n {
                        Err(String::from_str("invalid digit found in string"))
                    } else {
                        Ok(v)
                    },
                };
            }
        }
        p = p + 1;
    }
    Err(String::from_str("Failed to find API version"))
}

/// Whether `key` occurs in `s` at `p`.
pub fn bytes_occur_at(s: &[u8], key: &[u8], p: usize) -> (b: bool)
    ensures
        b == occurs_at(s@, key@, p as int),
{
    if p > s.len() || key.len() > s.len() - p {
        return false;
    }
    let slen = s.len();
    let mut i: usize = 0;
    while i < key.len()
        invariant
            i <= key@.len(),
            slen == s@.len(),
            p + key@.len() <= s@.len(),
            forall|k: int| 0 <= k < i ==> s@[p + k] == key@[k],
        decreases key@.len() - i,
    {
        if s[p + i] != key[i] {
            assert(s@.subrange(p as int, p + key@.len())[i as int] != key@[i as int]);
            return false;
        }
        i = i + 1;
    }
    assert(s@.subrange(p as int, p + key@.len()) =~= key@);
    true
}

/// The length of the run of lower-case hexadecimal digits of `s` from
/// `start`.
pub fn count_hex(s: &[u8], start: usize) -> (n: usize)
    requires
        start <= s@.len(),
    ensures
        n as int == hex_run(s@, start as int),
        start + n <= s@.len(),
{
    let mut end = start;
    while end < s.len() && ((48 <= s[end] && s[end] <= 57) || (97 <= s[end] && s[end] <= 102))
        invariant
            start <= end <= s@.len(),
            hex_run(s@, start as int) == (end - start) + hex_run(s@, end as int),
        decreases s@.len() - end,
    {
        end = end + 1;
    }
    end - start
}

/// Reading more digits never makes the value smaller.
pub proof fn lemma_digits_value_grows(s: Seq<u8>, start: int, i: int, len: int)
    requires
        0 <= i <= len,
        forall|k: int| start <= k < start + len ==> is_digit(#[trigger] s[k]),
    ensures
        digits_value(s, start, i) <= digits_value(s, start, len),
    decreases len - i,
{
    if i < len {
        lemma_digits_value_grows(s, start, i + 1, len);
        assert(digits_value(s, start, i + 1) == digits_value(s, start, i) * 10 + (s[start + i]
            - 48) as nat);
    }
}

/// The token of the Cloudflare challenge in the web client's page: the
/// hexadecimal digits of the first `r:'…'`.
pub fn parse_challenge_token(body: &[u8]) -> (r: Option<Vec<u8>>)
    ensures
        match r {
            Some(t) => challenge_spec(body@) == Some(t@),
            None => challenge_spec(body@) is None,
        },
{
    let key: [u8; 3] = [114u8, 58u8, 39u8];
    assert(key@ =~= challenge_key());
    let mut p: usize = 0;
    while p < body.len()
        invariant
            p <= body@.len(),
            key@ == challenge_key(),
            first_challenge_match(body@, 0) == first_challenge_match(body@, p as int),
        decreases body@.len() - p,
    {
        if bytes_occur_at(body, key.as_slice(), p) {
            let start = p + 3;
            let n = count_hex(body, start);
            if n > 0 && start + n < body.len() && body[start + n] == 39u8 {
                let mut t: Vec<u8> = Vec::new();
                let mut i: usize = start;
                let end = start + n;
                while i < end
                    invariant
                        end == start + n,
                        start <= i <= start + n <= body@.len(),
                        t@ == body@.subrange(start as int, i as int),
                    decreases end - i,
                {
                    t.push(body[i]);
                    i = i + 1;
                    assert(t@ =~= body@.subrange(start as int, i as int));
                }
                return Some(t);
            }
        }
        p = p + 1;
    }
    None
}

/// What the client does about the Cloudflare challenge.
#[derive(Clone, Copy, Debug, PartialEq, Eq, Structural)]
pub enum ClearanceStep {
    /// Solve it with the token found.
    Solve,
    /// Skip it: the page holds no challenge token.
    SkipNoToken,
    /// Skip it: the invisible challenge could not be set up.
    SkipSetupFailed,
}

/// Solving needs both the invisible challenge and the page's token; a
/// failed setup is reported before a missing token.
pub fn clearance_step(setup_ok: bool, has_token: bool) -> (s: ClearanceStep)
    ensures
        s == (if !setup_ok {
            ClearanceStep::SkipSetupFailed
        } else if !has_token {
            ClearanceStep::SkipNoToken
        } else {
            ClearanceStep::Solve
        }),
{
    if !setup_ok {
        ClearanceStep::SkipSetupFailed
    } else if !has_token {
        ClearanceStep::SkipNoToken
    } else {
        ClearanceStep::Solve
    }
}

} // verus!
