//! Text forms used on the wire: decimal numerals and hyphenated UUIDs.

use vstd::prelude::*;
use vstd::arithmetic::power::pow;

verus! {

/// The character of a decimal digit.
pub open spec fn digit_char(d: nat) -> char {
    if d == 0 { '0' }
    else if d == 1 { '1' }
    else if d == 2 { '2' }
    else if d == 3 { '3' }
    else if d == 4 { '4' }
    else if d == 5 { '5' }
    else if d == 6 { '6' }
    else if d == 7 { '7' }
    else if d == 8 { '8' }
    else { '9' }
}

/// The decimal numeral of `n`, most significant digit first, without leading zeros.
pub open spec fn decimal(n: nat) -> Seq<char>
    decreases n,
{
    if n < 10 {
        seq![digit_char(n)]
    } else {
        decimal(n / 10) + seq![digit_char(n % 10)]
    }
}

/// The lower-case hexadecimal character of a digit below 16.
pub open spec fn hex_char(d: nat) -> char {
    if d < 10 { digit_char(d) }
    else if d == 10 { 'a' }
    else if d == 11 { 'b' }
    else if d == 12 { 'c' }
    else if d == 13 { 'd' }
    else if d == 14 { 'e' }
    else { 'f' }
}

/// The `k`-th hexadecimal digit of a 128-bit value, counted from the most significant one.
pub open spec fn nibble(id: u128, k: int) -> nat {
    ((id as int / pow(16, (31 - k) as nat)) % 16) as nat
}

/// How many hyphens stand before position `i` of a hyphenated UUID.
pub open spec fn hyphens_before(i: int) -> int {
    if i <= 8 { 0 } else if i <= 13 { 1 } else if i <= 18 { 2 } else if i <= 23 { 3 } else { 4 }
}

/// The hyphenated form of a UUID given by its 128-bit big-endian value:
/// 32 lower-case hexadecimal digits in groups of 8-4-4-4-12, joined by `-`.
pub open spec fn uuid_text(id: u128) -> Seq<char> {
    Seq::new(36, |i: int|
        if i == 8 || i == 13 || i == 18 || i == 23 {
            '-'
        } else {
            hex_char(nibble(id, i - hyphens_before(i)))
        })
}

/// A JSON scalar: a string (by its characters, written without escapes) or a
/// natural number (written in decimal).
pub enum JsonScalar {
    Str(Seq<char>),
    Num(nat),
}

/// The JSON text of a scalar.
pub open spec fn scalar_text(v: JsonScalar) -> Seq<char> {
    match v {
        JsonScalar::Str(s) => seq!['"'] + s + seq!['"'],
        JsonScalar::Num(n) => decimal(n),
    }
}

/// A character that stands in a JSON string as itself: an ASCII letter or
/// digit, `-` or `_`.
pub open spec fn plain_char(c: char) -> bool {
    ||| (c as int) >= 48 && (c as int) <= 57
    ||| (c as int) >= 65 && (c as int) <= 90
    ||| (c as int) >= 97 && (c as int) <= 122
    ||| c == '-'
    ||| c == '_'
}

/// Text made of plain characters only.
pub open spec fn plain_text(s: Seq<char>) -> bool {
    forall|i: int| 0 <= i < s.len() ==> plain_char(#[trigger] s[i])
}

/// Members whose keys and string values are plain text.
pub open spec fn plain_members(members: Seq<(Seq<char>, JsonScalar)>) -> bool {
    forall|i: int| 0 <= i < members.len() ==> {
        &&& plain_text(#[trigger] members[i].0)
        &&& (members[i].1 matches JsonScalar::Str(s) ==> plain_text(s))
    }
}

/// The JSON text `"key":value` of an object member.
pub open spec fn member_text(m: (Seq<char>, JsonScalar)) -> Seq<char> {
    seq!['"'] + m.0 + seq!['"', ':'] + scalar_text(m.1)
}

/// The members of an object, each as `"key":value`, separated by commas.
pub open spec fn members_text(members: Seq<(Seq<char>, JsonScalar)>) -> Seq<char>
    decreases members.len(),
{
    if members.len() == 0 {
        Seq::empty()
    } else if members.len() == 1 {
        member_text(members[0])
    } else {
        members_text(members.drop_last()) + seq![','] + member_text(members.last())
    }
}

/// The compact JSON text of a flat object with the given members, in order.
pub open spec fn object_text(members: Seq<(Seq<char>, JsonScalar)>) -> Seq<char> {
    seq!['{'] + members_text(members) + seq!['}']
}

/// The hyphenated form of a UUID is plain text.
pub proof fn lemma_uuid_text_plain(id: u128)
    ensures
        plain_text(uuid_text(id)),
{
    assert forall|i: int| 0 <= i < uuid_text(id).len() implies plain_char(#[trigger] uuid_text(id)[i]) by {
        let d = nibble(id, i - hyphens_before(i));
        assert(plain_char(hex_char(d)));
    }
}

/// The one-character string of a decimal digit.
fn digit_str(d: usize) -> (s: &'static str)
    requires
        d < 10,
    ensures
        s@ == seq![digit_char(d as nat)],
{
    proof {
        reveal_strlit("0");
        reveal_strlit("1");
        reveal_strlit("2");
        reveal_strlit("3");
        reveal_strlit("4");
        reveal_strlit("5");
        reveal_strlit("6");
        reveal_strlit("7");
        reveal_strlit("8");
        reveal_strlit("9");
    }
    if d == 0 { "0" }
    else if d == 1 { "1" }
    else if d == 2 { "2" }
    else if d == 3 { "3" }
    else if d == 4 { "4" }
    else if d == 5 { "5" }
    else if d == 6 { "6" }
    else if d == 7 { "7" }
    else if d == 8 { "8" }
    else { "9" }
}

/// Appends the decimal numeral of `n` to `s`.
pub fn append_decimal(s: &mut String, n: usize)
    ensures
        final(s)@ == old(s)@ + decimal(n as nat),
    decreases n,
{
    if n >= 10 {
        append_decimal(s, n / 10);
        s.append(digit_str(n % 10));
        assert(s@ =~= old(s)@ + (decimal((n / 10) as nat) + seq![digit_char((n % 10) as nat)]));
    } else {
        s.append(digit_str(n));
    }
}

/// A decimal digit character.
pub open spec fn is_digit(c: char) -> bool {
    48 <= (c as int) && (c as int) <= 57
}

/// Text made of decimal digits only.
pub open spec fn all_digits(s: Seq<char>) -> bool {
    forall|i: int| 0 <= i < s.len() ==> is_digit(#[trigger] s[i])
}

/// The number that the digits of `s` denote (0 for the empty text).
pub open spec fn numeral_value(s: Seq<char>) -> int
    decreases s.len(),
{
    if s.len() == 0 {
        0
    } else {
        numeral_value(s.drop_last()) * 10 + ((s.last() as int) - 48)
    }
}

/// A digit's character has the code of `0` plus the digit.
pub proof fn lemma_digit_char_code(d: nat)
    requires
        d < 10,
    ensures
        digit_char(d) as int == 48 + d,
{
}

/// The decimal numeral of `n` is a non-empty text of digits that denotes `n`.
pub proof fn lemma_decimal_digits(n: nat)
    ensures
        all_digits(decimal(n)),
        numeral_value(decimal(n)) == n,
        decimal(n).len() >= 1,
    decreases n,
{
    if n < 10 {
        lemma_digit_char_code(n);
        assert(decimal(n).drop_last() =~= Seq::<char>::empty());
        assert(numeral_value(Seq::<char>::empty()) == 0);
        assert(numeral_value(decimal(n)) == n);
    } else {
        lemma_decimal_digits(n / 10);
        lemma_digit_char_code(n % 10);
        let d = decimal(n / 10);
        assert(decimal(n).drop_last() =~= d);
        assert(decimal(n).last() == digit_char(n % 10));
        assert(numeral_value(decimal(n)) == (n / 10) * 10 + n % 10);
        assert forall|i: int| 0 <= i < decimal(n).len() implies is_digit(#[trigger] decimal(n)[i]) by {
            if i < d.len() {
                assert(decimal(n)[i] == d[i]);
            }
        }
    }
}

/// A numeral denotes a non-negative number, no smaller than any of its prefixes.
pub proof fn lemma_numeral_prefix(s: Seq<char>, k: int)
    requires
        all_digits(s),
        0 <= k <= s.len(),
    ensures
        0 <= numeral_value(s.take(k)) <= numeral_value(s),
    decreases s.len(),
{
    if s.len() == 0 {
        assert(s.take(k) =~= s);
    } else if k == s.len() {
        assert(s.take(k) =~= s);
        lemma_numeral_prefix(s.drop_last(), k - 1);
        assert(s.drop_last().take(k - 1) =~= s.drop_last());
        assert(is_digit(s[s.len() - 1]));
    } else {
        lemma_numeral_prefix(s.drop_last(), k);
        assert(s.drop_last().take(k) =~= s.take(k));
        assert(is_digit(s[s.len() - 1]));
    }
}

/// The number that the decimal numeral `s` denotes; none when `s` is not the
/// decimal numeral (no sign, no leading zero) of a `usize`.
pub fn parse_decimal(s: &str) -> (r: Option<usize>)
    ensures
        r matches Some(x) ==> decimal(x as nat) == s@,
        forall|x: usize| #[trigger] decimal(x as nat) == s@ ==> r == Some(x),
{
    let n = s.unicode_len();
    proof {
        assert forall|x: usize| #[trigger] decimal(x as nat) == s@ implies all_digits(s@)
            && numeral_value(s@) == x && n >= 1 by {
            lemma_decimal_digits(x as nat);
        }
    }
    if n == 0 {
        return None;
    }
    let mut acc: usize = 0;
    let mut i: usize = 0;
    assert(s@.take(0) =~= Seq::<char>::empty());
    while i < n
        invariant
            i <= n,
            n == s@.len(),
            all_digits(s@.take(i as int)),
            acc == numeral_value(s@.take(i as int)),
            forall|x: usize| #[trigger] decimal(x as nat) == s@ ==> all_digits(s@)
                && numeral_value(s@) == x,
        decreases n - i,
    {
        let c = s.get_char(i);
        let code = c as u32;
        if code < 48 || code > 57 {
            proof {
                assert forall|x: usize| #[trigger] decimal(x as nat) == s@ implies false by {
                    assert(is_digit(s@[i as int]));
                }
            }
            return None;
        }
        let d = (code - 48) as usize;
        let ghost next = s@.take(i + 1);
        proof {
            assert(next.drop_last() =~= s@.take(i as int));
            assert(next.last() == c);
            assert(numeral_value(next) == acc * 10 + d);
            assert forall|x: usize| #[trigger] decimal(x as nat) == s@ implies numeral_value(next) <= x by {
                lemma_numeral_prefix(s@, i + 1);
            }
        }
        let m = match acc.checked_mul(10) {
            Some(m) => m,
            None => {
                proof {
                    assert forall|x: usize| #[trigger] decimal(x as nat) == s@ implies false by {
                        assert(numeral_value(next) <= x);
                    }
                }
                return None;
            },
        };
        acc = match m.checked_add(d) {
            Some(v) => v,
            None => {
                proof {
                    assert forall|x: usize| #[trigger] decimal(x as nat) == s@ implies false by {
                        assert(numeral_value(next) <= x);
                    }
                }
                return None;
            },
        };
        i = i + 1;
        proof {
            assert forall|j: int| 0 <= j < next.len() implies is_digit(#[trigger] next[j]) by {
                if j < i - 1 {
                    assert(next[j] == s@.take(i - 1)[j]);
                }
            }
        }
    }
    assert(s@.take(n as int) =~= s@);
    let mut check = String::new();
    append_decimal(&mut check, acc);
    let text = String::from_str(s);
    if check == text {
        assert(check@ =~= decimal(acc as nat));
        Some(acc)
    } else {
        proof {
            assert forall|x: usize| #[trigger] decimal(x as nat) == s@ implies false by {
                assert(check@ =~= decimal(acc as nat));
            }
        }
        None
    }
}

/// The hyphenated form of a UUID.
///
/// Trusted: calls `uuid::Uuid::from_u128` and formats the result with
/// `Uuid::hyphenated`, which the `uuid` crate documents as the 8-4-4-4-12
/// grouping of the lower-case hexadecimal digits of the big-endian value.
#[verifier::external_body]
pub(crate) fn uuid_hyphenated(id: u128) -> (s: String)
    ensures
        s@ == uuid_text(id),
{
    uuid::Uuid::from_u128(id).hyphenated().to_string()
}

/// Trusted: `uuid::Uuid::parse_str(s)` and the value of the UUID it gives.
/// The `uuid` crate parses the hyphenated form, among others, into the value it
/// names; which other texts it accepts is left unsaid.
#[verifier::external_body]
fn parse_uuid(s: &str) -> (r: Option<u128>)
    ensures
        forall|x: u128| #[trigger] uuid_text(x) == s@ ==> r == Some(x),
{
    uuid::Uuid::parse_str(s).ok().map(|u| u.as_u128())
}

/// The UUID whose hyphenated form is `s`; none when `s` is not such a form.
pub fn parse_uuid_hyphenated(s: &str) -> (r: Option<u128>)
    ensures
        r matches Some(x) ==> uuid_text(x) == s@,
        forall|x: u128| #[trigger] uuid_text(x) == s@ ==> r == Some(x),
{
    match parse_uuid(s) {
        None => None,
        Some(id) => {
            let text = uuid_hyphenated(id);
            let given = String::from_str(s);
            if text == given {
                Some(id)
            } else {
                None
            }
        },
    }
}

} // verus!
