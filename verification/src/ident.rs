//! The textual form of identities and other numbers.
//!
//! A ticket channel carries its owner's identity as decimal text. This module
//! defines that text, writes it and reads it back.

use twilight_model::id::marker::GenericMarker;
use twilight_model::id::Id;
use vstd::prelude::*;
use vstd::string::*;

verus! {

/// The character that writes the digit `d`.
pub open spec fn digit_char(d: nat) -> char
    recommends
        d < 10,
{
    seq!['0', '1', '2', '3', '4', '5', '6', '7', '8', '9'][d as int]
}

/// Whether `c` is one of the ten decimal digits.
pub open spec fn is_digit(c: char) -> bool {
    '0' <= c && c <= '9'
}

/// The number that the digit `c` stands for.
pub open spec fn digit_value(c: char) -> nat
    recommends
        is_digit(c),
{
    (c as nat - '0' as nat) as nat
}

/// The decimal text of `n`: most significant digit first, no sign, no
/// leading zero, and `"0"` for zero.
pub open spec fn decimal_text(n: nat) -> Seq<char>
    decreases n,
{
    if n < 10 {
        seq![digit_char(n)]
    } else {
        decimal_text(n / 10).push(digit_char(n % 10))
    }
}

/// Whether every character of `s` is a decimal digit.
pub open spec fn all_digits(s: Seq<char>) -> bool {
    forall|i: int| 0 <= i < s.len() ==> is_digit(#[trigger] s[i])
}

/// The number that a run of digits writes, read most significant first.
pub open spec fn digits_value(s: Seq<char>) -> nat
    decreases s.len(),
{
    if s.len() == 0 {
        0
    } else {
        digits_value(s.drop_last()) * 10 + digit_value(s.last())
    }
}

/// The digits of a number text: the text without its optional leading `+`.
pub open spec fn unsigned_part(s: Seq<char>) -> Seq<char> {
    if s.len() > 0 && s[0] == '+' {
        s.drop_first()
    } else {
        s
    }
}

/// What a text means as a 64-bit number: an optional `+`, then one or more
/// decimal digits whose value fits. Anything else means nothing.
pub open spec fn number_of_text(s: Seq<char>) -> Option<u64> {
    let body = unsigned_part(s);
    if body.len() > 0 && all_digits(body) && digits_value(body) <= u64::MAX {
        Some(digits_value(body) as u64)
    } else {
        None
    }
}

/// What a text means as an identity: a number other than zero.
pub open spec fn identity_of_text(s: Seq<char>) -> Option<u64> {
    match number_of_text(s) {
        Some(n) => if n != 0 {
            Some(n)
        } else {
            None
        },
        None => None,
    }
}

/// A run of digits that is longer has a value at least as large as any of
/// its prefixes.
proof fn lemma_digits_value_prefix(s: Seq<char>, k: int)
    requires
        0 <= k <= s.len(),
    ensures
        digits_value(s.subrange(0, k)) <= digits_value(s),
    decreases s.len() - k,
{
    if k < s.len() {
        lemma_digits_value_prefix(s, k + 1);
        let longer = s.subrange(0, k + 1);
        assert(longer.drop_last() =~= s.subrange(0, k));
    } else {
        assert(s.subrange(0, k) =~= s);
    }
}

/// The decimal text of a number is made of digits, is not empty, and writes
/// that number.
pub proof fn lemma_decimal_text_reads_back(n: nat)
    ensures
        decimal_text(n).len() > 0,
        all_digits(decimal_text(n)),
        digits_value(decimal_text(n)) == n,
        decimal_text(n)[0] != '+',
    decreases n,
{
    let text = decimal_text(n);
    if n < 10 {
        assert(digits_value(text.drop_last()) == 0);
    } else {
        lemma_decimal_text_reads_back(n / 10);
        let head = decimal_text(n / 10);
        assert(text.drop_last() =~= head);
        assert(forall|i: int| 0 <= i < head.len() ==> text[i] == head[i]);
    }
}

/// Reading the text of an identity gives the identity back.
pub proof fn lemma_identity_round_trip(id: u64)
    ensures
        number_of_text(decimal_text(id as nat)) == Some(id),
        id != 0 ==> identity_of_text(decimal_text(id as nat)) == Some(id),
{
    lemma_decimal_text_reads_back(id as nat);
}

/// Two numbers with the same decimal text are the same number.
pub proof fn lemma_decimal_text_injective(a: nat, b: nat)
    requires
        decimal_text(a) == decimal_text(b),
    ensures
        a == b,
{
    lemma_decimal_text_reads_back(a);
    lemma_decimal_text_reads_back(b);
}

/// The one-character text of a digit.
fn digit_str(d: u8) -> (s: &'static str)
    requires
        d < 10,
    ensures
        s@ == seq![digit_char(d as nat)],
{
    proof {
        reveal_strlit("0");
        reveal_strlit("1");
        reveal_strlit("2");
        reveal_strlit("3");
        reveal_strlit("4");
        reveal_strlit("5");
        reveal_strlit("6");
        reveal_strlit("7");
        reveal_strlit("8");
        reveal_strlit("9");
    }
    let s = if d == 0 {
        "0"
    } else if d == 1 {
        "1"
    } else if d == 2 {
        "2"
    } else if d == 3 {
        "3"
    } else if d == 4 {
        "4"
    } else if d == 5 {
        "5"
    } else if d == 6 {
        "6"
    } else if d == 7 {
        "7"
    } else if d == 8 {
        "8"
    } else {
        "9"
    };
    s
}

/// Writes `n` in decimal.
pub fn decimal_string(n: u128) -> (text: String)
    ensures
        text@ == decimal_text(n as nat),
    decreases n,
{
    if n < 10 {
        String::from_str(digit_str(n as u8))
    } else {
        let mut text = decimal_string(n / 10);
        text.append(digit_str((n % 10) as u8));
        text
    }
}

/// Renders an identity with the `Display` implementation of twilight's
/// `Id`. That implementation forwards to the one of the 64-bit number
/// inside, which writes plain decimal; the contract claims exactly that.
/// `Id::new` panics on zero, which the precondition leaves out.
#[verifier::external_body]
fn snowflake_text(id: u64) -> (text: String)
    requires
        id != 0,
    ensures
        text@ == decimal_text(id as nat),
{
    Id::<GenericMarker>::new(id).to_string()
}

/// The text that tags a channel with the identity `id`.
pub fn identity_text(id: u64) -> (text: String)
    ensures
        text@ == decimal_text(id as nat),
{
    if id == 0 {
        decimal_string(0)
    } else {
        snowflake_text(id)
    }
}

/// Reads a 64-bit number from text, as `number_of_text` defines it.
pub fn parse_number(text: &str) -> (value: Option<u64>)
    ensures
        value == number_of_text(text@),
{
    let len = text.unicode_len();
    let start: usize = if len > 0 && text.get_char(0) == '+' {
        1
    } else {
        0
    };
    let ghost body = unsigned_part(text@);
    if start == len {
        return None;
    }
    let mut acc: u64 = 0;
    let mut i: usize = start;
    while i < len
        invariant
            start <= i <= len,
            len == text@.len(),
            body == unsigned_part(text@),
            body == text@.subrange(start as int, len as int),
            all_digits(body.subrange(0, i - start)),
            acc == digits_value(body.subrange(0, i - start)),
        decreases len - i,
    {
        let c = text.get_char(i);
        let ghost seen = body.subrange(0, i - start);
        let ghost next = body.subrange(0, i + 1 - start);
        assert(next.drop_last() =~= seen);
        if !(c >= '0' && c <= '9') {
            assert(!is_digit(body[i - start]));
            return None;
        }
        let d: u64 = (c as u32 - '0' as u32) as u64;
        if acc > (u64::MAX - d) / 10 {
            proof {
                lemma_digits_value_prefix(body, i + 1 - start);
            }
            return None;
        }
        acc = acc * 10 + d;
        i = i + 1;
        assert(all_digits(next)) by {
            assert(forall|j: int| 0 <= j < seen.len() ==> next[j] == seen[j]);
        }
    }
    assert(body.subrange(0, i - start) =~= body);
    Some(acc)
}

/// Reads an identity from text: a number other than zero.
pub fn parse_identity(text: &str) -> (id: Option<u64>)
    ensures
        id == identity_of_text(text@),
{
    match parse_number(text) {
        Some(n) => if n != 0 {
            Some(n)
        } else {
            None
        },
        None => None,
    }
}

} // verus!
