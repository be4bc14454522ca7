//! Text: blank lines, lower case, quoting, decimal numbers.

use std::borrow::Cow;
use vstd::prelude::*;
use vstd::string::StringExecFns;
use vstd::utf8::{decode_utf8, encode_utf8, is_char_boundary};

verus! {

/// Whether `c` is white space, as Unicode's property White_Space has it.
pub open spec fn is_whitespace(c: char) -> bool {
    let u = c as u32;
    ||| 0x09 <= u <= 0x0D
    ||| u == 0x20
    ||| u == 0x85
    ||| u == 0xA0
    ||| u == 0x1680
    ||| 0x2000 <= u <= 0x200A
    ||| u == 0x2028
    ||| u == 0x2029
    ||| u == 0x202F
    ||| u == 0x205F
    ||| u == 0x3000
}

/// A text is blank where it holds nothing but white space.
pub open spec fn is_blank(s: Seq<char>) -> bool {
    forall|i: int| 0 <= i < s.len() ==> is_whitespace(#[trigger] s[i])
}

/// Tests whether a character is white space.
pub fn char_is_whitespace(c: char) -> (b: bool)
    ensures
        b == is_whitespace(c),
{
    let u: u32 = c as u32;
    (0x09 <= u && u <= 0x0D) || u == 0x20 || u == 0x85 || u == 0xA0 || u == 0x1680 || (0x2000 <= u
        && u <= 0x200A) || u == 0x2028 || u == 0x2029 || u == 0x202F || u == 0x205F || u == 0x3000
}

/// Tests whether a text is blank: the empty text is.
pub fn text_is_blank(s: &str) -> (b: bool)
    ensures
        b == is_blank(s@),
{
    broadcast use vstd::string::group_string_axioms;

    for c in it: s.chars()
        invariant
            it.seq() == s@,
            forall|i: int| 0 <= i < it.index() ==> is_whitespace(#[trigger] s@[i]),
    {
        if !char_is_whitespace(c) {
            return false;
        }
    }
    true
}

/// The text of `s` in lower case, as Unicode defines it for whole texts.
pub uninterp spec fn lowercase(s: Seq<char>) -> Seq<char>;

/// `str::to_lowercase`. What it returns depends on the text alone and is
/// known here by the name `lowercase`: nothing more is claimed of it.
#[verifier::external_body]
pub(crate) fn to_lowercase(s: &str) -> (out: String)
    ensures
        out@ == lowercase(s@),
{
    s.to_lowercase()
}

/// The text of `s` between double quotes, with the escapes of Rust's `Debug`
/// for strings.
pub uninterp spec fn quoted(s: Seq<char>) -> Seq<char>;

/// The `Debug` form of a `str`, as `format!` writes it for `{:?}`. What it
/// returns depends on the text alone and is known here by the name `quoted`:
/// nothing more is claimed of it.
#[verifier::external_body]
pub(crate) fn to_quoted(s: &str) -> (out: String)
    ensures
        out@ == quoted(s@),
{
    format!("{:?}", s)
}

/// The decimal digit for `d`, a number below ten.
pub open spec fn digit(d: nat) -> char {
    if d == 0 {
        '0'
    } else if d == 1 {
        '1'
    } else if d == 2 {
        '2'
    } else if d == 3 {
        '3'
    } else if d == 4 {
        '4'
    } else if d == 5 {
        '5'
    } else if d == 6 {
        '6'
    } else if d == 7 {
        '7'
    } else if d == 8 {
        '8'
    } else {
        '9'
    }
}

/// `n` in decimal digits, the most significant first, with no leading zero.
pub open spec fn decimal(n: nat) -> Seq<char>
    decreases n,
{
    if n < 10 {
        seq![digit(n)]
    } else {
        decimal(n / 10).push(digit(n % 10))
    }
}

fn digit_text(d: usize) -> (s: &'static str)
    requires
        d < 10,
    ensures
        s@ == seq![digit(d as nat)],
{
    proof {
        reveal_strlit("0");
        reveal_strlit("1");
        reveal_strlit("2");
        reveal_strlit("3");
        reveal_strlit("4");
        reveal_strlit("5");
        reveal_strlit("6");
        reveal_strlit("7");
        reveal_strlit("8");
        reveal_strlit("9");
    }
    let s = if d == 0 {
        "0"
    } else if d == 1 {
        "1"
    } else if d == 2 {
        "2"
    } else if d == 3 {
        "3"
    } else if d == 4 {
        "4"
    } else if d == 5 {
        "5"
    } else if d == 6 {
        "6"
    } else if d == 7 {
        "7"
    } else if d == 8 {
        "8"
    } else {
        "9"
    };
    s
}

/// Writes `n` in decimal.
pub fn decimal_text(n: usize) -> (s: String)
    ensures
        s@ == decimal(n as nat),
    decreases n,
{
    if n < 10 {
        digit_text(n).to_owned()
    } else {
        let mut s = decimal_text(n / 10);
        s.append(digit_text(n % 10));
        s
    }
}

/// A number below ten to the power of `k` has at most `k` digits.
pub proof fn lemma_decimal_len(n: nat, k: nat)
    requires
        k >= 1,
        n < vstd::arithmetic::power::pow(10, k),
    ensures
        1 <= decimal(n).len() <= k,
    decreases n,
{
    vstd::arithmetic::power::lemma_pow1(10);
    if n >= 10 {
        vstd::arithmetic::power::lemma_pow_adds(10, 1, (k - 1) as nat);
        lemma_decimal_len(n / 10, (k - 1) as nat);
    }
}

/// The greatest place at or below `limit` where `bytes`, a text in UTF-8, can be
/// cut between two characters.
pub open spec fn floor_boundary(bytes: Seq<u8>, limit: int) -> int
    decreases limit,
{
    if limit <= 0 {
        0
    } else if is_char_boundary(bytes, limit) {
        limit
    } else {
        floor_boundary(bytes, limit - 1)
    }
}

/// The characters of `s` whose UTF-8 bytes all lie within the first `limit` bytes.
pub open spec fn head_within(s: Seq<char>, limit: nat) -> Seq<char> {
    decode_utf8(encode_utf8(s).subrange(0, floor_boundary(encode_utf8(s), limit as int)))
}

/// What stands before the head of a text that was cut short: the limit and the
/// text's full length, both in bytes.
pub open spec fn truncation_note(limit: nat, len: nat) -> Seq<char> {
    "(first "@ + decimal(limit) + "B of "@ + decimal(len) + "B): "@
}

/// `s` itself where its UTF-8 form has at most `limit` bytes, else a note and the
/// head of `s` that fits in `limit` bytes.
pub open spec fn truncation(s: Seq<char>, limit: nat) -> Seq<char> {
    if encode_utf8(s).len() > limit {
        truncation_note(limit, encode_utf8(s).len()) + head_within(s, limit)
    } else {
        s
    }
}

/// The place where a text is cut lies at or below the limit, between two
/// characters.
pub proof fn lemma_floor_boundary(bytes: Seq<u8>, limit: int)
    requires
        vstd::utf8::valid_utf8(bytes),
    ensures
        0 <= floor_boundary(bytes, limit),
        limit >= 0 ==> floor_boundary(bytes, limit) <= limit,
        is_char_boundary(bytes, floor_boundary(bytes, limit)),
    decreases limit,
{
    if limit > 0 && !is_char_boundary(bytes, limit) {
        lemma_floor_boundary(bytes, limit - 1);
    }
}

/// The UTF-8 form of two texts in a row is the UTF-8 form of the first and
/// then that of the second.
pub proof fn lemma_encode_concat(a: Seq<char>, b: Seq<char>)
    ensures
        encode_utf8(a + b) == encode_utf8(a) + encode_utf8(b),
    decreases a.len(),
{
    if a.len() == 0 {
    } else {
        assert((a + b).drop_first() =~= a.drop_first() + b);
        lemma_encode_concat(a.drop_first(), b);
    }
}

/// A number in decimal is written in ASCII.
pub proof fn lemma_decimal_ascii(n: nat)
    ensures
        vstd::utf8::is_ascii_chars(decimal(n)),
    decreases n,
{
    if n >= 10 {
        lemma_decimal_ascii(n / 10);
    }
}

/// The note before a text that was cut short takes sixteen bytes and the
/// digits of its two numbers.
pub proof fn lemma_note_len(limit: nat, len: nat)
    ensures
        encode_utf8(truncation_note(limit, len)).len() == 16 + decimal(limit).len() + decimal(
            len,
        ).len(),
{
    reveal_strlit("(first ");
    reveal_strlit("B of ");
    reveal_strlit("B): ");
    lemma_decimal_ascii(limit);
    lemma_decimal_ascii(len);
    let note = truncation_note(limit, len);
    vstd::utf8::is_ascii_chars_encode_utf8(note);
}

/// A text of more than `limit` bytes is shown as a note of the limit and of
/// the text's full length, and behind the note the head of the text: a part
/// that the text starts with, of at most `limit` bytes. The whole takes no
/// more bytes than the limit, sixteen bytes of wording and the digits of the
/// two numbers: at most 56 bytes above the limit where both numbers are below
/// ten to the power of twenty, as every number of 64 bits is.
pub proof fn lemma_truncation_bounded(s: Seq<char>, limit: nat)
    requires
        encode_utf8(s).len() > limit,
    ensures
        truncation(s, limit) == truncation_note(limit, encode_utf8(s).len()) + head_within(
            s,
            limit,
        ),
        head_within(s, limit).is_prefix_of(s),
        encode_utf8(head_within(s, limit)).len() <= limit,
        encode_utf8(truncation(s, limit)).len() <= limit + 16 + decimal(limit).len() + decimal(
            encode_utf8(s).len(),
        ).len(),
        encode_utf8(s).len() < vstd::arithmetic::power::pow(10, 20) ==> encode_utf8(
            truncation(s, limit),
        ).len() <= limit + 56,
{
    broadcast use vstd::utf8::group_utf8_lib;

    let bytes = encode_utf8(s);
    let cut = floor_boundary(bytes, limit as int);
    lemma_floor_boundary(bytes, limit as int);
    let head = head_within(s, limit);
    let first = bytes.subrange(0, cut);
    let second = bytes.subrange(cut, bytes.len() as int);
    assert(s =~= head + decode_utf8(second)) by {
        vstd::utf8::decode_utf8_split(bytes, cut);
    }
    let note = truncation_note(limit, bytes.len());
    lemma_encode_concat(note, head);
    lemma_note_len(limit, bytes.len());
    if bytes.len() < vstd::arithmetic::power::pow(10, 20) {
        lemma_decimal_len(limit, 20);
        lemma_decimal_len(bytes.len(), 20);
    }
}

/// Bounds the size of a text that goes into a message: a text of more than
/// `limit` bytes is cut to its head of at most `limit` bytes, never inside a
/// character, behind a note of the limit and of the full length. A text
/// within the limit is handed back as it was lent, and only a text that is
/// cut is written anew.
pub fn maybe_truncated(s: &str, limit: usize) -> (out: Cow<'_, str>)
    ensures
        out@ == truncation(s@, limit as nat),
        out is Borrowed <==> encode_utf8(s@).len() <= limit,
        out is Owned <==> encode_utf8(s@).len() > limit,
{
    broadcast use vstd::utf8::group_utf8_lib;

    let len = s.as_bytes().len();
    if len > limit {
        let ghost bytes = encode_utf8(s@);
        let mut cut = limit;
        while !s.is_char_boundary(cut)
            invariant
                cut <= limit < bytes.len(),
                bytes == encode_utf8(s@),
                vstd::utf8::valid_utf8(bytes),
                floor_boundary(bytes, cut as int) == floor_boundary(bytes, limit as int),
            decreases cut,
        {
            cut = cut - 1;
        }
        let (head, _) = s.split_at(cut);
        let mut text = "(first ".to_owned();
        text.append(decimal_text(limit).as_str());
        text.append("B of ");
        text.append(decimal_text(len).as_str());
        text.append("B): ");
        text.append(head);
        Cow::Owned(text)
    } else {
        Cow::Borrowed(s)
    }
}

} // verus!
