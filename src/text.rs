use vstd::prelude::*;
use vstd::utf8::*;
use vstd::string::*;

verus! {

/// The character of a decimal digit.
pub open spec fn digit_char(d: nat) -> char
    recommends
        d < 10,
{
    ((d + 48) as u8) as char
}

/// The decimal digits of a natural number, without leading zeros.
pub open spec fn decimal_digits(n: nat) -> Seq<char>
    decreases n,
{
    if n < 10 {
        seq![digit_char(n)]
    } else {
        decimal_digits(n / 10).push(digit_char(n % 10))
    }
}

/// The decimal text of an integer: a minus sign before a negative one.
pub open spec fn decimal(n: int) -> Seq<char> {
    if n < 0 {
        seq!['-'] + decimal_digits((-n) as nat)
    } else {
        decimal_digits(n as nat)
    }
}

/// Relies on String::push: the character is appended.
#[verifier::external_body]
fn push_char(s: &mut String, c: char)
    ensures
        final(s)@ == old(s)@.push(c),
{
    s.push(c);
}

/// Appends the decimal digits of `n`.
pub(crate) fn push_digits(out: &mut String, n: u64)
    ensures
        final(out)@ == old(out)@ + decimal_digits(n as nat),
    decreases n,
{
    if n >= 10 {
        push_digits(out, n / 10);
    }
    let d: u8 = (n % 10) as u8;
    push_char(out, (d + 48) as char);
    proof {
        if n >= 10 {
            assert(old(out)@ + decimal_digits(n as nat) =~= old(out)@ + decimal_digits(
                (n / 10) as nat,
            ) + seq![digit_char((n % 10) as nat)]);
        } else {
            assert(old(out)@ + decimal_digits(n as nat) =~= old(out)@ + seq![digit_char(n as nat)]);
        }
    }
}

/// The decimal text of `n`, as `n.to_string()` writes it.
pub fn decimal_text(n: i32) -> (r: String)
    ensures
        r@ == decimal(n as int),
{
    let mut out = String::new();
    if n < 0 {
        push_char(&mut out, '-');
        let m: u64 = (-(n as i64)) as u64;
        push_digits(&mut out, m);
    } else {
        push_digits(&mut out, n as u64);
    }
    out
}

/// A byte that `application/x-www-form-urlencoded` keeps as it is:
/// ASCII letters and digits and `*`, `-`, `.`, `_`.
pub open spec fn form_unchanged(b: u8) -> bool {
    b == 42 || b == 45 || b == 46 || (48 <= b <= 57) || (65 <= b <= 90) || b == 95 || (97 <= b
        <= 122)
}

/// An upper-case hexadecimal digit.
pub open spec fn hex_upper(n: u8) -> char
    recommends
        n < 16,
{
    if n < 10 {
        (n + 48) as char
    } else {
        (n + 55) as char
    }
}

/// How one byte is written: itself when unchanged, `+` for a space, else `%XX`.
pub open spec fn form_encode_byte(b: u8) -> Seq<char> {
    if form_unchanged(b) {
        seq![b as char]
    } else if b == 32 {
        seq!['+']
    } else {
        seq!['%', hex_upper(b / 16), hex_upper(b % 16)]
    }
}

/// Form encoding of a byte string, byte by byte.
pub open spec fn form_encoded(bytes: Seq<u8>) -> Seq<char>
    decreases bytes.len(),
{
    if bytes.len() == 0 {
        seq![]
    } else {
        form_encode_byte(bytes[0]) + form_encoded(bytes.drop_first())
    }
}

/// The form encoding of a text: that of its UTF-8 bytes.
pub open spec fn form_encoded_text(s: Seq<char>) -> Seq<char> {
    form_encoded(encode_utf8(s))
}

/// Form encoding writes no `&` and no `=`: an encoded value cannot be taken
/// for a separator of a query string.
pub proof fn lemma_form_encoded_no_separator(bytes: Seq<u8>)
    ensures
        !form_encoded(bytes).contains('&'),
        !form_encoded(bytes).contains('='),
    decreases bytes.len(),
{
    if bytes.len() > 0 {
        let head = form_encode_byte(bytes[0]);
        let tail = form_encoded(bytes.drop_first());
        lemma_form_encoded_no_separator(bytes.drop_first());
        let b = bytes[0];
        assert(!head.contains('&') && !head.contains('=')) by {
            if form_unchanged(b) {
                assert(head[0] == b as char);
            } else if b != 32 {
                assert(hex_upper(b / 16) != '&' && hex_upper(b / 16) != '=');
                assert(hex_upper(b % 16) != '&' && hex_upper(b % 16) != '=');
                assert(forall|i: int| 0 <= i < 3 ==> #[trigger] head[i] == '%' || head[i] == hex_upper(b / 16) || head[i] == hex_upper(b % 16));
            }
        }
        assert forall|c: char| (c == '&' || c == '=') implies !(head + tail).contains(c) by {
            if (head + tail).contains(c) {
                let i = choose|i: int| 0 <= i < (head + tail).len() && (head + tail)[i] == c;
                if i < head.len() {
                    assert(head[i] == c);
                } else {
                    assert(tail[i - head.len()] == c);
                }
            }
        }
    }
}

/// Relies on url::form_urlencoded::byte_serialize: each UTF-8 byte of `s` is
/// kept, turned into `+` (a space) or percent-encoded in upper case.
#[verifier::external_body]
pub(crate) fn form_encode(s: &str) -> (r: String)
    ensures
        r@ == form_encoded_text(s@),
{
    url::form_urlencoded::byte_serialize(s.as_bytes()).collect()
}

/// Relies on std::str::from_utf8: text exactly when the bytes are valid UTF-8.
#[verifier::external_body]
pub(crate) fn utf8_text(bytes: &[u8]) -> (r: Option<String>)
    ensures
        r.is_some() == valid_utf8(bytes@),
        r matches Some(s) ==> s@ == decode_utf8(bytes@),
{
    match std::str::from_utf8(bytes) {
        Ok(s) => Some(s.to_string()),
        Err(_) => None,
    }
}

} // verus!
