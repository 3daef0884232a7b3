//! `Alt-Svc` header value construction and insertion, advertising the QUIC listener.
use vstd::prelude::*;
use vstd::utf8::is_ascii_chars;

use http::header::{HeaderMap, HeaderValue, InvalidHeaderValue, MaxSizeReached};

verus! {

#[verifier::external_type_specification]
#[verifier::external_body]
pub struct ExHeaderValue(HeaderValue);

#[verifier::external_type_specification]
#[verifier::external_body]
pub struct ExInvalidHeaderValue(InvalidHeaderValue);

#[verifier::external_type_specification]
#[verifier::external_body]
pub struct ExMaxSizeReached(MaxSizeReached);

#[verifier::external_type_specification]
#[verifier::external_body]
#[verifier::reject_recursive_types(T)]
pub struct ExHeaderMap<T>(HeaderMap<T>);

/// The bytes that an `http::HeaderValue` holds (what `HeaderValue::as_bytes` hands out).
pub uninterp spec fn header_value_bytes(value: HeaderValue) -> Seq<u8>;

/// What an `http::HeaderMap` holds: each lower-case header name (as bytes) mapped to the
/// byte strings of its values, in insertion order. Names without values are absent.
pub uninterp spec fn header_entries(map: HeaderMap<HeaderValue>) -> Map<Seq<u8>, Seq<Seq<u8>>>;

/// The lower-case header name `alt-svc`, as bytes.
pub open spec fn alt_svc_name() -> Seq<u8> {
    seq![97u8, 108u8, 116u8, 45u8, 115u8, 118u8, 99u8]
}

/// A character that `HeaderValue::from_str` accepts: a tab, or any character from space
/// upwards except DEL (the UTF-8 bytes of a non-ASCII character are all at least 0x80).
pub open spec fn valid_header_char(c: char) -> bool {
    c == '\t' || (c as int >= 32 && c as int != 127)
}

/// Every character of `s` is accepted by `HeaderValue::from_str`.
pub open spec fn valid_header_text(s: Seq<char>) -> bool {
    forall|i: int| 0 <= i < s.len() ==> valid_header_char(#[trigger] s[i])
}

/// The bytes of an ASCII character sequence.
pub open spec fn ascii_bytes(s: Seq<char>) -> Seq<u8> {
    s.map_values(|c: char| c as u8)
}

/// The decimal digit character for `d < 10`.
pub open spec fn digit_char(d: nat) -> char {
    (d + 48) as char
}

/// The decimal representation of `n`, most significant digit first, without leading zeros.
pub open spec fn decimal(n: nat) -> Seq<char>
    decreases n,
{
    if n < 10 {
        seq![digit_char(n)]
    } else {
        decimal(n / 10).push(digit_char(n % 10))
    }
}

/// The `Alt-Svc` value `h3=":<port>"; ma=<max-age>`.
pub open spec fn alt_svc_text(h3_port: nat, max_age_secs: nat) -> Seq<char> {
    seq!['h', '3', '=', '"', ':'] + decimal(h3_port) + seq!['"', ';', ' ', 'm', 'a', '=']
        + decimal(max_age_secs)
}

/// Wraps `http::HeaderValue::from_str`. Its source accepts the text exactly when every byte
/// is a tab or at least 32 and not 127, and the value then holds the text's bytes (stated
/// here for ASCII text, where bytes and characters coincide).
#[verifier::external_body]
fn header_value_from_str(text: &str) -> (res: Result<HeaderValue, InvalidHeaderValue>)
    ensures
        res is Ok <==> valid_header_text(text@),
        is_ascii_chars(text@) ==> (res matches Ok(v) ==> header_value_bytes(v) == ascii_bytes(
            text@,
        )),
{
    HeaderValue::from_str(text)
}

/// Wraps `http::HeaderValue::from_static`, which panics unless every byte is a tab or
/// visible ASCII (32 to 126), and otherwise holds the text's bytes.
#[verifier::external_body]
fn header_value_from_static(text: &'static str) -> (res: HeaderValue)
    requires
        is_ascii_chars(text@),
        forall|i: int|
            0 <= i < text@.len() ==> (#[trigger] text@[i] == '\t' || (text@[i] as int >= 32
                && (text@[i] as int) < 127)),
    ensures
        header_value_bytes(res) == ascii_bytes(text@),
{
    HeaderValue::from_static(text)
}

/// Specifies `<http::HeaderValue as Clone>::clone` (derived in its source): the clone holds
/// the same bytes.
pub assume_specification[ <HeaderValue as Clone>::clone ](value: &HeaderValue) -> (res:
    HeaderValue)
    ensures
        header_value_bytes(res) == header_value_bytes(*value),
;

/// Wraps `http::HeaderValue::as_bytes`.
#[verifier::external_body]
fn header_value_as_bytes(value: &HeaderValue) -> (res: &[u8])
    ensures
        res@ == header_value_bytes(*value),
{
    value.as_bytes()
}

/// The number of header names below which a `HeaderMap` can always take one more name. Its
/// source refuses to grow only when its index table would pass `2^15` slots: when the map
/// already holds `24576` names at that size, or when, in its hash-collision guard state, it
/// holds at least `2^15 / 5` names; so fewer than `6554` names always leave room.
pub open spec fn header_map_room_bound() -> nat {
    6554
}

/// Wraps `http::HeaderMap::try_insert` with the key `alt-svc`. Its source replaces every
/// value of the name by the one given and returns the first previous value, or, when the
/// map cannot grow, returns `MaxSizeReached` leaving the contents as they were; the map
/// can always grow while it holds fewer than [`header_map_room_bound`] names.
#[verifier::external_body]
fn header_map_try_insert_alt_svc(map: &mut HeaderMap<HeaderValue>, value: HeaderValue) -> (res:
    Result<Option<HeaderValue>, MaxSizeReached>)
    ensures
        res is Ok ==> header_entries(*final(map)) == header_entries(*old(map)).insert(
            alt_svc_name(),
            seq![header_value_bytes(value)],
        ),
        res is Err ==> header_entries(*final(map)) == header_entries(*old(map)),
        header_entries(*old(map)).dom().len() < header_map_room_bound() ==> res is Ok,
        res matches Ok(None) ==> !header_entries(*old(map)).dom().contains(alt_svc_name()),
        res matches Ok(Some(prev)) ==> header_entries(*old(map)).dom().contains(alt_svc_name())
            && header_value_bytes(prev) == header_entries(*old(map))[alt_svc_name()][0],
{
    map.try_insert(http::header::ALT_SVC, value)
}

/// The character of the decimal digit `d`.
fn digit_str(d: u64) -> (s: &'static str)
    requires
        d < 10,
    ensures
        s@ == seq![digit_char(d as nat)],
{
    proof {
        reveal_strlit("0");
        reveal_strlit("1");
        reveal_strlit("2");
        reveal_strlit("3");
        reveal_strlit("4");
        reveal_strlit("5");
        reveal_strlit("6");
        reveal_strlit("7");
        reveal_strlit("8");
        reveal_strlit("9");
    }
    if d == 0 {
        "0"
    } else if d == 1 {
        "1"
    } else if d == 2 {
        "2"
    } else if d == 3 {
        "3"
    } else if d == 4 {
        "4"
    } else if d == 5 {
        "5"
    } else if d == 6 {
        "6"
    } else if d == 7 {
        "7"
    } else if d == 8 {
        "8"
    } else {
        "9"
    }
}

/// Appends the decimal representation of `n` to `out`.
fn push_decimal(out: &mut String, n: u64)
    ensures
        final(out)@ == old(out)@ + decimal(n as nat),
    decreases n,
{
    if n >= 10 {
        push_decimal(out, n / 10);
    }
    let d = digit_str(n % 10);
    out.append(d);
    proof {
        if n >= 10 {
            assert(decimal(n as nat) == decimal((n / 10) as nat).push(digit_char((n % 10) as nat)));
            assert(out@ =~= old(out)@ + decimal(n as nat));
        } else {
            assert(out@ =~= old(out)@ + decimal(n as nat));
        }
    }
}

/// Every character of a decimal representation is an ASCII digit.
pub proof fn lemma_decimal_digits(n: nat)
    ensures
        decimal(n).len() >= 1,
        forall|i: int|
            0 <= i < decimal(n).len() ==> 48 <= (#[trigger] decimal(n)[i]) as int <= 57,
    decreases n,
{
    if n >= 10 {
        lemma_decimal_digits(n / 10);
    }
}

/// The number that a sequence of decimal digit characters denotes.
pub open spec fn digits_value(s: Seq<char>) -> int
    decreases s.len(),
{
    if s.len() == 0 {
        0
    } else {
        digits_value(s.drop_last()) * 10 + (s.last() as int - 48)
    }
}

/// The decimal representation denotes the number it was made from, so the `Alt-Svc` value
/// advertises exactly the configured port and max-age.
pub proof fn lemma_decimal_value(n: nat)
    ensures
        digits_value(decimal(n)) == n,
    decreases n,
{
    if n >= 10 {
        lemma_decimal_value(n / 10);
        let s = decimal(n);
        assert(s.drop_last() =~= decimal(n / 10));
        assert(s.last() == digit_char(n % 10));
        assert(digit_char(n % 10) as int == n % 10 + 48);
        assert(digits_value(s) == digits_value(s.drop_last()) * 10 + (s.last() as int - 48));
        assert((n / 10) * 10 + n % 10 == n);
        assert(digits_value(s) == n);
    } else {
        let s = decimal(n);
        assert(s.drop_last() =~= Seq::<char>::empty());
        assert(digits_value(s.drop_last()) == 0);
        assert(digit_char(n) as int == n + 48);
        assert(s.last() == digit_char(n));
        assert(digits_value(s) == n);
    }
}

/// The `Alt-Svc` text is ASCII and every character is a valid header value character.
pub proof fn lemma_alt_svc_text_valid(h3_port: nat, max_age_secs: nat)
    ensures
        is_ascii_chars(alt_svc_text(h3_port, max_age_secs)),
        valid_header_text(alt_svc_text(h3_port, max_age_secs)),
        forall|i: int|
            0 <= i < alt_svc_text(h3_port, max_age_secs).len() ==> 32 <= (
            #[trigger] alt_svc_text(h3_port, max_age_secs)[i]) as int <= 126,
{
    lemma_decimal_digits(h3_port);
    lemma_decimal_digits(max_age_secs);
    let p = decimal(h3_port);
    let a = decimal(max_age_secs);
    let s = alt_svc_text(h3_port, max_age_secs);
    let pre = seq!['h', '3', '=', '"', ':'];
    let mid = seq!['"', ';', ' ', 'm', 'a', '='];
    assert forall|i: int| 0 <= i < s.len() implies 32 <= (#[trigger] s[i]) as int <= 126 by {
        if i < 5 {
            assert(s[i] == pre[i]);
        } else if i < 5 + p.len() {
            assert(s[i] == p[i - 5]);
        } else if i < 11 + p.len() {
            assert(s[i] == mid[i - 5 - p.len()]);
        } else {
            assert(s[i] == a[i - 11 - p.len()]);
        }
    }
    assert forall|i: int| 0 <= i < s.len() implies '\0' <= #[trigger] s[i] <= '\u{7f}' by {
        assert(32 <= s[i] as int <= 126);
    }
}

/// Builds the `Alt-Svc` header text `h3=":<port>"; ma=<max-age>`.
fn alt_svc_string(h3_port: u16, max_age_secs: u64) -> (s: String)
    ensures
        s@ == alt_svc_text(h3_port as nat, max_age_secs as nat),
{
    proof {
        reveal_strlit("h3=\":");
        reveal_strlit("\"; ma=");
    }
    let mut s = String::from_str("h3=\":");
    push_decimal(&mut s, h3_port as u64);
    s.append("\"; ma=");
    push_decimal(&mut s, max_age_secs);
    assert(s@ =~= alt_svc_text(h3_port as nat, max_age_secs as nat));
    s
}

/// Tower layer that inserts an HTTP/3 `Alt-Svc` response header.
#[derive(Clone, Debug)]
pub struct AltSvcLayer {
    header_value: HeaderValue,
}

impl View for AltSvcLayer {
    type V = Seq<u8>;

    /// The bytes of the header value that the layer inserts.
    closed spec fn view(&self) -> Seq<u8> {
        header_value_bytes(self.header_value)
    }
}

/// Build an [`AltSvcLayer`] for `h3=":<port>"; ma=<max-age>`.
pub fn alt_svc_layer(h3_port: u16, max_age_secs: u64) -> (layer: AltSvcLayer)
    ensures
        layer@ == ascii_bytes(alt_svc_text(h3_port as nat, max_age_secs as nat)),
{
    AltSvcLayer::new(h3_port, max_age_secs)
}

impl AltSvcLayer {
    /// Build an `AltSvcLayer` for `h3=":<port>"; ma=<max-age>`.
    ///
    /// The text always makes a valid header value, so the fallback value is never used.
    pub fn new(h3_port: u16, max_age_secs: u64) -> (layer: Self)
        ensures
            layer@ == ascii_bytes(alt_svc_text(h3_port as nat, max_age_secs as nat)),
    {
        let value = alt_svc_string(h3_port, max_age_secs);
        proof {
            lemma_alt_svc_text_valid(h3_port as nat, max_age_secs as nat);
        }
        let header_value = match header_value_from_str(value.as_str()) {
            Ok(v) => v,
            Err(_) => {
                proof {
                    reveal_strlit("h3=\":443\"; ma=86400");
                }
                header_value_from_static("h3=\":443\"; ma=86400")
            },
        };
        AltSvcLayer { header_value }
    }

    /// The header value that the layer inserts.
    pub fn header_value(&self) -> (value: &HeaderValue)
        ensures
            header_value_bytes(*value) == self@,
    {
        &self.header_value
    }

    /// The bytes of the header value that the layer inserts.
    pub fn header_value_bytes(&self) -> (bytes: Vec<u8>)
        ensures
            bytes@ == self@,
    {
        let s = header_value_as_bytes(&self.header_value);
        vstd::slice::slice_to_vec(s)
    }
}

/// Sets the `alt-svc` header of a response to the layer's value, replacing any value it
/// had. Returns `false`, leaving the headers as they were, when the map cannot grow, which
/// never happens while it holds fewer than [`header_map_room_bound`] header names.
pub fn insert_alt_svc(headers: &mut HeaderMap<HeaderValue>, layer: &AltSvcLayer) -> (inserted:
    bool)
    ensures
        header_entries(*old(headers)).dom().len() < header_map_room_bound() ==> inserted,
        inserted ==> header_entries(*final(headers)) == header_entries(*old(headers)).insert(
            alt_svc_name(),
            seq![layer@],
        ),
        !inserted ==> header_entries(*final(headers)) == header_entries(*old(headers)),
{
    let value = layer.header_value.clone();
    match header_map_try_insert_alt_svc(headers, value) {
        Ok(_) => true,
        Err(_) => false,
    }
}

/// Stacking the layer: after inserting the value into headers that already carry it from an
/// inner layer, the headers are unchanged and `alt-svc` has exactly one value, the layer's.
pub proof fn lemma_alt_svc_insert_idempotent(
    before: Map<Seq<u8>, Seq<Seq<u8>>>,
    once: Map<Seq<u8>, Seq<Seq<u8>>>,
    twice: Map<Seq<u8>, Seq<Seq<u8>>>,
    value: Seq<u8>,
)
    requires
        once == before.insert(alt_svc_name(), seq![value]),
        twice == once.insert(alt_svc_name(), seq![value]),
    ensures
        twice == once,
        twice[alt_svc_name()] == seq![value],
        twice[alt_svc_name()].len() == 1,
{
    assert(twice =~= once);
}

/// A non-empty run of decimal digit characters.
pub open spec fn is_digit_text(s: Seq<char>) -> bool {
    s.len() >= 1 && forall|i: int| 0 <= i < s.len() ==> 48 <= (#[trigger] s[i]) as int <= 57
}

/// A decimal representation has no leading zero: it starts with `0` only for zero itself,
/// which it writes as the single digit `0`.
pub proof fn lemma_decimal_no_leading_zero(n: nat)
    ensures
        decimal(n)[0] == '0' ==> n == 0 && decimal(n).len() == 1,
    decreases n,
{
    if n >= 10 {
        lemma_decimal_no_leading_zero(n / 10);
        lemma_decimal_digits(n / 10);
        assert(decimal(n)[0] == decimal(n / 10)[0]);
    }
}

/// For every port and every max-age, the `Alt-Svc` text is `h3=":`, then the digits of the
/// port, then `"; ma=`, then the digits of the max-age: the digits after `:` denote the port
/// and those after `ma=` denote the max-age, and the text is eleven characters longer than
/// the two numbers' digits together.
pub proof fn lemma_alt_svc_text_parts(h3_port: nat, max_age_secs: nat)
    ensures
        alt_svc_text(h3_port, max_age_secs) == "h3=\":"@ + decimal(h3_port) + "\"; ma="@
            + decimal(max_age_secs),
        is_digit_text(decimal(h3_port)),
        is_digit_text(decimal(max_age_secs)),
        digits_value(decimal(h3_port)) == h3_port,
        digits_value(decimal(max_age_secs)) == max_age_secs,
        decimal(h3_port)[0] == '0' ==> h3_port == 0 && decimal(h3_port).len() == 1,
        decimal(max_age_secs)[0] == '0' ==> max_age_secs == 0 && decimal(max_age_secs).len()
            == 1,
        alt_svc_text(h3_port, max_age_secs).len() == 11 + decimal(h3_port).len() + decimal(
            max_age_secs,
        ).len(),
        alt_svc_text(h3_port, max_age_secs).subrange(
            alt_svc_text(h3_port, max_age_secs).len() - decimal(max_age_secs).len(),
            alt_svc_text(h3_port, max_age_secs).len() as int,
        ) == decimal(max_age_secs),
{
    reveal_strlit("h3=\":");
    reveal_strlit("\"; ma=");
    lemma_decimal_digits(h3_port);
    lemma_decimal_digits(max_age_secs);
    lemma_decimal_value(h3_port);
    lemma_decimal_value(max_age_secs);
    lemma_decimal_no_leading_zero(h3_port);
    lemma_decimal_no_leading_zero(max_age_secs);
    let s = alt_svc_text(h3_port, max_age_secs);
    assert(s =~= "h3=\":"@ + decimal(h3_port) + "\"; ma="@ + decimal(max_age_secs));
    assert(s.subrange(s.len() - decimal(max_age_secs).len(), s.len() as int) =~= decimal(
        max_age_secs,
    ));
}

} // verus!
