//! Identifiers, their text, and the key by which a client finds its server.
use std::str::FromStr;
use vstd::prelude::*;

verus! {

/// The reason why a text is no identifier, carried through unread.
#[verifier::external_type_specification]
#[verifier::external_body]
pub struct ExUuidError(uuid::Error);

/// The lower-case hexadecimal digit for `d`, which is below sixteen.
pub open spec fn hex_digit(d: int) -> char {
    if d < 10 {
        ('0' as int + d) as char
    } else {
        ('a' as int + d - 10) as char
    }
}

/// The last `n` hexadecimal digits of `v`, the most significant first.
pub open spec fn hex_text(v: int, n: nat) -> Seq<char>
    decreases n,
{
    if n == 0 {
        Seq::empty()
    } else {
        hex_text(v / 16, (n - 1) as nat).push(hex_digit(v % 16))
    }
}

/// An identifier as thirty-two hexadecimal digits.
pub open spec fn simple(v: u128) -> Seq<char> {
    hex_text(v as int, 32)
}

/// An identifier as five groups of hexadecimal digits with hyphens between them.
pub open spec fn hyphenated(v: u128) -> Seq<char> {
    let digits = simple(v);
    digits.subrange(0, 8) + seq!['-'] + digits.subrange(8, 12) + seq!['-'] + digits.subrange(12, 16)
        + seq!['-'] + digits.subrange(16, 20) + seq!['-'] + digits.subrange(20, 32)
}

/// `c` with an ASCII capital letter made small.
pub open spec fn lower_char(c: char) -> char {
    if 'A' <= c <= 'Z' {
        (c as int + 32) as char
    } else {
        c
    }
}

/// `s` with its ASCII capital letters made small.
pub open spec fn ascii_lower(s: Seq<char>) -> Seq<char> {
    s.map_values(|c: char| lower_char(c))
}

/// Whether `s` is one of the texts of the identifier `v`: its digits alone, its hyphenated form,
/// that form in braces, or that form as a URN. Capital and small letters count the same.
pub open spec fn denotes(s: Seq<char>, v: u128) -> bool {
    let t = ascii_lower(s);
    ||| t == simple(v)
    ||| t == hyphenated(v)
    ||| t == seq!['{'] + hyphenated(v) + seq!['}']
    ||| t == seq!['u', 'r', 'n', ':', 'u', 'u', 'i', 'd', ':'] + hyphenated(v)
}

/// Sixteen to the power of `n`.
spec fn pow16(n: nat) -> int
    decreases n,
{
    if n == 0 {
        1
    } else {
        16 * pow16((n - 1) as nat)
    }
}

/// `hex_text` has as many characters as it was asked for, and none of them is a capital letter.
proof fn lemma_hex_text_shape(v: int, n: nat)
    ensures
        hex_text(v, n).len() == n,
        forall|i: int| 0 <= i < n ==> lower_char(#[trigger] hex_text(v, n)[i]) == hex_text(v, n)[i],
    decreases n,
{
    if n > 0 {
        lemma_hex_text_shape(v / 16, (n - 1) as nat);
    }
}

/// Two numbers with the same `n` digits are the same number, as long as `n` digits hold them.
proof fn lemma_hex_text_injective(a: int, b: int, n: nat)
    requires
        0 <= a < pow16(n),
        0 <= b < pow16(n),
        hex_text(a, n) == hex_text(b, n),
    ensures
        a == b,
    decreases n,
{
    if n > 0 {
        let m = (n - 1) as nat;
        let prefix_a = hex_text(a / 16, m);
        let prefix_b = hex_text(b / 16, m);
        lemma_hex_text_shape(a / 16, m);
        lemma_hex_text_shape(b / 16, m);
        assert(hex_text(a, n).last() == hex_digit(a % 16));
        assert(hex_text(b, n).last() == hex_digit(b % 16));
        assert(a % 16 == b % 16);
        assert(hex_text(a, n).drop_last() =~= prefix_a);
        assert(hex_text(b, n).drop_last() =~= prefix_b);
        lemma_hex_text_injective(a / 16, b / 16, m);
    }
}

/// The digits of an identifier, and so its hyphenated form, belong to no other identifier.
proof fn lemma_text_injective(a: u128, b: u128)
    ensures
        simple(a) == simple(b) ==> a == b,
        hyphenated(a) == hyphenated(b) ==> a == b,
{
    lemma_hex_text_shape(a as int, 32);
    lemma_hex_text_shape(b as int, 32);
    assert(pow16(32) == u128::MAX + 1) by {
        reveal_with_fuel(pow16, 33);
    }
    if simple(a) == simple(b) {
        lemma_hex_text_injective(a as int, b as int, 32);
    }
    if hyphenated(a) == hyphenated(b) {
        let h = hyphenated(a);
        let k = hyphenated(b);
        assert forall|i: int| 0 <= i < 32 implies simple(a)[i] == simple(b)[i] by {
            let at = if i < 8 {
                i
            } else if i < 12 {
                i + 1
            } else if i < 16 {
                i + 2
            } else if i < 20 {
                i + 3
            } else {
                i + 4
            };
            assert(h[at] == simple(a)[i]);
            assert(k[at] == simple(b)[i]);
        }
        assert(simple(a) =~= simple(b));
        lemma_hex_text_injective(a as int, b as int, 32);
    }
}

/// The hyphenated form has thirty-six characters, none of them a capital letter.
proof fn lemma_hyphenated_shape(v: u128)
    ensures
        simple(v).len() == 32,
        hyphenated(v).len() == 36,
        ascii_lower(hyphenated(v)) == hyphenated(v),
{
    lemma_hex_text_shape(v as int, 32);
    assert(ascii_lower(hyphenated(v)) =~= hyphenated(v));
}

/// No text denotes two identifiers.
pub proof fn law_text_denotes_one_identifier(s: Seq<char>, a: u128, b: u128)
    requires
        denotes(s, a),
        denotes(s, b),
    ensures
        a == b,
{
    lemma_hyphenated_shape(a);
    lemma_hyphenated_shape(b);
    lemma_text_injective(a, b);
    let t = ascii_lower(s);
    if t.len() == 38 {
        assert(t.subrange(1, 37) =~= hyphenated(a));
        assert(t.subrange(1, 37) =~= hyphenated(b));
    } else if t.len() == 45 {
        assert(t.subrange(9, 45) =~= hyphenated(a));
        assert(t.subrange(9, 45) =~= hyphenated(b));
    }
}

/// The text that a key is written as denotes that key and no other: whoever reads it gets the
/// key back.
pub proof fn law_key_text_round_trip(v: u128)
    ensures
        denotes(hyphenated(v), v),
        forall|w: u128| denotes(hyphenated(v), w) ==> w == v,
{
    lemma_hyphenated_shape(v);
    assert forall|w: u128| denotes(hyphenated(v), w) implies w == v by {
        law_text_denotes_one_identifier(hyphenated(v), v, w);
    }
}

/// Whether a text is read as an identifier, and as which, does not depend on the case of its
/// letters.
pub proof fn law_case_of_text_is_ignored(s: Seq<char>, t: Seq<char>, v: u128)
    requires
        ascii_lower(s) == ascii_lower(t),
    ensures
        denotes(s, v) == denotes(t, v),
{
}

/// The error with which `uuid::Uuid::parse_str` rejects a text that is no identifier.
pub uninterp spec fn uuid_error(text: Seq<char>) -> uuid::Error;

/// Whether `r` is what comes of reading `text` as an identifier.
pub open spec fn is_reading(text: Seq<char>, r: Result<u128, uuid::Error>) -> bool {
    match r {
        Ok(v) => denotes(text, v),
        Err(e) => (forall|v: u128| !denotes(text, v)) && e == uuid_error(text),
    }
}

/// What comes of reading a key, as what comes of reading its identifier.
pub open spec fn key_reading(r: Result<ConnectionKey, uuid::Error>) -> Result<u128, uuid::Error> {
    match r {
        Ok(key) => Ok(key@),
        Err(e) => Err(e),
    }
}

/// However a text is read, the same key comes of it, or the same error.
pub proof fn law_readings_agree(
    text: Seq<char>,
    a: Result<u128, uuid::Error>,
    b: Result<u128, uuid::Error>,
)
    requires
        is_reading(text, a),
        is_reading(text, b),
    ensures
        a == b,
{
    if a is Ok && b is Ok {
        law_text_denotes_one_identifier(text, a->Ok_0, b->Ok_0);
    }
}

/// Reading the text of a key gives the key back.
pub proof fn law_reading_undoes_writing(v: u128, r: Result<u128, uuid::Error>)
    requires
        is_reading(hyphenated(v), r),
    ensures
        r == Ok::<u128, uuid::Error>(v),
{
    law_key_text_round_trip(v);
}

/// Reads an identifier with `uuid::Uuid::parse_str`, and hands out its 128 bits as a number.
///
/// Claimed of it: it accepts exactly the texts of identifiers, and gives the identifier that
/// the text denotes; and with which error it rejects a text depends on the text alone. What the
/// error holds is not stated.
#[verifier::external_body]
fn parse_uuid(s: &str) -> (r: Result<u128, uuid::Error>)
    ensures
        match r {
            Ok(v) => denotes(s@, v),
            Err(e) => (forall|v: u128| !denotes(s@, v)) && e == uuid_error(s@),
        },
{
    uuid::Uuid::parse_str(s).map(|u| u.as_u128())
}

/// Writes an identifier with the `Display` impl of `uuid::Uuid`.
///
/// Claimed of it: the text is the hyphenated form in small letters.
#[verifier::external_body]
fn format_uuid(v: u128) -> (r: String)
    ensures
        r@ == hyphenated(v),
{
    uuid::Uuid::from_u128(v).to_string()
}

/// The version of an identifier: its thirteenth hexadecimal digit.
pub open spec fn version_of(v: u128) -> int {
    (v as int / 0x1000_0000_0000_0000_0000) % 16
}

/// The variant of an identifier: the two highest bits of its seventeenth hexadecimal digit.
pub open spec fn variant_of(v: u128) -> int {
    (v as int / 0x4000_0000_0000_0000) % 4
}

/// Whether `v` has the version and the variant of a randomly generated identifier.
pub open spec fn is_random_uuid(v: u128) -> bool {
    version_of(v) == 4 && variant_of(v) == 2
}

/// The digit at each place of `hex_text`.
proof fn lemma_hex_text_digit(v: int, n: nat, i: int)
    requires
        0 <= v,
        0 <= i < n,
    ensures
        pow16((n - 1 - i) as nat) > 0,
        hex_text(v, n).len() == n,
        hex_text(v, n)[i] == hex_digit((v / pow16((n - 1 - i) as nat)) % 16),
    decreases n,
{
    lemma_hex_text_shape(v, n);
    let m = (n - 1) as nat;
    lemma_hex_text_shape(v / 16, m);
    if i < m {
        lemma_hex_text_digit(v / 16, m, i);
        let k = (m - 1 - i) as nat;
        vstd::arithmetic::div_mod::lemma_div_denominator(v, 16, pow16(k));
        assert(hex_text(v, n)[i] == hex_text(v / 16, m)[i]);
        assert((n - 1 - i) as nat == k + 1);
    }
}

/// The text of a random identifier shows that it is one: a four begins the third of its groups, and
/// an eight, a nine, an `a` or a `b` the fourth. No other identifier has these digits there.
pub proof fn law_random_identifiers_show_in_their_text(v: u128)
    ensures
        is_random_uuid(v) <==> simple(v)[12] == '4' && (simple(v)[16] == '8' || simple(v)[16] == '9'
            || simple(v)[16] == 'a' || simple(v)[16] == 'b'),
{
    lemma_hex_text_digit(v as int, 32, 12);
    lemma_hex_text_digit(v as int, 32, 16);
    assert(pow16(19) == 0x1000_0000_0000_0000_0000 && pow16(15) == 0x1000_0000_0000_0000) by {
        reveal_with_fuel(pow16, 20);
    }
    let x = v as int / 0x1000_0000_0000_0000;
    assert(v as int / 0x4000_0000_0000_0000 == x / 4);
    assert((x / 4) % 4 == (x % 16) / 4);
}

/// A reading of a text succeeds exactly with what the text denotes, and fails exactly where it
/// denotes nothing, with the error for that text. A key is read as its identifier.
pub proof fn law_a_reading_is_what_the_text_denotes(
    text: Seq<char>,
    v: u128,
    e: uuid::Error,
    key: ConnectionKey,
)
    ensures
        is_reading(text, Ok(v)) <==> denotes(text, v),
        is_reading(text, Err(e)) <==> (forall|w: u128| !denotes(text, w)) && e == uuid_error(text),
        key_reading(Ok(key)) == Ok::<u128, uuid::Error>(key@),
        key_reading(Err(e)) == Err::<u128, uuid::Error>(e),
{
}

/// Draws an identifier with `uuid::Uuid::new_v4`.
///
/// Claimed of it: the version and the variant are those of a random identifier. The other
/// bits come from the operating system's random numbers, and nothing is said of them, nor that
/// two calls differ.
#[verifier::external_body]
pub(crate) fn new_uuid() -> (v: u128)
    ensures
        is_random_uuid(v),
{
    uuid::Uuid::new_v4().as_u128()
}

/// This key can be used to connect to the server it came with, even outside of its process.
#[derive(Debug)]
pub struct ConnectionKey {
    uuid: u128,
}

impl View for ConnectionKey {
    type V = u128;

    closed spec fn view(&self) -> u128 {
        self.uuid
    }
}

impl ConnectionKey {
    /// The text of the key, from which [`ConnectionKey::from_str`] gets it back.
    pub fn to_string(&self) -> (r: String)
        ensures
            r@ == hyphenated(self@),
    {
        format_uuid(self.uuid)
    }
}

impl Clone for ConnectionKey {
    fn clone(&self) -> (r: Self)
        ensures
            r@ == self@,
    {
        ConnectionKey { uuid: self.uuid }
    }
}

impl FromStr for ConnectionKey {
    type Err = uuid::Error;

    fn from_str(s: &str) -> (r: Result<Self, uuid::Error>)
        ensures
            is_reading(s@, key_reading(r)),
            match r {
                Ok(key) => denotes(s@, key@),
                Err(e) => (forall|v: u128| !denotes(s@, v)) && e == uuid_error(s@),
            },
    {
        match parse_uuid(s) {
            Ok(uuid) => Ok(ConnectionKey { uuid }),
            Err(e) => Err(e),
        }
    }
}

impl TryFrom<String> for ConnectionKey {
    type Error = uuid::Error;

    fn try_from(s: String) -> (r: Result<Self, uuid::Error>)
        ensures
            is_reading(s@, key_reading(r)),
            match r {
                Ok(key) => denotes(s@, key@),
                Err(e) => (forall|v: u128| !denotes(s@, v)) && e == uuid_error(s@),
            },
    {
        ConnectionKey::from_str(s.as_str())
    }
}

impl vstd::std_specs::convert::TryFromSpecImpl<String> for ConnectionKey {
    open spec fn obeys_try_from_spec() -> bool {
        false
    }

    open spec fn try_from_spec(s: String) -> Result<Self, uuid::Error> {
        arbitrary()
    }
}

impl From<ConnectionKey> for String {
    fn from(key: ConnectionKey) -> (r: String)
        ensures
            r@ == hyphenated(key@),
    {
        format_uuid(key.uuid)
    }
}

impl vstd::std_specs::convert::FromSpecImpl<ConnectionKey> for String {
    open spec fn obeys_from_spec() -> bool {
        false
    }

    open spec fn from_spec(key: ConnectionKey) -> String {
        arbitrary()
    }
}

impl From<u128> for ConnectionKey {
    fn from(uuid: u128) -> (r: Self)
        ensures
            r@ == uuid,
    {
        ConnectionKey { uuid }
    }
}

impl vstd::std_specs::convert::FromSpecImpl<u128> for ConnectionKey {
    open spec fn obeys_from_spec() -> bool {
        false
    }

    open spec fn from_spec(uuid: u128) -> Self {
        arbitrary()
    }
}

impl From<ConnectionKey> for u128 {
    fn from(key: ConnectionKey) -> (r: u128)
        ensures
            r == key@,
    {
        key.uuid
    }
}

impl vstd::std_specs::convert::FromSpecImpl<ConnectionKey> for u128 {
    open spec fn obeys_from_spec() -> bool {
        true
    }

    open spec fn from_spec(key: ConnectionKey) -> u128 {
        key@
    }
}

} // verus!
