//! Nonces for HTTP digest authentication.
//!
//! A nonce names the moment at which it was made and carries a hash of
//! that moment and the server's secret, so that the server can tell its
//! own nonces from others and fresh ones from stale ones without keeping
//! any of them.

use base64::engine::Engine;
use vstd::prelude::*;
use vstd::string::*;
use vstd::utf8::{decode_utf8, encode_utf8, is_ascii_chars, valid_utf8};

use crate::digest::{hexChar, hex_char, hex_of, is_hex_char, sha256, sha256Hash};
use crate::site::{base64_unpadded, base64_unpadded_decoded, createToken, encodeUnpadded};
use crate::text::{
    charsOf, concatText, findFrom, first_index_of, reversed, sameText, sliceText,
};
use crate::video::TimeSpan;

verus! {

/// What the check of a nonce found.
#[derive(Debug, Clone, Copy, PartialEq, Eq, Structural)]
pub enum NonceCheck {
    /// The nonce is the server's own and fresh.
    Pass,
    /// The nonce is the server's own, but older than nonces may be.
    Stale,
    /// The nonce is not the server's own.
    Fail,
}

/// The last `width` hexadecimal digits of `n`, in lower case, with zeros
/// in front where `n` has fewer.
pub open spec fn hex_fixed(n: nat, width: nat) -> Seq<char>
    decreases width,
{
    if width == 0 {
        Seq::empty()
    } else {
        hex_fixed(n / 16, (width - 1) as nat).push(hex_char((n % 16) as int))
    }
}

/// `digits` without the zeros at its front, as far as `keep` digits stay.
pub open spec fn strip_zeros(digits: Seq<char>, keep: nat) -> Seq<char>
    decreases digits.len(),
{
    if digits.len() > keep && digits[0] == '0' {
        strip_zeros(digits.drop_first(), keep)
    } else {
        digits
    }
}

/// A moment, in nanoseconds since the Unix epoch, as a nonce writes it:
/// in hexadecimal with at least sixteen digits, a moment before the epoch
/// by the bits of its two's complement.
pub open spec fn hex_stamp(moment: i128) -> Seq<char> {
    strip_zeros(hex_fixed((moment as u128) as nat, 32), 16)
}

/// Whether every character of `text` is a hexadecimal digit in lower case.
pub open spec fn all_hex(text: Seq<char>) -> bool {
    forall|i: int| 0 <= i < text.len() ==> is_hex_char(#[trigger] text[i])
}

/// A number written with a fixed number of hexadecimal digits has that
/// many characters, all of them hexadecimal digits.
pub proof fn lemma_hex_fixed_shape(n: nat, width: nat)
    ensures
        hex_fixed(n, width).len() == width,
        all_hex(hex_fixed(n, width)),
    decreases width,
{
    if width > 0 {
        lemma_hex_fixed_shape(n / 16, (width - 1) as nat);
    }
}

/// What is left of digits without the zeros at their front is their end:
/// the digits from the first that is no zero on, or the last `keep` of
/// them where more zeros than that stand in front.
pub proof fn lemma_strip_zeros(digits: Seq<char>, keep: nat, from: int)
    requires
        0 <= from <= digits.len(),
        forall|i: int| 0 <= i < from ==> digits[i] == '0',
        digits.len() - from >= keep || from == 0,
        from < digits.len() && digits.len() - from > keep ==> digits[from] != '0',
    ensures
        strip_zeros(digits, keep) == digits.skip(from),
    decreases from,
{
    if from == 0 {
        assert(digits.skip(0) == digits);
    } else {
        let rest = digits.drop_first();
        assert(rest.skip(from - 1) == digits.skip(from));
        if from - 1 == 0 {
            assert(rest.skip(0) == rest);
        }
        lemma_strip_zeros(rest, keep, from - 1);
    }
}

/// The last `width` hexadecimal digits of `n`.
fn hexFixedChars(n: u128, width: usize) -> (chars: Vec<char>)
    ensures
        chars@ == hex_fixed(n as nat, width as nat),
{
    let mut low_first: Vec<char> = Vec::new();
    let mut rest: u128 = n;
    assert(hex_fixed(rest as nat, width as nat) + low_first@.reverse() == hex_fixed(
        n as nat,
        width as nat,
    ));
    while low_first.len() < width
        invariant
            low_first.len() <= width,
            hex_fixed(rest as nat, (width - low_first.len()) as nat) + low_first@.reverse()
                == hex_fixed(n as nat, width as nat),
        decreases width - low_first.len(),
    {
        let ghost before = low_first@;
        let ghost left = (width - low_first.len()) as nat;
        let digit = hexChar((rest % 16) as u8);
        low_first.push(digit);
        proof {
            assert(low_first@.reverse() == seq![digit] + before.reverse());
            assert(hex_fixed(rest as nat, left) == hex_fixed(rest as nat / 16, (left - 1) as nat).push(
                digit,
            ));
            assert(hex_fixed(rest as nat / 16, (left - 1) as nat).push(digit) + before.reverse()
                == hex_fixed(rest as nat / 16, (left - 1) as nat) + (seq![digit]
                + before.reverse()));
        }
        rest = rest / 16;
    }
    let chars = reversed(&low_first);
    assert(hex_fixed(rest as nat, 0) + low_first@.reverse() == low_first@.reverse());
    chars
}

/// A moment as a nonce writes it: at least sixteen and at most thirty-two
/// hexadecimal digits.
pub fn hexStamp(moment: i128) -> (stamp: String)
    ensures
        stamp@ == hex_stamp(moment),
        16 <= stamp@.len() <= 32,
        all_hex(stamp@),
{
    let digits = hexFixedChars(moment as u128, 32);
    proof {
        lemma_hex_fixed_shape((moment as u128) as nat, 32);
    }
    let mut from: usize = 0;
    while from < 16 && digits[from] == '0'
        invariant
            from <= 16,
            digits.len() == 32,
            forall|i: int| 0 <= i < from ==> digits@[i] == '0',
        decreases 16 - from,
    {
        from += 1;
    }
    proof {
        lemma_strip_zeros(digits@, 16, from as int);
    }
    sliceText(&digits, from, 32)
}

/// The number that a hexadecimal digit of either case stands for.
pub open spec fn hex_value(c: char) -> Option<int> {
    if '0' <= c <= '9' {
        Some(c as int - 48)
    } else if 'a' <= c <= 'f' {
        Some(c as int - 87)
    } else if 'A' <= c <= 'F' {
        Some(c as int - 55)
    } else {
        None
    }
}

/// The number that hexadecimal digits of either case write; none where a
/// character is no such digit.
pub open spec fn hex_number(digits: Seq<char>) -> Option<int>
    decreases digits.len(),
{
    if digits.len() == 0 {
        Some(0)
    } else {
        match (hex_number(digits.drop_last()), hex_value(digits.last())) {
            (Some(high), Some(low)) => Some(high * 16 + low),
            _ => None,
        }
    }
}

/// The integer that a sign, if any, and hexadecimal digits write; none
/// where there is no digit or a character is no digit.
pub open spec fn signed_hex_number(text: Seq<char>) -> Option<int> {
    if text.len() == 0 {
        None
    } else if text[0] == '+' || text[0] == '-' {
        if text.len() == 1 {
            None
        } else {
            match hex_number(text.skip(1)) {
                Some(n) => Some(
                    if text[0] == '-' {
                        -n
                    } else {
                        n
                    },
                ),
                None => None,
            }
        }
    } else {
        hex_number(text)
    }
}

/// The integer that `text` writes in hexadecimal, as `i128::from_str_radix`
/// reads it: a sign may stand in front, at least one digit must follow,
/// and the integer must be one that `i128` holds.
pub open spec fn parse_hex(text: Seq<char>) -> Option<int> {
    match signed_hex_number(text) {
        Some(n) => if i128::MIN <= n <= i128::MAX {
            Some(n)
        } else {
            None
        },
        None => None,
    }
}

/// The number that hexadecimal digits write is not negative, and smaller
/// than the digits allow.
pub proof fn lemma_hex_number_bound(digits: Seq<char>)
    requires
        digits.len() <= 16,
    ensures
        hex_number(digits) matches Some(n) ==> 0 <= n < 0x1_0000_0000_0000_0000,
        hex_number(digits) matches Some(n) ==> digits.len() <= 15 ==> n < 0x1000_0000_0000_0000,
{
    lemma_hex_number_below(digits);
    assert(pow16(16) == 0x1_0000_0000_0000_0000) by {
        reveal_with_fuel(pow16, 17);
    }
    if digits.len() <= 15 {
        lemma_pow16_grows(digits.len(), 15);
        assert(pow16(15) == 0x1000_0000_0000_0000) by {
            reveal_with_fuel(pow16, 16);
        }
    } else {
    }
}

/// Sixteen to the power of `k`.
pub open spec fn pow16(k: nat) -> int
    decreases k,
{
    if k == 0 {
        1
    } else {
        16 * pow16((k - 1) as nat)
    }
}

/// Powers of sixteen grow with the exponent.
proof fn lemma_pow16_grows(a: nat, b: nat)
    requires
        a <= b,
    ensures
        0 < pow16(a) <= pow16(b),
    decreases b,
{
    if b == 0 {
    } else if a == b {
        lemma_pow16_grows((a - 1) as nat, (b - 1) as nat);
    } else {
        lemma_pow16_grows(a, (b - 1) as nat);
    }
}

/// The number that hexadecimal digits write is smaller than sixteen to the
/// power of their count.
proof fn lemma_hex_number_below(digits: Seq<char>)
    ensures
        hex_number(digits) matches Some(n) ==> 0 <= n < pow16(digits.len()),
    decreases digits.len(),
{
    if digits.len() > 0 {
        lemma_hex_number_below(digits.drop_last());
    }
}

/// The beginning of digits writes no more than all of them.
proof fn lemma_hex_number_prefix(digits: Seq<char>, upto: int)
    requires
        0 <= upto <= digits.len(),
        hex_number(digits) is Some,
    ensures
        hex_number(digits.take(upto)) matches Some(m) && 0 <= m <= hex_number(digits)->0,
    decreases digits.len() - upto,
{
    lemma_hex_number_below(digits);
    if upto < digits.len() {
        let shorter = digits.drop_last();
        assert(shorter.take(upto) == digits.take(upto));
        lemma_hex_number_below(shorter);
        lemma_hex_number_prefix(shorter, upto);
    } else {
        assert(digits.take(upto) == digits);
    }
}

/// The number that the hexadecimal digits from `from` on write, where it
/// is no greater than `limit`.
fn hexNumber(chars: &Vec<char>, from: usize, limit: u128) -> (number: Option<u128>)
    requires
        from <= chars.len(),
        limit <= 0x8000_0000_0000_0000_0000_0000_0000_0000,
    ensures
        match number {
            Some(n) => hex_number(chars@.skip(from as int)) == Some(n as int) && n <= limit,
            None => hex_number(chars@.skip(from as int)) matches Some(n) ==> n > limit,
        },
{
    let ghost digits = chars@.skip(from as int);
    let mut value: u128 = 0;
    let mut i: usize = from;
    assert(digits.take(0) == Seq::<char>::empty());
    while i < chars.len()
        invariant
            from <= i <= chars.len(),
            limit <= 0x8000_0000_0000_0000_0000_0000_0000_0000,
            digits == chars@.skip(from as int),
            hex_number(digits.take(i - from)) == Some(value as int),
            value <= limit,
        decreases chars.len() - i,
    {
        let c = chars[i];
        let ghost seen = digits.take(i - from);
        let ghost next = digits.take(i - from + 1);
        proof {
            assert(next.drop_last() == seen);
            assert(next.last() == c);
        }
        let low: u128 = if '0' <= c && c <= '9' {
            (c as u8 - 48) as u128
        } else if 'a' <= c && c <= 'f' {
            (c as u8 - 87) as u128
        } else if 'A' <= c && c <= 'F' {
            (c as u8 - 55) as u128
        } else {
            proof {
                lemma_hex_number_none(digits, i - from + 1);
            }
            return None;
        };
        if limit < low || value > (limit - low) / 16 {
            proof {
                assert(hex_number(next) == Some(value * 16 + low));
                if hex_number(digits) is Some {
                    lemma_hex_number_prefix(digits, i - from + 1);
                }
            }
            return None;
        }
        value = value * 16 + low;
        i += 1;
    }
    assert(digits.take(i - from) == digits);
    Some(value)
}

/// Digits that begin with what writes no number write none.
proof fn lemma_hex_number_none(digits: Seq<char>, upto: int)
    requires
        0 <= upto <= digits.len(),
        hex_number(digits.take(upto)) is None,
    ensures
        hex_number(digits) is None,
    decreases digits.len() - upto,
{
    if upto < digits.len() {
        assert(digits.take(upto + 1).drop_last() == digits.take(upto));
        lemma_hex_number_none(digits, upto + 1);
    } else {
        assert(digits.take(upto) == digits);
    }
}

/// The integer that `text` writes in hexadecimal, as `i128::from_str_radix`
/// reads it.
pub fn parseHex(text: &str) -> (number: Option<i128>)
    ensures
        match number {
            Some(n) => parse_hex(text@) == Some(n as int),
            None => parse_hex(text@) is None,
        },
{
    let chars = charsOf(text);
    if chars.len() == 0 {
        return None;
    }
    let first = chars[0];
    if first == '-' {
        if chars.len() == 1 {
            return None;
        }
        match hexNumber(&chars, 1, 0x8000_0000_0000_0000_0000_0000_0000_0000) {
            Some(n) => {
                if n == 0x8000_0000_0000_0000_0000_0000_0000_0000 {
                    Some(i128::MIN)
                } else {
                    Some(-(n as i128))
                }
            },
            None => None,
        }
    } else if first == '+' {
        if chars.len() == 1 {
            return None;
        }
        match hexNumber(&chars, 1, 0x7fff_ffff_ffff_ffff_ffff_ffff_ffff_ffff) {
            Some(n) => Some(n as i128),
            None => None,
        }
    } else {
        assert(chars@.skip(0) == chars@);
        match hexNumber(&chars, 0, 0x7fff_ffff_ffff_ffff_ffff_ffff_ffff_ffff) {
            Some(n) => Some(n as i128),
            None => None,
        }
    }
}

/// Whether `time::OffsetDateTime` can hold the moment that lies
/// `nanoseconds` nanoseconds after the Unix epoch.
pub uninterp spec fn is_unix_timestamp_nanos(nanoseconds: i128) -> bool;

/// The bytes that `text` stands for in Base64 without padding.
///
/// Trusted: `Engine::decode` of `base64`, with the standard engine
/// without padding, which fails or succeeds by the text alone.
#[verifier::external_body]
fn decodeUnpadded(text: &str) -> (bytes: Option<Vec<u8>>)
    ensures
        match bytes {
            Some(found) => base64_unpadded_decoded(text@) == Some(found@),
            None => base64_unpadded_decoded(text@) is None,
        },
{
    match base64::engine::general_purpose::STANDARD_NO_PAD.decode(text) {
        Ok(found) => Some(found),
        Err(_) => None,
    }
}

/// The text that `bytes` encode in UTF-8, where they encode one.
///
/// Trusted: `String::from_utf8`, which succeeds exactly on valid UTF-8 and
/// then yields the string of which the bytes are the encoding.
#[verifier::external_body]
fn utf8Text(bytes: Vec<u8>) -> (text: Option<String>)
    ensures
        text is Some <==> valid_utf8(bytes@),
        text matches Some(found) ==> found@ == decode_utf8(bytes@),
{
    match String::from_utf8(bytes) {
        Ok(found) => Some(found),
        Err(_) => None,
    }
}

/// Whether `nanoseconds` after the Unix epoch is a moment that can be
/// held.
///
/// Trusted: `time::OffsetDateTime::from_unix_timestamp_nanos`, which
/// succeeds or fails by the number alone.
#[verifier::external_body]
fn isUnixTimestampNanos(nanoseconds: i128) -> (valid: bool)
    ensures
        valid == is_unix_timestamp_nanos(nanoseconds),
{
    time::OffsetDateTime::from_unix_timestamp_nanos(nanoseconds).is_ok()
}

/// The time, in nanoseconds since the Unix epoch.
///
/// Trusted: the clock as `time::OffsetDateTime::now_utc` reads it; nothing
/// is known of the time.
#[verifier::external_body]
fn unixNowNanos() -> i128 {
    time::OffsetDateTime::now_utc().unix_timestamp_nanos()
}

/// The hash that ties the moment written as `stamp` to `secret`.
pub open spec fn stamp_hash(secret: Seq<char>, stamp: Seq<char>) -> Seq<char> {
    hex_of(sha256(encode_utf8(stamp + ":"@ + secret)))
}

/// What the nonce for `moment` says before it is encoded: the moment, a
/// space, and the hash that ties the moment to `secret`.
pub open spec fn nonce_plain(secret: Seq<char>, moment: i128) -> Seq<char> {
    hex_stamp(moment) + " "@ + stamp_hash(secret, hex_stamp(moment))
}

/// The nonce that a server with the secret `secret` makes at `moment`.
pub open spec fn nonce_of(secret: Seq<char>, moment: i128) -> Seq<char> {
    base64_unpadded(encode_utf8(nonce_plain(secret, moment)))
}

/// What a server with the secret `secret`, at which nonces last for
/// `timeout`, finds of `nonce` at the moment `now`.
///
/// The nonce must decode to a text in UTF-8 that holds a space; what
/// stands before the first space must have sixteen bytes, what stands
/// after it must be the hash that ties the former to the secret, and the
/// former must write, in hexadecimal, a moment that can be held and that
/// does not lie after `now`. Such a nonce passes until it is older than
/// `timeout`, and is stale from then on.
pub open spec fn check_nonce(secret: Seq<char>, timeout: TimeSpan, nonce: Seq<char>, now: i128)
    -> NonceCheck {
    match base64_unpadded_decoded(nonce) {
        None => NonceCheck::Fail,
        Some(bytes) => {
            let plain = decode_utf8(bytes);
            let space = first_index_of(plain, ' ');
            let stamp = plain.take(space);
            if !valid_utf8(bytes) || space < 0 || space >= plain.len() {
                NonceCheck::Fail
            } else if encode_utf8(stamp).len() != 16 || stamp_hash(secret, stamp) != plain.skip(
                space + 1,
            ) {
                NonceCheck::Fail
            } else {
                match parse_hex(stamp) {
                    None => NonceCheck::Fail,
                    Some(moment) => if !is_unix_timestamp_nanos(moment as i128) || now < moment {
                        NonceCheck::Fail
                    } else if now - moment <= timeout.nanoseconds {
                        NonceCheck::Pass
                    } else {
                        NonceCheck::Stale
                    },
                }
            }
        },
    }
}

/// A text is not longer than its encoding in UTF-8.
pub proof fn lemma_utf8_not_shorter(chars: Seq<char>)
    ensures
        chars.len() <= encode_utf8(chars).len(),
    decreases chars.len(),
{
    if chars.len() > 0 {
        lemma_utf8_not_shorter(chars.drop_first());
    }
}

/// HTTP digest authentication with SHA-256 and the quality of protection
/// `auth`.
pub struct DigestAuthentication {
    realm: String,
    secret: String,
    auth_timeout: TimeSpan,
    opaque: String,
}

/// The mathematical value of a [`DigestAuthentication`].
pub struct DigestView {
    /// The realm that the server names to the browser.
    pub realm: Seq<char>,
    /// What only the server knows.
    pub secret: Seq<char>,
    /// How long a nonce is fresh.
    pub auth_timeout: TimeSpan,
    /// What the browser is to hand back unchanged.
    pub opaque: Seq<char>,
}

impl View for DigestAuthentication {
    type V = DigestView;

    closed spec fn view(&self) -> DigestView {
        DigestView {
            realm: self.realm@,
            secret: self.secret@,
            auth_timeout: self.auth_timeout,
            opaque: self.opaque@,
        }
    }
}

impl DigestView {
    /// The header with which the browser is asked to authenticate, with
    /// `nonce` as the nonce.
    pub open spec fn header(self, nonce: Seq<char>) -> Seq<char> {
        "Digest realm=\""@ + self.realm + "\",qop=\"auth\",algorithm=SHA-256,nonce=\""@ + nonce
            + "\",opaque=\""@ + self.opaque + "\""@
    }
}

impl DigestAuthentication {
    /// An authentication for `realm` with the given secret, lifetime of
    /// nonces and opaque text.
    pub fn withOpaque(realm: String, secret: String, auth_timeout: TimeSpan, opaque: String)
        -> (auth: Self)
        ensures
            auth@ == (DigestView {
                realm: realm@,
                secret: secret@,
                auth_timeout,
                opaque: opaque@,
            }),
    {
        Self { realm, secret, auth_timeout, opaque }
    }

    /// An authentication for `realm` with the given secret and lifetime
    /// of nonces, and with an opaque text drawn at random.
    pub fn new(realm: String, secret: String, auth_timeout: TimeSpan) -> (auth: Self)
        ensures
            auth@.realm == realm@,
            auth@.secret == secret@,
            auth@.auth_timeout == auth_timeout,
            exists|seed: Seq<u8>| seed.len() == 16 && auth@.opaque == base64_unpadded(seed),
    {
        let opaque = createToken();
        Self { realm, secret, auth_timeout, opaque }
    }

    /// The hash that ties the moment written as `ts_str` to the secret.
    pub fn hashTimestamp(&self, ts_str: &str) -> (hash: String)
        ensures
            hash@ == stamp_hash(self@.secret, ts_str@),
            hash@.len() == 64,
            forall|i: int| 0 <= i < 64 ==> is_hex_char(#[trigger] hash@[i]),
    {
        let mut to_hash = concatText(ts_str, ":");
        to_hash.append(self.secret.as_str());
        sha256Hash(to_hash.as_str().as_bytes())
    }

    /// The nonce for the moment `timestamp_nano`, in nanoseconds since the
    /// Unix epoch. It decodes to what it says.
    pub fn calculateNonce(&self, timestamp_nano: i128) -> (nonce: String)
        ensures
            nonce@ == nonce_of(self@.secret, timestamp_nano),
            base64_unpadded_decoded(nonce@) == Some(
                encode_utf8(nonce_plain(self@.secret, timestamp_nano)),
            ),
    {
        let stamp = hexStamp(timestamp_nano);
        let hash = self.hashTimestamp(stamp.as_str());
        let mut plain = concatText(stamp.as_str(), " ");
        plain.append(hash.as_str());
        proof {
            reveal_strlit(" ");
            assert forall|i: int| 0 <= i < plain@.len() implies '\0' <= #[trigger] plain@[i]
                <= '\u{7f}' by {
                if i < stamp@.len() {
                    assert(is_hex_char(stamp@[i]));
                } else if i > stamp@.len() {
                    assert(is_hex_char(hash@[i - stamp@.len() - 1]));
                }
            }
            assert(is_ascii_chars(plain@));
            vstd::utf8::is_ascii_chars_encode_utf8(plain@);
        }
        encodeUnpadded(plain.as_str().as_bytes())
    }

    /// A nonce for the present moment.
    pub fn newNonce(&self) -> (nonce: String)
        ensures
            exists|moment: i128|
                nonce@ == nonce_of(self@.secret, moment) && base64_unpadded_decoded(nonce@)
                    == Some(encode_utf8(nonce_plain(self@.secret, moment))),
    {
        let moment = unixNowNanos();
        self.calculateNonce(moment)
    }

    /// What the server finds of `nonce` at the moment `now`, in
    /// nanoseconds since the Unix epoch.
    pub fn checkNonceAt(&self, nonce: &str, now: i128) -> (check: NonceCheck)
        ensures
            check == check_nonce(self@.secret, self@.auth_timeout, nonce@, now),
    {
        let bytes = match decodeUnpadded(nonce) {
            Some(bytes) => bytes,
            None => {
                return NonceCheck::Fail;
            },
        };
        let plain = match utf8Text(bytes) {
            Some(plain) => plain,
            None => {
                return NonceCheck::Fail;
            },
        };
        let chars = charsOf(plain.as_str());
        assert(chars@.skip(0) == chars@);
        let space = findFrom(&chars, 0, ' ');
        if space >= chars.len() {
            return NonceCheck::Fail;
        }
        let stamp = sliceText(&chars, 0, space);
        let hash = sliceText(&chars, space + 1, chars.len());
        if stamp.as_str().as_bytes().len() != 16 {
            return NonceCheck::Fail;
        }
        let expected = self.hashTimestamp(stamp.as_str());
        if !sameText(expected.as_str(), hash.as_str()) {
            return NonceCheck::Fail;
        }
        proof {
            lemma_utf8_not_shorter(stamp@);
        }
        let moment = match parseHex(stamp.as_str()) {
            Some(moment) => moment,
            None => {
                return NonceCheck::Fail;
            },
        };
        if !isUnixTimestampNanos(moment) || now < moment {
            return NonceCheck::Fail;
        }
        proof {
            lemma_hex_number_bound(stamp@);
            if stamp@[0] == '+' || stamp@[0] == '-' {
                lemma_hex_number_bound(stamp@.skip(1));
            }
        }
        let age: u128 = if moment >= 0 {
            (now - moment) as u128
        } else if now >= 0 {
            now as u128 + (-moment) as u128
        } else {
            (now - moment) as u128
        };
        if age <= self.auth_timeout.nanoseconds {
            NonceCheck::Pass
        } else {
            NonceCheck::Stale
        }
    }

    /// What the server finds of `nonce` at the present moment.
    pub fn checkNonce(&self, nonce: &str) -> (check: NonceCheck)
        ensures
            exists|now: i128| check == check_nonce(self@.secret, self@.auth_timeout, nonce@, now),
    {
        let now = unixNowNanos();
        self.checkNonceAt(nonce, now)
    }

    /// The header with which the browser is asked to authenticate, with
    /// `nonce` as the nonce.
    pub fn headerWith(&self, nonce: &str) -> (header: String)
        ensures
            header@ == self@.header(nonce@),
    {
        let mut header = concatText("Digest realm=\"", self.realm.as_str());
        header.append("\",qop=\"auth\",algorithm=SHA-256,nonce=\"");
        header.append(nonce);
        header.append("\",opaque=\"");
        header.append(self.opaque.as_str());
        header.append("\"");
        header
    }

    /// The header with which the browser is asked to authenticate, with a
    /// nonce for the present moment.
    pub fn initialWWWAuthHeader(&self) -> (header: String)
        ensures
            exists|moment: i128| header@ == self@.header(nonce_of(self@.secret, moment)),
    {
        let nonce = self.newNonce();
        self.headerWith(nonce.as_str())
    }
}

/// A number below sixteen to the power of `k`, written with `width`
/// hexadecimal digits, begins with zeros and ends with its `k` digits.
proof fn lemma_hex_fixed_small(n: nat, width: nat, k: nat)
    requires
        k <= width,
        n < pow16(k),
    ensures
        forall|i: int| 0 <= i < width - k ==> hex_fixed(n, width)[i] == '0',
        hex_fixed(n, width).skip(width - k) == hex_fixed(n, k),
    decreases width,
{
    lemma_hex_fixed_shape(n, width);
    if width == 0 {
        assert(hex_fixed(n, 0).skip(0) == hex_fixed(n, 0));
    } else {
        let high = hex_fixed(n / 16, (width - 1) as nat);
        lemma_hex_fixed_shape(n / 16, (width - 1) as nat);
        if k == 0 {
            lemma_hex_fixed_small(n / 16, (width - 1) as nat, 0);
            assert(hex_char(0) == '0');
            assert(hex_fixed(n, width).skip(width as int) == hex_fixed(n, 0));
        } else {
            lemma_hex_fixed_small(n / 16, (width - 1) as nat, (k - 1) as nat);
            assert(hex_fixed(n, width).skip(width - k) == high.skip(width - k).push(
                hex_char((n % 16) as int),
            ));
        }
    }
}

/// Hexadecimal digits that write a number below sixteen to the power of
/// their count are read as that number.
proof fn lemma_hex_number_of_fixed(n: nat, width: nat)
    requires
        n < pow16(width),
    ensures
        hex_number(hex_fixed(n, width)) == Some(n as int),
    decreases width,
{
    if width > 0 {
        let digits = hex_fixed(n, width);
        lemma_hex_number_of_fixed(n / 16, (width - 1) as nat);
        assert(digits.drop_last() == hex_fixed(n / 16, (width - 1) as nat));
        assert(hex_value(hex_char((n % 16) as int)) == Some((n % 16) as int));
    }
}

/// The server knows its own nonces: a nonce that decodes to what the
/// server says at `moment`, a moment that can be held and that sixteen
/// hexadecimal digits can write, passes at any later moment `now` for as
/// long as it is not older than nonces may be, and is stale after that.
pub proof fn lemma_own_nonce(
    secret: Seq<char>,
    timeout: TimeSpan,
    moment: i128,
    now: i128,
    nonce: Seq<char>,
)
    requires
        base64_unpadded_decoded(nonce) == Some(encode_utf8(nonce_plain(secret, moment))),
        0 <= moment < 0x1_0000_0000_0000_0000,
        is_unix_timestamp_nanos(moment),
        moment <= now,
    ensures
        check_nonce(secret, timeout, nonce, now) == if now - moment <= timeout.nanoseconds {
            NonceCheck::Pass
        } else {
            NonceCheck::Stale
        },
{
    let n = moment as nat;
    let stamp = hex_fixed(n, 16);
    let hash = stamp_hash(secret, stamp);
    let plain = nonce_plain(secret, moment);
    assert(pow16(16) == 0x1_0000_0000_0000_0000) by {
        reveal_with_fuel(pow16, 17);
    }
    assert((moment as u128) as nat == n);
    assert(hex_stamp(moment) == stamp) by {
        lemma_hex_fixed_small(n, 32, 16);
        lemma_hex_fixed_shape(n, 32);
        lemma_strip_zeros(hex_fixed(n, 32), 16, 16);
    }
    lemma_hex_fixed_shape(n, 16);
    reveal_strlit(" ");
    assert(" "@ == seq![' ']);
    assert(plain == stamp + seq![' '] + hash);
    assert forall|i: int| 0 <= i < 16 implies plain[i] != ' ' by {
        assert(is_hex_char(stamp[i]));
    }
    assert(plain[16] == ' ');
    crate::text::lemma_first_index_of_is(plain, ' ', 16);
    assert(plain.take(16) == stamp);
    assert(plain.skip(17) == hash);
    assert(is_ascii_chars(stamp)) by {
        assert forall|i: int| 0 <= i < stamp.len() implies '\0' <= #[trigger] stamp[i]
            <= '\u{7f}' by {
            assert(is_hex_char(stamp[i]));
        }
    }
    vstd::utf8::is_ascii_chars_encode_utf8(stamp);
    vstd::utf8::encode_utf8_valid_utf8(plain);
    vstd::utf8::encode_utf8_decode_utf8(plain);
    lemma_hex_number_of_fixed(n, 16);
    assert(is_hex_char(stamp[0]));
    assert(parse_hex(stamp) == Some(moment as int));
}

} // verus!
