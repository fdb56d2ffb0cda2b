//! The human-readable record form: a self-describing object in canonical
//! ASCII text with explicit fields
//! `owner, value, payload, program_id, randomizer, record_view_key,
//! commitment`. Byte-string fields are lowercase hexadecimal, the value is a
//! decimal integer, and the 64-bit key and digest fields are the hexadecimal
//! of their little-endian bytes. This is the only form that stores the
//! commitment; decoding re-derives it and treats the stored one as a
//! cross-check, never as ground truth.

use vstd::prelude::*;
use vstd::bytes::{
    lemma_auto_spec_u64_to_from_le_bytes,
    spec_u64_from_le_bytes,
    spec_u64_to_le_bytes,
    u64_from_le_bytes,
    u64_to_le_bytes,
};
use crate::account::Address;
use crate::bytes::push_bytes;
use crate::errors::RecordError;
use crate::network::{Network, NetworkParameters};
use crate::payload::Payload;
use crate::ports::{CommitmentScheme, EncryptionScheme, SerialNumberPrf};
use crate::record::Record;

verus! {

// ---------------------------------------------------------------------------
// Decimal digits
// ---------------------------------------------------------------------------

/// Whether `c` is an ASCII decimal digit.
pub open spec fn spec_is_digit(c: u8) -> bool {
    48 <= c <= 57
}

/// The canonical decimal digits of `n`, most significant first, without
/// leading zeroes.
pub open spec fn spec_dec(n: u64) -> Seq<u8>
    decreases n,
{
    if n < 10 {
        seq![(48 + n) as u8]
    } else {
        spec_dec((n / 10) as u64).push((48 + n % 10) as u8)
    }
}

/// The numeric value of a digit string, most significant first.
pub open spec fn spec_digits_val(t: Seq<u8>) -> int
    decreases t.len(),
{
    if t.len() == 0 {
        0
    } else {
        spec_digits_val(t.drop_last()) * 10 + (t.last() - 48)
    }
}

/// The canonical decimal digits of `n` are nonempty digits whose numeric
/// value is `n`.
pub proof fn lemma_dec_digits(n: u64)
    ensures
        spec_dec(n).len() >= 1,
        forall|i: int| 0 <= i < spec_dec(n).len() ==> spec_is_digit(#[trigger] spec_dec(n)[i]),
        spec_digits_val(spec_dec(n)) == n,
    decreases n,
{
    if n < 10 {
        let t = spec_dec(n);
        assert(t =~= seq![(48 + n) as u8]);
        assert(t.drop_last() =~= Seq::<u8>::empty());
        assert(spec_digits_val(t.drop_last()) == 0);
        assert(t.last() == (48 + n) as u8);
        assert((48 + n) as u8 == 48 + n);
        assert(spec_digits_val(t) == 0 * 10 + ((48 + n) - 48));
    } else {
        lemma_dec_digits((n / 10) as u64);
        let t = spec_dec(n);
        assert(t == spec_dec((n / 10) as u64).push((48 + n % 10) as u8));
        assert(t.drop_last() =~= spec_dec((n / 10) as u64));
        assert(t.last() == (48 + n % 10) as u8);
        assert((48 + n % 10) as u8 == 48 + n % 10);
        assert(spec_digits_val(t) == spec_digits_val(spec_dec((n / 10) as u64)) * 10 + n % 10);
        assert(spec_digits_val(t) == (n / 10) * 10 + n % 10);
        assert((n / 10) * 10 + n % 10 == n) by (nonlinear_arith);
    }
}

/// All-digit prefixes never exceed the value of the full digit string.
pub proof fn lemma_digits_val_nonneg(t: Seq<u8>)
    requires
        forall|i: int| 0 <= i < t.len() ==> spec_is_digit(#[trigger] t[i]),
    ensures
        spec_digits_val(t) >= 0,
    decreases t.len(),
{
    if t.len() > 0 {
        lemma_digits_val_nonneg(t.drop_last());
    }
}

/// Extending a digit string does not decrease its value.
pub proof fn lemma_digits_val_monotone(t: Seq<u8>, k: int)
    requires
        0 <= k <= t.len(),
        forall|i: int| 0 <= i < t.len() ==> spec_is_digit(#[trigger] t[i]),
    ensures
        spec_digits_val(t.subrange(0, k)) <= spec_digits_val(t),
    decreases t.len() - k,
{
    if k == t.len() {
        assert(t.subrange(0, k) =~= t);
    } else {
        lemma_digits_val_monotone(t, k + 1);
        let a = t.subrange(0, k);
        let b = t.subrange(0, k + 1);
        assert(b.drop_last() =~= a);
        assert(forall|i: int| 0 <= i < a.len() ==> spec_is_digit(#[trigger] a[i]));
        lemma_digits_val_nonneg(a);
        assert(spec_digits_val(b) == spec_digits_val(a) * 10 + (b.last() - 48));
        assert(spec_digits_val(a) * 10 >= spec_digits_val(a)) by (nonlinear_arith)
            requires
                spec_digits_val(a) >= 0,
        ;
    }
}

// ---------------------------------------------------------------------------
// Hexadecimal
// ---------------------------------------------------------------------------

/// Whether `c` is a lowercase ASCII hexadecimal digit.
pub open spec fn spec_is_hex(c: u8) -> bool {
    (48 <= c <= 57) || (97 <= c <= 102)
}

/// The hexadecimal digit of a nibble value.
pub open spec fn spec_hex_digit(d: int) -> u8 {
    if d < 10 {
        (48 + d) as u8
    } else {
        (87 + d) as u8
    }
}

/// The nibble value of a hexadecimal digit.
pub open spec fn spec_hex_val(c: u8) -> int {
    if c <= 57 {
        c - 48
    } else {
        c - 87
    }
}

/// The lowercase hexadecimal text of a byte string, two digits per byte.
pub open spec fn spec_hex(s: Seq<u8>) -> Seq<u8> {
    Seq::new(
        2 * s.len(),
        |i: int|
            if i % 2 == 0 {
                spec_hex_digit(s[i / 2] as int / 16)
            } else {
                spec_hex_digit(s[i / 2] as int % 16)
            },
    )
}

/// Hexadecimal digits are hexadecimal characters and decode to their nibble.
pub proof fn lemma_hex_digit_round_trip(d: int)
    requires
        0 <= d < 16,
    ensures
        spec_is_hex(spec_hex_digit(d)),
        spec_hex_val(spec_hex_digit(d)) == d,
{
}

// ---------------------------------------------------------------------------
// Skeleton segments
// ---------------------------------------------------------------------------

/// `{"owner":"`
pub open spec fn spec_seg_owner() -> Seq<u8> {
    seq![
        '{' as u8,
        '"' as u8,
        'o' as u8,
        'w' as u8,
        'n' as u8,
        'e' as u8,
        'r' as u8,
        '"' as u8,
        ':' as u8,
        '"' as u8,
    ]
}

/// `","value":`
pub open spec fn spec_seg_value() -> Seq<u8> {
    seq![
        '"' as u8,
        ',' as u8,
        '"' as u8,
        'v' as u8,
        'a' as u8,
        'l' as u8,
        'u' as u8,
        'e' as u8,
        '"' as u8,
        ':' as u8,
    ]
}

/// `,"payload":"`
pub open spec fn spec_seg_payload() -> Seq<u8> {
    seq![
        ',' as u8,
        '"' as u8,
        'p' as u8,
        'a' as u8,
        'y' as u8,
        'l' as u8,
        'o' as u8,
        'a' as u8,
        'd' as u8,
        '"' as u8,
        ':' as u8,
        '"' as u8,
    ]
}

/// `","program_id":"`
pub open spec fn spec_seg_program_id() -> Seq<u8> {
    seq![
        '"' as u8,
        ',' as u8,
        '"' as u8,
        'p' as u8,
        'r' as u8,
        'o' as u8,
        'g' as u8,
        'r' as u8,
        'a' as u8,
        'm' as u8,
        '_' as u8,
        'i' as u8,
        'd' as u8,
        '"' as u8,
        ':' as u8,
        '"' as u8,
    ]
}

/// `","randomizer":"`
pub open spec fn spec_seg_randomizer() -> Seq<u8> {
    seq![
        '"' as u8,
        ',' as u8,
        '"' as u8,
        'r' as u8,
        'a' as u8,
        'n' as u8,
        'd' as u8,
        'o' as u8,
        'm' as u8,
        'i' as u8,
        'z' as u8,
        'e' as u8,
        'r' as u8,
        '"' as u8,
        ':' as u8,
        '"' as u8,
    ]
}

/// `","record_view_key":"`
pub open spec fn spec_seg_record_view_key() -> Seq<u8> {
    seq![
        '"' as u8,
        ',' as u8,
        '"' as u8,
        'r' as u8,
        'e' as u8,
        'c' as u8,
        'o' as u8,
        'r' as u8,
        'd' as u8,
        '_' as u8,
        'v' as u8,
        'i' as u8,
        'e' as u8,
        'w' as u8,
        '_' as u8,
        'k' as u8,
        'e' as u8,
        'y' as u8,
        '"' as u8,
        ':' as u8,
        '"' as u8,
    ]
}

/// `","commitment":"`
pub open spec fn spec_seg_commitment() -> Seq<u8> {
    seq![
        '"' as u8,
        ',' as u8,
        '"' as u8,
        'c' as u8,
        'o' as u8,
        'm' as u8,
        'm' as u8,
        'i' as u8,
        't' as u8,
        'm' as u8,
        'e' as u8,
        'n' as u8,
        't' as u8,
        '"' as u8,
        ':' as u8,
        '"' as u8,
    ]
}

/// `"}`
pub open spec fn spec_seg_close() -> Seq<u8> {
    seq!['"' as u8, '}' as u8]
}

/// The canonical text of the given record fields.
pub open spec fn spec_record_text(
    owner: Seq<u8>,
    value: u64,
    payload: Seq<u8>,
    program_id: Seq<u8>,
    randomizer: u64,
    record_view_key: u64,
    commitment: u64,
) -> Seq<u8> {
    spec_seg_owner() + spec_hex(owner) + spec_seg_value() + spec_dec(value) + spec_seg_payload()
        + spec_hex(payload) + spec_seg_program_id() + spec_hex(program_id)
        + spec_seg_randomizer() + spec_hex(spec_u64_to_le_bytes(randomizer))
        + spec_seg_record_view_key() + spec_hex(spec_u64_to_le_bytes(record_view_key))
        + spec_seg_commitment() + spec_hex(spec_u64_to_le_bytes(commitment)) + spec_seg_close()
}

// ---------------------------------------------------------------------------
// Encoding
// ---------------------------------------------------------------------------

/// Appends the decimal digits of `n`.
fn push_dec(out: &mut Vec<u8>, n: u64)
    ensures
        final(out)@ == old(out)@ + spec_dec(n),
    decreases n,
{
    if n >= 10 {
        push_dec(out, n / 10);
    }
    out.push(48 + (n % 10) as u8);
    assert(final(out)@ =~= old(out)@ + spec_dec(n));
}

/// The hexadecimal digit of a nibble.
fn hex_digit(d: u8) -> (r: u8)
    requires
        d < 16,
    ensures
        r == spec_hex_digit(d as int),
{
    if d < 10 {
        48 + d
    } else {
        87 + d
    }
}

/// Appends the lowercase hexadecimal of `bytes`.
fn push_hex(out: &mut Vec<u8>, bytes: &Vec<u8>)
    ensures
        final(out)@ == old(out)@ + spec_hex(bytes@),
{
    let mut i: usize = 0;
    while i < bytes.len()
        invariant
            i <= bytes.len(),
            out@.len() == old(out)@.len() + 2 * i,
            out@.subrange(0, old(out)@.len() as int) =~= old(out)@,
            forall|j: int|
                0 <= j < 2 * i ==> out@[old(out)@.len() + j] == spec_hex(bytes@)[j],
        decreases bytes.len() - i,
    {
        let b = bytes[i];
        out.push(hex_digit(b / 16));
        out.push(hex_digit(b % 16));
        i = i + 1;
    }
    assert(out@ =~= old(out)@ + spec_hex(bytes@));
}

impl Record {
    /// Encodes this record into its canonical human-readable text.
    pub fn encode_text(&self) -> (r: Vec<u8>)
        ensures
            r@ == spec_record_text(
                self.owner@,
                self.value,
                self.payload@,
                self.program_id@,
                self.randomizer,
                self.record_view_key,
                self.commitment,
            ),
    {
        let mut out: Vec<u8> = Vec::new();
        push_bytes(&mut out, &seg_owner());
        push_hex(&mut out, self.owner.as_bytes());
        push_bytes(&mut out, &seg_value());
        push_dec(&mut out, self.value);
        push_bytes(&mut out, &seg_payload());
        push_hex(&mut out, self.payload.as_bytes());
        push_bytes(&mut out, &seg_program_id());
        push_hex(&mut out, &self.program_id);
        push_bytes(&mut out, &seg_randomizer());
        let randomizer_bytes = u64_to_le_bytes(self.randomizer);
        push_hex(&mut out, &randomizer_bytes);
        push_bytes(&mut out, &seg_record_view_key());
        let key_bytes = u64_to_le_bytes(self.record_view_key);
        push_hex(&mut out, &key_bytes);
        push_bytes(&mut out, &seg_commitment());
        let commitment_bytes = u64_to_le_bytes(self.commitment);
        push_hex(&mut out, &commitment_bytes);
        push_bytes(&mut out, &seg_close());
        proof {
            assert(out@ =~= spec_record_text(self.owner@, self.value, self.payload@,
                self.program_id@, self.randomizer, self.record_view_key, self.commitment));
        }
        out
    }
}

/// Builds `{"owner":"`.
fn seg_owner() -> (r: Vec<u8>)
    ensures
        r@ == spec_seg_owner(),
{
    let mut v: Vec<u8> = Vec::new();
    v.push(123);
    v.push(34);
    v.push(111);
    v.push(119);
    v.push(110);
    v.push(101);
    v.push(114);
    v.push(34);
    v.push(58);
    v.push(34);
    assert(v@ =~= spec_seg_owner());
    v
}

/// Builds `","value":`.
fn seg_value() -> (r: Vec<u8>)
    ensures
        r@ == spec_seg_value(),
{
    let mut v: Vec<u8> = Vec::new();
    v.push(34);
    v.push(44);
    v.push(34);
    v.push(118);
    v.push(97);
    v.push(108);
    v.push(117);
    v.push(101);
    v.push(34);
    v.push(58);
    assert(v@ =~= spec_seg_value());
    v
}

/// Builds `,"payload":"`.
fn seg_payload() -> (r: Vec<u8>)
    ensures
        r@ == spec_seg_payload(),
{
    let mut v: Vec<u8> = Vec::new();
    v.push(44);
    v.push(34);
    v.push(112);
    v.push(97);
    v.push(121);
    v.push(108);
    v.push(111);
    v.push(97);
    v.push(100);
    v.push(34);
    v.push(58);
    v.push(34);
    assert(v@ =~= spec_seg_payload());
    v
}

/// Builds `","program_id":"`.
fn seg_program_id() -> (r: Vec<u8>)
    ensures
        r@ == spec_seg_program_id(),
{
    let mut v: Vec<u8> = Vec::new();
    v.push(34);
    v.push(44);
    v.push(34);
    v.push(112);
    v.push(114);
    v.push(111);
    v.push(103);
    v.push(114);
    v.push(97);
    v.push(109);
    v.push(95);
    v.push(105);
    v.push(100);
    v.push(34);
    v.push(58);
    v.push(34);
    assert(v@ =~= spec_seg_program_id());
    v
}

/// Builds `","randomizer":"`.
fn seg_randomizer() -> (r: Vec<u8>)
    ensures
        r@ == spec_seg_randomizer(),
{
    let mut v: Vec<u8> = Vec::new();
    v.push(34);
    v.push(44);
    v.push(34);
    v.push(114);
    v.push(97);
    v.push(110);
    v.push(100);
    v.push(111);
    v.push(109);
    v.push(105);
    v.push(122);
    v.push(101);
    v.push(114);
    v.push(34);
    v.push(58);
    v.push(34);
    assert(v@ =~= spec_seg_randomizer());
    v
}

/// Builds `","record_view_key":"`.
fn seg_record_view_key() -> (r: Vec<u8>)
    ensures
        r@ == spec_seg_record_view_key(),
{
    let mut v: Vec<u8> = Vec::new();
    v.push(34);
    v.push(44);
    v.push(34);
    v.push(114);
    v.push(101);
    v.push(99);
    v.push(111);
    v.push(114);
    v.push(100);
    v.push(95);
    v.push(118);
    v.push(105);
    v.push(101);
    v.push(119);
    v.push(95);
    v.push(107);
    v.push(101);
    v.push(121);
    v.push(34);
    v.push(58);
    v.push(34);
    assert(v@ =~= spec_seg_record_view_key());
    v
}

/// Builds `","commitment":"`.
fn seg_commitment() -> (r: Vec<u8>)
    ensures
        r@ == spec_seg_commitment(),
{
    let mut v: Vec<u8> = Vec::new();
    v.push(34);
    v.push(44);
    v.push(34);
    v.push(99);
    v.push(111);
    v.push(109);
    v.push(109);
    v.push(105);
    v.push(116);
    v.push(109);
    v.push(101);
    v.push(110);
    v.push(116);
    v.push(34);
    v.push(58);
    v.push(34);
    assert(v@ =~= spec_seg_commitment());
    v
}

/// Builds `"}`.
fn seg_close() -> (r: Vec<u8>)
    ensures
        r@ == spec_seg_close(),
{
    let mut v: Vec<u8> = Vec::new();
    v.push(34);
    v.push(125);
    assert(v@ =~= spec_seg_close());
    v
}

// ---------------------------------------------------------------------------
// The canonical parser, in specification form
// ---------------------------------------------------------------------------

/// Whether `t` carries `seg` at position `i`.
pub open spec fn spec_starts_with(t: Seq<u8>, i: int, seg: Seq<u8>) -> bool {
    0 <= i && i + seg.len() <= t.len() && t.subrange(i, i + seg.len()) == seg
}

/// Whether positions `i .. i + 2 * count` of `t` are hexadecimal digits.
pub open spec fn spec_hex_region_ok(t: Seq<u8>, i: int, count: int) -> bool {
    0 <= i && 0 <= count && i + 2 * count <= t.len() && forall|k: int|
        0 <= k < 2 * count ==> spec_is_hex(#[trigger] t[i + k])
}

/// The bytes encoded by the hexadecimal region at `i`.
pub open spec fn spec_hex_region_bytes(t: Seq<u8>, i: int, count: int) -> Seq<u8> {
    Seq::new(
        count as nat,
        |k: int| (spec_hex_val(t[i + 2 * k]) * 16 + spec_hex_val(t[i + 2 * k + 1])) as u8,
    )
}

/// The end of the digit run starting at `i`: the first position at or after
/// `i` that is past the end or holds a non-digit.
pub open spec fn spec_run_end(t: Seq<u8>, i: int) -> int
    decreases t.len() - i,
    when 0 <= i <= t.len()
{
    if i >= t.len() || !spec_is_digit(t[i]) {
        i
    } else {
        spec_run_end(t, i + 1)
    }
}

/// The digit run is a maximal run of digits.
pub proof fn lemma_run_end(t: Seq<u8>, i: int)
    requires
        0 <= i <= t.len(),
    ensures
        i <= spec_run_end(t, i) <= t.len(),
        forall|m: int| i <= m < spec_run_end(t, i) ==> spec_is_digit(#[trigger] t[m]),
        spec_run_end(t, i) == t.len() || !spec_is_digit(t[spec_run_end(t, i)]),
    decreases t.len() - i,
{
    if i < t.len() && spec_is_digit(t[i]) {
        lemma_run_end(t, i + 1);
    }
}

/// A run of digits followed by a run-stopper is exactly the digit run.
pub proof fn lemma_run_end_exact(t: Seq<u8>, i: int, j: int)
    requires
        0 <= i <= j <= t.len(),
        forall|m: int| i <= m < j ==> spec_is_digit(#[trigger] t[m]),
        j == t.len() || !spec_is_digit(t[j]),
    ensures
        spec_run_end(t, i) == j,
    decreases j - i,
{
    if i < j {
        lemma_run_end_exact(t, i + 1, j);
    }
}

/// Consumes `seg` at `i`, if present.
pub open spec fn spec_take_seg(t: Seq<u8>, i: int, seg: Seq<u8>) -> Option<int> {
    if spec_starts_with(t, i, seg) {
        Some(i + seg.len() as int)
    } else {
        None
    }
}

/// Consumes `2 * count` hexadecimal digits at `i`, if present.
pub open spec fn spec_take_hex(t: Seq<u8>, i: int, count: int) -> Option<(Seq<u8>, int)> {
    if spec_hex_region_ok(t, i, count) {
        Some((spec_hex_region_bytes(t, i, count), i + 2 * count))
    } else {
        None
    }
}

/// Consumes a nonempty decimal digit run at `i` whose value fits a word.
pub open spec fn spec_take_dec(t: Seq<u8>, i: int) -> Option<(u64, int)> {
    if 0 <= i <= t.len() {
        let j = spec_run_end(t, i);
        if j == i || spec_digits_val(t.subrange(i, j)) > u64::MAX {
            None
        } else {
            Some((spec_digits_val(t.subrange(i, j)) as u64, j))
        }
    } else {
        None
    }
}

/// Consumes sixteen hexadecimal digits at `i` as a little-endian word.
pub open spec fn spec_take_hex_word(t: Seq<u8>, i: int) -> Option<(u64, int)> {
    match spec_take_hex(t, i, 8) {
        Some((bytes, j)) => Some((spec_u64_from_le_bytes(bytes), j)),
        None => None,
    }
}

/// Parses the canonical record text into its seven fields; `None` when the
/// input does not follow the canonical form for the given widths.
pub open spec fn spec_text_fields(parameters: NetworkParameters, t: Seq<u8>) -> Option<
    (Seq<u8>, u64, Seq<u8>, Seq<u8>, u64, u64, u64),
> {
    match spec_take_seg(t, 0, spec_seg_owner()) {
        None => None,
        Some(i1) => match spec_take_hex(t, i1, parameters.address_size as int) {
            None => None,
            Some((owner, i2)) => match spec_take_seg(t, i2, spec_seg_value()) {
                None => None,
                Some(i3) => match spec_take_dec(t, i3) {
                    None => None,
                    Some((value, i4)) => match spec_take_seg(t, i4, spec_seg_payload()) {
                        None => None,
                        Some(i5) => match spec_take_hex(t, i5,
                            parameters.payload_size as int) {
                            None => None,
                            Some((payload, i6)) => match spec_take_seg(t, i6,
                                spec_seg_program_id()) {
                                None => None,
                                Some(i7) => match spec_take_hex(t, i7,
                                    parameters.program_id_size as int) {
                                    None => None,
                                    Some((program_id, i8)) => match spec_take_seg(t, i8,
                                        spec_seg_randomizer()) {
                                        None => None,
                                        Some(i9) => match spec_take_hex_word(t, i9) {
                                            None => None,
                                            Some((randomizer, i10)) => match spec_take_seg(t,
                                                i10, spec_seg_record_view_key()) {
                                                None => None,
                                                Some(i11) => match spec_take_hex_word(t, i11) {
                                                    None => None,
                                                    Some((record_view_key, i12)) => match
                                                        spec_take_seg(t, i12,
                                                        spec_seg_commitment()) {
                                                        None => None,
                                                        Some(i13) => match spec_take_hex_word(t,
                                                            i13) {
                                                            None => None,
                                                            Some((commitment, i14)) => match
                                                                spec_take_seg(t, i14,
                                                                spec_seg_close()) {
                                                                None => None,
                                                                Some(i15) => if i15 == t.len() {
                                                                    Some(
                                                                        (
                                                                            owner,
                                                                            value,
                                                                            payload,
                                                                            program_id,
                                                                            randomizer,
                                                                            record_view_key,
                                                                            commitment,
                                                                        ),
                                                                    )
                                                                } else {
                                                                    None
                                                                },
                                                            },
                                                        },
                                                    },
                                                },
                                            },
                                        },
                                    },
                                },
                            },
                        },
                    },
                },
            },
        },
    }
}

/// A region that spells the hexadecimal of `s` parses back to `s`.
pub proof fn lemma_hex_region(t: Seq<u8>, i: int, s: Seq<u8>)
    requires
        0 <= i,
        i + 2 * s.len() <= t.len(),
        t.subrange(i, i + 2 * s.len()) == spec_hex(s),
    ensures
        spec_hex_region_ok(t, i, s.len() as int),
        spec_hex_region_bytes(t, i, s.len() as int) == s,
{
    assert forall|k: int| 0 <= k < 2 * s.len() implies spec_is_hex(#[trigger] t[i + k]) by {
        assert(t[i + k] == spec_hex(s)[k]);
        if k % 2 == 0 {
            lemma_hex_digit_round_trip(s[k / 2] as int / 16);
        } else {
            lemma_hex_digit_round_trip(s[k / 2] as int % 16);
        }
    }
    assert forall|m: int| 0 <= m < s.len() implies spec_hex_region_bytes(t, i, s.len() as int)[m]
        == s[m] by {
        let b = s[m] as int;
        assert(t[i + 2 * m] == spec_hex(s)[2 * m]);
        assert(t[i + 2 * m + 1] == spec_hex(s)[2 * m + 1]);
        assert((2 * m) / 2 == m && (2 * m) % 2 == 0) by (nonlinear_arith);
        assert((2 * m + 1) / 2 == m && (2 * m + 1) % 2 == 1) by (nonlinear_arith);
        lemma_hex_digit_round_trip(b / 16);
        lemma_hex_digit_round_trip(b % 16);
        assert((b / 16) * 16 + b % 16 == b) by (nonlinear_arith);
    }
    assert(spec_hex_region_bytes(t, i, s.len() as int) =~= s);
}

/// A region that spells the hexadecimal little-endian bytes of a word parses
/// back to that word.
pub proof fn lemma_take_hex_word(t: Seq<u8>, i: int, x: u64)
    requires
        0 <= i,
        i + 16 <= t.len(),
        t.subrange(i, i + 16) == spec_hex(spec_u64_to_le_bytes(x)),
    ensures
        spec_take_hex_word(t, i) == Some((x, i + 16)),
{
    lemma_auto_spec_u64_to_from_le_bytes();
    let s = spec_u64_to_le_bytes(x);
    assert(s.len() == 8);
    lemma_hex_region(t, i, s);
}

/// A region that spells the canonical decimal digits of `n`, stopped by a
/// non-digit or the end of the text, parses back to `n`.
pub proof fn lemma_take_dec(t: Seq<u8>, i: int, n: u64)
    requires
        0 <= i,
        i + spec_dec(n).len() <= t.len(),
        t.subrange(i, i + spec_dec(n).len()) == spec_dec(n),
        i + spec_dec(n).len() == t.len() || !spec_is_digit(t[i + spec_dec(n).len()]),
    ensures
        spec_take_dec(t, i) == Some((n, i + spec_dec(n).len())),
{
    lemma_dec_digits(n);
    let j = i + spec_dec(n).len();
    assert forall|m: int| i <= m < j implies spec_is_digit(#[trigger] t[m]) by {
        assert(t[m] == spec_dec(n)[m - i]);
    }
    lemma_run_end_exact(t, i, j);
    assert(spec_digits_val(t.subrange(i, j)) == n);
}

// ---------------------------------------------------------------------------
// Executable parsing
// ---------------------------------------------------------------------------

/// Whether `c` is an ASCII decimal digit.
fn is_digit(c: u8) -> (r: bool)
    ensures
        r == spec_is_digit(c),
{
    48 <= c && c <= 57
}

/// Whether `c` is a lowercase hexadecimal digit.
fn is_hex(c: u8) -> (r: bool)
    ensures
        r == spec_is_hex(c),
{
    (48 <= c && c <= 57) || (97 <= c && c <= 102)
}

/// The nibble value of a hexadecimal digit.
fn hex_val(c: u8) -> (r: u8)
    requires
        spec_is_hex(c),
    ensures
        r == spec_hex_val(c),
        r < 16,
{
    if c <= 57 {
        c - 48
    } else {
        c - 87
    }
}

/// Consumes `seg` at position `i` of `s`.
fn expect(s: &Vec<u8>, i: usize, seg: &Vec<u8>) -> (r: Result<usize, RecordError>)
    requires
        i <= s@.len(),
    ensures
        spec_starts_with(s@, i as int, seg@) ==> (r matches Ok(j) && j == i + seg@.len()),
        !spec_starts_with(s@, i as int, seg@) ==> r == Err::<
            usize,
            RecordError,
        >(RecordError::MalformedText),
{
    if seg.len() > s.len() - i {
        return Err(RecordError::MalformedText);
    }
    let mut k: usize = 0;
    while k < seg.len()
        invariant
            k <= seg.len(),
            i + seg@.len() <= s@.len(),
            s@.len() <= usize::MAX,
            forall|m: int| 0 <= m < k ==> s@[i + m] == seg@[m],
        decreases seg.len() - k,
    {
        if s[i + k] != seg[k] {
            proof {
                assert(s@.subrange(i as int, i + seg@.len())[k as int] != seg@[k as int]);
            }
            return Err(RecordError::MalformedText);
        }
        k = k + 1;
    }
    proof {
        assert(s@.subrange(i as int, i + seg@.len()) =~= seg@);
    }
    Ok(i + seg.len())
}

/// Consumes `2 * count` hexadecimal digits at `i`, decoding them to bytes.
fn parse_hex(s: &Vec<u8>, i: usize, count: usize) -> (r: Result<
    (Vec<u8>, usize),
    RecordError,
>)
    requires
        i <= s@.len(),
    ensures
        spec_hex_region_ok(s@, i as int, count as int) ==> (r matches Ok(pair) && pair.0@
            == spec_hex_region_bytes(s@, i as int, count as int) && pair.1 == i + 2 * count),
        !spec_hex_region_ok(s@, i as int, count as int) ==> r == Err::<
            (Vec<u8>, usize),
            RecordError,
        >(RecordError::MalformedText),
{
    if (count as u128) * 2 > (s.len() - i) as u128 {
        proof {
            assert(i + 2 * count > s@.len());
        }
        return Err(RecordError::MalformedText);
    }
    assert(i + 2 * count <= s@.len());
    let mut out: Vec<u8> = Vec::new();
    let mut k: usize = 0;
    while k < count
        invariant
            k <= count,
            i + 2 * count <= s@.len(),
            s@.len() <= usize::MAX,
            out@.len() == k as int,
            forall|m: int| 0 <= m < 2 * k ==> spec_is_hex(#[trigger] s@[i + m]),
            forall|m: int|
                0 <= m < k ==> out@[m] == (spec_hex_val(s@[i + 2 * m]) * 16 + spec_hex_val(
                    s@[i + 2 * m + 1],
                )) as u8,
        decreases count - k,
    {
        let hi = s[i + 2 * k];
        let lo = s[i + 2 * k + 1];
        if !is_hex(hi) {
            proof {
                let m = 2 * (k as int);
                assert(0 <= m < 2 * count);
                assert(!spec_is_hex(s@[i + m]));
                assert(!spec_hex_region_ok(s@, i as int, count as int));
            }
            return Err(RecordError::MalformedText);
        }
        if !is_hex(lo) {
            proof {
                let m = 2 * (k as int) + 1;
                assert(0 <= m < 2 * count);
                assert(!spec_is_hex(s@[i + m]));
                assert(!spec_hex_region_ok(s@, i as int, count as int));
            }
            return Err(RecordError::MalformedText);
        }
        out.push(hex_val(hi) * 16 + hex_val(lo));
        k = k + 1;
    }
    proof {
        assert(out@ =~= spec_hex_region_bytes(s@, i as int, count as int));
    }
    Ok((out, i + 2 * count))
}

/// Consumes a nonempty decimal run at `i`, rejecting values past the word
/// range.
fn parse_dec(s: &Vec<u8>, i: usize) -> (r: Result<(u64, usize), RecordError>)
    requires
        i <= s@.len(),
    ensures
        ({
            let j = spec_run_end(s@, i as int);
            &&& i <= j <= s@.len()
            &&& j == i ==> r == Err::<(u64, usize), RecordError>(RecordError::MalformedText)
            &&& j > i && spec_digits_val(s@.subrange(i as int, j)) > u64::MAX ==> r == Err::<
                (u64, usize),
                RecordError,
            >(RecordError::MalformedText)
            &&& j > i && spec_digits_val(s@.subrange(i as int, j)) <= u64::MAX ==> (r matches Ok(
                pair,
            ) && pair.0 == spec_digits_val(s@.subrange(i as int, j)) && pair.1 == j)
        }),
{
    proof {
        lemma_run_end(s@, i as int);
    }
    let ghost j = spec_run_end(s@, i as int);
    let mut k: usize = i;
    let mut acc: u64 = 0;
    while k < s.len() && 48 <= s[k] && s[k] <= 57
        invariant
            i <= k <= s@.len(),
            j == spec_run_end(s@, i as int),
            i <= j <= s@.len(),
            forall|m: int| i <= m < j ==> spec_is_digit(#[trigger] s@[m]),
            j == s@.len() || !spec_is_digit(s@[j]),
            k <= j,
            acc == spec_digits_val(s@.subrange(i as int, k as int)),
        decreases s@.len() - k,
    {
        proof {
            if k >= j {
                assert(spec_is_digit(s@[k as int]));
                assert(k == j);
                assert(false);
            }
        }
        let d = s[k] - 48;
        let wide: u128 = acc as u128 * 10 + d as u128;
        proof {
            let prefix = s@.subrange(i as int, k as int);
            let next = s@.subrange(i as int, k + 1);
            assert(next.drop_last() =~= prefix);
            assert(next.last() == s@[k as int]);
            assert(spec_digits_val(next) == acc * 10 + d);
        }
        if wide > u64::MAX as u128 {
            proof {
                let run = s@.subrange(i as int, j);
                assert(s@.subrange(i as int, k + 1) =~= run.subrange(0, k + 1 - i));
                assert(forall|m: int| 0 <= m < run.len() ==> spec_is_digit(#[trigger] run[m]));
                lemma_digits_val_monotone(run, k + 1 - i);
                assert(spec_digits_val(run) > u64::MAX);
            }
            return Err(RecordError::MalformedText);
        }
        acc = wide as u64;
        k = k + 1;
    }
    proof {
        if k < j {
            assert(spec_is_digit(s@[k as int]));
            assert(k < s@.len());
            assert(false);
        }
        assert(k == j);
    }
    if k == i {
        return Err(RecordError::MalformedText);
    }
    Ok((acc, k))
}

// ---------------------------------------------------------------------------
// Decoding
// ---------------------------------------------------------------------------

impl Record {
    /// Decodes the canonical human-readable text and rebuilds the record,
    /// re-deriving its commitment and comparing it against the embedded one.
    ///
    /// On canonical input the embedded commitment decides the outcome:
    /// a mismatch fails with `InvalidCommitment(embedded, recomputed)`.
    /// Input that does not follow the canonical form fails with
    /// `MalformedText`.
    pub fn decode_text<E: EncryptionScheme, C: CommitmentScheme, P: SerialNumberPrf>(
        network: &Network<E, C, P>,
        text: &Vec<u8>,
    ) -> (r: Result<Record, RecordError>)
        requires
            network.wf(),
        ensures
            spec_text_fields(network.parameters, text@) is None ==> r == Err::<
                Record,
                RecordError,
            >(RecordError::MalformedText),
            (spec_text_fields(network.parameters, text@) matches Some(fields) ==> {
                let derived = network.spec_record_commitment(fields.0, fields.1, fields.2,
                    fields.3, fields.4, fields.5);
                &&& (!network.parameters.spec_plaintext_fits() ==> r == Err::<
                    Record,
                    RecordError,
                >(RecordError::PlaintextTooLarge))
                &&& (network.parameters.spec_plaintext_fits() && fields.6 != derived ==> r
                    == Err::<Record, RecordError>(RecordError::InvalidCommitment(fields.6,
                    derived)))
                &&& (network.parameters.spec_plaintext_fits() && fields.6 == derived ==> (r
                    matches Ok(rec) && {
                    &&& rec.owner@ == fields.0
                    &&& rec.value == fields.1
                    &&& rec.payload@ == fields.2
                    &&& rec.program_id@ == fields.3
                    &&& rec.randomizer == fields.4
                    &&& rec.record_view_key == fields.5
                    &&& rec.commitment == derived
                    &&& rec.valid(network)
                }))
            }),
    {
        let ghost t = text@;
        let ghost fields = spec_text_fields(network.parameters, t);
        let i1 = match expect(text, 0, &seg_owner()) {
            Ok(i) => i,
            Err(e) => {
                proof {
                    assert(spec_take_seg(t, 0, spec_seg_owner()) is None);
                    assert(fields is None);
                }
                return Err(e);
            },
        };
        proof {
            assert(spec_take_seg(t, 0, spec_seg_owner()) == Some(i1 as int));
        }
        let (owner_bytes, i2) = match parse_hex(text, i1, network.parameters.address_size) {
            Ok(pair) => pair,
            Err(e) => {
                proof {
                    assert(spec_take_hex(t, i1 as int, network.parameters.address_size as int)
                        is None);
                    assert(fields is None);
                }
                return Err(e);
            },
        };
        proof {
            assert(spec_take_hex(t, i1 as int, network.parameters.address_size as int) == Some(
                (owner_bytes@, i2 as int)));
        }
        let i3 = match expect(text, i2, &seg_value()) {
            Ok(i) => i,
            Err(e) => {
                proof {
                    assert(spec_take_seg(t, i2 as int, spec_seg_value()) is None);
                    assert(fields is None);
                }
                return Err(e);
            },
        };
        proof {
            assert(spec_take_seg(t, i2 as int, spec_seg_value()) == Some(i3 as int));
        }
        let (value, i4) = match parse_dec(text, i3) {
            Ok(pair) => pair,
            Err(e) => {
                proof {
                    assert(spec_take_dec(t, i3 as int) is None);
                    assert(fields is None);
                }
                return Err(e);
            },
        };
        proof {
            assert(spec_take_dec(t, i3 as int) == Some((value, i4 as int)));
        }
        let i5 = match expect(text, i4, &seg_payload()) {
            Ok(i) => i,
            Err(e) => {
                proof {
                    assert(spec_take_seg(t, i4 as int, spec_seg_payload()) is None);
                    assert(fields is None);
                }
                return Err(e);
            },
        };
        proof {
            assert(spec_take_seg(t, i4 as int, spec_seg_payload()) == Some(i5 as int));
        }
        let (payload_bytes, i6) = match parse_hex(text, i5, network.parameters.payload_size) {
            Ok(pair) => pair,
            Err(e) => {
                proof {
                    assert(spec_take_hex(t, i5 as int, network.parameters.payload_size as int)
                        is None);
                    assert(fields is None);
                }
                return Err(e);
            },
        };
        proof {
            assert(spec_take_hex(t, i5 as int, network.parameters.payload_size as int) == Some(
                (payload_bytes@, i6 as int)));
        }
        let i7 = match expect(text, i6, &seg_program_id()) {
            Ok(i) => i,
            Err(e) => {
                proof {
                    assert(spec_take_seg(t, i6 as int, spec_seg_program_id()) is None);
                    assert(fields is None);
                }
                return Err(e);
            },
        };
        proof {
            assert(spec_take_seg(t, i6 as int, spec_seg_program_id()) == Some(i7 as int));
        }
        let (program_id, i8) = match parse_hex(text, i7, network.parameters.program_id_size) {
            Ok(pair) => pair,
            Err(e) => {
                proof {
                    assert(spec_take_hex(t, i7 as int,
                        network.parameters.program_id_size as int) is None);
                    assert(fields is None);
                }
                return Err(e);
            },
        };
        proof {
            assert(spec_take_hex(t, i7 as int, network.parameters.program_id_size as int)
                == Some((program_id@, i8 as int)));
        }
        let i9 = match expect(text, i8, &seg_randomizer()) {
            Ok(i) => i,
            Err(e) => {
                proof {
                    assert(spec_take_seg(t, i8 as int, spec_seg_randomizer()) is None);
                    assert(fields is None);
                }
                return Err(e);
            },
        };
        proof {
            assert(spec_take_seg(t, i8 as int, spec_seg_randomizer()) == Some(i9 as int));
        }
        let (randomizer_bytes, i10) = match parse_hex(text, i9, 8) {
            Ok(pair) => pair,
            Err(e) => {
                proof {
                    assert(spec_take_hex_word(t, i9 as int) is None);
                    assert(fields is None);
                }
                return Err(e);
            },
        };
        let randomizer = u64_from_le_bytes(randomizer_bytes.as_slice());
        proof {
            assert(spec_take_hex_word(t, i9 as int) == Some((randomizer, i10 as int)));
        }
        let i11 = match expect(text, i10, &seg_record_view_key()) {
            Ok(i) => i,
            Err(e) => {
                proof {
                    assert(spec_take_seg(t, i10 as int, spec_seg_record_view_key()) is None);
                    assert(fields is None);
                }
                return Err(e);
            },
        };
        proof {
            assert(spec_take_seg(t, i10 as int, spec_seg_record_view_key()) == Some(i11 as int));
        }
        let (key_bytes, i12) = match parse_hex(text, i11, 8) {
            Ok(pair) => pair,
            Err(e) => {
                proof {
                    assert(spec_take_hex_word(t, i11 as int) is None);
                    assert(fields is None);
                }
                return Err(e);
            },
        };
        let record_view_key = u64_from_le_bytes(key_bytes.as_slice());
        proof {
            assert(spec_take_hex_word(t, i11 as int) == Some((record_view_key, i12 as int)));
        }
        let i13 = match expect(text, i12, &seg_commitment()) {
            Ok(i) => i,
            Err(e) => {
                proof {
                    assert(spec_take_seg(t, i12 as int, spec_seg_commitment()) is None);
                    assert(fields is None);
                }
                return Err(e);
            },
        };
        proof {
            assert(spec_take_seg(t, i12 as int, spec_seg_commitment()) == Some(i13 as int));
        }
        let (commitment_bytes, i14) = match parse_hex(text, i13, 8) {
            Ok(pair) => pair,
            Err(e) => {
                proof {
                    assert(spec_take_hex_word(t, i13 as int) is None);
                    assert(fields is None);
                }
                return Err(e);
            },
        };
        let embedded = u64_from_le_bytes(commitment_bytes.as_slice());
        proof {
            assert(spec_take_hex_word(t, i13 as int) == Some((embedded, i14 as int)));
        }
        let i15 = match expect(text, i14, &seg_close()) {
            Ok(i) => i,
            Err(e) => {
                proof {
                    assert(spec_take_seg(t, i14 as int, spec_seg_close()) is None);
                    assert(fields is None);
                }
                return Err(e);
            },
        };
        proof {
            assert(spec_take_seg(t, i14 as int, spec_seg_close()) == Some(i15 as int));
        }
        if i15 != text.len() {
            proof {
                assert(fields is None);
            }
            return Err(RecordError::MalformedText);
        }
        proof {
            assert(fields == Some(
                (owner_bytes@, value, payload_bytes@, program_id@, randomizer, record_view_key,
                embedded),
            ));
        }
        let rec = match Self::from(
            network,
            Address { bytes: owner_bytes },
            value,
            Payload { bytes: payload_bytes },
            program_id,
            randomizer,
            record_view_key,
        ) {
            Ok(rec) => rec,
            Err(e) => {
                return Err(e);
            },
        };
        if embedded != rec.commitment {
            return Err(RecordError::InvalidCommitment(embedded, rec.commitment));
        }
        Ok(rec)
    }
}

/// The canonical text of any record fields parses back to exactly those
/// fields: the human-readable form loses nothing.
#[verifier::rlimit(60)]
pub proof fn lemma_text_round_trip(
    parameters: NetworkParameters,
    owner: Seq<u8>,
    value: u64,
    payload: Seq<u8>,
    program_id: Seq<u8>,
    randomizer: u64,
    record_view_key: u64,
    commitment: u64,
)
    requires
        owner.len() == parameters.address_size,
        payload.len() == parameters.payload_size,
        program_id.len() == parameters.program_id_size,
    ensures
        spec_text_fields(
            parameters,
            spec_record_text(owner, value, payload, program_id, randomizer, record_view_key,
                commitment),
        ) == Some((owner, value, payload, program_id, randomizer, record_view_key, commitment)),
{
    lemma_auto_spec_u64_to_from_le_bytes();
    lemma_dec_digits(value);
    let t = spec_record_text(owner, value, payload, program_id, randomizer, record_view_key,
        commitment);
    let a = owner.len() as int;
    let p = payload.len() as int;
    let g = program_id.len() as int;
    let dv = spec_dec(value).len() as int;
    let o1: int = 10;
    let o2 = o1 + 2 * a;
    let o3 = o2 + 10;
    let o4 = o3 + dv;
    let o5 = o4 + 12;
    let o6 = o5 + 2 * p;
    let o7 = o6 + 16;
    let o8 = o7 + 2 * g;
    let o9 = o8 + 16;
    let o10 = o9 + 16;
    let o11 = o10 + 21;
    let o12 = o11 + 16;
    let o13 = o12 + 16;
    let o14 = o13 + 16;
    let o15 = o14 + 2;
    assert(t.len() == o15);
    assert(t.subrange(0, o1) =~= spec_seg_owner());
    assert(spec_take_seg(t, 0, spec_seg_owner()) == Some(o1));
    assert(t.subrange(o1, o2) =~= spec_hex(owner));
    lemma_hex_region(t, o1, owner);
    assert(spec_take_hex(t, o1, a) == Some((owner, o2)));
    assert(t.subrange(o2, o3) =~= spec_seg_value());
    assert(spec_take_seg(t, o2, spec_seg_value()) == Some(o3));
    assert(t.subrange(o3, o4) =~= spec_dec(value));
    assert(t[o4] == spec_seg_payload()[0]);
    assert(!spec_is_digit(t[o4]));
    lemma_take_dec(t, o3, value);
    assert(spec_take_dec(t, o3) == Some((value, o4)));
    assert(t.subrange(o4, o5) =~= spec_seg_payload());
    assert(spec_take_seg(t, o4, spec_seg_payload()) == Some(o5));
    assert(t.subrange(o5, o6) =~= spec_hex(payload));
    lemma_hex_region(t, o5, payload);
    assert(spec_take_hex(t, o5, p) == Some((payload, o6)));
    assert(t.subrange(o6, o7) =~= spec_seg_program_id());
    assert(spec_take_seg(t, o6, spec_seg_program_id()) == Some(o7));
    assert(t.subrange(o7, o8) =~= spec_hex(program_id));
    lemma_hex_region(t, o7, program_id);
    assert(spec_take_hex(t, o7, g) == Some((program_id, o8)));
    assert(t.subrange(o8, o9) =~= spec_seg_randomizer());
    assert(spec_take_seg(t, o8, spec_seg_randomizer()) == Some(o9));
    assert(t.subrange(o9, o10) =~= spec_hex(spec_u64_to_le_bytes(randomizer)));
    lemma_take_hex_word(t, o9, randomizer);
    assert(spec_take_hex_word(t, o9) == Some((randomizer, o10)));
    assert(t.subrange(o10, o11) =~= spec_seg_record_view_key());
    assert(spec_take_seg(t, o10, spec_seg_record_view_key()) == Some(o11));
    assert(t.subrange(o11, o12) =~= spec_hex(spec_u64_to_le_bytes(record_view_key)));
    lemma_take_hex_word(t, o11, record_view_key);
    assert(spec_take_hex_word(t, o11) == Some((record_view_key, o12)));
    assert(t.subrange(o12, o13) =~= spec_seg_commitment());
    assert(spec_take_seg(t, o12, spec_seg_commitment()) == Some(o13));
    assert(t.subrange(o13, o14) =~= spec_hex(spec_u64_to_le_bytes(commitment)));
    lemma_take_hex_word(t, o13, commitment);
    assert(spec_take_hex_word(t, o13) == Some((commitment, o14)));
    assert(t.subrange(o14, o15) =~= spec_seg_close());
    assert(spec_take_seg(t, o14, spec_seg_close()) == Some(o15));
}

} // verus!
