//! The wire form of a sample identity.
use vstd::prelude::*;

use crate::transport::types;
use crate::transport::types::{Guid, SampleIdentity};

verus! {

/// How many octets the wire form of a sample identity has: a guid prefix (twelve), an entity id
/// (four) and a sequence number (a signed high word and an unsigned low word, four each).
pub const SAMPLE_IDENTITY_WIRE_SIZE: usize = 24;

/// How many values a word of four octets can take.
pub const WORD_MODULUS: u64 = 0x1_0000_0000;

/// The four octets of the word that is congruent to `n`, least significant octet first.
pub open spec fn word_octets(n: int) -> Seq<u8> {
    seq![
        (n % 0x100) as u8,
        (n / 0x100 % 0x100) as u8,
        (n / 0x1_0000 % 0x100) as u8,
        (n / 0x100_0000 % 0x100) as u8,
    ]
}

/// The word whose octets, least significant first, are the elements of `s`.
pub open spec fn word_of_octets(s: Seq<u8>) -> int {
    s[0] + s[1] * 0x100 + s[2] * 0x1_0000 + s[3] * 0x100_0000
}

/// What a word stands for when its highest bit is a sign.
pub open spec fn signed_word(word: int) -> int {
    if word < 0x8000_0000 {
        word
    } else {
        word - WORD_MODULUS
    }
}

/// The wire form of `id`: the octets of the writer's guid, then the high word and the low word of
/// the sequence number, each little-endian.
pub open spec fn encoded_sample_identity(id: SampleIdentity) -> Seq<u8> {
    id.writer_guid.octets()@ + word_octets(id.sequence_number as int / WORD_MODULUS as int)
        + word_octets(id.sequence_number as int)
}

/// The sample identity whose wire form is `s`, where `s` has the length of a wire form.
pub open spec fn decoded_sample_identity(s: Seq<u8>) -> Option<SampleIdentity> {
    if s.len() == SAMPLE_IDENTITY_WIRE_SIZE {
        let high = signed_word(word_of_octets(s.subrange(16, 20)));
        let low = word_of_octets(s.subrange(20, 24));
        Some(
            SampleIdentity {
                writer_guid: Guid::of_octets(s),
                sequence_number: (high * WORD_MODULUS + low) as i64,
            },
        )
    } else {
        None
    }
}

proof fn lemma_word_of_word_octets(n: int)
    ensures
        word_of_octets(word_octets(n)) == n % (WORD_MODULUS as int),
{
    let (q1, q2, q3) = (n / 0x100, n / 0x1_0000, n / 0x100_0000);
    let q4 = n / WORD_MODULUS as int;
    assert(n == q1 * 0x100 + n % 0x100);
    assert(q2 == q1 / 0x100 && q1 == q2 * 0x100 + q1 % 0x100);
    assert(q3 == q2 / 0x100 && q2 == q3 * 0x100 + q2 % 0x100);
    assert(q4 == q3 / 0x100 && q3 == q4 * 0x100 + q3 % 0x100);
}

proof fn lemma_word_octets_of_word(s: Seq<u8>)
    requires
        s.len() == 4,
    ensures
        0 <= word_of_octets(s) < WORD_MODULUS,
        word_octets(word_of_octets(s)) == s,
{
    let (a, b, c, d) = (s[0] as int, s[1] as int, s[2] as int, s[3] as int);
    let n = word_of_octets(s);
    assert(n % 0x100 == a && n / 0x100 == b + c * 0x100 + d * 0x1_0000);
    assert((b + c * 0x100 + d * 0x1_0000) % 0x100 == b);
    assert(n / 0x1_0000 == c + d * 0x100);
    assert((c + d * 0x100) % 0x100 == c);
    assert(n / 0x100_0000 == d && d % 0x100 == d);
    assert(word_octets(n) =~= s);
}

proof fn lemma_octet_multiple(k: int, n: int)
    ensures
        (n + k * 0x100) % 0x100 == n % 0x100,
{
}

/// Numbers that differ by a multiple of the number of words have the same octets.
proof fn lemma_word_octets_multiple(k: int, n: int)
    ensures
        word_octets(k * WORD_MODULUS + n) == word_octets(n),
{
    let m = k * WORD_MODULUS + n;
    lemma_octet_multiple(k * 0x100_0000, n);
    assert(m / 0x100 == n / 0x100 + (k * 0x1_0000) * 0x100);
    lemma_octet_multiple(k * 0x1_0000, n / 0x100);
    assert(m / 0x1_0000 == n / 0x1_0000 + (k * 0x100) * 0x100);
    lemma_octet_multiple(k * 0x100, n / 0x1_0000);
    assert(m / 0x100_0000 == n / 0x100_0000 + k * 0x100);
    lemma_octet_multiple(k, n / 0x100_0000);
    assert(word_octets(m) =~= word_octets(n));
}

/// A sequence number is put together again from its two words.
proof fn lemma_sequence_number_words(n: i64)
    ensures
        signed_word((n as int / WORD_MODULUS as int) % (WORD_MODULUS as int)) * WORD_MODULUS
            + n as int % (WORD_MODULUS as int) == n,
{
    let high = n as int / WORD_MODULUS as int;
    assert(-0x8000_0000 <= high < 0x8000_0000);
    assert(signed_word(high % (WORD_MODULUS as int)) == high);
}

/// The high word of a sequence number is found again, and so is the low one.
proof fn lemma_words_of_sequence_number(high: int, low: int)
    requires
        0 <= high < WORD_MODULUS,
        0 <= low < WORD_MODULUS,
    ensures
        ({
            let n = signed_word(high) * WORD_MODULUS + low;
            &&& i64::MIN <= n <= i64::MAX
            &&& n / WORD_MODULUS as int == signed_word(high)
            &&& word_octets(n / WORD_MODULUS as int) == word_octets(high)
            &&& word_octets(n) == word_octets(low)
        }),
{
    let n = signed_word(high) * WORD_MODULUS + low;
    assert(n / WORD_MODULUS as int == signed_word(high));
    lemma_word_octets_multiple(-1, high);
    lemma_word_octets_multiple(signed_word(high), low);
}

/// The wire form of every sample identity has twenty-four octets and is read back as that sample
/// identity.
pub proof fn decoding_undoes_encoding(id: SampleIdentity)
    ensures
        encoded_sample_identity(id).len() == SAMPLE_IDENTITY_WIRE_SIZE,
        decoded_sample_identity(encoded_sample_identity(id)) == Some(id),
{
    let octets = id.writer_guid.octets();
    let high = id.sequence_number as int / WORD_MODULUS as int;
    let low = id.sequence_number as int;
    let s = encoded_sample_identity(id);
    assert(s.subrange(16, 20) =~= word_octets(high));
    assert(s.subrange(20, 24) =~= word_octets(low));
    lemma_word_of_word_octets(high);
    lemma_word_of_word_octets(low);
    lemma_sequence_number_words(id.sequence_number);
    types::guid_octets_round_trip(id.writer_guid, octets);
    assert(forall|i: int| 0 <= i < 16 ==> s[i] == octets@[i]);
    assert(Guid::of_octets(s) == Guid::of_octets(octets@));
}

/// Twenty-four octets, whatever they are, are the wire form of the sample identity that they are
/// read as.
pub proof fn encoding_undoes_decoding(s: Seq<u8>)
    requires
        s.len() == SAMPLE_IDENTITY_WIRE_SIZE,
    ensures
        decoded_sample_identity(s) matches Some(id) && encoded_sample_identity(id) == s,
{
    let high = word_of_octets(s.subrange(16, 20));
    let low = word_of_octets(s.subrange(20, 24));
    lemma_word_octets_of_word(s.subrange(16, 20));
    lemma_word_octets_of_word(s.subrange(20, 24));
    lemma_words_of_sequence_number(high, low);
    assert(Guid::of_octets(s).octets()@ =~= s.subrange(0, 16));
    assert(s =~= s.subrange(0, 16) + s.subrange(16, 20) + s.subrange(20, 24));
}

proof fn lemma_parts_of_wire_form(id: SampleIdentity)
    ensures
        encoded_sample_identity(id).len() == 24,
        encoded_sample_identity(id).subrange(0, 16) == id.writer_guid.octets()@,
        encoded_sample_identity(id).subrange(16, 20) == word_octets(
            id.sequence_number as int / WORD_MODULUS as int,
        ),
        encoded_sample_identity(id).subrange(20, 24) == word_octets(id.sequence_number as int),
{
    let s = encoded_sample_identity(id);
    assert(s.subrange(0, 16) =~= id.writer_guid.octets()@);
    assert(s.subrange(16, 20) =~= word_octets(id.sequence_number as int / WORD_MODULUS as int));
    assert(s.subrange(20, 24) =~= word_octets(id.sequence_number as int));
}

/// The sign of a word is the highest bit of its last octet.
proof fn lemma_sign_of_word(s: Seq<u8>)
    requires
        s.len() == 4,
    ensures
        s[3] < 0x80 ==> signed_word(word_of_octets(s)) == word_of_octets(s),
        s[3] >= 0x80 ==> signed_word(word_of_octets(s)) == word_of_octets(s) - WORD_MODULUS,
{
}

/// The wire form of a sample identity, octet by octet: the guid prefix, the entity key and the
/// entity kind as they are; then two words, each with its least significant octet first, of which
/// the first, taken as signed, counts multiples of 2^32 and the second counts ones, and which
/// together make the sequence number.
pub proof fn wire_layout(id: SampleIdentity)
    ensures
        ({
            let s = encoded_sample_identity(id);
            let high = s[16] + s[17] * 0x100 + s[18] * 0x1_0000 + s[19] * 0x100_0000;
            let low = s[20] + s[21] * 0x100 + s[22] * 0x1_0000 + s[23] * 0x100_0000;
            &&& s.len() == 24
            &&& s.subrange(0, 12) == id.writer_guid.prefix@
            &&& s[12] == id.writer_guid.entity_id.entity_key[0]
            &&& s[13] == id.writer_guid.entity_id.entity_key[1]
            &&& s[14] == id.writer_guid.entity_id.entity_key[2]
            &&& s[15] == id.writer_guid.entity_id.entity_kind
            &&& s[19] < 0x80 ==> id.sequence_number == high * 0x1_0000_0000 + low
            &&& s[19] >= 0x80 ==> id.sequence_number == (high - 0x1_0000_0000) * 0x1_0000_0000 + low
        }),
{
    let s = encoded_sample_identity(id);
    let high = word_octets(id.sequence_number as int / WORD_MODULUS as int);
    let low = word_octets(id.sequence_number as int);
    lemma_parts_of_wire_form(id);
    types::guid_octets_layout(id.writer_guid, s.subrange(0, 16));
    assert(s.subrange(0, 12) =~= id.writer_guid.prefix@) by {
        assert(s.subrange(0, 12) =~= s.subrange(0, 16).subrange(0, 12));
    }
    assert(forall|i: int| 0 <= i < 16 ==> s[i] == s.subrange(0, 16)[i]);
    assert(forall|i: int| 0 <= i < 4 ==> s[16 + i] == high[i]) by {
        assert(forall|i: int| 0 <= i < 4 ==> s[16 + i] == s.subrange(16, 20)[i]);
    }
    assert(forall|i: int| 0 <= i < 4 ==> s[20 + i] == low[i]) by {
        assert(forall|i: int| 0 <= i < 4 ==> s[20 + i] == s.subrange(20, 24)[i]);
    }
    assert(s[16] == high[0] && s[17] == high[1] && s[18] == high[2] && s[19] == high[3]);
    assert(s[20] == low[0] && s[21] == low[1] && s[22] == low[2] && s[23] == low[3]);
    lemma_word_of_word_octets(id.sequence_number as int / WORD_MODULUS as int);
    lemma_word_of_word_octets(id.sequence_number as int);
    lemma_sequence_number_words(id.sequence_number);
    lemma_sign_of_word(high);
}

/// What twenty-four octets are read as, field by field (see [`wire_layout`]). Any other number of
/// octets is read as nothing.
pub proof fn reading_the_wire_layout(s: Seq<u8>)
    ensures
        s.len() != 24 ==> decoded_sample_identity(s) is None,
        s.len() == 24 ==> ({
            let high = s[16] + s[17] * 0x100 + s[18] * 0x1_0000 + s[19] * 0x100_0000;
            let low = s[20] + s[21] * 0x100 + s[22] * 0x1_0000 + s[23] * 0x100_0000;
            &&& decoded_sample_identity(s) matches Some(id)
            &&& id.writer_guid.prefix@ == s.subrange(0, 12)
            &&& id.writer_guid.entity_id.entity_key@ == s.subrange(12, 15)
            &&& id.writer_guid.entity_id.entity_kind == s[15]
            &&& s[19] < 0x80 ==> id.sequence_number == high * 0x1_0000_0000 + low
            &&& s[19] >= 0x80 ==> id.sequence_number == (high - 0x1_0000_0000) * 0x1_0000_0000 + low
        }),
{
    if s.len() == 24 {
        encoding_undoes_decoding(s);
        let id = decoded_sample_identity(s)->0;
        wire_layout(id);
        assert(id.writer_guid.entity_id.entity_key@ =~= s.subrange(12, 15));
    }
}

fn word_to_octets(word: u32) -> (octets: [u8; 4])
    ensures
        octets@ == word_octets(word as int),
{
    [
        (word % 0x100) as u8,
        (word / 0x100 % 0x100) as u8,
        (word / 0x1_0000 % 0x100) as u8,
        (word / 0x100_0000 % 0x100) as u8,
    ]
}

fn word_from_octets(octets: &[u8]) -> (word: u32)
    requires
        octets@.len() == 4,
    ensures
        word == word_of_octets(octets@),
{
    octets[0] as u32 + octets[1] as u32 * 0x100 + octets[2] as u32 * 0x1_0000 + octets[3] as u32
        * 0x100_0000
}

/// Encodes a sample identity for the RELATED_SAMPLE_IDENTITY parameter.
///
/// Layout (RTPS 2.3, 9.6.2.9 and 9.3.2):
///   octets  0..12: guid prefix
///   octets 12..16: entity id
///   octets 16..20: high word of the sequence number (signed, little-endian)
///   octets 20..24: low word of the sequence number (unsigned, little-endian)
pub fn encode_sample_identity_le(id: &SampleIdentity) -> (octets: [u8; SAMPLE_IDENTITY_WIRE_SIZE])
    ensures
        octets@ == encoded_sample_identity(*id),
{
    let guid: [u8; 16] = id.writer_guid().into();
    let seq: i64 = id.sequence_number();
    let high: i32 = (seq >> 32) as i32;
    let low: u32 = (seq & 0xFFFF_FFFF) as u32;
    let high_octets = word_to_octets(high as u32);
    let low_octets = word_to_octets(low);
    proof {
        assert(seq == ((seq >> 32) as i32) * 0x1_0000_0000 + ((seq & 0xFFFF_FFFF) as u32))
            by (bit_vector);
        assert((high as u32) as int == if high < 0 {
            high + 0x1_0000_0000
        } else {
            high as int
        }) by (bit_vector);
        assert(seq as int / WORD_MODULUS as int == high);
        lemma_word_octets_multiple(1, high as int);
        lemma_word_octets_multiple(high as int, low as int);
    }
    let octets = [
        guid[0],
        guid[1],
        guid[2],
        guid[3],
        guid[4],
        guid[5],
        guid[6],
        guid[7],
        guid[8],
        guid[9],
        guid[10],
        guid[11],
        guid[12],
        guid[13],
        guid[14],
        guid[15],
        high_octets[0],
        high_octets[1],
        high_octets[2],
        high_octets[3],
        low_octets[0],
        low_octets[1],
        low_octets[2],
        low_octets[3],
    ];
    assert(octets@ =~= guid@ + high_octets@ + low_octets@);
    octets
}

/// Decodes what [`encode_sample_identity_le`] wrote. Gives `None` where the length is not that of
/// a wire form, and only there.
pub fn decode_sample_identity_le(bytes: &[u8]) -> (id: Option<SampleIdentity>)
    ensures
        id == decoded_sample_identity(bytes@),
        id is None <==> bytes@.len() != SAMPLE_IDENTITY_WIRE_SIZE,
        id matches Some(id) ==> encoded_sample_identity(id) == bytes@,
{
    if bytes.len() != SAMPLE_IDENTITY_WIRE_SIZE {
        return None;
    }
    let guid: [u8; 16] = [
        bytes[0],
        bytes[1],
        bytes[2],
        bytes[3],
        bytes[4],
        bytes[5],
        bytes[6],
        bytes[7],
        bytes[8],
        bytes[9],
        bytes[10],
        bytes[11],
        bytes[12],
        bytes[13],
        bytes[14],
        bytes[15],
    ];
    let high_word: u32 = word_from_octets(&bytes[16..20]);
    let high: i32 = high_word as i32;
    let low: u32 = word_from_octets(&bytes[20..24]);
    let seq: i64 = ((high as i64) << 32) | (low as i64 & 0xFFFF_FFFF);
    proof {
        assert((high_word as i32) as int == if high_word < 0x8000_0000 {
            high_word as int
        } else {
            high_word - 0x1_0000_0000
        }) by (bit_vector);
        assert((((high as i64) << 32) | (low as i64 & 0xFFFF_FFFF)) == high * 0x1_0000_0000 + low)
            by (bit_vector);
        encoding_undoes_decoding(bytes@);
        assert(Guid::of_octets(guid@) == Guid::of_octets(bytes@));
    }
    Some(SampleIdentity::new(Guid::from(guid), seq))
}

} // verus!
