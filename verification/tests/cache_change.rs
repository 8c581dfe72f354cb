use std::sync::Arc;

use dust_dds::infrastructure::time::Time;
use dust_dds::rtps::cache_change::{
    PID_KEY_HASH, PID_RELATED_SAMPLE_IDENTITY, PID_RELATED_SAMPLE_IDENTITY_VENDOR_FASTDDS,
    PID_STATUS_INFO,
};
use dust_dds::rtps::error::RtpsError;
use dust_dds::rtps::sample_identity::{decode_sample_identity_le, encode_sample_identity_le};
use dust_dds::rtps_messages::submessage_elements::{Parameter, ParameterList};
use dust_dds::rtps_messages::submessages::data::DataSubmessage;
use dust_dds::rtps_messages::types::ParameterId;
use dust_dds::transport::types::{
    CacheChange, ChangeKind, EntityId, Guid, SampleIdentity, USER_DEFINED_READER_WITH_KEY,
    USER_DEFINED_WRITER_WITH_KEY,
};

fn sample_identity_fixture() -> SampleIdentity {
    SampleIdentity::new(
        Guid::new(
            [1, 2, 3, 4, 5, 6, 7, 8, 9, 10, 11, 12],
            EntityId::new([0x00, 0x00, 0x12], USER_DEFINED_WRITER_WITH_KEY),
        ),
        0x0000_0001_0000_0002, // high = 1, low = 2
    )
}

fn cache_change_with_identity(sid: SampleIdentity) -> CacheChange {
    CacheChange {
        kind: ChangeKind::Alive,
        writer_guid: Guid::new(
            [0xAA; 12],
            EntityId::new([0x00, 0x00, 0x34], USER_DEFINED_WRITER_WITH_KEY),
        ),
        sequence_number: 42,
        source_timestamp: None,
        instance_handle: None,
        data_value: Arc::from([1u8, 2, 3, 4] as [u8; 4]),
        related_sample_identity: Some(sid),
    }
}

fn entity_ids() -> (EntityId, EntityId) {
    (
        EntityId::new([0x00, 0x00, 0x07], USER_DEFINED_READER_WITH_KEY),
        EntityId::new([0x00, 0x00, 0x34], USER_DEFINED_WRITER_WITH_KEY),
    )
}

fn make_data_submessage_with_inline_qos(parameters: ParameterList) -> DataSubmessage {
    let (reader_id, writer_id) = entity_ids();
    DataSubmessage::new(
        true,
        true,
        false,
        false,
        reader_id,
        writer_id,
        7,
        parameters,
        Arc::<[u8]>::from([].as_slice()).into(),
    )
}

fn parameter(id: ParameterId, value: &[u8]) -> Parameter {
    Parameter::new(id, Arc::from(value))
}

fn read(parameters: Vec<Parameter>) -> Result<CacheChange, RtpsError> {
    let submessage = make_data_submessage_with_inline_qos(ParameterList::new(parameters));
    CacheChange::try_from_data_submessage(&submessage, [0xAA; 12], None)
}

fn written_ids(change: &CacheChange) -> Vec<ParameterId> {
    let (reader_id, writer_id) = entity_ids();
    change
        .as_data_submessage(reader_id, writer_id)
        .inline_qos()
        .parameter()
        .iter()
        .map(|p| p.parameter_id())
        .collect()
}

#[test]
fn sample_identity_encode_matches_rtps_layout() {
    let id = sample_identity_fixture();
    let bytes = encode_sample_identity_le(&id);
    assert_eq!(bytes.len(), 24);
    // GuidPrefix (raw)
    assert_eq!(&bytes[..12], &[1, 2, 3, 4, 5, 6, 7, 8, 9, 10, 11, 12]);
    // EntityId (raw: entity_key + entity_kind)
    assert_eq!(
        &bytes[12..16],
        &[0x00, 0x00, 0x12, USER_DEFINED_WRITER_WITH_KEY]
    );
    // SequenceNumber.high little-endian = 1
    assert_eq!(&bytes[16..20], &[1, 0, 0, 0]);
    // SequenceNumber.low little-endian = 2
    assert_eq!(&bytes[20..24], &[2, 0, 0, 0]);
}

#[test]
fn sample_identity_encode_decode_roundtrip() {
    let id = sample_identity_fixture();
    let bytes = encode_sample_identity_le(&id);
    let decoded = decode_sample_identity_le(&bytes).expect("decode");
    assert_eq!(decoded, id);
}

#[test]
fn sample_identity_decode_rejects_wrong_length() {
    assert!(decode_sample_identity_le(&[0u8; 23]).is_none());
    assert!(decode_sample_identity_le(&[0u8; 25]).is_none());
    assert!(decode_sample_identity_le(&[]).is_none());
}

/// The write path emits both the standard 0x0083 and the Fast DDS 2.6.x vendor 0x800f
/// parameters, the standard one first.
#[test]
fn reply_carries_both_pids() {
    let sid = sample_identity_fixture();
    let change = cache_change_with_identity(sid);
    let (reader_id, writer_id) = entity_ids();
    let submessage = change.as_data_submessage(reader_id, writer_id);
    let params: Vec<ParameterId> = submessage
        .inline_qos()
        .parameter()
        .iter()
        .map(|p| p.parameter_id())
        .collect();
    assert!(
        params.contains(&PID_RELATED_SAMPLE_IDENTITY),
        "standard 0x0083 missing: {params:?}"
    );
    assert!(
        params.contains(&PID_RELATED_SAMPLE_IDENTITY_VENDOR_FASTDDS),
        "vendor 0x800f missing: {params:?}"
    );
    let std_pos = params
        .iter()
        .position(|&p| p == PID_RELATED_SAMPLE_IDENTITY)
        .unwrap();
    let vendor_pos = params
        .iter()
        .position(|&p| p == PID_RELATED_SAMPLE_IDENTITY_VENDOR_FASTDDS)
        .unwrap();
    assert!(
        std_pos < vendor_pos,
        "standard PID must come before vendor PID for first-match priority: \
         got std at {std_pos}, vendor at {vendor_pos}"
    );
}

/// Both parameters share byte-identical payloads of 24 octets.
#[test]
fn payload_layout_identical_across_pids() {
    let sid = sample_identity_fixture();
    let change = cache_change_with_identity(sid);
    let (reader_id, writer_id) = entity_ids();
    let submessage = change.as_data_submessage(reader_id, writer_id);
    let mut std_bytes: Option<&[u8]> = None;
    let mut vendor_bytes: Option<&[u8]> = None;
    for p in submessage.inline_qos().parameter().iter() {
        match p.parameter_id() {
            PID_RELATED_SAMPLE_IDENTITY => std_bytes = Some(p.value()),
            PID_RELATED_SAMPLE_IDENTITY_VENDOR_FASTDDS => vendor_bytes = Some(p.value()),
            _ => (),
        }
    }
    let std_bytes = std_bytes.expect("standard PID payload");
    let vendor_bytes = vendor_bytes.expect("vendor PID payload");
    assert_eq!(
        std_bytes, vendor_bytes,
        "dual-emit payloads diverge — identity would be inconsistent across peers"
    );
    assert_eq!(std_bytes.len(), 24, "RTPS §9.3.2 mandates 24-byte layout");
}

/// The peer sent only the standard 0x0083.
#[test]
fn reader_accepts_standard_pid_only() {
    let sid = sample_identity_fixture();
    let payload: Arc<[u8]> = Arc::from(encode_sample_identity_le(&sid));
    let parameters = ParameterList::new(vec![Parameter::new(PID_RELATED_SAMPLE_IDENTITY, payload)]);
    let submessage = make_data_submessage_with_inline_qos(parameters);
    let decoded =
        CacheChange::try_from_data_submessage(&submessage, [0xAA; 12], None).expect("decode");
    assert_eq!(decoded.related_sample_identity, Some(sid));
}

/// The peer sent only the Fast DDS vendor 0x800f.
#[test]
fn reader_accepts_vendor_pid_only() {
    let sid = sample_identity_fixture();
    let payload: Arc<[u8]> = Arc::from(encode_sample_identity_le(&sid));
    let parameters = ParameterList::new(vec![Parameter::new(
        PID_RELATED_SAMPLE_IDENTITY_VENDOR_FASTDDS,
        payload,
    )]);
    let submessage = make_data_submessage_with_inline_qos(parameters);
    let decoded =
        CacheChange::try_from_data_submessage(&submessage, [0xAA; 12], None).expect("decode");
    assert_eq!(decoded.related_sample_identity, Some(sid));
}

/// The peer sent both parameters.
#[test]
fn reader_prefers_first_match_when_both_present() {
    let sid = sample_identity_fixture();
    let payload: Arc<[u8]> = Arc::from(encode_sample_identity_le(&sid));
    let parameters = ParameterList::new(vec![
        Parameter::new(PID_RELATED_SAMPLE_IDENTITY, Arc::clone(&payload)),
        Parameter::new(PID_RELATED_SAMPLE_IDENTITY_VENDOR_FASTDDS, payload),
    ]);
    let submessage = make_data_submessage_with_inline_qos(parameters);
    let decoded =
        CacheChange::try_from_data_submessage(&submessage, [0xAA; 12], None).expect("decode");
    assert_eq!(decoded.related_sample_identity, Some(sid));
}

#[test]
fn parameter_numbers_have_their_wire_values() {
    assert_eq!(PID_KEY_HASH as u16, 0x0070);
    assert_eq!(PID_STATUS_INFO as u16, 0x0071);
    assert_eq!(PID_RELATED_SAMPLE_IDENTITY as u16, 0x0083);
    assert_eq!(PID_RELATED_SAMPLE_IDENTITY_VENDOR_FASTDDS as u16, 0x800f);
}

#[test]
fn sequence_numbers_of_every_sign_round_trip() {
    let guid = sample_identity_fixture().writer_guid();
    for seq in [
        0,
        1,
        -1,
        i64::MAX,
        i64::MIN,
        0x8000_0000,
        0xFFFF_FFFF,
        -0x1_0000_0000,
        0x7FFF_FFFF_0000_0001,
        -0x1234_5678_9ABC_DEF0,
    ] {
        let id = SampleIdentity::new(guid, seq);
        let bytes = encode_sample_identity_le(&id);
        assert_eq!(&bytes[16..20], &((seq >> 32) as i32).to_le_bytes());
        assert_eq!(&bytes[20..24], &(seq as u32).to_le_bytes());
        assert_eq!(decode_sample_identity_le(&bytes), Some(id));
    }
}

#[test]
fn encoded_negative_sequence_number_is_exact() {
    let id = SampleIdentity::new(sample_identity_fixture().writer_guid(), -2);
    let bytes = encode_sample_identity_le(&id);
    assert_eq!(
        &bytes[16..24],
        &[0xFF, 0xFF, 0xFF, 0xFF, 0xFE, 0xFF, 0xFF, 0xFF]
    );
}

#[test]
fn any_octets_of_the_right_length_are_an_encoding() {
    let mut octets = [0u8; 24];
    for (i, octet) in octets.iter_mut().enumerate() {
        *octet = 255 - 7 * i as u8;
    }
    let id = decode_sample_identity_le(&octets).unwrap();
    assert_eq!(encode_sample_identity_le(&id), octets);
}

#[test]
fn submessage_carries_the_change() {
    let (reader_id, writer_id) = entity_ids();
    let mut change = cache_change_with_identity(sample_identity_fixture());
    change.kind = ChangeKind::NotAliveDisposed;
    change.instance_handle = Some([9; 16]);
    let submessage = change.as_data_submessage(reader_id, writer_id);
    assert!(submessage.inline_qos_flag());
    assert!(!submessage.data_flag());
    assert!(submessage.key_flag());
    assert!(!submessage.non_standard_payload_flag());
    assert_eq!(submessage.reader_id(), reader_id);
    assert_eq!(submessage.writer_id(), writer_id);
    assert_eq!(submessage.writer_sn(), 42);
    let payload: Arc<[u8]> = submessage.serialized_payload().clone().into();
    assert_eq!(&payload[..], &[1, 2, 3, 4]);
    let parameters = submessage.inline_qos().parameter();
    assert_eq!(
        written_ids(&change),
        vec![
            PID_STATUS_INFO,
            PID_KEY_HASH,
            PID_RELATED_SAMPLE_IDENTITY,
            PID_RELATED_SAMPLE_IDENTITY_VENDOR_FASTDDS,
        ]
    );
    assert_eq!(parameters[0].value(), &[0, 0, 0, 1]);
    assert_eq!(parameters[0].length(), 4);
    assert_eq!(parameters[1].value(), &[9; 16]);
}

#[test]
fn status_info_tells_the_kind() {
    let (reader_id, writer_id) = entity_ids();
    for (kind, last) in [
        (ChangeKind::NotAliveDisposed, 1u8),
        (ChangeKind::NotAliveUnregistered, 2),
        (ChangeKind::NotAliveDisposedUnregistered, 3),
    ] {
        let mut change = cache_change_with_identity(sample_identity_fixture());
        change.kind = kind;
        let submessage = change.as_data_submessage(reader_id, writer_id);
        assert_eq!(submessage.inline_qos().parameter()[0].value(), &[0, 0, 0, last]);
        assert!(submessage.key_flag());
        assert_eq!(read(vec![parameter(PID_STATUS_INFO, &[0, 0, 0, last])]).unwrap().kind, kind);
    }
    let filtered = read(vec![parameter(PID_STATUS_INFO, &[0, 0, 0, 4])]).unwrap();
    assert_eq!(filtered.kind, ChangeKind::AliveFiltered);
    assert_eq!(read(vec![]).unwrap().kind, ChangeKind::Alive);
}

#[test]
fn meaningless_status_info_is_refused() {
    for value in [
        &[0u8, 0, 0, 0][..],
        &[0, 0, 0, 5],
        &[1, 0, 0, 1],
        &[0, 0, 0],
        &[0, 0, 0, 1, 0],
        &[],
    ] {
        assert_eq!(
            read(vec![parameter(PID_STATUS_INFO, value)]),
            Err(RtpsError::InvalidData)
        );
    }
}

#[test]
fn key_hash_of_another_length_names_no_instance() {
    assert_eq!(
        read(vec![parameter(PID_KEY_HASH, &[3; 16])]).unwrap().instance_handle,
        Some([3; 16])
    );
    assert_eq!(
        read(vec![parameter(PID_KEY_HASH, &[3; 15])]).unwrap().instance_handle,
        None
    );
    assert_eq!(
        read(vec![parameter(PID_KEY_HASH, &[3; 17]), parameter(PID_KEY_HASH, &[4; 16])])
            .unwrap()
            .instance_handle,
        None
    );
}

#[test]
fn malformed_identity_is_passed_over() {
    let change = read(vec![parameter(PID_RELATED_SAMPLE_IDENTITY, &[0; 23])]).unwrap();
    assert_eq!(change.related_sample_identity, None);
    // The first match counts, though a later one could be read.
    let sid = sample_identity_fixture();
    let change = read(vec![
        parameter(PID_RELATED_SAMPLE_IDENTITY_VENDOR_FASTDDS, &[]),
        parameter(PID_RELATED_SAMPLE_IDENTITY, &encode_sample_identity_le(&sid)),
    ])
    .unwrap();
    assert_eq!(change.related_sample_identity, None);
}

#[test]
fn first_of_two_different_identities_counts() {
    let first = sample_identity_fixture();
    let second = SampleIdentity::new(first.writer_guid(), 99);
    let change = read(vec![
        parameter(0x0001, &[1, 2, 3]),
        parameter(
            PID_RELATED_SAMPLE_IDENTITY_VENDOR_FASTDDS,
            &encode_sample_identity_le(&first),
        ),
        parameter(PID_RELATED_SAMPLE_IDENTITY, &encode_sample_identity_le(&second)),
    ])
    .unwrap();
    assert_eq!(change.related_sample_identity, Some(first));
}

#[test]
fn other_parameters_make_no_difference() {
    let plain = read(vec![
        parameter(PID_STATUS_INFO, &[0, 0, 0, 2]),
        parameter(PID_KEY_HASH, &[5; 16]),
    ]);
    let padded = read(vec![
        parameter(0x0001, &[0xFF]),
        parameter(PID_STATUS_INFO, &[0, 0, 0, 2]),
        parameter(0x0072, &[]),
        parameter(PID_KEY_HASH, &[5; 16]),
        parameter(PID_STATUS_INFO, &[9, 9]),
        parameter(-1, &[0; 24]),
    ]);
    assert_eq!(plain, padded);
    assert!(plain.is_ok());
}

#[test]
fn plain_change_carries_no_identity() {
    let mut change = cache_change_with_identity(sample_identity_fixture());
    change.related_sample_identity = None;
    assert_eq!(written_ids(&change), vec![]);
    let (reader_id, writer_id) = entity_ids();
    let submessage = change.as_data_submessage(reader_id, writer_id);
    let back = CacheChange::try_from_data_submessage(&submessage, [0xAA; 12], None).unwrap();
    assert_eq!(back.related_sample_identity, None);
}

#[test]
fn written_change_is_read_back() {
    let (reader_id, writer_id) = entity_ids();
    for kind in [
        ChangeKind::Alive,
        ChangeKind::NotAliveDisposed,
        ChangeKind::NotAliveUnregistered,
        ChangeKind::NotAliveDisposedUnregistered,
    ] {
        for handle in [None, Some([6; 16])] {
            for sid in [None, Some(sample_identity_fixture())] {
                let mut change = cache_change_with_identity(sample_identity_fixture());
                change.kind = kind;
                change.instance_handle = handle;
                change.related_sample_identity = sid;
                change.source_timestamp = Some(Time::new(5, 6));
                let submessage = change.as_data_submessage(reader_id, writer_id);
                let back = CacheChange::try_from_data_submessage(
                    &submessage,
                    [0xAA; 12],
                    Some(Time::new(5, 6)),
                );
                assert_eq!(back, Ok(change));
            }
        }
    }
}

#[test]
fn filtered_change_is_read_back_as_unfiltered() {
    let (reader_id, writer_id) = entity_ids();
    let mut change = cache_change_with_identity(sample_identity_fixture());
    change.kind = ChangeKind::AliveFiltered;
    let submessage = change.as_data_submessage(reader_id, writer_id);
    assert!(submessage.data_flag());
    let back = CacheChange::try_from_data_submessage(&submessage, [0xAA; 12], None).unwrap();
    assert_eq!(back.kind, ChangeKind::Alive);
    change.kind = ChangeKind::Alive;
    assert_eq!(back, change);
}
