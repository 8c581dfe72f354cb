use std::sync::Arc;

use dust_dds::transport::types::{CacheChange, ChangeKind, EntityId, Guid};

fn change(length: usize) -> CacheChange {
    let octets: Vec<u8> = (0..length).map(|i| (i % 251) as u8).collect();
    CacheChange {
        kind: ChangeKind::Alive,
        writer_guid: Guid::new([0xAA; 12], EntityId::new([0, 0, 0x34], 0x02)),
        sequence_number: 42,
        source_timestamp: None,
        instance_handle: None,
        data_value: Arc::from(octets),
        related_sample_identity: None,
    }
}

fn ids() -> (EntityId, EntityId) {
    (EntityId::new([0, 0, 7], 0x07), EntityId::new([0, 0, 0x34], 0x02))
}

#[test]
fn fragment_carries_its_part_of_the_value() {
    let (reader_id, writer_id) = ids();
    let fragment = change(10).as_data_frag_submessage(reader_id, writer_id, 4, 1);
    assert!(fragment.inline_qos_flag());
    assert!(!fragment.non_standard_payload_flag());
    assert!(!fragment.key_flag());
    assert_eq!(fragment.reader_id(), reader_id);
    assert_eq!(fragment.writer_id(), writer_id);
    assert_eq!(fragment.writer_sn(), 42);
    assert_eq!(fragment.fragment_starting_num(), 2);
    assert_eq!(fragment.fragments_in_submessage(), 1);
    assert_eq!(fragment.fragment_size(), 4);
    assert_eq!(fragment.data_size(), 10);
    assert!(fragment.inline_qos().parameter().is_empty());
    assert_eq!(fragment.serialized_payload().start(), 4);
    assert_eq!(fragment.serialized_payload().end(), 8);
    assert_eq!(fragment.serialized_payload().octets(), &[4, 5, 6, 7]);
}

#[test]
fn last_fragment_is_cut_short() {
    let (reader_id, writer_id) = ids();
    let fragment = change(10).as_data_frag_submessage(reader_id, writer_id, 4, 2);
    assert_eq!(fragment.fragment_starting_num(), 3);
    assert_eq!(fragment.serialized_payload().octets(), &[8, 9]);
}

#[test]
fn fragment_past_the_end_has_a_range_outside_the_value() {
    let (reader_id, writer_id) = ids();
    let fragment = change(10).as_data_frag_submessage(reader_id, writer_id, 4, 3);
    assert_eq!(fragment.serialized_payload().start(), 12);
    assert_eq!(fragment.serialized_payload().end(), 10);
}

#[test]
fn fragments_put_together_are_the_value() {
    let (reader_id, writer_id) = ids();
    for (length, size, count) in [(0, 3, 0), (1, 3, 1), (9, 3, 3), (10, 3, 4), (1000, 64, 16)] {
        let change = change(length);
        let mut octets: Vec<u8> = Vec::new();
        for number in 0..count {
            let fragment = change.as_data_frag_submessage(reader_id, writer_id, size, number);
            assert!(!fragment.serialized_payload().octets().is_empty());
            octets.extend_from_slice(fragment.serialized_payload().octets());
        }
        assert_eq!(&octets[..], &change.data_value[..]);
    }
}

#[test]
fn numbers_too_large_for_their_fields_are_cut() {
    let (reader_id, writer_id) = ids();
    let fragment = change(4).as_data_frag_submessage(reader_id, writer_id, 0x1_0003, 0);
    assert_eq!(fragment.fragment_size(), 3);
    assert_eq!(fragment.serialized_payload().octets(), &[0, 1, 2, 3]);
    let fragment = change(4).as_data_frag_submessage(reader_id, writer_id, 0, 0x1_0000_0004);
    assert_eq!(fragment.fragment_starting_num(), 5);
    assert_eq!(fragment.serialized_payload().start(), 0);
    assert_eq!(fragment.serialized_payload().end(), 0);
}
