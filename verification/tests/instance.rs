use dust_dds::infrastructure::instance::{
    handle_nil, InstanceHandle, SampleIdentity, WriteParams,
};
use dust_dds::infrastructure::time::Time;
use dust_dds::rtps::behavior_types;
use dust_dds::transport::types::{EntityId, Guid, USER_DEFINED_WRITER_WITH_KEY};

fn guid_fixture() -> Guid {
    Guid::new(
        [1, 2, 3, 4, 5, 6, 7, 8, 9, 10, 11, 12],
        EntityId::new([0x00, 0x00, 0x12], USER_DEFINED_WRITER_WITH_KEY),
    )
}

fn counting_octets() -> [u8; 16] {
    [
        100, 101, 102, 103, 104, 105, 106, 107, 108, 109, 110, 111, 112, 113, 114, 115,
    ]
}

#[test]
fn write_params_default_is_all_none() {
    let params = WriteParams::default();
    assert_eq!(params.timestamp(), None);
    assert_eq!(params.handle(), None);
    assert_eq!(params.related_sample_identity(), None);
    assert_eq!(params, WriteParams::new());
}

#[test]
fn write_params_builder_chain_preserves_fields() {
    let ts = Time::new(1, 2);
    let handle = InstanceHandle::new([7; 16]);
    let sid = SampleIdentity::new(
        Guid::new(
            [1, 2, 3, 4, 5, 6, 7, 8, 9, 10, 11, 12],
            EntityId::new([0x00, 0x00, 0x12], USER_DEFINED_WRITER_WITH_KEY),
        ),
        42,
    );
    let params = WriteParams::default()
        .with_timestamp(ts)
        .with_handle(handle)
        .with_related_sample_identity(sid);
    assert_eq!(params.timestamp(), Some(ts));
    assert_eq!(params.handle(), Some(handle));
    assert_eq!(params.related_sample_identity(), Some(sid));
}

#[test]
fn write_params_with_handle_opt_none_clears_handle() {
    let params = WriteParams::default()
        .with_handle(InstanceHandle::new([1; 16]))
        .with_handle_opt(None);
    assert_eq!(params.handle(), None);
}

#[test]
fn write_params_setters_commute_and_the_later_counts() {
    let early = Time::new(1, 2);
    let late = Time::new(3, 4);
    let handle = InstanceHandle::new([7; 16]);
    let sid = SampleIdentity::new(guid_fixture(), 42);
    let other = SampleIdentity::new(guid_fixture(), 43);
    let a = WriteParams::new()
        .with_timestamp(early)
        .with_related_sample_identity(other)
        .with_handle_opt(Some(handle))
        .with_timestamp(late)
        .with_related_sample_identity(sid);
    let b = WriteParams::new()
        .with_related_sample_identity(sid)
        .with_handle(InstanceHandle::new([8; 16]))
        .with_handle(handle)
        .with_timestamp(late);
    assert_eq!(a, b);
    assert_eq!(a.timestamp(), Some(Time::new(3, 4)));
    assert_eq!(a.related_sample_identity(), Some(sid));
    assert_ne!(a, b.with_handle_opt(None));
}

#[test]
fn handle_conversions_keep_the_octets() {
    let octets = counting_octets();
    let handle = InstanceHandle::new(octets);
    let back: [u8; 16] = handle.into();
    assert_eq!(back, octets);
    let of_behavior = InstanceHandle::from(behavior_types::InstanceHandle(octets));
    assert_eq!(of_behavior, handle);
    let to_behavior: behavior_types::InstanceHandle = handle.into();
    assert_eq!(to_behavior.0, octets);
    let reference: &[u8; 16] = handle.as_ref();
    assert_eq!(reference, &octets);
}

#[test]
fn handle_of_a_guid_has_its_octets() {
    let handle = InstanceHandle::from(guid_fixture());
    let octets: [u8; 16] = handle.into();
    assert_eq!(
        octets,
        [1, 2, 3, 4, 5, 6, 7, 8, 9, 10, 11, 12, 0x00, 0x00, 0x12, 0x02]
    );
    assert_eq!(Guid::from(octets), guid_fixture());
    let other = Guid::new(guid_fixture().prefix, EntityId::new([0, 0, 0x13], 0x02));
    assert_ne!(InstanceHandle::from(other), handle);
}

#[test]
fn handle_compares_with_octets_both_ways() {
    let octets = counting_octets();
    let handle = InstanceHandle::new(octets);
    assert!(handle == octets);
    assert!(octets == handle);
    let mut changed = octets;
    changed[15] = 0;
    assert!(handle != changed);
    assert!(changed != handle);
}

#[test]
fn handle_is_indexed_by_octet() {
    let handle = InstanceHandle::new(counting_octets());
    assert_eq!(handle[0], 100);
    assert_eq!(handle[15], 115);
}

#[test]
fn default_handle_is_nil() {
    assert_eq!(InstanceHandle::default(), handle_nil());
    assert_eq!(InstanceHandle::default(), InstanceHandle::new([0; 16]));
}
