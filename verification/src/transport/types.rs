//! Identifiers, and the change that a writer's history hands to its readers.
use std::sync::Arc;
use vstd::prelude::*;
use vstd::std_specs::convert::FromSpecImpl;

use crate::infrastructure::time::Time;

verus! {

/// Octets that all entities of one participant have in common.
pub type GuidPrefix = [u8; 12];

/// Position of a change in the history of its writer.
pub type SequenceNumber = i64;

/// Entity kind of a user defined writer whose type has a key.
pub const USER_DEFINED_WRITER_WITH_KEY: u8 = 0x02;

/// Entity kind of a user defined reader whose type has a key.
pub const USER_DEFINED_READER_WITH_KEY: u8 = 0x07;

/// Identifies an entity within its participant.
#[derive(Clone, Copy, PartialEq, Eq, Debug, Hash, PartialOrd, Ord)]
pub struct EntityId {
    /// Octets that tell entities of one kind apart.
    pub entity_key: [u8; 3],
    /// What the entity is.
    pub entity_kind: u8,
}

impl EntityId {
    /// Constructs a new `EntityId`.
    pub fn new(entity_key: [u8; 3], entity_kind: u8) -> (id: Self)
        ensures
            id == (EntityId { entity_key, entity_kind }),
    {
        EntityId { entity_key, entity_kind }
    }
}

/// Identifies an entity among all participants.
#[derive(Clone, Copy, PartialEq, Eq, Debug, Hash, PartialOrd, Ord)]
pub struct Guid {
    /// The participant.
    pub prefix: GuidPrefix,
    /// The entity within the participant.
    pub entity_id: EntityId,
}

impl Guid {
    /// The sixteen octets of the identifier: prefix, entity key, entity kind.
    pub open spec fn octets(self) -> [u8; 16] {
        [
            self.prefix[0],
            self.prefix[1],
            self.prefix[2],
            self.prefix[3],
            self.prefix[4],
            self.prefix[5],
            self.prefix[6],
            self.prefix[7],
            self.prefix[8],
            self.prefix[9],
            self.prefix[10],
            self.prefix[11],
            self.entity_id.entity_key[0],
            self.entity_id.entity_key[1],
            self.entity_id.entity_key[2],
            self.entity_id.entity_kind,
        ]
    }

    /// The identifier whose octets are the first sixteen elements of `s`.
    pub open spec fn of_octets(s: Seq<u8>) -> Guid {
        Guid {
            prefix: [
                s[0],
                s[1],
                s[2],
                s[3],
                s[4],
                s[5],
                s[6],
                s[7],
                s[8],
                s[9],
                s[10],
                s[11],
            ],
            entity_id: EntityId { entity_key: [s[12], s[13], s[14]], entity_kind: s[15] },
        }
    }

    /// Constructs a new `Guid`.
    pub fn new(prefix: GuidPrefix, entity_id: EntityId) -> (guid: Self)
        ensures
            guid == (Guid { prefix, entity_id }),
    {
        Guid { prefix, entity_id }
    }
}

impl From<Guid> for [u8; 16] {
    fn from(value: Guid) -> (octets: [u8; 16])
        ensures
            octets@ == value.prefix@ + value.entity_id.entity_key@
                + seq![value.entity_id.entity_kind],
    {
        let prefix = value.prefix;
        let key = value.entity_id.entity_key;
        [
            prefix[0],
            prefix[1],
            prefix[2],
            prefix[3],
            prefix[4],
            prefix[5],
            prefix[6],
            prefix[7],
            prefix[8],
            prefix[9],
            prefix[10],
            prefix[11],
            key[0],
            key[1],
            key[2],
            value.entity_id.entity_kind,
        ]
    }
}

impl FromSpecImpl<Guid> for [u8; 16] {
    open spec fn obeys_from_spec() -> bool {
        true
    }

    open spec fn from_spec(v: Guid) -> [u8; 16] {
        v.octets()
    }
}

impl From<[u8; 16]> for Guid {
    fn from(value: [u8; 16]) -> (guid: Guid)
        ensures
            guid.prefix@ == value@.take(12),
            guid.entity_id.entity_key@ == value@.subrange(12, 15),
            guid.entity_id.entity_kind == value[15],
    {
        Guid {
            prefix: [
                value[0],
                value[1],
                value[2],
                value[3],
                value[4],
                value[5],
                value[6],
                value[7],
                value[8],
                value[9],
                value[10],
                value[11],
            ],
            entity_id: EntityId {
                entity_key: [value[12], value[13], value[14]],
                entity_kind: value[15],
            },
        }
    }
}

impl FromSpecImpl<[u8; 16]> for Guid {
    open spec fn obeys_from_spec() -> bool {
        true
    }

    open spec fn from_spec(v: [u8; 16]) -> Guid {
        Guid::of_octets(v@)
    }
}

/// The octets of a `Guid` are its prefix, its entity key and its entity kind, one after the other;
/// and sixteen octets are taken apart in the same places.
pub proof fn guid_octets_layout(guid: Guid, s: Seq<u8>)
    requires
        s.len() == 16,
    ensures
        guid.octets()@ == guid.prefix@ + guid.entity_id.entity_key@
            + seq![guid.entity_id.entity_kind],
        Guid::of_octets(s).prefix@ == s.take(12),
        Guid::of_octets(s).entity_id.entity_key@ == s.subrange(12, 15),
        Guid::of_octets(s).entity_id.entity_kind == s[15],
{
    assert(guid.octets()@ =~= guid.prefix@ + guid.entity_id.entity_key@
        + seq![guid.entity_id.entity_kind]);
    assert(Guid::of_octets(s).prefix@ =~= s.take(12));
    assert(Guid::of_octets(s).entity_id.entity_key@ =~= s.subrange(12, 15));
}

/// A `Guid` and its sixteen octets stand for each other: going from one to the other and back
/// gives what one started from, in either direction.
pub proof fn guid_octets_round_trip(guid: Guid, octets: [u8; 16])
    ensures
        Guid::of_octets(guid.octets()@) == guid,
        Guid::of_octets(octets@).octets() == octets,
{
    let back = Guid::of_octets(guid.octets()@);
    assert(back.prefix =~= guid.prefix);
    assert(back.entity_id.entity_key =~= guid.entity_id.entity_key);
    assert(Guid::of_octets(octets@).octets() =~= octets);
}

/// Identifies one sample: the writer that published it, and its place in that writer's history.
#[derive(Clone, Copy, PartialEq, Eq, Debug, Hash, PartialOrd, Ord)]
pub struct SampleIdentity {
    /// The publishing writer.
    pub writer_guid: Guid,
    /// The place in the writer's history.
    pub sequence_number: SequenceNumber,
}

impl SampleIdentity {
    /// Constructs a new `SampleIdentity`.
    pub fn new(writer_guid: Guid, sequence_number: SequenceNumber) -> (id: Self)
        ensures
            id == (SampleIdentity { writer_guid, sequence_number }),
    {
        SampleIdentity { writer_guid, sequence_number }
    }

    /// The writer that published the sample.
    pub fn writer_guid(&self) -> (guid: Guid)
        ensures
            guid == self.writer_guid,
    {
        self.writer_guid
    }

    /// The place of the sample in the writer's history.
    pub fn sequence_number(&self) -> (sequence_number: SequenceNumber)
        ensures
            sequence_number == self.sequence_number,
    {
        self.sequence_number
    }
}

/// What a change does to its instance.
#[derive(Clone, Copy, PartialEq, Eq, Debug, Structural)]
pub enum ChangeKind {
    /// The instance has a new value.
    Alive,
    /// The instance has a new value, which the writer filtered out for the reader.
    AliveFiltered,
    /// The instance is disposed of.
    NotAliveDisposed,
    /// The writer no longer updates the instance.
    NotAliveUnregistered,
    /// The instance is disposed of and the writer no longer updates it.
    NotAliveDisposedUnregistered,
}

/// One change in the history of a writer.
#[derive(PartialEq, Eq, Debug)]
pub struct CacheChange {
    /// What the change does to its instance.
    pub kind: ChangeKind,
    /// The writer that made the change.
    pub writer_guid: Guid,
    /// The place of the change in the writer's history.
    pub sequence_number: SequenceNumber,
    /// When the change was made, where the writer said so.
    pub source_timestamp: Option<Time>,
    /// The instance that changed, where it is known.
    pub instance_handle: Option<[u8; 16]>,
    /// The serialized value, or the serialized key.
    pub data_value: Arc<[u8]>,
    /// The sample that this one answers, where it is a reply.
    pub related_sample_identity: Option<SampleIdentity>,
}

/// A [`CacheChange`] with its value as a sequence of octets.
#[verifier::ext_equal]
pub struct CacheChangeView {
    /// See [`CacheChange::kind`].
    pub kind: ChangeKind,
    /// See [`CacheChange::writer_guid`].
    pub writer_guid: Guid,
    /// See [`CacheChange::sequence_number`].
    pub sequence_number: SequenceNumber,
    /// See [`CacheChange::source_timestamp`].
    pub source_timestamp: Option<Time>,
    /// See [`CacheChange::instance_handle`].
    pub instance_handle: Option<[u8; 16]>,
    /// See [`CacheChange::data_value`].
    pub data_value: Seq<u8>,
    /// See [`CacheChange::related_sample_identity`].
    pub related_sample_identity: Option<SampleIdentity>,
}

impl View for CacheChange {
    type V = CacheChangeView;

    open spec fn view(&self) -> CacheChangeView {
        CacheChangeView {
            kind: self.kind,
            writer_guid: self.writer_guid,
            sequence_number: self.sequence_number,
            source_timestamp: self.source_timestamp,
            instance_handle: self.instance_handle,
            data_value: (*self.data_value)@,
            related_sample_identity: self.related_sample_identity,
        }
    }
}

/// The view of a change shows each of its fields.
pub proof fn change_view_shows_every_field(change: CacheChange)
    ensures
        change@.kind == change.kind,
        change@.writer_guid == change.writer_guid,
        change@.sequence_number == change.sequence_number,
        change@.source_timestamp == change.source_timestamp,
        change@.instance_handle == change.instance_handle,
        change@.data_value == (*change.data_value)@,
        change@.related_sample_identity == change.related_sample_identity,
{
}

} // verus!
