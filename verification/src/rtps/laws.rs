//! What holds of writing and reading taken together.
use vstd::prelude::*;

use super::cache_change;
use super::cache_change::{
    PID_KEY_HASH, PID_RELATED_SAMPLE_IDENTITY, PID_RELATED_SAMPLE_IDENTITY_VENDOR_FASTDDS,
    PID_STATUS_INFO,
};
use super::error::RtpsError;
use super::sample_identity;
use super::sample_identity::SAMPLE_IDENTITY_WIRE_SIZE;
use crate::infrastructure::time::Time;
use crate::rtps_messages::submessage_elements::ParameterView;
use crate::rtps_messages::submessages::data::DataSubmessageView;
use crate::rtps_messages::types::ParameterId;
use crate::transport::types::{
    CacheChangeView, ChangeKind, EntityId, Guid, GuidPrefix, SampleIdentity,
};

verus! {

// ---------------------------------------------------------------------------------------------
// Looking for a parameter
// ---------------------------------------------------------------------------------------------
/// Whether some parameter has one of the given numbers.
pub open spec fn has_parameter(parameters: Seq<ParameterView>, ids: Set<ParameterId>) -> bool {
    exists|i: int| 0 <= i < parameters.len() && ids.contains(#[trigger] parameters[i].id)
}

/// A parameter is found where, and only where, one is there.
pub proof fn found_where_present(parameters: Seq<ParameterView>, ids: Set<ParameterId>)
    ensures
        cache_change::first_parameter(parameters, ids) is Some <==> has_parameter(parameters, ids),
    decreases parameters.len(),
{
    if parameters.len() > 0 && !ids.contains(parameters[0].id) {
        let rest = parameters.drop_first();
        found_where_present(rest, ids);
        if has_parameter(rest, ids) {
            let i = choose|i: int| 0 <= i < rest.len() && ids.contains(#[trigger] rest[i].id);
            assert(parameters[i + 1] == rest[i]);
        }
        if has_parameter(parameters, ids) {
            let i = choose|i: int|
                0 <= i < parameters.len() && ids.contains(#[trigger] parameters[i].id);
            assert(rest[i - 1] == parameters[i]);
        }
    }
}

/// In two lists, one after the other, the first list is looked through first.
pub proof fn first_match_wins(
    before: Seq<ParameterView>,
    after: Seq<ParameterView>,
    ids: Set<ParameterId>,
)
    ensures
        cache_change::first_parameter(before + after, ids) == match cache_change::first_parameter(
            before,
            ids,
        ) {
            Some(parameter) => Some(parameter),
            None => cache_change::first_parameter(after, ids),
        },
    decreases before.len(),
{
    if before.len() == 0 {
        assert(before + after =~= after);
    } else {
        assert((before + after).drop_first() =~= before.drop_first() + after);
        first_match_wins(before.drop_first(), after, ids);
    }
}

proof fn lemma_first_of_one(parameter: ParameterView, ids: Set<ParameterId>)
    ensures
        cache_change::first_parameter(seq![parameter], ids) == if ids.contains(parameter.id) {
            Some(parameter)
        } else {
            None
        },
{
    let one = seq![parameter];
    assert(one.drop_first().len() == 0);
    assert(cache_change::first_parameter(one.drop_first(), ids) is None);
}

proof fn lemma_first_of_three(
    a: Seq<ParameterView>,
    b: Seq<ParameterView>,
    c: Seq<ParameterView>,
    ids: Set<ParameterId>,
)
    ensures
        cache_change::first_parameter(a + b + c, ids) == match cache_change::first_parameter(
            a,
            ids,
        ) {
            Some(parameter) => Some(parameter),
            None => match cache_change::first_parameter(b, ids) {
                Some(parameter) => Some(parameter),
                None => cache_change::first_parameter(c, ids),
            },
        },
{
    first_match_wins(a + b, c, ids);
    first_match_wins(a, b, ids);
}

// ---------------------------------------------------------------------------------------------
// Reading what was written
// ---------------------------------------------------------------------------------------------
proof fn lemma_written_parts(change: CacheChangeView, ids: Set<ParameterId>)
    ensures
        cache_change::first_parameter(cache_change::written_status_info(change.kind), ids)
            == if !cache_change::is_alive(change.kind) && ids.contains(PID_STATUS_INFO) {
            Some(cache_change::written_status_info(change.kind)[0])
        } else {
            None
        },
        cache_change::first_parameter(cache_change::written_key_hash(change.instance_handle), ids)
            == match change.instance_handle {
            Some(handle) if ids.contains(PID_KEY_HASH) => Some(
                ParameterView { id: PID_KEY_HASH, value: handle@ },
            ),
            _ => None,
        },
        change.related_sample_identity is None ==> cache_change::first_parameter(
            cache_change::written_related_sample_identity(change.related_sample_identity),
            ids,
        ) is None,
        change.related_sample_identity matches Some(id) ==> ids.contains(
            PID_RELATED_SAMPLE_IDENTITY,
        ) ==> cache_change::first_parameter(
            cache_change::written_related_sample_identity(change.related_sample_identity),
            ids,
        ) == Some(
            ParameterView {
                id: PID_RELATED_SAMPLE_IDENTITY,
                value: sample_identity::encoded_sample_identity(id),
            },
        ),
{
    let status = cache_change::written_status_info(change.kind);
    if !cache_change::is_alive(change.kind) {
        assert(status =~= seq![status[0]]);
        lemma_first_of_one(status[0], ids);
    }
    if let Some(handle) = change.instance_handle {
        lemma_first_of_one(ParameterView { id: PID_KEY_HASH, value: handle@ }, ids);
    }
}

/// The kind of change that a reader sees: as written, but that a filtered value is told apart
/// from other values by nothing that is written.
pub open spec fn kind_seen(kind: ChangeKind) -> ChangeKind {
    if kind is AliveFiltered {
        ChangeKind::Alive
    } else {
        kind
    }
}

/// A reader gets from a writer's submessage the change that was written: its kind (see
/// [`kind_seen`]), its sequence number, its instance, its value, and the sample that it answers,
/// if it answers one. The writer's identity and the time are what the message around the
/// submessage says.
pub proof fn reading_undoes_writing(
    change: CacheChangeView,
    reader_id: EntityId,
    writer_id: EntityId,
    source_guid_prefix: GuidPrefix,
    source_timestamp: Option<Time>,
)
    ensures
        cache_change::read_change(
            cache_change::written_submessage(change, reader_id, writer_id),
            source_guid_prefix,
            source_timestamp,
        ) == Ok::<CacheChangeView, RtpsError>(
            CacheChangeView {
                kind: kind_seen(change.kind),
                writer_guid: Guid { prefix: source_guid_prefix, entity_id: writer_id },
                source_timestamp,
                ..change
            },
        ),
{
    let status = cache_change::written_status_info(change.kind);
    let key = cache_change::written_key_hash(change.instance_handle);
    let related = cache_change::written_related_sample_identity(change.related_sample_identity);
    lemma_written_parts(change, cache_change::status_info_ids());
    lemma_written_parts(change, cache_change::key_hash_ids());
    lemma_written_parts(change, cache_change::related_sample_identity_ids());
    lemma_first_of_three(status, key, related, cache_change::status_info_ids());
    lemma_first_of_three(status, key, related, cache_change::key_hash_ids());
    lemma_first_of_three(status, key, related, cache_change::related_sample_identity_ids());
    lemma_no_status_or_key_in_related(change.related_sample_identity);
    if !cache_change::is_alive(change.kind) {
        lemma_status_info_read_back(change.kind);
    }
    if let Some(handle) = change.instance_handle {
        assert(cache_change::handle_of_octets(handle@) =~= handle);
    }
    if let Some(id) = change.related_sample_identity {
        sample_identity::decoding_undoes_encoding(id);
    }
}

proof fn lemma_no_status_or_key_in_related(id: Option<SampleIdentity>)
    ensures
        cache_change::first_parameter(
            cache_change::written_related_sample_identity(id),
            cache_change::status_info_ids(),
        ) is None,
        cache_change::first_parameter(
            cache_change::written_related_sample_identity(id),
            cache_change::key_hash_ids(),
        ) is None,
{
    let related = cache_change::written_related_sample_identity(id);
    found_where_present(related, cache_change::status_info_ids());
    found_where_present(related, cache_change::key_hash_ids());
}

proof fn lemma_status_info_read_back(kind: ChangeKind)
    requires
        !cache_change::is_alive(kind),
    ensures
        cache_change::status_info_kind(cache_change::written_status_info(kind)[0].value) == Some(
            kind,
        ),
{
    let value = cache_change::written_status_info(kind)[0].value;
    assert(forall|last: u8| #[trigger] cache_change::status_info_octets(last)[3] == last);
    assert(value[3] == cache_change::status_info_octets(value[3])[3]);
}

/// Where the message around a submessage tells the writer and the time of the change truly, the
/// reader gets the very change that was written. A filtered value is left out: the reader sees it
/// as unfiltered.
pub proof fn change_survives_the_wire(change: CacheChangeView, reader_id: EntityId)
    requires
        !(change.kind is AliveFiltered),
    ensures
        cache_change::read_change(
            cache_change::written_submessage(change, reader_id, change.writer_guid.entity_id),
            change.writer_guid.prefix,
            change.source_timestamp,
        ) == Ok::<CacheChangeView, RtpsError>(change),
{
    reading_undoes_writing(
        change,
        reader_id,
        change.writer_guid.entity_id,
        change.writer_guid.prefix,
        change.source_timestamp,
    );
}

/// A reply names the sample that it answers twice, in the last two parameters: first under the
/// standard number, then under the vendor's, both times with the same twenty-four octets. No
/// other parameter has either number.
pub proof fn reply_carries_both_numbers(change: CacheChangeView, id: SampleIdentity)
    requires
        change.related_sample_identity == Some(id),
    ensures
        ({
            let inline_qos = cache_change::written_inline_qos(change);
            let standard = inline_qos.len() - 2;
            let vendor = inline_qos.len() - 1;
            &&& standard >= 0
            &&& inline_qos[standard].id == PID_RELATED_SAMPLE_IDENTITY
            &&& inline_qos[vendor].id == PID_RELATED_SAMPLE_IDENTITY_VENDOR_FASTDDS
            &&& inline_qos[standard].value == sample_identity::encoded_sample_identity(id)
            &&& inline_qos[vendor].value == inline_qos[standard].value
            &&& inline_qos[standard].value.len() == SAMPLE_IDENTITY_WIRE_SIZE
            &&& forall|i: int|
                0 <= i < standard ==> !cache_change::related_sample_identity_ids().contains(
                    #[trigger] inline_qos[i].id,
                )
        }),
{
    sample_identity::decoding_undoes_encoding(id);
}

/// A change that answers no sample names none, under either number.
pub proof fn other_changes_carry_neither_number(change: CacheChangeView)
    requires
        change.related_sample_identity is None,
    ensures
        !has_parameter(
            cache_change::written_inline_qos(change),
            cache_change::related_sample_identity_ids(),
        ),
{
}

/// A reader learns which sample is answered from the standard number alone, from the vendor's
/// alone, or from both: the first of them counts, whatever stands around it.
pub proof fn either_number_is_accepted(
    before: Seq<ParameterView>,
    number: ParameterId,
    id: SampleIdentity,
    after: Seq<ParameterView>,
)
    requires
        number == PID_RELATED_SAMPLE_IDENTITY || number
            == PID_RELATED_SAMPLE_IDENTITY_VENDOR_FASTDDS,
        !has_parameter(before, cache_change::related_sample_identity_ids()),
    ensures
        cache_change::read_related_sample_identity(
            before + seq![
                ParameterView { id: number, value: sample_identity::encoded_sample_identity(id) },
            ] + after,
        ) == Some(id),
{
    let ids = cache_change::related_sample_identity_ids();
    let parameter = ParameterView {
        id: number,
        value: sample_identity::encoded_sample_identity(id),
    };
    found_where_present(before, ids);
    lemma_first_of_one(parameter, ids);
    lemma_first_of_three(before, seq![parameter], after, ids);
    sample_identity::decoding_undoes_encoding(id);
}

/// Whether a reader looks for parameters of this number.
pub open spec fn is_looked_for(number: ParameterId) -> bool {
    ||| cache_change::status_info_ids().contains(number)
    ||| cache_change::key_hash_ids().contains(number)
    ||| cache_change::related_sample_identity_ids().contains(number)
}

/// A parameter of any other number makes no difference to what is read, wherever it stands.
pub proof fn other_parameters_are_ignored(
    submessage: DataSubmessageView,
    before: Seq<ParameterView>,
    parameter: ParameterView,
    after: Seq<ParameterView>,
    source_guid_prefix: GuidPrefix,
    source_timestamp: Option<Time>,
)
    requires
        !is_looked_for(parameter.id),
    ensures
        cache_change::read_change(
            DataSubmessageView { inline_qos: before + seq![parameter] + after, ..submessage },
            source_guid_prefix,
            source_timestamp,
        ) == cache_change::read_change(
            DataSubmessageView { inline_qos: before + after, ..submessage },
            source_guid_prefix,
            source_timestamp,
        ),
{
    let status = cache_change::status_info_ids();
    let key = cache_change::key_hash_ids();
    let related = cache_change::related_sample_identity_ids();
    lemma_first_of_one(parameter, status);
    lemma_first_of_one(parameter, key);
    lemma_first_of_one(parameter, related);
    lemma_first_of_three(before, seq![parameter], after, status);
    lemma_first_of_three(before, seq![parameter], after, key);
    lemma_first_of_three(before, seq![parameter], after, related);
    first_match_wins(before, after, status);
    first_match_wins(before, after, key);
    first_match_wins(before, after, related);
}

/// Once something is named, a parameter at the end of the list that names it again makes no
/// difference to what is read. The two numbers of an answered sample count as one here.
pub proof fn repeated_parameters_are_ignored(
    submessage: DataSubmessageView,
    parameter: ParameterView,
    source_guid_prefix: GuidPrefix,
    source_timestamp: Option<Time>,
)
    requires
        cache_change::status_info_ids().contains(parameter.id) ==> has_parameter(
            submessage.inline_qos,
            cache_change::status_info_ids(),
        ),
        cache_change::key_hash_ids().contains(parameter.id) ==> has_parameter(
            submessage.inline_qos,
            cache_change::key_hash_ids(),
        ),
        cache_change::related_sample_identity_ids().contains(parameter.id) ==> has_parameter(
            submessage.inline_qos,
            cache_change::related_sample_identity_ids(),
        ),
    ensures
        cache_change::read_change(
            DataSubmessageView {
                inline_qos: submessage.inline_qos + seq![parameter],
                ..submessage
            },
            source_guid_prefix,
            source_timestamp,
        ) == cache_change::read_change(submessage, source_guid_prefix, source_timestamp),
{
    let status = cache_change::status_info_ids();
    let key = cache_change::key_hash_ids();
    let related = cache_change::related_sample_identity_ids();
    lemma_first_of_one(parameter, status);
    lemma_first_of_one(parameter, key);
    lemma_first_of_one(parameter, related);
    first_match_wins(submessage.inline_qos, seq![parameter], status);
    first_match_wins(submessage.inline_qos, seq![parameter], key);
    first_match_wins(submessage.inline_qos, seq![parameter], related);
    found_where_present(submessage.inline_qos, status);
    found_where_present(submessage.inline_qos, key);
    found_where_present(submessage.inline_qos, related);
}

// ---------------------------------------------------------------------------------------------
// What a reader makes of an inline QoS
// ---------------------------------------------------------------------------------------------
/// The numbers of the parameters, as they stand on the wire. The vendor's, 0x800f, is negative
/// when it is read as signed.
pub proof fn parameter_numbers()
    ensures
        PID_KEY_HASH == 0x0070,
        PID_STATUS_INFO == 0x0071,
        PID_RELATED_SAMPLE_IDENTITY == 0x0083,
        PID_RELATED_SAMPLE_IDENTITY_VENDOR_FASTDDS == 0x800f - 0x1_0000,
{
}

proof fn lemma_first_after(
    before: Seq<ParameterView>,
    parameter: ParameterView,
    after: Seq<ParameterView>,
    ids: Set<ParameterId>,
)
    requires
        ids.contains(parameter.id),
        forall|i: int| 0 <= i < before.len() ==> !ids.contains(#[trigger] before[i].id),
    ensures
        cache_change::first_parameter(before + seq![parameter] + after, ids) == Some(parameter),
{
    found_where_present(before, ids);
    lemma_first_of_one(parameter, ids);
    lemma_first_of_three(before, seq![parameter], after, ids);
}

/// The kind of change is told by the first status info, whatever stands before and after it. Its
/// four octets are three zeros and a last one: 1 for disposed, 2 for unregistered, 3 for both, 4
/// for filtered. A first status info of any other octets makes the submessage invalid.
pub proof fn first_status_info_tells_the_kind(
    submessage: DataSubmessageView,
    before: Seq<ParameterView>,
    value: Seq<u8>,
    after: Seq<ParameterView>,
    source_guid_prefix: GuidPrefix,
    source_timestamp: Option<Time>,
)
    requires
        submessage.inline_qos == before + seq![ParameterView { id: PID_STATUS_INFO, value }]
            + after,
        forall|i: int| 0 <= i < before.len() ==> #[trigger] before[i].id != PID_STATUS_INFO,
    ensures
        ({
            let read = cache_change::read_change(submessage, source_guid_prefix, source_timestamp);
            let meant = value.len() == 4 && value[0] == 0 && value[1] == 0 && value[2] == 0;
            &&& meant && value[3] == 1 ==> read is Ok && read->Ok_0.kind is NotAliveDisposed
            &&& meant && value[3] == 2 ==> read is Ok && read->Ok_0.kind is NotAliveUnregistered
            &&& meant && value[3] == 3 ==> read is Ok
                && read->Ok_0.kind is NotAliveDisposedUnregistered
            &&& meant && value[3] == 4 ==> read is Ok && read->Ok_0.kind is AliveFiltered
            &&& !(meant && 1 <= value[3] <= 4) ==> read is Err && read->Err_0 is InvalidData
        }),
{
    let parameter = ParameterView { id: PID_STATUS_INFO, value };
    lemma_first_after(before, parameter, after, cache_change::status_info_ids());
    assert(forall|last: u8| #[trigger] cache_change::status_info_octets(last)[3] == last);
    if value.len() == 4 && value[0] == 0 && value[1] == 0 && value[2] == 0 {
        assert(value =~= cache_change::status_info_octets(value[3]));
    } else {
        assert forall|last: u8| value != #[trigger] cache_change::status_info_octets(last) by {
            let octets = cache_change::status_info_octets(last);
            assert(octets.len() == 4 && octets[0] == 0 && octets[1] == 0 && octets[2] == 0);
        }
    }
}

/// Without a status info the change brings a value, and reading cannot fail.
pub proof fn without_status_info_the_change_is_alive(
    submessage: DataSubmessageView,
    source_guid_prefix: GuidPrefix,
    source_timestamp: Option<Time>,
)
    requires
        forall|i: int|
            0 <= i < submessage.inline_qos.len() ==> #[trigger] submessage.inline_qos[i].id
                != PID_STATUS_INFO,
    ensures
        ({
            let read = cache_change::read_change(submessage, source_guid_prefix, source_timestamp);
            read is Ok && read->Ok_0.kind is Alive
        }),
{
    found_where_present(submessage.inline_qos, cache_change::status_info_ids());
}

/// The instance is named by the sixteen octets of the first key hash, whatever stands before and
/// after it. A first key hash of another length names none.
pub proof fn first_key_hash_names_the_instance(
    submessage: DataSubmessageView,
    before: Seq<ParameterView>,
    value: Seq<u8>,
    after: Seq<ParameterView>,
    source_guid_prefix: GuidPrefix,
    source_timestamp: Option<Time>,
)
    requires
        submessage.inline_qos == before + seq![ParameterView { id: PID_KEY_HASH, value }] + after,
        forall|i: int| 0 <= i < before.len() ==> #[trigger] before[i].id != PID_KEY_HASH,
    ensures
        cache_change::read_change(submessage, source_guid_prefix, source_timestamp) matches Ok(
            change,
        ) ==> {
            &&& value.len() == 16 ==> change.instance_handle is Some
                && change.instance_handle->0@ == value
            &&& value.len() != 16 ==> change.instance_handle is None
        },
{
    let parameter = ParameterView { id: PID_KEY_HASH, value };
    lemma_first_after(before, parameter, after, cache_change::key_hash_ids());
    if value.len() == 16 {
        assert(cache_change::handle_of_octets(value)@ =~= value);
    }
}

/// Without a key hash no instance is named.
pub proof fn without_key_hash_no_instance_is_named(
    submessage: DataSubmessageView,
    source_guid_prefix: GuidPrefix,
    source_timestamp: Option<Time>,
)
    requires
        forall|i: int|
            0 <= i < submessage.inline_qos.len() ==> #[trigger] submessage.inline_qos[i].id
                != PID_KEY_HASH,
    ensures
        cache_change::read_change(submessage, source_guid_prefix, source_timestamp) matches Ok(
            change,
        ) ==> change.instance_handle is None,
{
    found_where_present(submessage.inline_qos, cache_change::key_hash_ids());
}

/// The answered sample is named by the octets of the first parameter that has the standard number
/// or the vendor's, whatever stands before and after it: where these are twenty-four, they are
/// the wire form of its identity; otherwise none is named.
pub proof fn first_identity_names_the_answered_sample(
    submessage: DataSubmessageView,
    before: Seq<ParameterView>,
    parameter: ParameterView,
    after: Seq<ParameterView>,
    source_guid_prefix: GuidPrefix,
    source_timestamp: Option<Time>,
)
    requires
        submessage.inline_qos == before + seq![parameter] + after,
        parameter.id == PID_RELATED_SAMPLE_IDENTITY || parameter.id
            == PID_RELATED_SAMPLE_IDENTITY_VENDOR_FASTDDS,
        forall|i: int|
            0 <= i < before.len() ==> #[trigger] before[i].id != PID_RELATED_SAMPLE_IDENTITY
                && before[i].id != PID_RELATED_SAMPLE_IDENTITY_VENDOR_FASTDDS,
    ensures
        cache_change::read_change(submessage, source_guid_prefix, source_timestamp) matches Ok(
            change,
        ) ==> {
            &&& parameter.value.len() == 24 ==> change.related_sample_identity is Some
                && sample_identity::encoded_sample_identity(change.related_sample_identity->0)
                == parameter.value
            &&& parameter.value.len() != 24 ==> change.related_sample_identity is None
        },
{
    lemma_first_after(before, parameter, after, cache_change::related_sample_identity_ids());
    if parameter.value.len() == 24 {
        sample_identity::encoding_undoes_decoding(parameter.value);
    }
}

/// Without a parameter of either number no answered sample is named.
pub proof fn without_identity_no_sample_is_answered(
    submessage: DataSubmessageView,
    source_guid_prefix: GuidPrefix,
    source_timestamp: Option<Time>,
)
    requires
        forall|i: int|
            0 <= i < submessage.inline_qos.len() ==> #[trigger] submessage.inline_qos[i].id
                != PID_RELATED_SAMPLE_IDENTITY && submessage.inline_qos[i].id
                != PID_RELATED_SAMPLE_IDENTITY_VENDOR_FASTDDS,
    ensures
        cache_change::read_change(submessage, source_guid_prefix, source_timestamp) matches Ok(
            change,
        ) ==> change.related_sample_identity is None,
{
    found_where_present(submessage.inline_qos, cache_change::related_sample_identity_ids());
}

/// What is not told by a parameter is taken as it is: the sequence number, the payload and the
/// writer's entity id from the submessage, the prefix and the time from the message around it.
pub proof fn source_and_payload_are_taken_as_they_are(
    submessage: DataSubmessageView,
    source_guid_prefix: GuidPrefix,
    source_timestamp: Option<Time>,
)
    ensures
        cache_change::read_change(submessage, source_guid_prefix, source_timestamp) matches Ok(
            change,
        ) ==> {
            &&& change.writer_guid.prefix == source_guid_prefix
            &&& change.writer_guid.entity_id == submessage.writer_id
            &&& change.sequence_number == submessage.writer_sn
            &&& change.source_timestamp == source_timestamp
            &&& change.data_value == submessage.serialized_payload
        },
{
}

// ---------------------------------------------------------------------------------------------
// What a writer puts into a submessage
// ---------------------------------------------------------------------------------------------
/// A change that brings a value, filtered or not, is sent as a value; one that disposes of its
/// instance, unregisters it or both is sent as a key. Either way the submessage has an inline QoS
/// and a standard payload, goes to the given reader from the given writer, and holds the sequence
/// number and the octets of the change.
pub proof fn submessage_announces_its_payload(
    change: CacheChangeView,
    reader_id: EntityId,
    writer_id: EntityId,
)
    ensures
        ({
            let submessage = cache_change::written_submessage(change, reader_id, writer_id);
            &&& change.kind is Alive ==> submessage.data_flag && !submessage.key_flag
            &&& change.kind is AliveFiltered ==> submessage.data_flag && !submessage.key_flag
            &&& change.kind is NotAliveDisposed ==> !submessage.data_flag && submessage.key_flag
            &&& change.kind is NotAliveUnregistered ==> !submessage.data_flag
                && submessage.key_flag
            &&& change.kind is NotAliveDisposedUnregistered ==> !submessage.data_flag
                && submessage.key_flag
            &&& submessage.inline_qos_flag
            &&& !submessage.non_standard_payload_flag
            &&& submessage.reader_id == reader_id
            &&& submessage.writer_id == writer_id
            &&& submessage.writer_sn == change.sequence_number
            &&& submessage.serialized_payload == change.data_value
        }),
{
}

/// The inline QoS of a change holds what the change tells, in this order, and nothing else: what
/// became of the instance, where it is not alive; the instance, where it is known; the answered
/// sample, where there is one, under the standard number and then under the vendor's.
pub proof fn inline_qos_tells_the_change(
    change: CacheChangeView,
    reader_id: EntityId,
    writer_id: EntityId,
)
    ensures
        ({
            let parameters = cache_change::written_submessage(
                change,
                reader_id,
                writer_id,
            ).inline_qos;
            let alive = change.kind is Alive || change.kind is AliveFiltered;
            let key = if alive {
                0int
            } else {
                1
            };
            let related = if change.instance_handle is Some {
                key + 1
            } else {
                key
            };
            let last = parameters[0].value;
            &&& parameters.len() == if change.related_sample_identity is Some {
                related + 2
            } else {
                related
            }
            &&& !alive ==> {
                &&& parameters[0].id == PID_STATUS_INFO
                &&& last.len() == 4 && last[0] == 0 && last[1] == 0 && last[2] == 0
                &&& change.kind is NotAliveDisposed ==> last[3] == 1
                &&& change.kind is NotAliveUnregistered ==> last[3] == 2
                &&& change.kind is NotAliveDisposedUnregistered ==> last[3] == 3
            }
            &&& change.instance_handle matches Some(handle) ==> {
                &&& parameters[key].id == PID_KEY_HASH
                &&& parameters[key].value == handle@
            }
            &&& change.related_sample_identity matches Some(id) ==> {
                &&& parameters[related].id == PID_RELATED_SAMPLE_IDENTITY
                &&& parameters[related + 1].id == PID_RELATED_SAMPLE_IDENTITY_VENDOR_FASTDDS
                &&& parameters[related].value == parameters[related + 1].value
                &&& parameters[related].value.len() == 24
                &&& parameters[related].value == sample_identity::encoded_sample_identity(id)
            }
        }),
{
    if let Some(id) = change.related_sample_identity {
        sample_identity::decoding_undoes_encoding(id);
    }
}

// ---------------------------------------------------------------------------------------------
// Fragments
// ---------------------------------------------------------------------------------------------
/// How many fragments of `size` octets it takes to carry `length` octets.
pub open spec fn fragment_count(length: int, size: int) -> int {
    (length + size - 1) / size
}

/// The octets of the first `count` fragments of a change, one after the other.
pub open spec fn reassembled(
    change: CacheChangeView,
    reader_id: EntityId,
    writer_id: EntityId,
    size: int,
    count: int,
) -> Seq<u8>
    decreases count,
{
    if count <= 0 {
        seq![]
    } else {
        reassembled(change, reader_id, writer_id, size, count - 1)
            + cache_change::written_fragment(
            change,
            reader_id,
            writer_id,
            size,
            count - 1,
        ).serialized_payload.octets()
    }
}

proof fn lemma_fragment_count(length: int, size: int, number: int)
    requires
        0 <= length,
        0 < size,
        0 <= number,
    ensures
        number < fragment_count(length, size) <==> number * size < length,
        fragment_count(length, size) >= 0,
{
    let count = fragment_count(length, size);
    assert(count >= 0 && length <= count * size && (count - 1) * size < length) by {
        vstd::arithmetic::div_mod::lemma_fundamental_div_mod(length + size - 1, size);
        vstd::arithmetic::div_mod::lemma_mod_bound(length + size - 1, size);
        vstd::arithmetic::div_mod::lemma_div_pos_is_pos(length + size - 1, size);
        assert(size * count == count * size) by (nonlinear_arith);
        assert((count - 1) * size == count * size - size) by (nonlinear_arith);
    }
    if number < count {
        assert(number * size <= (count - 1) * size) by (nonlinear_arith)
            requires
                number <= count - 1,
                0 < size,
        ;
    } else {
        assert(count * size <= number * size) by (nonlinear_arith)
            requires
                count <= number,
                0 < size,
        ;
    }
}

/// A fragment lies within the value, and carries something, where and only where its number is
/// below the number of fragments that the value takes. Each of those carries `size` octets, but
/// for the last, which carries what is left.
pub proof fn fragment_sizes(
    change: CacheChangeView,
    reader_id: EntityId,
    writer_id: EntityId,
    size: int,
    number: int,
)
    requires
        0 < size,
        0 <= number,
    ensures
        ({
            let length = change.data_value.len() as int;
            let count = fragment_count(length, size);
            let payload = cache_change::written_fragment(
                change,
                reader_id,
                writer_id,
                size,
                number,
            ).serialized_payload;
            &&& number < count <==> payload.in_bounds() && payload.octets().len() > 0
            &&& number < count - 1 ==> payload.octets().len() == size
            &&& number == count - 1 ==> payload.octets().len() == length - number * size
            &&& number < count ==> payload.octets().len() <= size
        }),
{
    let length = change.data_value.len() as int;
    lemma_fragment_count(length, size, number);
    lemma_fragment_count(length, size, number + 1);
    assert((number + 1) * size == number * size + size) by (nonlinear_arith);
    assert(0 <= number * size) by (nonlinear_arith)
        requires
            0 < size,
            0 <= number,
    ;
}

proof fn lemma_reassembled_prefix(
    change: CacheChangeView,
    reader_id: EntityId,
    writer_id: EntityId,
    size: int,
    count: int,
)
    requires
        0 < size,
        0 <= count <= fragment_count(change.data_value.len() as int, size),
    ensures
        reassembled(change, reader_id, writer_id, size, count) == change.data_value.take(
            if count * size < change.data_value.len() {
                count * size
            } else {
                change.data_value.len() as int
            },
        ),
    decreases count,
{
    let data = change.data_value;
    let length = data.len() as int;
    if count == 0 {
        assert(count * size == 0) by (nonlinear_arith)
            requires
                count == 0,
        ;
        assert(data.take(0) =~= seq![]);
    } else {
        let start = (count - 1) * size;
        let end = cache_change::fragment_end(length, size, count - 1);
        let payload = cache_change::written_fragment(
            change,
            reader_id,
            writer_id,
            size,
            count - 1,
        ).serialized_payload;
        lemma_reassembled_prefix(change, reader_id, writer_id, size, count - 1);
        lemma_fragment_count(length, size, count - 1);
        assert(start + size == count * size) by (nonlinear_arith)
            requires
                start == (count - 1) * size,
        ;
        assert(0 <= start) by (nonlinear_arith)
            requires
                0 < size,
                1 <= count,
                start == (count - 1) * size,
        ;
        assert(count - 1 + 1 == count);
        assert(end == if count * size < length {
            count * size
        } else {
            length
        });
        assert(payload.octets() == data.subrange(start, end));
        assert(data.take(start) + data.subrange(start, end) =~= data.take(end));
    }
}

/// The fragments of a change, one after the other, are its value.
pub proof fn fragments_reassemble(
    change: CacheChangeView,
    reader_id: EntityId,
    writer_id: EntityId,
    size: int,
)
    requires
        0 < size,
    ensures
        reassembled(
            change,
            reader_id,
            writer_id,
            size,
            fragment_count(change.data_value.len() as int, size),
        ) == change.data_value,
{
    let data = change.data_value;
    let count = fragment_count(data.len() as int, size);
    lemma_fragment_count(data.len() as int, size, 0);
    lemma_fragment_count(data.len() as int, size, count);
    lemma_reassembled_prefix(change, reader_id, writer_id, size, count);
    assert(data.take(data.len() as int) =~= data);
}

/// Where the numbers fit their fields, a fragment tells its number, counted from one, the size of
/// fragments and the size of the value as they are, and its offset follows from the first two.
pub proof fn fragment_fields_tell_the_offset(
    change: CacheChangeView,
    reader_id: EntityId,
    writer_id: EntityId,
    size: int,
    number: int,
)
    requires
        0 <= number < u32::MAX,
        0 <= size <= u16::MAX,
        change.data_value.len() <= u32::MAX,
    ensures
        ({
            let fragment = cache_change::written_fragment(
                change,
                reader_id,
                writer_id,
                size,
                number,
            );
            &&& fragment.fragment_starting_num == number + 1
            &&& fragment.fragment_size == size
            &&& fragment.data_size == change.data_value.len()
            &&& fragment.serialized_payload.start == (fragment.fragment_starting_num - 1)
                * fragment.fragment_size
        }),
{
}

/// A fragment submessage carries one fragment of the change it is made from, between the given
/// endpoints: a value, in standard form, with an empty inline QoS. It tells the place of the
/// fragment, counted from one, the size of fragments and the size of the value, as far as their
/// fields hold them. The fragment starts where the fragments before it, each of `size` octets,
/// end; it ends `size` octets on, or with the value if that comes first.
pub proof fn fragment_submessage_carries_one_fragment(
    change: CacheChangeView,
    reader_id: EntityId,
    writer_id: EntityId,
    size: int,
    number: int,
)
    requires
        0 <= size,
        0 <= number,
    ensures
        ({
            let fragment = cache_change::written_fragment(
                change,
                reader_id,
                writer_id,
                size,
                number,
            );
            let length = change.data_value.len() as int;
            let payload = fragment.serialized_payload;
            &&& fragment.fragments_in_submessage == 1
            &&& fragment.inline_qos_flag
            &&& !fragment.non_standard_payload_flag
            &&& !fragment.key_flag
            &&& fragment.reader_id == reader_id
            &&& fragment.writer_id == writer_id
            &&& fragment.writer_sn == change.sequence_number
            &&& fragment.inline_qos.len() == 0
            &&& fragment.fragment_starting_num == (number + 1) % 0x1_0000_0000
            &&& fragment.fragment_size == size % 0x1_0000
            &&& fragment.data_size == length % 0x1_0000_0000
            &&& payload.data == change.data_value
            &&& payload.start == number * size
            &&& payload.end <= payload.start + size
            &&& payload.end <= length
            &&& payload.end == payload.start + size || payload.end == length
        }),
{
    assert((number + 1) * size == number * size + size) by (nonlinear_arith);
}

/// Where the numbers fit their fields and the fragment lies within the value, what it carries can
/// be told from its fields: the octets of the value from `fragment_starting_num - 1` fragments of
/// `fragment_size` on, for as many fragments as it says that it carries, or up to `data_size`.
pub proof fn fragment_fields_tell_the_octets(
    change: CacheChangeView,
    reader_id: EntityId,
    writer_id: EntityId,
    size: int,
    number: int,
)
    requires
        0 <= number < u32::MAX,
        0 <= size <= u16::MAX,
        change.data_value.len() <= u32::MAX,
        number * size <= change.data_value.len(),
    ensures
        ({
            let fragment = cache_change::written_fragment(
                change,
                reader_id,
                writer_id,
                size,
                number,
            );
            let first = fragment.fragment_starting_num - 1;
            let from = first * fragment.fragment_size;
            let to = (first + fragment.fragments_in_submessage) * fragment.fragment_size;
            let upto = if to < fragment.data_size {
                to
            } else {
                fragment.data_size as int
            };
            let octets = fragment.serialized_payload.octets();
            &&& octets.len() == upto - from
            &&& forall|k: int|
                0 <= k < octets.len() ==> #[trigger] octets[k] == change.data_value[from + k]
        }),
{
    assert((number + 1) * size == number * size + size) by (nonlinear_arith);
    assert(0 <= number * size) by (nonlinear_arith)
        requires
            0 <= size,
            0 <= number,
    ;
}

/// Each fragment starts where the one before it ends, until the value is used up; the first
/// starts with the value.
pub proof fn fragments_follow_one_another(
    change: CacheChangeView,
    reader_id: EntityId,
    writer_id: EntityId,
    size: int,
    number: int,
)
    requires
        0 <= size,
        0 <= number,
    ensures
        ({
            let length = change.data_value.len() as int;
            let zeroth = cache_change::written_fragment(change, reader_id, writer_id, size, 0);
            let this = cache_change::written_fragment(change, reader_id, writer_id, size, number);
            let next = cache_change::written_fragment(
                change,
                reader_id,
                writer_id,
                size,
                number + 1,
            );
            &&& zeroth.serialized_payload.start == 0
            &&& this.serialized_payload.end < length ==> next.serialized_payload.start
                == this.serialized_payload.end
            &&& next.serialized_payload.start == this.serialized_payload.start + size
        }),
{
    assert((number + 1) * size == number * size + size) by (nonlinear_arith);
}

} // verus!
