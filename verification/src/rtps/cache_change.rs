//! Cache changes as submessages, and submessages as cache changes.
use std::sync::Arc;
use vstd::prelude::*;

use super::error::RtpsError;
use super::sample_identity;
use super::sample_identity::{decode_sample_identity_le, encode_sample_identity_le};
use crate::infrastructure::time::Time;
use crate::rtps_messages::submessage_elements;
use crate::rtps_messages::submessage_elements::{
    Parameter, ParameterList, ParameterView, SerializedDataFragment, SerializedDataFragmentView,
};
use crate::rtps_messages::submessages::data::{DataSubmessage, DataSubmessageView};
use crate::rtps_messages::submessages::data_frag::{DataFragSubmessage, DataFragSubmessageView};
use crate::rtps_messages::types::ParameterId;
use crate::transport::types::{
    CacheChange, CacheChangeView, ChangeKind, EntityId, Guid, GuidPrefix, SampleIdentity,
};

verus! {

/// The parameter that names the instance.
pub const PID_KEY_HASH: ParameterId = 0x0070;

/// The parameter that tells what became of the instance.
pub const PID_STATUS_INFO: ParameterId = 0x0071;

/// The parameter that names the sample which a reply answers.
pub const PID_RELATED_SAMPLE_IDENTITY: ParameterId = 0x0083;

/// The parameter by which eProsima Fast DDS 2.6.x names the sample which a reply answers: 0x800f,
/// read as a signed number.
///
/// That version knows a reply by this parameter alone and passes over the standard one. Both are
/// written and either is read, so that its peers and standard ones are served alike. The payload
/// is the same under both numbers.
pub const PID_RELATED_SAMPLE_IDENTITY_VENDOR_FASTDDS: ParameterId = -0x7ff1;

/// Last octet of the status info of a disposed instance; the three octets before it are zero.
pub const STATUS_INFO_DISPOSED: u8 = 0b0000_0001;

/// Last octet of the status info of an unregistered instance.
pub const STATUS_INFO_UNREGISTERED: u8 = 0b0000_0010;

/// Last octet of the status info of an instance that is both disposed and unregistered.
pub const STATUS_INFO_DISPOSED_UNREGISTERED: u8 = 0b0000_0011;

/// Last octet of the status info of a filtered value.
pub const STATUS_INFO_FILTERED: u8 = 0b0000_0100;

// ---------------------------------------------------------------------------------------------
// What is written
// ---------------------------------------------------------------------------------------------
/// The status info with the given last octet.
pub open spec fn status_info_octets(last: u8) -> Seq<u8> {
    seq![0, 0, 0, last]
}

/// Whether a change of this kind brings a value.
pub open spec fn is_alive(kind: ChangeKind) -> bool {
    kind is Alive || kind is AliveFiltered
}

/// The parameters that tell what became of the instance. A change that brings a value has none.
pub open spec fn written_status_info(kind: ChangeKind) -> Seq<ParameterView> {
    if is_alive(kind) {
        seq![]
    } else {
        let last = match kind {
            ChangeKind::NotAliveDisposed => STATUS_INFO_DISPOSED,
            ChangeKind::NotAliveUnregistered => STATUS_INFO_UNREGISTERED,
            _ => STATUS_INFO_DISPOSED_UNREGISTERED,
        };
        seq![ParameterView { id: PID_STATUS_INFO, value: status_info_octets(last) }]
    }
}

/// The parameters that name the instance.
pub open spec fn written_key_hash(instance_handle: Option<[u8; 16]>) -> Seq<ParameterView> {
    match instance_handle {
        Some(handle) => seq![ParameterView { id: PID_KEY_HASH, value: handle@ }],
        None => seq![],
    }
}

/// The parameters that name the sample which is answered: the standard one, then the vendor's,
/// with one payload.
pub open spec fn written_related_sample_identity(id: Option<SampleIdentity>) -> Seq<
    ParameterView,
> {
    match id {
        Some(id) => {
            let value = sample_identity::encoded_sample_identity(id);
            seq![
                ParameterView { id: PID_RELATED_SAMPLE_IDENTITY, value },
                ParameterView { id: PID_RELATED_SAMPLE_IDENTITY_VENDOR_FASTDDS, value },
            ]
        },
        None => seq![],
    }
}

/// The parameters that go with a change.
pub open spec fn written_inline_qos(change: CacheChangeView) -> Seq<ParameterView> {
    written_status_info(change.kind) + written_key_hash(change.instance_handle)
        + written_related_sample_identity(change.related_sample_identity)
}

/// The submessage that carries a change.
pub open spec fn written_submessage(
    change: CacheChangeView,
    reader_id: EntityId,
    writer_id: EntityId,
) -> DataSubmessageView {
    DataSubmessageView {
        inline_qos_flag: true,
        data_flag: is_alive(change.kind),
        key_flag: !is_alive(change.kind),
        non_standard_payload_flag: false,
        reader_id,
        writer_id,
        writer_sn: change.sequence_number,
        inline_qos: written_inline_qos(change),
        serialized_payload: change.data_value,
    }
}

// ---------------------------------------------------------------------------------------------
// What is read
// ---------------------------------------------------------------------------------------------
/// The first parameter that has one of the wanted numbers.
pub open spec fn first_parameter(
    parameters: Seq<ParameterView>,
    wanted: Set<ParameterId>,
) -> Option<ParameterView>
    decreases parameters.len(),
{
    if parameters.len() == 0 {
        None
    } else if wanted.contains(parameters[0].id) {
        Some(parameters[0])
    } else {
        first_parameter(parameters.drop_first(), wanted)
    }
}

/// The kind of change that a status info stands for, where it stands for any.
pub open spec fn status_info_kind(value: Seq<u8>) -> Option<ChangeKind> {
    if value == status_info_octets(STATUS_INFO_DISPOSED) {
        Some(ChangeKind::NotAliveDisposed)
    } else if value == status_info_octets(STATUS_INFO_UNREGISTERED) {
        Some(ChangeKind::NotAliveUnregistered)
    } else if value == status_info_octets(STATUS_INFO_DISPOSED_UNREGISTERED) {
        Some(ChangeKind::NotAliveDisposedUnregistered)
    } else if value == status_info_octets(STATUS_INFO_FILTERED) {
        Some(ChangeKind::AliveFiltered)
    } else {
        None
    }
}

/// The numbers under which a status info is read.
pub open spec fn status_info_ids() -> Set<ParameterId> {
    set![PID_STATUS_INFO]
}

/// The numbers under which an instance is named.
pub open spec fn key_hash_ids() -> Set<ParameterId> {
    set![PID_KEY_HASH]
}

/// The numbers under which an answered sample is named.
pub open spec fn related_sample_identity_ids() -> Set<ParameterId> {
    set![PID_RELATED_SAMPLE_IDENTITY, PID_RELATED_SAMPLE_IDENTITY_VENDOR_FASTDDS]
}

/// The kind of change that an inline QoS tells of; `None` where its status info stands for
/// nothing. Without a status info the change brings a value.
pub open spec fn read_kind(inline_qos: Seq<ParameterView>) -> Option<ChangeKind> {
    match first_parameter(inline_qos, status_info_ids()) {
        Some(parameter) => status_info_kind(parameter.value),
        None => Some(ChangeKind::Alive),
    }
}

/// The sixteen octets `s` as an array.
pub open spec fn handle_of_octets(s: Seq<u8>) -> [u8; 16] {
    [
        s[0],
        s[1],
        s[2],
        s[3],
        s[4],
        s[5],
        s[6],
        s[7],
        s[8],
        s[9],
        s[10],
        s[11],
        s[12],
        s[13],
        s[14],
        s[15],
    ]
}

/// The instance that an inline QoS names. A key hash of another length names none.
pub open spec fn read_instance_handle(inline_qos: Seq<ParameterView>) -> Option<[u8; 16]> {
    match first_parameter(inline_qos, key_hash_ids()) {
        Some(parameter) => if parameter.value.len() == 16 {
            Some(handle_of_octets(parameter.value))
        } else {
            None
        },
        None => None,
    }
}

/// The answered sample that an inline QoS names. A payload of another length names none.
pub open spec fn read_related_sample_identity(inline_qos: Seq<ParameterView>) -> Option<
    SampleIdentity,
> {
    match first_parameter(inline_qos, related_sample_identity_ids()) {
        Some(parameter) => sample_identity::decoded_sample_identity(parameter.value),
        None => None,
    }
}

/// The change that a submessage carries.
pub open spec fn read_change(
    submessage: DataSubmessageView,
    source_guid_prefix: GuidPrefix,
    source_timestamp: Option<Time>,
) -> Result<CacheChangeView, RtpsError> {
    match read_kind(submessage.inline_qos) {
        Some(kind) => Ok(
            CacheChangeView {
                kind,
                writer_guid: Guid { prefix: source_guid_prefix, entity_id: submessage.writer_id },
                sequence_number: submessage.writer_sn,
                source_timestamp,
                instance_handle: read_instance_handle(submessage.inline_qos),
                data_value: submessage.serialized_payload,
                related_sample_identity: read_related_sample_identity(submessage.inline_qos),
            },
        ),
        None => Err(RtpsError::InvalidData),
    }
}

// ---------------------------------------------------------------------------------------------
// What a fragment carries
// ---------------------------------------------------------------------------------------------
/// Offset of the first octet of fragment `number`, counted from zero.
pub open spec fn fragment_start(size: int, number: int) -> int {
    number * size
}

/// Offset of the first octet after fragment `number`, counted from zero, of `length` octets.
pub open spec fn fragment_end(length: int, size: int, number: int) -> int {
    if (number + 1) * size < length {
        (number + 1) * size
    } else {
        length
    }
}

/// The submessage that carries fragment `number`, counted from zero, of a change. Numbers that
/// are too large for their field are cut to its low bits.
pub open spec fn written_fragment(
    change: CacheChangeView,
    reader_id: EntityId,
    writer_id: EntityId,
    size: int,
    number: int,
) -> DataFragSubmessageView {
    let length = change.data_value.len() as int;
    DataFragSubmessageView {
        inline_qos_flag: true,
        non_standard_payload_flag: false,
        key_flag: false,
        reader_id,
        writer_id,
        writer_sn: change.sequence_number,
        fragment_starting_num: ((number + 1) % 0x1_0000_0000) as u32,
        fragments_in_submessage: 1,
        fragment_size: (size % 0x1_0000) as u16,
        data_size: (length % 0x1_0000_0000) as u32,
        inline_qos: seq![],
        serialized_payload: SerializedDataFragmentView {
            data: change.data_value,
            start: fragment_start(size, number),
            end: fragment_end(length, size, number),
        },
    }
}

// ---------------------------------------------------------------------------------------------
// Steps of writing and reading
// ---------------------------------------------------------------------------------------------
/// Puts octets behind a shared pointer, by `std`'s `Arc::<[u8]>::from`, which moves an array into
/// a new allocation.
///
/// Taken on trust: the slice behind the pointer holds the octets of the array, in order.
#[verifier::external_body]
fn shared_octets<const N: usize>(octets: [u8; N]) -> (shared: Arc<[u8]>)
    ensures
        (*shared)@ == octets@,
{
    Arc::from(octets)
}

fn status_info_parameter(last: u8) -> (parameter: Parameter)
    ensures
        parameter@ == (ParameterView { id: PID_STATUS_INFO, value: status_info_octets(last) }),
{
    let octets: [u8; 4] = [0, 0, 0, last];
    assert(octets@ =~= status_info_octets(last));
    Parameter::new(PID_STATUS_INFO, shared_octets(octets))
}

proof fn lemma_first_parameter_step(parameters: Seq<ParameterView>, i: int, wanted: Set<ParameterId>)
    requires
        0 <= i < parameters.len(),
    ensures
        first_parameter(parameters.skip(i), wanted) == if wanted.contains(parameters[i].id) {
            Some(parameters[i])
        } else {
            first_parameter(parameters.skip(i + 1), wanted)
        },
{
    assert(parameters.skip(i).drop_first() =~= parameters.skip(i + 1));
}

/// The sets of numbers that are looked for, as lists.
proof fn lemma_wanted_lists()
    ensures
        seq![PID_STATUS_INFO].to_set() == status_info_ids(),
        seq![PID_KEY_HASH].to_set() == key_hash_ids(),
        seq![PID_RELATED_SAMPLE_IDENTITY, PID_RELATED_SAMPLE_IDENTITY_VENDOR_FASTDDS].to_set()
            == related_sample_identity_ids(),
{
    let status = seq![PID_STATUS_INFO];
    let key = seq![PID_KEY_HASH];
    let related = seq![PID_RELATED_SAMPLE_IDENTITY, PID_RELATED_SAMPLE_IDENTITY_VENDOR_FASTDDS];
    assert(status[0] == PID_STATUS_INFO);
    assert(key[0] == PID_KEY_HASH);
    assert(related[0] == PID_RELATED_SAMPLE_IDENTITY);
    assert(related[1] == PID_RELATED_SAMPLE_IDENTITY_VENDOR_FASTDDS);
    assert(status.to_set() =~= status_info_ids());
    assert(key.to_set() =~= key_hash_ids());
    assert(related.to_set() =~= related_sample_identity_ids());
}

fn is_wanted(id: ParameterId, wanted: &[ParameterId]) -> (found: bool)
    ensures
        found == wanted@.to_set().contains(id),
{
    let mut i: usize = 0;
    while i < wanted.len()
        invariant
            i <= wanted@.len(),
            forall|j: int| 0 <= j < i ==> wanted@[j] != id,
        decreases wanted@.len() - i,
    {
        if wanted[i] == id {
            assert(wanted@.contains(id));
            return true;
        }
        i += 1;
    }
    assert(!wanted@.contains(id));
    false
}

/// The first parameter that has one of the wanted numbers.
fn find_parameter<'a>(parameters: &'a [Parameter], wanted: &[ParameterId]) -> (found: Option<
    &'a Parameter,
>)
    ensures
        first_parameter(submessage_elements::parameter_views(parameters@), wanted@.to_set())
            == match found {
            Some(parameter) => Some(parameter@),
            None => None,
        },
{
    let ghost views = submessage_elements::parameter_views(parameters@);
    assert(views.skip(0) =~= views);
    let mut i: usize = 0;
    while i < parameters.len()
        invariant
            i <= parameters@.len(),
            views == submessage_elements::parameter_views(parameters@),
            first_parameter(views, wanted@.to_set()) == first_parameter(
                views.skip(i as int),
                wanted@.to_set(),
            ),
        decreases parameters@.len() - i,
    {
        proof {
            lemma_first_parameter_step(views, i as int, wanted@.to_set());
        }
        let parameter = &parameters[i];
        if is_wanted(parameter.parameter_id(), wanted) {
            return Some(parameter);
        }
        i += 1;
    }
    None
}

/// The kind of change that a status info stands for.
fn kind_of_status_info(parameter: &Parameter) -> (kind: Result<ChangeKind, RtpsError>)
    ensures
        kind == match status_info_kind(parameter@.value) {
            Some(kind) => Ok::<ChangeKind, RtpsError>(kind),
            None => Err(RtpsError::InvalidData),
        },
{
    let value = parameter.value();
    if parameter.length() == 4 && value[0] == 0 && value[1] == 0 && value[2] == 0 {
        assert(value@ =~= status_info_octets(value[3]));
        let last: u8 = value[3];
        if last == STATUS_INFO_DISPOSED {
            Ok(ChangeKind::NotAliveDisposed)
        } else if last == STATUS_INFO_UNREGISTERED {
            Ok(ChangeKind::NotAliveUnregistered)
        } else if last == STATUS_INFO_DISPOSED_UNREGISTERED {
            Ok(ChangeKind::NotAliveDisposedUnregistered)
        } else if last == STATUS_INFO_FILTERED {
            Ok(ChangeKind::AliveFiltered)
        } else {
            Err(RtpsError::InvalidData)
        }
    } else {
        Err(RtpsError::InvalidData)
    }
}

/// The octets as an array, where there are sixteen of them.
fn handle_from_octets(octets: &[u8]) -> (handle: Option<[u8; 16]>)
    ensures
        handle == if octets@.len() == 16 {
            Some(handle_of_octets(octets@))
        } else {
            None
        },
        handle matches Some(handle) ==> handle@ == octets@,
{
    if octets.len() == 16 {
        let handle: [u8; 16] = [
            octets[0],
            octets[1],
            octets[2],
            octets[3],
            octets[4],
            octets[5],
            octets[6],
            octets[7],
            octets[8],
            octets[9],
            octets[10],
            octets[11],
            octets[12],
            octets[13],
            octets[14],
            octets[15],
        ];
        assert(handle@ =~= octets@);
        Some(handle)
    } else {
        None
    }
}

impl CacheChange {
    /// The submessage that carries this change.
    ///
    /// Where the change is a reply, the answered sample is named twice: first under the standard
    /// number, so that whoever takes the first match takes the standard one, then under the
    /// vendor's.
    pub fn as_data_submessage(&self, reader_id: EntityId, writer_id: EntityId) -> (submessage:
        DataSubmessage)
        ensures
            submessage@ == written_submessage(self@, reader_id, writer_id),
            submessage@.reader_id == reader_id,
            submessage@.writer_id == writer_id,
            submessage@.writer_sn == self.sequence_number,
            submessage@.serialized_payload == (*self.data_value)@,
    {
        let (data_flag, key_flag) = match self.kind {
            ChangeKind::Alive | ChangeKind::AliveFiltered => (true, false),
            ChangeKind::NotAliveDisposed
            | ChangeKind::NotAliveUnregistered
            | ChangeKind::NotAliveDisposedUnregistered => (false, true),
        };

        let mut parameters: Vec<Parameter> = Vec::with_capacity(3);
        match self.kind {
            ChangeKind::Alive | ChangeKind::AliveFiltered => {},
            ChangeKind::NotAliveDisposed => {
                parameters.push(status_info_parameter(STATUS_INFO_DISPOSED));
            },
            ChangeKind::NotAliveUnregistered => {
                parameters.push(status_info_parameter(STATUS_INFO_UNREGISTERED));
            },
            ChangeKind::NotAliveDisposedUnregistered => {
                parameters.push(status_info_parameter(STATUS_INFO_DISPOSED_UNREGISTERED));
            },
        }
        assert(submessage_elements::parameter_views(parameters@) =~= written_status_info(
            self.kind,
        ));

        if let Some(handle) = self.instance_handle {
            parameters.push(Parameter::new(PID_KEY_HASH, shared_octets(handle)));
        }
        assert(submessage_elements::parameter_views(parameters@) =~= written_status_info(self.kind)
            + written_key_hash(self.instance_handle));

        if let Some(id) = self.related_sample_identity {
            let payload = shared_octets(encode_sample_identity_le(&id));
            parameters.push(Parameter::new(PID_RELATED_SAMPLE_IDENTITY, payload.clone()));
            parameters.push(Parameter::new(PID_RELATED_SAMPLE_IDENTITY_VENDOR_FASTDDS, payload));
        }
        assert(submessage_elements::parameter_views(parameters@) =~= written_inline_qos(self@));

        DataSubmessage::new(
            true,
            data_flag,
            key_flag,
            false,
            reader_id,
            writer_id,
            self.sequence_number,
            ParameterList::new(parameters),
            self.data_value.clone().into(),
        )
    }

    /// The change that a submessage carries. `source_guid_prefix` and `source_timestamp` are what
    /// the message around it says of its source.
    ///
    /// Of several parameters with one number the first counts. The answered sample may be named
    /// under the standard number or under the vendor's.
    pub fn try_from_data_submessage(
        data_submessage: &DataSubmessage,
        source_guid_prefix: GuidPrefix,
        source_timestamp: Option<Time>,
    ) -> (change: Result<Self, RtpsError>)
        ensures
            read_change(data_submessage@, source_guid_prefix, source_timestamp) == match change {
                Ok(change) => Ok::<CacheChangeView, RtpsError>(change@),
                Err(error) => Err(error),
            },
            change is Err <==> read_kind(data_submessage@.inline_qos) is None,
            change matches Ok(change) ==> {
                &&& change.writer_guid.prefix == source_guid_prefix
                &&& change.writer_guid.entity_id == data_submessage@.writer_id
                &&& change.sequence_number == data_submessage@.writer_sn
                &&& change.source_timestamp == source_timestamp
                &&& (*change.data_value)@ == data_submessage@.serialized_payload
            },
    {
        let parameters = data_submessage.inline_qos().parameter();

        let status_info: [ParameterId; 1] = [PID_STATUS_INFO];
        let key_hash: [ParameterId; 1] = [PID_KEY_HASH];
        let related: [ParameterId; 2] = [
            PID_RELATED_SAMPLE_IDENTITY,
            PID_RELATED_SAMPLE_IDENTITY_VENDOR_FASTDDS,
        ];
        proof {
            lemma_wanted_lists();
            assert(status_info@ =~= seq![PID_STATUS_INFO]);
            assert(key_hash@ =~= seq![PID_KEY_HASH]);
            assert(related@ =~= seq![
                PID_RELATED_SAMPLE_IDENTITY,
                PID_RELATED_SAMPLE_IDENTITY_VENDOR_FASTDDS,
            ]);
        }

        let kind = match find_parameter(parameters, &status_info) {
            Some(parameter) => match kind_of_status_info(parameter) {
                Ok(kind) => kind,
                Err(error) => return Err(error),
            },
            None => ChangeKind::Alive,
        };

        let instance_handle = match find_parameter(parameters, &key_hash) {
            Some(parameter) => handle_from_octets(parameter.value()),
            None => None,
        };

        let related_sample_identity = match find_parameter(parameters, &related) {
            Some(parameter) => decode_sample_identity_le(parameter.value()),
            None => None,
        };

        Ok(
            CacheChange {
                kind,
                writer_guid: Guid::new(source_guid_prefix, data_submessage.writer_id()),
                source_timestamp,
                instance_handle,
                sequence_number: data_submessage.writer_sn(),
                data_value: data_submessage.serialized_payload().clone().into(),
                related_sample_identity,
            },
        )
    }

    /// The submessage that carries fragment `fragment_number`, counted from zero, of this change,
    /// cut into fragments of `data_max_size_serialized` octets.
    ///
    /// A fragment past the end of the value gets a range that does not lie in the value.
    pub fn as_data_frag_submessage(
        &self,
        reader_id: EntityId,
        writer_id: EntityId,
        data_max_size_serialized: usize,
        fragment_number: usize,
    ) -> (submessage: DataFragSubmessage)
        requires
            fragment_number + 1 <= usize::MAX,
            (fragment_number + 1) * data_max_size_serialized <= usize::MAX,
        ensures
            submessage@ == written_fragment(
                self@,
                reader_id,
                writer_id,
                data_max_size_serialized as int,
                fragment_number as int,
            ),
            submessage@.fragments_in_submessage == 1,
            submessage@.reader_id == reader_id,
            submessage@.writer_id == writer_id,
            submessage@.writer_sn == self.sequence_number,
            submessage@.serialized_payload.data == (*self.data_value)@,
            submessage@.serialized_payload.start == fragment_number * data_max_size_serialized,
    {
        let inline_qos_flag = true;
        let key_flag = false;
        let non_standard_payload_flag = false;
        let writer_sn = self.sequence_number;
        let next_number: usize = fragment_number + 1;
        let length: usize = self.data_value.len();
        let fragment_starting_num: u32 = next_number as u32;
        let fragments_in_submessage: u16 = 1;
        let fragment_size: u16 = data_max_size_serialized as u16;
        let data_size: u32 = length as u32;
        proof {
            assert((next_number as u32) == (next_number as u64) % 0x1_0000_0000) by (bit_vector);
            assert((data_max_size_serialized as u16) == (data_max_size_serialized as u64) % 0x1_0000)
                by (bit_vector);
            assert((length as u32) == (length as u64) % 0x1_0000_0000) by (bit_vector);
            assert(0 <= fragment_number * data_max_size_serialized <= (fragment_number + 1)
                * data_max_size_serialized) by (nonlinear_arith);
        }

        let start: usize = fragment_number * data_max_size_serialized;
        let full_end: usize = next_number * data_max_size_serialized;
        let end: usize = if full_end < length {
            full_end
        } else {
            length
        };

        let serialized_payload = SerializedDataFragment::new(
            self.data_value.clone().into(),
            start..end,
        );

        let submessage = DataFragSubmessage::new(
            inline_qos_flag,
            non_standard_payload_flag,
            key_flag,
            reader_id,
            writer_id,
            writer_sn,
            fragment_starting_num,
            fragments_in_submessage,
            fragment_size,
            data_size,
            ParameterList::new(Vec::new()),
            serialized_payload,
        );
        assert(submessage@.inline_qos =~= seq![]);
        submessage
    }
}

} // verus!
