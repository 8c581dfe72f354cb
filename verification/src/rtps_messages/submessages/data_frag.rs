//! The submessage that carries a fragment of a sample.
use vstd::prelude::*;

use crate::rtps_messages::submessage_elements::{
    ParameterList, ParameterView, SerializedDataFragment, SerializedDataFragmentView,
};
use crate::transport::types::{EntityId, SequenceNumber};

verus! {

/// A submessage that carries consecutive fragments of a sample.
#[derive(PartialEq, Eq, Debug)]
pub struct DataFragSubmessage {
    inline_qos_flag: bool,
    non_standard_payload_flag: bool,
    key_flag: bool,
    reader_id: EntityId,
    writer_id: EntityId,
    writer_sn: SequenceNumber,
    fragment_starting_num: u32,
    fragments_in_submessage: u16,
    fragment_size: u16,
    data_size: u32,
    inline_qos: ParameterList,
    serialized_payload: SerializedDataFragment,
}

/// A [`DataFragSubmessage`] with its parameters and its payload as sequences.
#[verifier::ext_equal]
pub struct DataFragSubmessageView {
    /// Whether the submessage has an inline QoS.
    pub inline_qos_flag: bool,
    /// Whether the payload is formatted in a way of its own.
    pub non_standard_payload_flag: bool,
    /// Whether the payload is a serialized key.
    pub key_flag: bool,
    /// The reader that the submessage is meant for.
    pub reader_id: EntityId,
    /// The writer that made the change.
    pub writer_id: EntityId,
    /// The place of the change in the writer's history.
    pub writer_sn: SequenceNumber,
    /// The number of the first fragment carried, counted from one.
    pub fragment_starting_num: u32,
    /// How many fragments are carried.
    pub fragments_in_submessage: u16,
    /// How many octets a fragment has, but for the last one.
    pub fragment_size: u16,
    /// How many octets the whole payload has.
    pub data_size: u32,
    /// The parameters that go with the change.
    pub inline_qos: Seq<ParameterView>,
    /// The part of the payload that is carried.
    pub serialized_payload: SerializedDataFragmentView,
}

impl View for DataFragSubmessage {
    type V = DataFragSubmessageView;

    closed spec fn view(&self) -> DataFragSubmessageView {
        DataFragSubmessageView {
            inline_qos_flag: self.inline_qos_flag,
            non_standard_payload_flag: self.non_standard_payload_flag,
            key_flag: self.key_flag,
            reader_id: self.reader_id,
            writer_id: self.writer_id,
            writer_sn: self.writer_sn,
            fragment_starting_num: self.fragment_starting_num,
            fragments_in_submessage: self.fragments_in_submessage,
            fragment_size: self.fragment_size,
            data_size: self.data_size,
            inline_qos: self.inline_qos@,
            serialized_payload: self.serialized_payload@,
        }
    }
}

impl DataFragSubmessage {
    /// Constructs a new `DataFragSubmessage`.
    #[allow(clippy::too_many_arguments)]
    pub fn new(
        inline_qos_flag: bool,
        non_standard_payload_flag: bool,
        key_flag: bool,
        reader_id: EntityId,
        writer_id: EntityId,
        writer_sn: SequenceNumber,
        fragment_starting_num: u32,
        fragments_in_submessage: u16,
        fragment_size: u16,
        data_size: u32,
        inline_qos: ParameterList,
        serialized_payload: SerializedDataFragment,
    ) -> (submessage: Self)
        ensures
            submessage@ == (DataFragSubmessageView {
                inline_qos_flag,
                non_standard_payload_flag,
                key_flag,
                reader_id,
                writer_id,
                writer_sn,
                fragment_starting_num,
                fragments_in_submessage,
                fragment_size,
                data_size,
                inline_qos: inline_qos@,
                serialized_payload: serialized_payload@,
            }),
    {
        DataFragSubmessage {
            inline_qos_flag,
            non_standard_payload_flag,
            key_flag,
            reader_id,
            writer_id,
            writer_sn,
            fragment_starting_num,
            fragments_in_submessage,
            fragment_size,
            data_size,
            inline_qos,
            serialized_payload,
        }
    }

    /// Whether the submessage has an inline QoS.
    pub fn inline_qos_flag(&self) -> (flag: bool)
        ensures
            flag == self@.inline_qos_flag,
    {
        self.inline_qos_flag
    }

    /// Whether the payload is formatted in a way of its own.
    pub fn non_standard_payload_flag(&self) -> (flag: bool)
        ensures
            flag == self@.non_standard_payload_flag,
    {
        self.non_standard_payload_flag
    }

    /// Whether the payload is a serialized key.
    pub fn key_flag(&self) -> (flag: bool)
        ensures
            flag == self@.key_flag,
    {
        self.key_flag
    }

    /// The reader that the submessage is meant for.
    pub fn reader_id(&self) -> (id: EntityId)
        ensures
            id == self@.reader_id,
    {
        self.reader_id
    }

    /// The writer that made the change.
    pub fn writer_id(&self) -> (id: EntityId)
        ensures
            id == self@.writer_id,
    {
        self.writer_id
    }

    /// The place of the change in the writer's history.
    pub fn writer_sn(&self) -> (sequence_number: SequenceNumber)
        ensures
            sequence_number == self@.writer_sn,
    {
        self.writer_sn
    }

    /// The number of the first fragment carried, counted from one.
    pub fn fragment_starting_num(&self) -> (number: u32)
        ensures
            number == self@.fragment_starting_num,
    {
        self.fragment_starting_num
    }

    /// How many fragments are carried.
    pub fn fragments_in_submessage(&self) -> (count: u16)
        ensures
            count == self@.fragments_in_submessage,
    {
        self.fragments_in_submessage
    }

    /// How many octets a fragment has, but for the last one.
    pub fn fragment_size(&self) -> (size: u16)
        ensures
            size == self@.fragment_size,
    {
        self.fragment_size
    }

    /// How many octets the whole payload has.
    pub fn data_size(&self) -> (size: u32)
        ensures
            size == self@.data_size,
    {
        self.data_size
    }

    /// The parameters that go with the change.
    pub fn inline_qos(&self) -> (inline_qos: &ParameterList)
        ensures
            inline_qos@ == self@.inline_qos,
    {
        &self.inline_qos
    }

    /// The part of the payload that is carried.
    pub fn serialized_payload(&self) -> (payload: &SerializedDataFragment)
        ensures
            payload@ == self@.serialized_payload,
    {
        &self.serialized_payload
    }
}

} // verus!
