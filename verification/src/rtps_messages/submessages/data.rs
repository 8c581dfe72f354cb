//! The submessage that carries a whole sample.
use vstd::prelude::*;

use crate::rtps_messages::submessage_elements::{Data, ParameterList, ParameterView};
use crate::transport::types::{EntityId, SequenceNumber};

verus! {

/// A submessage that carries a whole sample.
#[derive(PartialEq, Eq, Debug)]
pub struct DataSubmessage {
    inline_qos_flag: bool,
    data_flag: bool,
    key_flag: bool,
    non_standard_payload_flag: bool,
    reader_id: EntityId,
    writer_id: EntityId,
    writer_sn: SequenceNumber,
    inline_qos: ParameterList,
    serialized_payload: Data,
}

/// A [`DataSubmessage`] with its parameters and its payload as sequences.
#[verifier::ext_equal]
pub struct DataSubmessageView {
    /// Whether the submessage has an inline QoS.
    pub inline_qos_flag: bool,
    /// Whether the payload is a serialized value.
    pub data_flag: bool,
    /// Whether the payload is a serialized key.
    pub key_flag: bool,
    /// Whether the payload is formatted in a way of its own.
    pub non_standard_payload_flag: bool,
    /// The reader that the submessage is meant for.
    pub reader_id: EntityId,
    /// The writer that made the change.
    pub writer_id: EntityId,
    /// The place of the change in the writer's history.
    pub writer_sn: SequenceNumber,
    /// The parameters that go with the change.
    pub inline_qos: Seq<ParameterView>,
    /// The octets of the payload.
    pub serialized_payload: Seq<u8>,
}

impl View for DataSubmessage {
    type V = DataSubmessageView;

    closed spec fn view(&self) -> DataSubmessageView {
        DataSubmessageView {
            inline_qos_flag: self.inline_qos_flag,
            data_flag: self.data_flag,
            key_flag: self.key_flag,
            non_standard_payload_flag: self.non_standard_payload_flag,
            reader_id: self.reader_id,
            writer_id: self.writer_id,
            writer_sn: self.writer_sn,
            inline_qos: self.inline_qos@,
            serialized_payload: self.serialized_payload@,
        }
    }
}

impl DataSubmessage {
    /// Constructs a new `DataSubmessage`.
    #[allow(clippy::too_many_arguments)]
    pub fn new(
        inline_qos_flag: bool,
        data_flag: bool,
        key_flag: bool,
        non_standard_payload_flag: bool,
        reader_id: EntityId,
        writer_id: EntityId,
        writer_sn: SequenceNumber,
        inline_qos: ParameterList,
        serialized_payload: Data,
    ) -> (submessage: Self)
        ensures
            submessage@ == (DataSubmessageView {
                inline_qos_flag,
                data_flag,
                key_flag,
                non_standard_payload_flag,
                reader_id,
                writer_id,
                writer_sn,
                inline_qos: inline_qos@,
                serialized_payload: serialized_payload@,
            }),
    {
        DataSubmessage {
            inline_qos_flag,
            data_flag,
            key_flag,
            non_standard_payload_flag,
            reader_id,
            writer_id,
            writer_sn,
            inline_qos,
            serialized_payload,
        }
    }

    /// Whether the submessage has an inline QoS.
    pub fn inline_qos_flag(&self) -> (flag: bool)
        ensures
            flag == self@.inline_qos_flag,
    {
        self.inline_qos_flag
    }

    /// Whether the payload is a serialized value.
    pub fn data_flag(&self) -> (flag: bool)
        ensures
            flag == self@.data_flag,
    {
        self.data_flag
    }

    /// Whether the payload is a serialized key.
    pub fn key_flag(&self) -> (flag: bool)
        ensures
            flag == self@.key_flag,
    {
        self.key_flag
    }

    /// Whether the payload is formatted in a way of its own.
    pub fn non_standard_payload_flag(&self) -> (flag: bool)
        ensures
            flag == self@.non_standard_payload_flag,
    {
        self.non_standard_payload_flag
    }

    /// The reader that the submessage is meant for.
    pub fn reader_id(&self) -> (id: EntityId)
        ensures
            id == self@.reader_id,
    {
        self.reader_id
    }

    /// The writer that made the change.
    pub fn writer_id(&self) -> (id: EntityId)
        ensures
            id == self@.writer_id,
    {
        self.writer_id
    }

    /// The place of the change in the writer's history.
    pub fn writer_sn(&self) -> (sequence_number: SequenceNumber)
        ensures
            sequence_number == self@.writer_sn,
    {
        self.writer_sn
    }

    /// The parameters that go with the change.
    pub fn inline_qos(&self) -> (inline_qos: &ParameterList)
        ensures
            inline_qos@ == self@.inline_qos,
    {
        &self.inline_qos
    }

    /// The payload.
    pub fn serialized_payload(&self) -> (payload: &Data)
        ensures
            payload@ == self@.serialized_payload,
    {
        &self.serialized_payload
    }
}

} // verus!
