//! The elements that submessages are made of.
use std::ops::Range;
use std::sync::Arc;
use vstd::prelude::*;
use vstd::std_specs::convert::FromSpecImpl;

use super::types::ParameterId;

verus! {

/// A numbered value of an inline QoS list.
#[derive(PartialEq, Eq, Debug)]
pub struct Parameter {
    parameter_id: ParameterId,
    value: Arc<[u8]>,
}

/// A [`Parameter`] with its value as a sequence of octets.
#[verifier::ext_equal]
pub struct ParameterView {
    /// The number of the parameter.
    pub id: ParameterId,
    /// The octets of its value.
    pub value: Seq<u8>,
}

impl View for Parameter {
    type V = ParameterView;

    closed spec fn view(&self) -> ParameterView {
        ParameterView { id: self.parameter_id, value: (*self.value)@ }
    }
}

impl Parameter {
    /// Constructs a new `Parameter`.
    pub fn new(parameter_id: ParameterId, value: Arc<[u8]>) -> (parameter: Self)
        ensures
            parameter@ == (ParameterView { id: parameter_id, value: (*value)@ }),
    {
        Parameter { parameter_id, value }
    }

    /// The number of the parameter.
    pub fn parameter_id(&self) -> (id: ParameterId)
        ensures
            id == self@.id,
    {
        self.parameter_id
    }

    /// The octets of the value.
    pub fn value(&self) -> (value: &[u8])
        ensures
            value@ == self@.value,
    {
        &*self.value
    }

    /// How many octets the value has.
    pub fn length(&self) -> (length: usize)
        ensures
            length == self@.value.len(),
    {
        self.value.len()
    }
}

/// The parameters of an inline QoS, in the order in which they are sent.
#[derive(PartialEq, Eq, Debug)]
pub struct ParameterList {
    parameter: Vec<Parameter>,
}

/// The views of a run of parameters.
pub open spec fn parameter_views(parameters: Seq<Parameter>) -> Seq<ParameterView> {
    parameters.map_values(|parameter: Parameter| parameter@)
}

/// The views of a run of parameters are those of its parameters, in the same order.
pub proof fn parameter_views_keep_the_order(parameters: Seq<Parameter>)
    ensures
        parameter_views(parameters).len() == parameters.len(),
        forall|i: int|
            0 <= i < parameters.len() ==> #[trigger] parameter_views(parameters)[i]
                == parameters[i]@,
{
}

impl View for ParameterList {
    type V = Seq<ParameterView>;

    closed spec fn view(&self) -> Seq<ParameterView> {
        parameter_views(self.parameter@)
    }
}

impl ParameterList {
    /// Constructs a new `ParameterList`.
    pub fn new(parameter: Vec<Parameter>) -> (list: Self)
        ensures
            list@ == parameter_views(parameter@),
    {
        ParameterList { parameter }
    }

    /// The parameters, in order.
    pub fn parameter(&self) -> (parameter: &[Parameter])
        ensures
            parameter_views(parameter@) == self@,
    {
        self.parameter.as_slice()
    }
}

/// A serialized payload.
#[derive(PartialEq, Eq, Debug)]
pub struct Data(Arc<[u8]>);

impl View for Data {
    type V = Seq<u8>;

    closed spec fn view(&self) -> Seq<u8> {
        (*self.0)@
    }
}

impl Clone for Data {
    fn clone(&self) -> (copy: Self)
        ensures
            copy@ == self@,
    {
        Data(self.0.clone())
    }
}

impl From<Arc<[u8]>> for Data {
    fn from(value: Arc<[u8]>) -> (data: Self)
        ensures
            data@ == (*value)@,
    {
        Data(value)
    }
}

impl FromSpecImpl<Arc<[u8]>> for Data {
    open spec fn obeys_from_spec() -> bool {
        true
    }

    closed spec fn from_spec(v: Arc<[u8]>) -> Data {
        Data(v)
    }
}

impl From<Data> for Arc<[u8]> {
    fn from(value: Data) -> (octets: Self)
        ensures
            (*octets)@ == value@,
    {
        value.0
    }
}

impl FromSpecImpl<Data> for Arc<[u8]> {
    open spec fn obeys_from_spec() -> bool {
        true
    }

    closed spec fn from_spec(v: Data) -> Arc<[u8]> {
        v.0
    }
}

/// The part of a serialized payload that one fragment carries.
#[derive(PartialEq, Eq, Debug)]
pub struct SerializedDataFragment {
    data: Data,
    range: Range<usize>,
}

/// A [`SerializedDataFragment`] with the whole payload as a sequence of octets.
#[verifier::ext_equal]
pub struct SerializedDataFragmentView {
    /// The whole payload.
    pub data: Seq<u8>,
    /// Offset of the first octet of the fragment.
    pub start: int,
    /// Offset of the first octet after the fragment.
    pub end: int,
}

impl SerializedDataFragmentView {
    /// Whether the range lies within the payload.
    pub open spec fn in_bounds(self) -> bool {
        0 <= self.start <= self.end <= self.data.len()
    }

    /// The octets that the fragment carries.
    pub open spec fn octets(self) -> Seq<u8>
        recommends
            self.in_bounds(),
    {
        self.data.subrange(self.start, self.end)
    }
}

/// A fragment carries the octets of the payload from its start up to, and without, its end.
pub proof fn fragment_octets_are_those_of_the_range(fragment: SerializedDataFragmentView)
    requires
        0 <= fragment.start <= fragment.end <= fragment.data.len(),
    ensures
        fragment.in_bounds(),
        fragment.octets().len() == fragment.end - fragment.start,
        forall|k: int|
            0 <= k < fragment.end - fragment.start ==> #[trigger] fragment.octets()[k]
                == fragment.data[fragment.start + k],
{
}

impl View for SerializedDataFragment {
    type V = SerializedDataFragmentView;

    closed spec fn view(&self) -> SerializedDataFragmentView {
        SerializedDataFragmentView {
            data: self.data@,
            start: self.range.start as int,
            end: self.range.end as int,
        }
    }
}

impl SerializedDataFragment {
    /// Constructs a new `SerializedDataFragment`.
    pub fn new(data: Data, range: Range<usize>) -> (fragment: Self)
        ensures
            fragment@ == (SerializedDataFragmentView {
                data: data@,
                start: range.start as int,
                end: range.end as int,
            }),
    {
        SerializedDataFragment { data, range }
    }

    /// Offset of the first octet of the fragment.
    pub fn start(&self) -> (start: usize)
        ensures
            start == self@.start,
    {
        self.range.start
    }

    /// Offset of the first octet after the fragment.
    pub fn end(&self) -> (end: usize)
        ensures
            end == self@.end,
    {
        self.range.end
    }

    /// The octets that the fragment carries.
    pub fn octets(&self) -> (octets: &[u8])
        requires
            self@.in_bounds(),
        ensures
            octets@ == self@.octets(),
    {
        let whole: &[u8] = &*self.data.0;
        &whole[self.range.start..self.range.end]
    }
}

} // verus!
