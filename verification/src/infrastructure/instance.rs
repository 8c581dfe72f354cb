//! Instance handles, and the parameters of a write operation.
use std::ops::Index;
use vstd::prelude::*;
use vstd::std_specs::cmp::{PartialEqSpec, PartialEqSpecImpl};
use vstd::std_specs::convert::FromSpecImpl;

use super::time::Time;
use crate::rtps::behavior_types;
use crate::transport::types::Guid;

pub use crate::transport::types::SampleIdentity;

verus! {

/// Optional parameters that refine a single write operation.
///
/// `WriteParams` carries a source timestamp, an instance handle that was looked up before, and,
/// for a reply, the `related_sample_identity` of the request that it answers.
///
/// `WriteParams::default()` sets none of them: no timestamp override, no explicit handle, and no
/// RELATED_SAMPLE_IDENTITY parameter on the wire.
#[derive(Clone, Copy, Debug, PartialEq, Eq)]
pub struct WriteParams {
    timestamp: Option<Time>,
    handle: Option<InstanceHandle>,
    related_sample_identity: Option<SampleIdentity>,
}

/// What a [`WriteParams`] sets.
pub struct WriteParamsView {
    /// The source timestamp.
    pub timestamp: Option<Time>,
    /// The instance.
    pub handle: Option<InstanceHandle>,
    /// The sample that is answered.
    pub related_sample_identity: Option<SampleIdentity>,
}

impl View for WriteParams {
    type V = WriteParamsView;

    closed spec fn view(&self) -> WriteParamsView {
        WriteParamsView {
            timestamp: self.timestamp,
            handle: self.handle,
            related_sample_identity: self.related_sample_identity,
        }
    }
}

impl WriteParamsView {
    /// Nothing is set.
    pub open spec fn unset() -> Self {
        WriteParamsView { timestamp: None, handle: None, related_sample_identity: None }
    }

    /// The same, with this timestamp.
    pub open spec fn with_timestamp(self, timestamp: Time) -> Self {
        WriteParamsView { timestamp: Some(timestamp), ..self }
    }

    /// The same, with this instance, or with none.
    pub open spec fn with_handle_opt(self, handle: Option<InstanceHandle>) -> Self {
        WriteParamsView { handle, ..self }
    }

    /// The same, as an answer to this sample.
    pub open spec fn with_related_sample_identity(self, id: SampleIdentity) -> Self {
        WriteParamsView { related_sample_identity: Some(id), ..self }
    }
}

impl WriteParams {
    /// Parameters that set nothing.
    pub fn new() -> (params: Self)
        ensures
            params@ == WriteParamsView::unset(),
            params@.timestamp is None,
            params@.handle is None,
            params@.related_sample_identity is None,
    {
        WriteParams { timestamp: None, handle: None, related_sample_identity: None }
    }

    /// Sets the source timestamp.
    pub fn with_timestamp(self, timestamp: Time) -> (params: Self)
        ensures
            params@ == self@.with_timestamp(timestamp),
            params@.timestamp == Some(timestamp),
            params@.handle == self@.handle,
            params@.related_sample_identity == self@.related_sample_identity,
    {
        WriteParams { timestamp: Some(timestamp), ..self }
    }

    /// Sets the instance.
    pub fn with_handle(self, handle: InstanceHandle) -> (params: Self)
        ensures
            params@ == self@.with_handle_opt(Some(handle)),
            params@.handle == Some(handle),
            params@.timestamp == self@.timestamp,
            params@.related_sample_identity == self@.related_sample_identity,
    {
        WriteParams { handle: Some(handle), ..self }
    }

    /// Sets the instance, or clears it.
    pub fn with_handle_opt(self, handle: Option<InstanceHandle>) -> (params: Self)
        ensures
            params@ == self@.with_handle_opt(handle),
            params@.handle == handle,
            params@.timestamp == self@.timestamp,
            params@.related_sample_identity == self@.related_sample_identity,
    {
        WriteParams { handle, ..self }
    }

    /// Marks the written sample as an answer to the sample `id`.
    pub fn with_related_sample_identity(self, id: SampleIdentity) -> (params: Self)
        ensures
            params@ == self@.with_related_sample_identity(id),
            params@.related_sample_identity == Some(id),
            params@.timestamp == self@.timestamp,
            params@.handle == self@.handle,
    {
        WriteParams { related_sample_identity: Some(id), ..self }
    }

    /// The source timestamp, where one is set.
    pub fn timestamp(&self) -> (timestamp: Option<Time>)
        ensures
            timestamp == self@.timestamp,
    {
        self.timestamp
    }

    /// The instance, where one is set.
    pub fn handle(&self) -> (handle: Option<InstanceHandle>)
        ensures
            handle == self@.handle,
    {
        self.handle
    }

    /// The sample that is answered, where one is set.
    pub fn related_sample_identity(&self) -> (id: Option<SampleIdentity>)
        ensures
            id == self@.related_sample_identity,
    {
        self.related_sample_identity
    }
}

impl Default for WriteParams {
    fn default() -> (params: Self)
        ensures
            params@ == WriteParamsView::unset(),
    {
        WriteParams::new()
    }
}

/// Parameters that set the same things are the same.
pub proof fn write_params_are_what_they_set(a: WriteParams, b: WriteParams)
    ensures
        a@ == b@ <==> a == b,
{
}

/// Nothing is set to begin with.
pub proof fn nothing_is_set_at_first()
    ensures
        WriteParamsView::unset().timestamp is None,
        WriteParamsView::unset().handle is None,
        WriteParamsView::unset().related_sample_identity is None,
{
}

/// What was set is what is found, and what was not set is as it was.
pub proof fn what_was_set_is_found(
    params: WriteParamsView,
    timestamp: Time,
    handle: Option<InstanceHandle>,
    id: SampleIdentity,
)
    ensures
        params.with_timestamp(timestamp).timestamp == Some(timestamp),
        params.with_timestamp(timestamp).handle == params.handle,
        params.with_timestamp(timestamp).related_sample_identity == params.related_sample_identity,
        params.with_handle_opt(handle).handle == handle,
        params.with_handle_opt(handle).timestamp == params.timestamp,
        params.with_handle_opt(handle).related_sample_identity == params.related_sample_identity,
        params.with_related_sample_identity(id).related_sample_identity == Some(id),
        params.with_related_sample_identity(id).timestamp == params.timestamp,
        params.with_related_sample_identity(id).handle == params.handle,
{
}

/// What is set can be set in any order.
pub proof fn setters_commute(
    params: WriteParamsView,
    timestamp: Time,
    handle: Option<InstanceHandle>,
    id: SampleIdentity,
)
    ensures
        params.with_timestamp(timestamp).with_handle_opt(handle) == params.with_handle_opt(
            handle,
        ).with_timestamp(timestamp),
        params.with_timestamp(timestamp).with_related_sample_identity(id)
            == params.with_related_sample_identity(id).with_timestamp(timestamp),
        params.with_handle_opt(handle).with_related_sample_identity(id)
            == params.with_related_sample_identity(id).with_handle_opt(handle),
{
}

/// Of two settings of one thing the later counts.
pub proof fn later_setting_counts(
    params: WriteParamsView,
    timestamps: (Time, Time),
    handles: (Option<InstanceHandle>, Option<InstanceHandle>),
    ids: (SampleIdentity, SampleIdentity),
)
    ensures
        params.with_timestamp(timestamps.0).with_timestamp(timestamps.1) == params.with_timestamp(
            timestamps.1,
        ),
        params.with_handle_opt(handles.0).with_handle_opt(handles.1) == params.with_handle_opt(
            handles.1,
        ),
        params.with_related_sample_identity(ids.0).with_related_sample_identity(ids.1)
            == params.with_related_sample_identity(ids.1),
{
}

/// The 'nil' handle, whose octets are all zero.
pub fn handle_nil() -> (handle: InstanceHandle)
    ensures
        handle == InstanceHandle::nil(),
        handle.octets()@ == Seq::new(16, |i: int| 0u8),
{
    let handle = InstanceHandle([0;16]);
    assert(handle.0 =~= InstanceHandle::nil().0);
    assert(handle.octets()@ =~= Seq::new(16, |i: int| 0u8));
    handle
}

/// Type for the instance handle representing an Entity.
#[derive(Clone, Copy, PartialEq, Eq, Debug, Hash, PartialOrd, Ord)]
pub struct InstanceHandle([u8; 16]);

impl InstanceHandle {
    /// The octets of the handle.
    pub closed spec fn octets(self) -> [u8; 16] {
        self.0
    }

    /// The handle with these octets.
    pub closed spec fn of_octets(octets: [u8; 16]) -> Self {
        InstanceHandle(octets)
    }

    /// The handle whose octets are all zero.
    pub open spec fn nil() -> Self {
        InstanceHandle::of_octets([0, 0, 0, 0, 0, 0, 0, 0, 0, 0, 0, 0, 0, 0, 0, 0])
    }

    /// Constructs a new `InstanceHandle`.
    pub fn new(bytes: [u8; 16]) -> (handle: Self)
        ensures
            handle == InstanceHandle::of_octets(bytes),
            handle.octets() == bytes,
    {
        InstanceHandle(bytes)
    }
}

/// A handle and its octets stand for each other.
pub proof fn handle_octets_round_trip(handle: InstanceHandle, octets: [u8; 16])
    ensures
        InstanceHandle::of_octets(handle.octets()) == handle,
        InstanceHandle::of_octets(octets).octets() == octets,
{
}

impl From<InstanceHandle> for [u8; 16] {
    fn from(value: InstanceHandle) -> (octets: Self)
        ensures
            octets == value.octets(),
    {
        value.0
    }
}

impl FromSpecImpl<InstanceHandle> for [u8; 16] {
    open spec fn obeys_from_spec() -> bool {
        true
    }

    open spec fn from_spec(v: InstanceHandle) -> Self {
        v.octets()
    }
}

impl From<Guid> for InstanceHandle {
    fn from(value: Guid) -> (handle: Self)
        ensures
            handle.octets() == value.octets(),
    {
        InstanceHandle(value.into())
    }
}

impl FromSpecImpl<Guid> for InstanceHandle {
    open spec fn obeys_from_spec() -> bool {
        true
    }

    open spec fn from_spec(v: Guid) -> Self {
        InstanceHandle::of_octets(v.octets())
    }
}

impl From<behavior_types::InstanceHandle> for InstanceHandle {
    fn from(value: behavior_types::InstanceHandle) -> (handle: Self)
        ensures
            handle.octets() == value.0,
    {
        InstanceHandle(value.0)
    }
}

impl FromSpecImpl<behavior_types::InstanceHandle> for InstanceHandle {
    open spec fn obeys_from_spec() -> bool {
        true
    }

    open spec fn from_spec(v: behavior_types::InstanceHandle) -> Self {
        InstanceHandle::of_octets(v.0)
    }
}

impl From<InstanceHandle> for behavior_types::InstanceHandle {
    fn from(value: InstanceHandle) -> (handle: Self)
        ensures
            handle.0 == value.octets(),
    {
        behavior_types::InstanceHandle(value.0)
    }
}

impl FromSpecImpl<InstanceHandle> for behavior_types::InstanceHandle {
    open spec fn obeys_from_spec() -> bool {
        true
    }

    open spec fn from_spec(v: InstanceHandle) -> Self {
        behavior_types::InstanceHandle(v.octets())
    }
}

/// Entities have different handles: the handle made from a `Guid` tells the `Guid`.
pub proof fn handle_tells_the_guid(a: Guid, b: Guid)
    ensures
        InstanceHandle::of_octets(a.octets()) == InstanceHandle::of_octets(b.octets()) <==> a == b,
{
    crate::transport::types::guid_octets_round_trip(a, a.octets());
    crate::transport::types::guid_octets_round_trip(b, b.octets());
}

impl PartialEq<[u8; 16]> for InstanceHandle {
    fn eq(&self, other: &[u8; 16]) -> (equal: bool)
        ensures
            equal <==> self.octets() == *other,
    {
        let mut i: usize = 0;
        while i < 16
            invariant
                i <= 16,
                forall|j: int| 0 <= j < i ==> self.0@[j] == other@[j],
            decreases 16 - i,
        {
            if self.0[i] != other[i] {
                return false;
            }
            i += 1;
        }
        assert(self.0 =~= *other);
        true
    }
}

impl PartialEqSpecImpl<[u8; 16]> for InstanceHandle {
    open spec fn obeys_eq_spec() -> bool {
        true
    }

    open spec fn eq_spec(&self, other: &[u8; 16]) -> bool {
        self.octets() == *other
    }
}

impl PartialEq<InstanceHandle> for [u8; 16] {
    fn eq(&self, other: &InstanceHandle) -> (equal: bool)
        ensures
            equal <==> *self == other.octets(),
    {
        *other == *self
    }
}

impl PartialEqSpecImpl<InstanceHandle> for [u8; 16] {
    open spec fn obeys_eq_spec() -> bool {
        true
    }

    open spec fn eq_spec(&self, other: &InstanceHandle) -> bool {
        *self == other.octets()
    }
}

/// A handle equals sixteen octets where, and only where, the octets equal the handle.
pub proof fn equality_with_octets_is_symmetric(handle: InstanceHandle, octets: [u8; 16])
    ensures
        PartialEqSpec::eq_spec(&handle, &octets) <==> PartialEqSpec::eq_spec(&octets, &handle),
        PartialEqSpec::eq_spec(&handle, &octets) <==> handle == InstanceHandle::of_octets(octets),
{
}

impl AsRef<[u8; 16]> for InstanceHandle {
    fn as_ref(&self) -> (octets: &[u8; 16])
        ensures
            *octets == self.octets(),
    {
        &self.0
    }
}

impl Default for InstanceHandle {
    fn default() -> (handle: Self)
        ensures
            handle == InstanceHandle::nil(),
            handle.octets()@ == Seq::new(16, |i: int| 0u8),
    {
        handle_nil()
    }
}

impl Index<usize> for InstanceHandle {
    type Output = u8;

    fn index(&self, index: usize) -> (octet: &u8)
        ensures
            *octet == self.octets()[index as int],
    {
        &self.0[index]
    }
}

impl vstd::std_specs::core::IndexSpecImpl<usize> for InstanceHandle {
    open spec fn index_req(&self, index: &usize) -> bool {
        *index < 16
    }
}

/// A handle has an octet at each index below sixteen, and at no other.
pub proof fn handle_has_sixteen_octets(handle: InstanceHandle, index: usize)
    ensures
        vstd::std_specs::core::IndexSpec::index_req(&handle, &index) <==> index < 16,
        handle.octets()@.len() == 16,
{
}

/// The octets of the nil handle are zero, and those of no other handle are.
pub proof fn only_nil_is_zero(handle: InstanceHandle)
    ensures
        handle == InstanceHandle::nil() <==> forall|i: int|
            0 <= i < 16 ==> #[trigger] handle.octets()[i] == 0,
{
    let nil = InstanceHandle::nil();
    assert(forall|i: int| 0 <= i < 16 ==> #[trigger] nil.octets()[i] == 0);
    if forall|i: int| 0 <= i < 16 ==> #[trigger] handle.octets()[i] == 0 {
        assert(handle.octets() =~= nil.octets());
    }
}

} // verus!
