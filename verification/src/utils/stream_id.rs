//! Identifiers of multiplexed streams.

use vstd::prelude::*;

use crate::text::decimal;
use crate::text::digits;
use crate::text::rendering_is_injective;

use yamux::StreamId as YamuxStreamId;

verus! {

/// Implement this trait on any stream that can identify itself by an [`Id`].
pub trait StreamId {
    fn stream_id(&self) -> Id;
}

/// An integer stream ID
#[derive(Debug, Clone, Copy, PartialEq, Eq, Structural)]
pub struct Id(u32);

impl View for Id {
    type V = u32;

    closed spec fn view(&self) -> u32 {
        self.0
    }
}

impl Id {
    /// The ID with a given number.
    pub closed spec fn of(val: u32) -> Id {
        Id(val)
    }

    /// An ID made from a number has that number.
    pub broadcast proof fn id_is_its_number(val: u32)
        ensures
            (#[trigger] Id::of(val))@ == val,
    {
    }

    /// IDs with the same number are the same ID.
    pub proof fn number_decides(self, other: Id)
        ensures
            self@ == other@ <==> self == other,
    {
    }

    /// Two IDs are shown alike only if they are the same.
    pub proof fn shown_text_decides(self, other: Id)
        ensures
            digits(self@ as nat) == digits(other@ as nat) <==> self == other,
    {
        rendering_is_injective(self@ as nat, other@ as nat);
        self.number_decides(other);
    }

    /// New Id
    pub fn new(val: u32) -> (id: Self)
        ensures
            id@ == val,
            id == Id::of(val),
    {
        Self(val)
    }

    /// Returns the stream ID as a u32
    pub fn as_u32(self) -> (val: u32)
        ensures
            val == self@,
    {
        self.0
    }

    /// The ID as shown to people: its number in decimal.
    pub fn to_string(&self) -> (text: String)
        ensures
            text@ == digits(self@ as nat),
    {
        decimal(self.as_u32() as u64)
    }
}

/// The number inside a stream identifier of the `yamux` crate, as its `val`
/// method gives it out.
pub uninterp spec fn yamux_stream_number(id: YamuxStreamId) -> u32;

/// A stream identifier of the `yamux` crate.
#[verifier::external_type_specification]
#[verifier::external_body]
pub struct ExYamuxStreamId(YamuxStreamId);

/// `yamux::StreamId::val` hands out the number that the identifier wraps.
pub assume_specification[ YamuxStreamId::val ](id: YamuxStreamId) -> (val: u32)
    ensures
        val == yamux_stream_number(id),
;

impl vstd::std_specs::convert::FromSpecImpl<YamuxStreamId> for Id {
    open spec fn obeys_from_spec() -> bool {
        true
    }

    open spec fn from_spec(id: YamuxStreamId) -> Id {
        Id::of(yamux_stream_number(id))
    }
}

impl From<YamuxStreamId> for Id {
    fn from(id: YamuxStreamId) -> (own: Self)
        ensures
            own@ == yamux_stream_number(id),
    {
        Id::new(id.val())
    }
}

} // verus!
