use vstd::prelude::*;

verus! {

/// Identifier of a logical stream inside a session; zero is the control stream.
#[derive(Debug, Clone, Copy, PartialEq, Eq, Structural, Hash)]
pub struct StreamId(pub u16);

impl StreamId {
    /// The reserved control stream.
    pub fn control() -> (r: StreamId)
        ensures
            r.0 == 0,
    {
        StreamId(0)
    }

    pub fn new(id: u16) -> (r: StreamId)
        ensures
            r.0 == id,
    {
        StreamId(id)
    }

    pub fn is_control(&self) -> (r: bool)
        ensures
            r == (self.0 == 0),
    {
        self.0 == 0
    }

    pub fn value(&self) -> (r: u16)
        ensures
            r == self.0,
    {
        self.0
    }
}

impl From<u16> for StreamId {
    fn from(id: u16) -> (r: StreamId) {
        StreamId(id)
    }
}

impl vstd::std_specs::convert::FromSpecImpl<u16> for StreamId {
    open spec fn obeys_from_spec() -> bool {
        true
    }

    open spec fn from_spec(id: u16) -> StreamId {
        StreamId(id)
    }
}

impl From<StreamId> for u16 {
    fn from(id: StreamId) -> (r: u16) {
        id.0
    }
}

impl vstd::std_specs::convert::FromSpecImpl<StreamId> for u16 {
    open spec fn obeys_from_spec() -> bool {
        true
    }

    open spec fn from_spec(id: StreamId) -> u16 {
        id.0
    }
}

} // verus!
