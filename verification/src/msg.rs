//! The closed registry of IPC message-type discriminants.

use vstd::prelude::*;

verus! {

/// A typed IPC message kind recognized by the current build.
///
/// The registry is compile-time-closed: a build recognizes exactly these
/// kinds, each with a stable numeric wire discriminant given by
/// [`MsgType::tag`]. Wire compatibility rests on that number, never on
/// declaration order, and a discriminant is never reused for an
/// incompatible meaning.
#[derive(Copy, Clone, Eq, PartialEq, Debug)]
pub enum MsgType {
    Ping,
    GetTime,
    MapShared,
}

impl MsgType {
    /// The wire discriminant of this message kind.
    pub open spec fn spec_tag(self) -> u16 {
        match self {
            MsgType::Ping => 1,
            MsgType::GetTime => 2,
            MsgType::MapShared => 3,
        }
    }

    /// Returns the stable numeric discriminant carried in a header's `ty`
    /// field for this message kind.
    pub fn tag(self) -> (t: u16)
        ensures
            t == self.spec_tag(),
    {
        match self {
            MsgType::Ping => 1,
            MsgType::GetTime => 2,
            MsgType::MapShared => 3,
        }
    }

    /// Maps a wire tag back to the registered message kind.
    ///
    /// An unrecognized tag yields `None`: the codec itself never rejects
    /// such a header, so a dispatcher uses this to tell recognized kinds
    /// from unknown ones explicitly instead of guessing.
    pub fn from_tag(t: u16) -> (r: Option<MsgType>)
        ensures
            r matches Some(m) ==> m.spec_tag() == t,
            r is None ==> forall|m: MsgType| m.spec_tag() != t,
    {
        if t == 1 {
            Some(MsgType::Ping)
        } else if t == 2 {
            Some(MsgType::GetTime)
        } else if t == 3 {
            Some(MsgType::MapShared)
        } else {
            None
        }
    }
}

/// Discriminants are distinct: no two message kinds share a wire tag.
pub proof fn lemma_tags_injective(a: MsgType, b: MsgType)
    ensures
        a.spec_tag() == b.spec_tag() ==> a == b,
{
}

} // verus!
