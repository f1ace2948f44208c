//! The vocabulary shared by every operation: tiers, pending requests, replies.

use vstd::prelude::*;

verus! {

/// One physical backend in the fallback chain, fastest first.
#[derive(Clone, Copy, Debug, PartialEq, Eq, Structural)]
pub enum Tier {
    /// Volatile and fast; may hold any subset of the records.
    Cache,
    /// Local and persistent; always configured.
    Disk,
    /// Remote and durable; optional.
    Cloud,
}

/// Why a request produced nothing.
#[derive(Clone, Copy, Debug, PartialEq, Eq, Structural)]
pub enum Fault {
    /// The tier holds nothing under the path.
    NotFound,
    /// The tier holds bytes under the path, but they are not a record of the expected type.
    DecodeError,
    /// The tier could not complete the request.
    IoError,
}

/// What the caller has to carry out before the operation can go on.
///
/// The path and, for a write, the value are read from the operation itself.
#[derive(Clone, Copy, Debug, PartialEq, Eq, Structural)]
pub enum Pending {
    /// Read the operation's path from the tier.
    Read(Tier),
    /// Write the operation's payload under its path into the tier.
    Write(Tier),
    /// Delete the operation's path from the tier.
    Delete(Tier),
    /// Nothing: the operation has its result.
    Finished,
}

impl Pending {
    /// The tier the request is addressed to, if there is a request.
    pub open spec fn tier(self) -> Option<Tier> {
        match self {
            Pending::Read(t) => Some(t),
            Pending::Write(t) => Some(t),
            Pending::Delete(t) => Some(t),
            Pending::Finished => None,
        }
    }
}

/// What a tier answered to one request.
#[derive(Debug)]
pub enum Reply<V> {
    /// A read found this record.
    Value(V),
    /// A write or a delete was completed.
    Done,
    /// The request failed.
    Fault(Fault),
}

impl<V> Reply<V> {
    /// The record that a read produced. Every fault counts as a miss, whatever its kind.
    pub open spec fn hit(self) -> Option<V> {
        match self {
            Reply::Value(v) => Some(v),
            _ => None,
        }
    }

    /// Whether a write or a delete was completed.
    pub open spec fn completed(self) -> bool {
        self is Done
    }

    /// Turns the reply to a read into the record it found.
    pub fn into_hit(self) -> (r: Option<V>)
        ensures
            r == self.hit(),
    {
        match self {
            Reply::Value(v) => Some(v),
            _ => None,
        }
    }

    /// Tells whether the reply reports a completed write or delete.
    pub fn is_completed(&self) -> (r: bool)
        ensures
            r == self.completed(),
    {
        match self {
            Reply::Done => true,
            _ => false,
        }
    }
}

impl<V: View> View for Reply<V> {
    type V = Reply<V::V>;

    open spec fn view(&self) -> Reply<V::V> {
        match *self {
            Reply::Value(v) => Reply::Value(v@),
            Reply::Done => Reply::Done,
            Reply::Fault(f) => Reply::Fault(f),
        }
    }
}

/// A request written out in full: what is asked of which tier, under which path.
///
/// This is how the contracts speak of the request an operation is waiting on; a caller reads
/// the same three things from the operation's `pending`, `path` and `payload`.
pub enum Request<V> {
    /// Read `path` from `tier`.
    Read { tier: Tier, path: Seq<char> },
    /// Write `value` under `path` into `tier`.
    Write { tier: Tier, path: Seq<char>, value: V },
    /// Delete `path` from `tier`.
    Delete { tier: Tier, path: Seq<char> },
    /// Nothing is asked.
    Nothing,
}

impl Pending {
    /// The request in full, given the path and the payload of the operation that is waiting.
    pub open spec fn request<V>(self, path: Seq<char>, payload: Option<V>) -> Request<V> {
        match self {
            Pending::Read(tier) => Request::Read { tier, path },
            Pending::Write(tier) => match payload {
                Some(value) => Request::Write { tier, path, value },
                None => Request::Nothing,
            },
            Pending::Delete(tier) => Request::Delete { tier, path },
            Pending::Finished => Request::Nothing,
        }
    }
}

} // verus!
