use crate::crypto::H256;
use crate::event::Error;
use crate::table::Key;
use vstd::prelude::*;

pub mod session;

verus! {

/// The bytes of a message or of a fragment.
#[derive(Debug, Clone, PartialEq, Eq, Hash)]
pub struct Payload(pub Vec<u8>);

impl View for Payload {
    type V = Seq<u8>;

    open spec fn view(&self) -> Seq<u8> {
        self.0@
    }
}

/// A message as it came from the network.
#[derive(Debug, Clone)]
pub struct Recv<M>(pub M);

/// The destination of a message for the peers closest to a target: the target, and how many
/// of them.
#[derive(Debug, Clone, Copy, PartialEq, Eq, Structural, Hash)]
pub struct Multicast(pub H256, pub usize);

/// The address of a socket: an IP address, version 4 addresses in their place among those
/// of version 6, and a port.
#[derive(Debug, Clone, Copy, PartialEq, Eq, Structural, Hash, PartialOrd, Ord)]
pub struct SocketAddr {
    pub ip: u128,
    pub port: u16,
}

impl Key for SocketAddr {
    fn same(&self, other: &Self) -> (same: bool) {
        *self == *other
    }
}

/// A handle on the network: it takes messages for addresses, and does not say whether they
/// arrive.
pub trait SendMessage<A, M> {
    /// What this handle says of one `send`: whether sending `message` to `dest` may turn
    /// the handle into `after` and give `result`. A handle that says nothing allows
    /// everything.
    open spec fn sends(&self, dest: A, message: M, after: &Self, result: Result<(), Error>) -> bool {
        true
    }

    fn send(&mut self, dest: A, message: M) -> (result: Result<(), Error>)
        ensures
            Self::sends(&*old(self), dest, message, &*final(self), result),
    ;
}

} // verus!
