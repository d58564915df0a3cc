use crate::event::{Error, SendEvent};
use crate::net::{SendMessage, SocketAddr};
use std::collections::HashMap;
use std::time::{Duration, Instant};
use vstd::prelude::*;

verus! {

#[verifier::external_type_specification]
#[verifier::external_body]
pub struct ExInstant(Instant);

/// `Instant::now` of std: the time of the call. Nothing is claimed of it.
#[verifier::external_body]
fn now() -> (instant: Instant) {
    Instant::now()
}

/// `Instant::elapsed` of std: the time since the instant. Nothing is claimed of it.
#[verifier::external_body]
fn elapsed(instant: &Instant) -> (duration: Duration) {
    instant.elapsed()
}

/// What a client asks of the replicas.
#[derive(Debug, Clone)]
pub struct Request<A> {
    pub client_id: u32,
    pub client_addr: A,
    pub seq: u32,
    pub op: Vec<u8>,
}

/// Clients that are kept busy: each is asked again as soon as it has answered, and the
/// time that each answer took is noted.
#[derive(Debug)]
pub struct Concurrent<E> {
    client_senders: HashMap<u32, E>,
    pub latencies: Vec<Duration>,
    invoke_instants: HashMap<u32, Instant>,
}

/// The answer of a client: its identifier and the result.
pub type ConcurrentEvent = (u32, Vec<u8>);

impl<E> Concurrent<E> {
    /// The clients, by their identifiers.
    pub closed spec fn senders(&self) -> Map<u32, E> {
        self.client_senders@
    }

    /// For each client that has been asked, when it was asked last.
    pub closed spec fn instants(&self) -> Map<u32, Instant> {
        self.invoke_instants@
    }

    /// The identifiers of the clients.
    pub open spec fn clients(&self) -> Set<u32> {
        self.senders().dom()
    }

    /// The identifiers of the clients that have been asked.
    pub open spec fn asked(&self) -> Set<u32> {
        self.instants().dom()
    }

    /// The times that the answers took, in the order of the answers.
    pub closed spec fn noted(&self) -> Seq<Duration> {
        self.latencies@
    }

    /// No clients, and no times noted.
    pub fn new() -> (concurrent: Self)
        ensures
            concurrent.senders() == Map::<u32, E>::empty(),
            concurrent.instants() == Map::<u32, Instant>::empty(),
            concurrent.noted() == Seq::<Duration>::empty(),
    {
        Self {
            client_senders: HashMap::new(),
            latencies: Vec::new(),
            invoke_instants: HashMap::new(),
        }
    }

    /// Adds a client. An identifier that is taken is an error, and the new client has
    /// taken the place of the old one all the same.
    pub fn insert_client_sender(&mut self, client_id: u32, sender: E) -> (result: Result<(), Error>)
        ensures
            final(self).senders() == old(self).senders().insert(client_id, sender),
            final(self).instants() == old(self).instants(),
            final(self).noted() == old(self).noted(),
            result == if old(self).clients().contains(client_id) {
                Err::<(), Error>(Error::DuplicateClient)
            } else {
                Ok::<(), Error>(())
            },
    {
        let replaced = self.client_senders.insert(client_id, sender);
        if replaced.is_none() {
            Ok(())
        } else {
            Err(Error::DuplicateClient)
        }
    }

    fn client_ids(&self) -> (ids: Vec<u32>)
        ensures
            ids@.to_set() == self.clients(),
            ids@.no_duplicates(),
    {
        let mut ids: Vec<u32> = Vec::new();
        for id in iter: self.client_senders.keys()
            invariant
                iter.seq().unref().to_set() == self.clients(),
                iter.seq().no_duplicates(),
                ids@ =~= iter.seq().unref().take(iter.index() as int),
                iter.index() == iter.seq().len() ==> ids@.to_set() == self.clients(),
                ids@.no_duplicates(),
        {
            let ghost before = ids@;
            ids.push(*id);
            assert(ids@ =~= iter.seq().unref().take(iter.index() + 1));
            assert(iter.seq().unref().take(iter.seq().len() as int) =~= iter.seq().unref());
            assert forall|j: int, l: int| 0 <= j < l < ids@.len() implies ids@[j] != ids@[l] by {
                assert(iter.seq()[j] != iter.seq()[l]);
            }
        }
        ids
    }
}

impl<E> Default for Concurrent<E> {
    /// No clients, and no times noted.
    fn default() -> (concurrent: Self)
        ensures
            concurrent.senders() == Map::<u32, E>::empty(),
            concurrent.instants() == Map::<u32, Instant>::empty(),
            concurrent.noted() == Seq::<Duration>::empty(),
    {
        Self::new()
    }
}

impl<E: SendEvent<Vec<u8>>> Concurrent<E> {
    /// Whether asking a client once, with an empty request, may turn the client into
    /// `after` and give `sent`.
    pub open spec fn asks(client: E, after: E, sent: Result<(), Error>) -> bool {
        exists|request: Vec<u8>|
            request@ == Seq::<u8>::empty() && #[trigger] E::sends(&client, request, &after, sent)
    }

    /// Whether asking a client once, with an empty request, may turn the client into
    /// `after` and succeed.
    pub open spec fn asks_well(client: E, after: E) -> bool {
        exists|request: Vec<u8>, sent: Result<(), Error>|
            request@ == Seq::<u8>::empty() && sent is Ok && #[trigger] E::sends(
                &client,
                request,
                &after,
                sent,
            )
    }

    /// Asks every client once, with an empty request, and notes for each the time at
    /// which it was asked. Without clients there is nothing to do, and that succeeds. It
    /// stops at the first client that cannot be asked, with that client's error: then the
    /// clients before it have been asked, and those after it have not.
    pub fn launch(&mut self) -> (result: Result<(), Error>)
        ensures
            final(self).clients() == old(self).clients(),
            final(self).noted() == old(self).noted(),
            old(self).asked().subset_of(final(self).asked()),
            final(self).asked().subset_of(old(self).asked().union(old(self).clients())),
            forall|id: u32| #[trigger]
                old(self).clients().contains(id) ==> {
                    ||| final(self).senders()[id] == old(self).senders()[id] && result is Err
                    ||| Self::asks_well(old(self).senders()[id], final(self).senders()[id])
                    ||| Self::asks(old(self).senders()[id], final(self).senders()[id], result)
                        && result is Err
                },
            result is Ok ==> {
                &&& final(self).asked() == old(self).asked().union(old(self).clients())
                &&& forall|id: u32| #[trigger]
                    old(self).clients().contains(id) ==> Self::asks_well(
                        old(self).senders()[id],
                        final(self).senders()[id],
                    )
            },
            result is Err ==> exists|id: u32|
                {
                    &&& old(self).clients().contains(id)
                    &&& #[trigger] Self::asks(
                        old(self).senders()[id],
                        final(self).senders()[id],
                        result,
                    )
                },
            old(self).clients() == Set::<u32>::empty() ==> result is Ok,
    {
        let ids = self.client_ids();
        let mut i: usize = 0;
        while i < ids.len()
            invariant
                i <= ids.len(),
                ids@.to_set() == old(self).clients(),
                ids@.no_duplicates(),
                self.clients() == old(self).clients(),
                self.noted() == old(self).noted(),
                old(self).asked().subset_of(self.asked()),
                self.asked().subset_of(old(self).asked().union(old(self).clients())),
                forall|j: int| 0 <= j < i ==> self.asked().contains(#[trigger] ids@[j]),
                forall|j: int|
                    0 <= j < i ==> Self::asks_well(
                        old(self).senders()[#[trigger] ids@[j]],
                        self.senders()[ids@[j]],
                    ),
                forall|j: int|
                    i <= j < ids.len() ==> self.senders()[#[trigger] ids@[j]] == old(self).senders()[ids@[j]],
            decreases ids.len() - i,
        {
            let id = ids[i];
            let ghost before = self.senders();
            assert(ids@.to_set().contains(ids@[i as int]));
            assert(self.senders().contains_key(id));
            match self.client_senders.remove(&id) {
                Some(mut sender) => {
                    let ghost client = sender;
                    let request: Vec<u8> = Vec::new();
                    let sent = sender.send(request);
                    self.client_senders.insert(id, sender);
                    assert(self.clients() =~= old(self).clients());
                    assert(E::sends(&client, request, &sender, sent));
                    assert(Self::asks(old(self).senders()[id], self.senders()[id], sent));
                    assert forall|j: int| 0 <= j < ids.len() && j != i implies self.senders()[#[trigger] ids@[j]]
                        == before[ids@[j]] by {
                        assert(ids@[j] != ids@[i as int]);
                    }
                    match sent {
                        Ok(()) => {
                            assert(Self::asks_well(old(self).senders()[id], self.senders()[id]));
                        },
                        Err(error) => {
                            assert forall|other: u32| #[trigger]
                                old(self).clients().contains(other) implies {
                                ||| self.senders()[other] == old(self).senders()[other]
                                ||| Self::asks_well(old(self).senders()[other], self.senders()[other])
                                ||| Self::asks(
                                    old(self).senders()[other],
                                    self.senders()[other],
                                    Err::<(), Error>(error),
                                )
                            } by {
                                assert(ids@.to_set().contains(other));
                                let j = choose|j: int| 0 <= j < ids@.len() && ids@[j] == other;
                                assert(ids@[j] == other);
                            }
                            return Err(error);
                        },
                    }
                },
                None => {},
            }
            self.invoke_instants.insert(id, now());
            i += 1;
        }
        assert forall|id: u32| old(self).clients().contains(id) implies self.asked().contains(id)
            && Self::asks_well(old(self).senders()[id], self.senders()[id]) by {
            assert(ids@.to_set().contains(id));
            let j = choose|j: int| 0 <= j < ids@.len() && ids@[j] == id;
            assert(self.asked().contains(ids@[j]));
        }
        assert(self.asked() =~= old(self).asked().union(old(self).clients()));
        Ok(())
    }

    /// The answer of a client: the client is asked again at once, with an empty request,
    /// and the time since it was asked before is noted. It is an error if no client has
    /// the identifier, and then nothing changes; if the client cannot be asked, with that
    /// client's error; and if the client had not been asked, though it counts as asked
    /// from then on. The other clients stay as they are.
    pub fn on_event(&mut self, event: ConcurrentEvent) -> (result: Result<(), Error>)
        ensures
            !old(self).clients().contains(event.0) ==> {
                &&& result == Err::<(), Error>(Error::UnknownClient)
                &&& final(self).senders() == old(self).senders()
                &&& final(self).instants() == old(self).instants()
                &&& final(self).noted() == old(self).noted()
            },
            old(self).clients().contains(event.0) ==> exists|sent: Result<(), Error>|
                {
                    &&& #[trigger] Self::asks(
                        old(self).senders()[event.0],
                        final(self).senders()[event.0],
                        sent,
                    )
                    &&& final(self).clients() == old(self).clients()
                    &&& final(self).senders().remove(event.0) == old(self).senders().remove(event.0)
                    &&& match sent {
                        Err(error) => {
                            &&& result == Err::<(), Error>(error)
                            &&& final(self).instants() == old(self).instants()
                            &&& final(self).noted() == old(self).noted()
                        },
                        Ok(()) => {
                            &&& final(self).instants().remove(event.0) == old(
                                self,
                            ).instants().remove(event.0)
                            &&& final(self).asked() == old(self).asked().insert(event.0)
                            &&& if old(self).asked().contains(event.0) {
                                &&& result == Ok::<(), Error>(())
                                &&& final(self).noted().len() == old(self).noted().len() + 1
                                &&& final(self).noted().drop_last() == old(self).noted()
                            } else {
                                &&& result == Err::<(), Error>(Error::MissingInstant)
                                &&& final(self).noted() == old(self).noted()
                            }
                        },
                    }
                },
    {
        let (client_id, _result) = event;
        let mut sender = match self.client_senders.remove(&client_id) {
            Some(sender) => sender,
            None => {
                assert(self.senders() =~= old(self).senders());
                return Err(Error::UnknownClient);
            },
        };
        let ghost client = sender;
        let request: Vec<u8> = Vec::new();
        let sent = sender.send(request);
        self.client_senders.insert(client_id, sender);
        assert(E::sends(&client, request, &sender, sent));
        assert(Self::asks(old(self).senders()[client_id], self.senders()[client_id], sent));
        assert(self.clients() =~= old(self).clients());
        assert(self.senders().remove(client_id) =~= old(self).senders().remove(client_id));
        match sent {
            Ok(()) => {},
            Err(error) => {
                return Err(error);
            },
        }
        let replaced = self.invoke_instants.insert(client_id, now());
        assert(self.instants().remove(client_id) =~= old(self).instants().remove(client_id));
        assert(self.asked() =~= old(self).asked().insert(client_id));
        let result = match replaced {
            Some(instant) => {
                self.latencies.push(elapsed(&instant));
                assert(self.noted().drop_last() =~= old(self).noted());
                Ok(())
            },
            None => Err(Error::MissingInstant),
        };
        assert(Self::asks(old(self).senders()[client_id], self.senders()[client_id], sent));
        result
    }
}

/// A network of replicas that are known by their place in a list of addresses.
#[derive(Debug, Clone)]
pub struct ReplicaNet<N> {
    socket_net: N,
    replica_addrs: Vec<SocketAddr>,
}

impl<N> ReplicaNet<N> {
    /// The addresses of the replicas, in their order.
    pub closed spec fn addrs(&self) -> Seq<SocketAddr> {
        self.replica_addrs@
    }

    /// The network of sockets underneath.
    pub closed spec fn net(&self) -> N {
        self.socket_net
    }

    /// A network of the replicas at the given addresses, on top of a network of sockets.
    pub fn new(socket_net: N, replica_addrs: Vec<SocketAddr>) -> (net: Self)
        ensures
            net.addrs() == replica_addrs@,
            net.net() == socket_net,
    {
        Self { socket_net, replica_addrs }
    }

    /// The address of a replica.
    pub fn replica_addr(&self, dest: u8) -> (addr: Result<SocketAddr, Error>)
        ensures
            addr == if dest < self.addrs().len() {
                Ok::<SocketAddr, Error>(self.addrs()[dest as int])
            } else {
                Err::<SocketAddr, Error>(Error::UnknownReplica)
            },
    {
        if (dest as usize) < self.replica_addrs.len() {
            Ok(self.replica_addrs[dest as usize])
        } else {
            Err(Error::UnknownReplica)
        }
    }
}

impl<N: SendMessage<SocketAddr, M>, M> SendMessage<u8, M> for ReplicaNet<N> {
    /// Sending a message to a replica is sending it to the replica's address on the
    /// network of sockets, and the addresses stay. A replica that is not in the list is
    /// an error, and then nothing is sent.
    open spec fn sends(&self, dest: u8, message: M, after: &Self, result: Result<(), Error>) -> bool {
        &&& after.addrs() == self.addrs()
        &&& if dest < self.addrs().len() {
            N::sends(&self.net(), self.addrs()[dest as int], message, &after.net(), result)
        } else {
            &&& after.net() == self.net()
            &&& result == Err::<(), Error>(Error::UnknownReplica)
        }
    }

    fn send(&mut self, dest: u8, message: M) -> (result: Result<(), Error>) {
        match self.replica_addr(dest) {
            Ok(dest) => self.socket_net.send(dest, message),
            Err(error) => Err(error),
        }
    }
}

} // verus!
