use crate::event::{Error, SendEvent};
use crate::net::{SendMessage, SocketAddr};
use crate::table::Table;
use tokio::sync::mpsc::{unbounded_channel, UnboundedReceiver, UnboundedSender};
use vstd::prelude::*;

verus! {

/// The longest message that is read from a stream.
pub const MAX_BUF_LEN: usize = 0x10_0000;

/// The length of what the side that opens a TCP connection writes first.
pub const TCP_PREAMBLE_LEN: usize = 16;

/// The seconds between two sweeps of the connections.
pub const IDLE_SECS: u64 = 1;

#[verifier::external_type_specification]
#[verifier::external_body]
#[verifier::reject_recursive_types(T)]
pub struct ExUnboundedSender<T>(UnboundedSender<T>);

#[verifier::external_type_specification]
#[verifier::external_body]
#[verifier::reject_recursive_types(T)]
pub struct ExUnboundedReceiver<T>(UnboundedReceiver<T>);

/// `unbounded_channel` of tokio: the two ends of a new channel. Nothing is claimed of them.
#[verifier::external_body]
fn channel<B>() -> (ends: (UnboundedSender<B>, UnboundedReceiver<B>)) {
    unbounded_channel()
}

/// `UnboundedSender::send` of tokio. It fails when the receiving end is closed or gone, and
/// then hands the message back; whether it fails is not said.
#[verifier::external_body]
fn channel_send<B>(sender: &UnboundedSender<B>, buf: B) -> (sent: Result<(), B>)
    ensures
        sent matches Err(back) ==> back == buf,
{
    match sender.send(buf) {
        Ok(()) => Ok(()),
        Err(error) => Err(error.0),
    }
}

/// `UnboundedSender::is_closed` of tokio: whether the receiving end is closed or gone.
/// Which of the two it answers is not said.
#[verifier::external_body]
fn channel_is_closed<B>(sender: &UnboundedSender<B>) -> (closed: bool) {
    sender.is_closed()
}

/// How connections are made: `connect` starts what opens a connection to `remote`, hands
/// every message that arrives on it to `on_buf`, and writes to it what comes out of
/// `receiver`.
pub trait Protocol<B> {
    fn connect<F: FnMut(&[u8]) -> Result<(), Error> + Clone + Send + 'static>(
        &self,
        remote: SocketAddr,
        on_buf: F,
        receiver: UnboundedReceiver<B>,
    );
}

/// A connection: the sending end of the channel to what writes to it, and whether it has
/// been used since the last sweep.
#[verifier::reject_recursive_types(B)]
pub struct Connection<B> {
    sender: UnboundedSender<B>,
    using: bool,
}

/// [`Connection`] as a mathematical value.
#[verifier::reject_recursive_types(B)]
pub struct ConnectionView<B> {
    pub sender: UnboundedSender<B>,
    pub using: bool,
}

impl<B> View for Connection<B> {
    type V = ConnectionView<B>;

    closed spec fn view(&self) -> ConnectionView<B> {
        ConnectionView { sender: self.sender, using: self.using }
    }
}

/// The connections of a stream protocol, one for each remote address, made when the first
/// message for the address is sent and dropped when they lie idle.
#[verifier::reject_recursive_types(B)]
pub struct Dispatch<P, B, F> {
    protocol: P,
    connections: Table<SocketAddr, Connection<B>>,
    on_buf: F,
}

/// A message to be sent to an address.
pub struct Outgoing<B>(pub SocketAddr, pub B);

/// A handle on a [`Dispatch`] as a network: messages for addresses go to it as events.
#[derive(Clone)]
pub struct DispatchNet<E>(pub E);

impl<E: SendEvent<Outgoing<B>>, B> SendMessage<SocketAddr, B> for DispatchNet<E> {
    /// Sending a message to an address is sending the two to the dispatch, as one event.
    open spec fn sends(
        &self,
        dest: SocketAddr,
        message: B,
        after: &Self,
        result: Result<(), Error>,
    ) -> bool {
        E::sends(&self.0, Outgoing(dest, message), &after.0, result)
    }

    fn send(&mut self, dest: SocketAddr, message: B) -> (result: Result<(), Error>) {
        self.0.send(Outgoing(dest, message))
    }
}

impl<P, B, F> View for Dispatch<P, B, F> {
    type V = Map<SocketAddr, ConnectionView<B>>;

    /// The addresses that have a connection, each with its connection.
    closed spec fn view(&self) -> Map<SocketAddr, ConnectionView<B>> {
        self.connections@
    }
}

impl<P, B, F> Dispatch<P, B, F> {
    /// How the dispatch makes connections.
    pub closed spec fn protocol(&self) -> P {
        self.protocol
    }

    /// What the dispatch hands to every connection that it makes, for the messages that
    /// arrive on it.
    pub closed spec fn on_buf(&self) -> F {
        self.on_buf
    }
}

/// Whether a connection stays at a sweep: only if it has been used since the last sweep,
/// and its channel is not closed.
pub fn stays(using: bool, closed: bool) -> (keep: bool)
    ensures
        keep == (using && !closed),
{
    using && !closed
}

impl<P: Protocol<B>, B, F: FnMut(&[u8]) -> Result<(), Error> + Clone + Send + 'static> Dispatch<
    P,
    B,
    F,
> {
    /// A dispatch without connections.
    pub fn new(protocol: P, on_buf: F) -> (dispatch: Result<Self, Error>)
        ensures
            dispatch matches Ok(dispatch) && {
                &&& dispatch@ == Map::<SocketAddr, ConnectionView<B>>::empty()
                &&& dispatch.protocol() == protocol
                &&& dispatch.on_buf() == on_buf
            },
    {
        Ok(Self { protocol, connections: Table::new(), on_buf })
    }

    /// What becomes of a connection to `remote` once a message has been handed to its
    /// channel: if the channel took the message, the connection is kept as one that is
    /// used; if not, the connection is dropped and the message is handed back, for a new
    /// connection.
    pub fn settle(&mut self, remote: SocketAddr, connection: Connection<B>, sent: Result<(), B>) -> (back:
        Option<B>)
        ensures
            final(self).protocol() == old(self).protocol(),
            final(self).on_buf() == old(self).on_buf(),
            match sent {
                Ok(()) => {
                    &&& back is None
                    &&& final(self)@ == old(self)@.insert(
                        remote,
                        ConnectionView { sender: connection@.sender, using: true },
                    )
                },
                Err(buf) => {
                    &&& back == Some(buf)
                    &&& final(self)@ == old(self)@.remove(remote)
                },
            },
    {
        match sent {
            Ok(()) => {
                let Connection { sender, using: _ } = connection;
                self.connections.insert(remote, Connection { sender, using: true });
                None
            },
            Err(buf) => {
                self.connections.remove(&remote);
                Some(buf)
            },
        }
    }

    /// What becomes of a new channel to `remote` once the first message has been handed
    /// to it: if the channel took the message, it is the connection to `remote`, as one
    /// that is used; if not, it is dropped and nothing changes.
    pub fn open(&mut self, remote: SocketAddr, sender: UnboundedSender<B>, sent: Result<(), B>)
        ensures
            final(self).protocol() == old(self).protocol(),
            final(self).on_buf() == old(self).on_buf(),
            match sent {
                Ok(()) => final(self)@ == old(self)@.insert(
                    remote,
                    ConnectionView { sender, using: true },
                ),
                Err(_) => final(self)@ == old(self)@,
            },
    {
        match sent {
            Ok(()) => {
                self.connections.insert(remote, Connection { sender, using: true });
            },
            Err(_) => {},
        }
    }

    /// Sends a message: on the connection to its address if there is one that takes it,
    /// and else on a new one, which replaces the old. Whether a channel takes the message
    /// is not said; [`settle`](Self::settle) and [`open`](Self::open) say what follows
    /// either way. Afterwards a connection to the address, if there is one, counts as
    /// used; the connections to other addresses are as before.
    pub fn on_outgoing(&mut self, outgoing: Outgoing<B>)
        ensures
            final(self).protocol() == old(self).protocol(),
            final(self).on_buf() == old(self).on_buf(),
            final(self)@.remove(outgoing.0) == old(self)@.remove(outgoing.0),
            final(self)@.contains_key(outgoing.0) ==> final(self)@[outgoing.0].using,
    {
        let Outgoing(remote, buf) = outgoing;
        let buf = match self.connections.remove(&remote) {
            Some(connection) => {
                let sent = channel_send(&connection.sender, buf);
                match self.settle(remote, connection, sent) {
                    Some(buf) => buf,
                    None => {
                        assert(self@.remove(remote) =~= old(self)@.remove(remote));
                        return ;
                    },
                }
            },
            None => buf,
        };
        assert(self@ =~= old(self)@.remove(remote));
        let (sender, receiver) = channel();
        self.protocol.connect(remote, self.on_buf.clone(), receiver);
        let sent = channel_send(&sender, buf);
        self.open(remote, sender, sent);
        assert(self@.remove(remote) =~= old(self)@.remove(remote));
    }

    /// A connection that the other side has opened: with the address that it gave for
    /// itself, the connection takes the place of any to that address, as one that has not
    /// been used, and what is to be written to it comes out of the receiver handed back.
    /// Without an address nothing changes.
    pub fn on_incoming(&mut self, preamble: Option<SocketAddr>) -> (receiver: Option<
        UnboundedReceiver<B>,
    >)
        ensures
            final(self).protocol() == old(self).protocol(),
            final(self).on_buf() == old(self).on_buf(),
            match preamble {
                Some(remote) => {
                    &&& receiver is Some
                    &&& final(self)@.remove(remote) == old(self)@.remove(remote)
                    &&& final(self)@.contains_key(remote)
                    &&& !final(self)@[remote].using
                },
                None => receiver is None && final(self)@ == old(self)@,
            },
    {
        match preamble {
            Some(remote) => {
                let (sender, receiver) = channel();
                self.connections.insert(remote, Connection { sender, using: false });
                assert(self@.remove(remote) =~= old(self)@.remove(remote));
                Some(receiver)
            },
            None => None,
        }
    }

    /// The sweep: a connection stays only if it has been used since the last sweep, and
    /// then only if its channel is open, as [`stays`] says; those that stay count as
    /// unused from now on.
    pub fn on_timer(&mut self)
        ensures
            final(self).protocol() == old(self).protocol(),
            final(self).on_buf() == old(self).on_buf(),
            forall|remote: SocketAddr| #[trigger]
                final(self)@.contains_key(remote) ==> {
                    &&& old(self)@.contains_key(remote)
                    &&& old(self)@[remote].using
                    &&& final(self)@[remote] == (ConnectionView {
                        sender: old(self)@[remote].sender,
                        using: false,
                    })
                },
    {
        let remotes = self.connections.keys();
        let mut i: usize = 0;
        while i < remotes.len()
            invariant
                i <= remotes.len(),
                self.protocol() == old(self).protocol(),
                self.on_buf() == old(self).on_buf(),
                remotes@.no_duplicates(),
                remotes@.to_set() == old(self)@.dom(),
                forall|remote: SocketAddr| #[trigger]
                    self@.contains_key(remote) ==> old(self)@.contains_key(remote),
                forall|j: int|
                    0 <= j < i && self@.contains_key(#[trigger] remotes@[j]) ==> old(self)@[remotes@[j]].using
                        && self@[remotes@[j]] == (ConnectionView {
                        sender: old(self)@[remotes@[j]].sender,
                        using: false,
                    }),
                forall|j: int|
                    i <= j < remotes.len() ==> self@.contains_key(#[trigger] remotes@[j]) && self@[remotes@[j]] == old(self)@[remotes@[j]],
            decreases remotes.len() - i,
        {
            let remote = remotes[i];
            let ghost before = self@;
            match self.connections.remove(&remote) {
                Some(connection) => {
                    let closed = channel_is_closed(&connection.sender);
                    if stays(connection.using, closed) {
                        let Connection { sender, using: _ } = connection;
                        self.connections.insert(remote, Connection { sender, using: false });
                    }
                },
                None => {},
            }
            assert forall|j: int| 0 <= j < remotes.len() && j != i implies (self@.contains_key(
                #[trigger] remotes@[j],
            ) == before.contains_key(remotes@[j]) && self@[remotes@[j]] == before[remotes@[j]]) by {
                assert(remotes@[j] != remotes@[i as int]);
            }
            i += 1;
        }
        assert forall|remote: SocketAddr| #[trigger] self@.contains_key(remote) implies old(self)@.contains_key(remote) && old(self)@[remote].using && self@[remote] == (ConnectionView {
            sender: old(self)@[remote].sender,
            using: false,
        }) by {
            assert(remotes@.to_set().contains(remote));
            let j = choose|j: int| 0 <= j < remotes@.len() && remotes@[j] == remote;
            assert(self@.contains_key(remotes@[j]));
        }
    }
}

/// What the side that opens a TCP connection writes first: the encoding of its own
/// address, or of the lack of one, filled up with zeros to the length of the preamble.
pub fn preamble(encoded: Vec<u8>) -> (preamble: Vec<u8>)
    requires
        encoded.len() < TCP_PREAMBLE_LEN,
    ensures
        preamble.len() == TCP_PREAMBLE_LEN,
        preamble@.subrange(0, encoded.len() as int) == encoded@,
        forall|i: int| encoded.len() <= i < TCP_PREAMBLE_LEN ==> preamble[i] == 0,
{
    let mut preamble = encoded;
    while preamble.len() < TCP_PREAMBLE_LEN
        invariant
            encoded.len() <= preamble.len() <= TCP_PREAMBLE_LEN,
            preamble@.subrange(0, encoded.len() as int) == encoded@,
            forall|i: int| encoded.len() <= i < preamble.len() ==> preamble[i] == 0,
        decreases TCP_PREAMBLE_LEN - preamble.len(),
    {
        let ghost before = preamble@;
        preamble.push(0);
        assert(preamble@.subrange(0, encoded.len() as int) =~= before.subrange(
            0,
            encoded.len() as int,
        ));
    }
    preamble
}

/// The length of a message as its length prefix announces it: one that is longer than the
/// longest message is refused.
pub fn message_len(announced: u64) -> (len: Result<usize, Error>)
    ensures
        match len {
            Ok(len) => len == announced && announced <= MAX_BUF_LEN,
            Err(error) => error == Error::Refused && announced > MAX_BUF_LEN,
        },
{
    if announced > MAX_BUF_LEN as u64 {
        Err(Error::Refused)
    } else {
        Ok(announced as usize)
    }
}

} // verus!
