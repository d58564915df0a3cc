use crate::crypto::{PublicKey, H256};
use crate::entropy::buffer::bytes_content;
use crate::event::SendEvent;
use crate::net::{Multicast, Payload, Recv, SendMessage};
use bytes::Bytes;
use std::sync::Arc;
use tokio_util::sync::CancellationToken;
use vstd::prelude::*;

pub mod buffer;
pub mod cancel;
pub mod codec;
pub mod fs;
pub mod laws;
pub mod model;
pub mod peer;

pub use crate::entropy::peer::{Event, Peer};

verus! {

/// The identifier of a chunk: an object of `k` fragments.
pub type Chunk = H256;

/// The identifier of a peer: the digest of its public key.
pub type PeerId = H256;

/// What names a chunk. The protocol asks one thing of it: that it always names the same chunk.
pub trait Preimage {
    /// The chunk that this names.
    spec fn chunk(&self) -> Chunk;

    /// The chunk that this names.
    fn target(&self) -> (chunk: Chunk)
        ensures
            chunk == self.chunk(),
    ;
}

impl Preimage for H256 {
    open spec fn chunk(&self) -> Chunk {
        *self
    }

    fn target(&self) -> (chunk: Chunk) {
        *self
    }
}

/// Asks the peers closest to a chunk to keep a fragment of it each.
#[derive(Debug, Clone, Copy, PartialEq, Eq, Structural)]
pub struct Invite {
    pub chunk: Chunk,
    pub peer_id: PeerId,
}

/// The answer to an [`Invite`]: the index of the fragment that the sender will keep.
#[derive(Debug, Clone, Copy, PartialEq, Eq)]
pub struct InviteOk {
    pub chunk: Chunk,
    pub index: u32,
    pub proof: (),
    pub peer_id: PeerId,
}

/// What comes with a fragment in bulk: which fragment it is, and to whom a receipt is owed,
/// if to anyone.
#[derive(Debug, Clone, Copy, PartialEq, Eq, Structural)]
pub struct SendFragment {
    pub chunk: Chunk,
    pub index: u32,
    pub peer_id: Option<PeerId>,
}

/// The receipt of a peer that keeps a fragment of the chunk. It goes out signed.
#[derive(Debug, Clone, Copy, PartialEq, Eq, Structural, Hash)]
pub struct FragmentAvailable {
    pub chunk: Chunk,
    pub peer_id: PeerId,
    pub peer_key: PublicKey,
}

/// Asks the peers closest to a chunk for their fragments of it.
#[derive(Debug, Clone, Copy, PartialEq, Eq, Structural)]
pub struct Pull {
    pub chunk: Chunk,
    pub peer_id: PeerId,
}

/// Store the buffer as the chunk of the preimage.
#[derive(Debug, Clone)]
pub struct Put<K>(pub K, pub Bytes);

/// Fetch the chunk of the preimage.
#[derive(Debug, Clone)]
pub struct Get<K>(pub K);

/// The chunk of the preimage is stored.
#[derive(Debug, Clone)]
pub struct PutOk<K>(pub K);

/// The chunk of the preimage, fetched.
#[derive(Debug, Clone)]
pub struct GetOk<K>(pub K, pub Payload);

/// The encoder of a chunk is built.
#[derive(Debug)]
pub struct NewEncoder<E>(pub Chunk, pub E);

/// The fragment of a chunk at an index.
#[derive(Debug, Clone)]
pub struct Encode(pub Chunk, pub u32, pub Payload);

/// The decoder of a chunk comes back: it needs more fragments.
#[derive(Debug)]
pub struct Decode<D>(pub Chunk, pub D);

/// The chunk, recovered from its fragments.
#[derive(Debug, Clone)]
pub struct Recover(pub Chunk, pub Payload);

/// The fragment of a chunk at this peer's index, encoded anew from the recovered chunk.
#[derive(Debug, Clone)]
pub struct RecoverEncode(pub Chunk, pub Payload);

/// A fragment of a chunk has arrived in bulk.
#[derive(Debug)]
pub struct DownloadOk(pub Chunk, pub u32, pub Payload);

/// [`Put`] as a mathematical value.
pub struct PutView<K>(pub K, pub Seq<u8>);

/// [`GetOk`] as a mathematical value.
pub struct GetOkView<K>(pub K, pub Seq<u8>);

/// [`Encode`] as a mathematical value.
pub struct EncodeView(pub Chunk, pub u32, pub Seq<u8>);

/// [`Recover`] as a mathematical value.
pub struct RecoverView(pub Chunk, pub Seq<u8>);

/// [`RecoverEncode`] as a mathematical value.
pub struct RecoverEncodeView(pub Chunk, pub Seq<u8>);

/// [`DownloadOk`] as a mathematical value.
pub struct DownloadOkView(pub Chunk, pub u32, pub Seq<u8>);

impl<K> View for Put<K> {
    type V = PutView<K>;

    open spec fn view(&self) -> PutView<K> {
        PutView(self.0, bytes_content(self.1))
    }
}

impl<K> View for GetOk<K> {
    type V = GetOkView<K>;

    open spec fn view(&self) -> GetOkView<K> {
        GetOkView(self.0, self.1@)
    }
}

impl View for Encode {
    type V = EncodeView;

    open spec fn view(&self) -> EncodeView {
        EncodeView(self.0, self.1, self.2@)
    }
}

impl View for Recover {
    type V = RecoverView;

    open spec fn view(&self) -> RecoverView {
        RecoverView(self.0, self.1@)
    }
}

impl View for RecoverEncode {
    type V = RecoverEncodeView;

    open spec fn view(&self) -> RecoverEncodeView {
        RecoverEncodeView(self.0, self.1@)
    }
}

impl View for DownloadOk {
    type V = DownloadOkView;

    open spec fn view(&self) -> DownloadOkView {
        DownloadOkView(self.0, self.1, self.2@)
    }
}

/// A job for the codec worker. The worker answers each with one event: see
/// [`codec`](crate::entropy::codec).
#[derive(Debug)]
pub enum Work<E, D> {
    /// Build the encoder of the chunk from its bytes, in fragments of the given length.
    NewEncoder { chunk: Chunk, buf: Bytes, fragment_len: u32 },
    /// Encode the fragment of the chunk at the index.
    Encode { chunk: Chunk, index: u32, encoder: Arc<E> },
    /// Feed the fragment at the index to the decoder of the chunk. Once the chunk is
    /// recovered, encode the fragment at `encode_index`, where there is one.
    Decode { chunk: Chunk, index: u32, fragment: Payload, decoder: D, encode_index: Option<u32> },
}

/// [`Work`] as a mathematical value.
pub enum WorkView<E, D> {
    NewEncoder { chunk: Chunk, buf: Seq<u8>, fragment_len: u32 },
    Encode { chunk: Chunk, index: u32, encoder: E },
    Decode { chunk: Chunk, index: u32, fragment: Seq<u8>, decoder: D, encode_index: Option<u32> },
}

impl<E, D> View for Work<E, D> {
    type V = WorkView<E, D>;

    open spec fn view(&self) -> WorkView<E, D> {
        match *self {
            Work::NewEncoder { chunk, buf, fragment_len } => WorkView::NewEncoder {
                chunk,
                buf: bytes_content(buf),
                fragment_len,
            },
            Work::Encode { chunk, index, encoder } => WorkView::Encode {
                chunk,
                index,
                encoder: *encoder,
            },
            Work::Decode { chunk, index, fragment, decoder, encode_index } => WorkView::Decode {
                chunk,
                index,
                fragment: fragment@,
                decoder,
                encode_index,
            },
        }
    }
}

/// What a peer asks of the world around it in answer to an event. The peer decides; the
/// session that owns the peer carries the actions out, in the order given.
#[derive(Debug)]
#[allow(inconsistent_fields)]
pub enum Action<K, E, D> {
    /// Hand the job to the codec worker.
    Submit(Work<E, D>),
    /// Send the message to the peers closest to the target.
    SendInvite(Multicast, Invite),
    /// Send the message to the peer.
    SendInviteOk(PeerId, InviteOk),
    /// Sign the message and send it to the peer.
    SendFragmentAvailable(PeerId, FragmentAvailable),
    /// Send the message to the peers closest to the target.
    SendPull(Multicast, Pull),
    /// Offer the bytes to the peer in bulk. The transfer stops when the token is cancelled.
    Offer { peer_id: PeerId, meta: SendFragment, payload: Bytes, cancel: Option<CancellationToken> },
    /// Accept the bulk offer that came with `meta`, of `expected_len` bytes, and hand them
    /// back as a [`DownloadOk`] of the chunk and index in `meta`. The transfer stops when
    /// the token is cancelled.
    Accept { meta: SendFragment, expected_len: usize, cancel: CancellationToken },
    /// Ask the fragment store to keep a fragment.
    Store(fs::Store),
    /// Ask the fragment store for a fragment.
    Load(fs::Load),
    /// Tell the caller that its chunk is stored.
    PutOk(PutOk<K>),
    /// Hand the caller its chunk.
    GetOk(GetOk<K>),
    /// Cancel the token, and with it what runs under it.
    Cancel(CancellationToken),
}

/// [`Action`] as a mathematical value.
#[allow(inconsistent_fields)]
pub enum ActionView<K, E, D> {
    Submit(WorkView<E, D>),
    SendInvite(Multicast, Invite),
    SendInviteOk(PeerId, InviteOk),
    SendFragmentAvailable(PeerId, FragmentAvailable),
    SendPull(Multicast, Pull),
    Offer { peer_id: PeerId, meta: SendFragment, payload: Seq<u8>, cancel: Option<CancellationToken> },
    Accept { meta: SendFragment, expected_len: usize, cancel: CancellationToken },
    Store(fs::StoreView),
    Load(fs::Load),
    PutOk(PutOk<K>),
    GetOk(GetOkView<K>),
    Cancel(CancellationToken),
}

impl<K, E, D> View for Action<K, E, D> {
    type V = ActionView<K, E, D>;

    open spec fn view(&self) -> ActionView<K, E, D> {
        match *self {
            Action::Submit(work) => ActionView::Submit(work@),
            Action::SendInvite(to, message) => ActionView::SendInvite(to, message),
            Action::SendInviteOk(to, message) => ActionView::SendInviteOk(to, message),
            Action::SendFragmentAvailable(to, message) => ActionView::SendFragmentAvailable(
                to,
                message,
            ),
            Action::SendPull(to, message) => ActionView::SendPull(to, message),
            Action::Offer { peer_id, meta, payload, cancel } => ActionView::Offer {
                peer_id,
                meta,
                payload: bytes_content(payload),
                cancel,
            },
            Action::Accept { meta, expected_len, cancel } => ActionView::Accept {
                meta,
                expected_len,
                cancel,
            },
            Action::Store(store) => ActionView::Store(store@),
            Action::Load(load) => ActionView::Load(load),
            Action::PutOk(put_ok) => ActionView::PutOk(put_ok),
            Action::GetOk(get_ok) => ActionView::GetOk(get_ok@),
            Action::Cancel(token) => ActionView::Cancel(token),
        }
    }
}

/// The actions of a list, each as a mathematical value.
pub open spec fn views<K, E, D>(actions: Seq<Action<K, E, D>>) -> Seq<ActionView<K, E, D>> {
    actions.map_values(|action: Action<K, E, D>| action@)
}

/// Why a peer refuses an event.
#[derive(Debug, Clone, Copy, PartialEq, Eq, Structural)]
pub enum Error {
    /// The buffer of a [`Put`] is not `k` fragments long.
    ChunkLength,
    /// The chunk of a [`Put`] is being uploaded already.
    DuplicateUpload(Chunk),
    /// The chunk of a [`Get`] is being downloaded already.
    DuplicateDownload(Chunk),
    /// A fragment for this peer's own index came without the peer to send the receipt to.
    MissingPeerId,
    /// No decoder could be built for a chunk.
    Decoder,
}

/// A message with the signature of its sender.
#[derive(Debug, Clone)]
pub struct Verifiable<M> {
    pub inner: M,
    pub signature: Vec<u8>,
}

/// What travels between peers: the messages of the object store, those of the overlay
/// (`F` and `O`, a search for peers and its answer) and those of the bulk service (`B`).
#[derive(Debug, Clone)]
pub enum Message<F, O, B> {
    Invite(Invite),
    InviteOk(InviteOk),
    Pull(Pull),
    FragmentAvailable(Verifiable<FragmentAvailable>),
    FindPeer(F),
    FindPeerOk(O),
    BlobServe(B),
}

/// A message of the object store as it came from the network.
#[derive(Debug, Clone)]
pub enum RecvEvent {
    Invite(Recv<Invite>),
    InviteOk(Recv<InviteOk>),
    Pull(Recv<Pull>),
    FragmentAvailable(Recv<Verifiable<FragmentAvailable>>),
}

/// A message of the overlay as it came from the network.
#[derive(Debug, Clone)]
pub enum OverlayEvent<F, O> {
    FindPeer(Recv<F>),
    FindPeerOk(Recv<O>),
}

/// Where a message that came from the network goes.
#[derive(Debug, Clone)]
pub enum Delivery<F, O, B> {
    /// To the session of the peer of the object store.
    Entropy(RecvEvent),
    /// To the session of the overlay.
    Kademlia(OverlayEvent<F, O>),
    /// To the session of the bulk service.
    Blob(Recv<B>),
}

/// Where each message goes: the four of the object store to its peer, the two of the
/// overlay to the overlay, the one of the bulk service to the bulk service.
pub open spec fn route<F, O, B>(message: Message<F, O, B>) -> Delivery<F, O, B> {
    match message {
        Message::Invite(message) => Delivery::Entropy(RecvEvent::Invite(Recv(message))),
        Message::InviteOk(message) => Delivery::Entropy(RecvEvent::InviteOk(Recv(message))),
        Message::Pull(message) => Delivery::Entropy(RecvEvent::Pull(Recv(message))),
        Message::FragmentAvailable(message) => Delivery::Entropy(
            RecvEvent::FragmentAvailable(Recv(message)),
        ),
        Message::FindPeer(message) => Delivery::Kademlia(OverlayEvent::FindPeer(Recv(message))),
        Message::FindPeerOk(message) => Delivery::Kademlia(OverlayEvent::FindPeerOk(Recv(message))),
        Message::BlobServe(message) => Delivery::Blob(Recv(message)),
    }
}

/// Sorts a message that came from the network to the session that handles it.
pub fn on_buf<F, O, B>(message: Message<F, O, B>) -> (delivery: Delivery<F, O, B>)
    ensures
        delivery == route(message),
{
    match message {
        Message::Invite(message) => Delivery::Entropy(RecvEvent::Invite(Recv(message))),
        Message::InviteOk(message) => Delivery::Entropy(RecvEvent::InviteOk(Recv(message))),
        Message::Pull(message) => Delivery::Entropy(RecvEvent::Pull(Recv(message))),
        Message::FragmentAvailable(message) => Delivery::Entropy(
            RecvEvent::FragmentAvailable(Recv(message)),
        ),
        Message::FindPeer(message) => Delivery::Kademlia(OverlayEvent::FindPeer(Recv(message))),
        Message::FindPeerOk(message) => Delivery::Kademlia(OverlayEvent::FindPeerOk(Recv(message))),
        Message::BlobServe(message) => Delivery::Blob(Recv(message)),
    }
}

/// The network as a peer's session needs it: it takes the four messages of the object
/// store.
pub trait Net: SendMessage<Multicast, Invite> + SendMessage<PeerId, InviteOk> + SendMessage<
    PeerId,
    Verifiable<FragmentAvailable>,
> + SendMessage<Multicast, Pull> {

}

impl<
    T: SendMessage<Multicast, Invite> + SendMessage<PeerId, InviteOk> + SendMessage<
        PeerId,
        Verifiable<FragmentAvailable>,
    > + SendMessage<Multicast, Pull>,
> Net for T {

}

/// The caller of a peer as the peer's session needs it: it takes the news of a stored
/// chunk and the bytes of a fetched one.
pub trait Upcall<K>: SendEvent<PutOk<K>> + SendEvent<GetOk<K>> {

}

impl<T: SendEvent<PutOk<K>> + SendEvent<GetOk<K>>, K> Upcall<K> for T {

}

/// Where the codec worker sends its answers.
pub trait SendCodecEvent<E, D>: SendEvent<NewEncoder<E>> + SendEvent<Encode> + SendEvent<
    Decode<D>,
> + SendEvent<Recover> + SendEvent<RecoverEncode> {

}

impl<
    T: SendEvent<NewEncoder<E>> + SendEvent<Encode> + SendEvent<Decode<D>> + SendEvent<
        Recover,
    > + SendEvent<RecoverEncode>,
    E,
    D,
> SendCodecEvent<E, D> for T {

}

/// Where the requests to the fragment store go.
pub trait SendFsEvent: SendEvent<fs::Store> + SendEvent<fs::Load> {

}

impl<T: SendEvent<fs::Store> + SendEvent<fs::Load>> SendFsEvent for T {

}

/// Where the messages of the object store go when they have come from the network.
pub trait SendRecvEvent: SendEvent<Recv<Invite>> + SendEvent<Recv<InviteOk>> + SendEvent<
    Recv<Pull>,
> + SendEvent<Recv<Verifiable<FragmentAvailable>>> {

}

impl<
    T: SendEvent<Recv<Invite>> + SendEvent<Recv<InviteOk>> + SendEvent<Recv<Pull>> + SendEvent<
        Recv<Verifiable<FragmentAvailable>>,
    >,
> SendRecvEvent for T {

}

} // verus!
