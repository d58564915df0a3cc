use crate::crypto::PublicKey;
use crate::entropy::buffer::{bytes_content, bytes_from, bytes_len};
use crate::entropy::cancel::token_new;
use crate::entropy::fs::{Load, LoadOk, Store, StoreOk};
use crate::entropy::model::{
    DownloadStateView, Input, Outcome, PeerView, PersistStateView, PersistStatusView,
    RecoverStateView, UploadStateView,
};
use crate::table::Table;
use crate::entropy::{
    views, Action, ActionView, Chunk, Decode, DownloadOk, Encode, Error, FragmentAvailable, Get,
    GetOk, Invite, InviteOk, NewEncoder, PeerId, Preimage, Pull, Put, PutOk, Recover,
    RecoverEncode, SendFragment, Work,
};
use crate::net::{Multicast, Payload, Recv};
use std::collections::{HashMap, HashSet};
use std::sync::Arc;
use tokio_util::sync::CancellationToken;
use vstd::prelude::*;
use vstd::std_specs::iter::IteratorSpec;

verus! {

/// The parameters of a peer, fixed when it is made.
struct Config {
    fragment_len: u32,
    chunk_k: usize,
    chunk_n: usize,
    chunk_m: usize,
}

impl Config {
    #[verifier::type_invariant]
    spec fn valid(&self) -> bool {
        &&& 0 < self.chunk_k
        &&& 0 < self.chunk_n
        &&& 0 < self.chunk_m
        &&& self.fragment_len * self.chunk_k <= u64::MAX
    }
}

struct UploadState<K, E> {
    preimage: K,
    encoder: Option<Arc<E>>,
    pending: HashMap<u32, PeerId>,
    available: Table<PeerId, ()>,
    cancel: CancellationToken,
}

struct RecoverState<D> {
    decoder: Option<D>,
    pending: HashMap<u32, Payload>,
    received: HashSet<u32>,
    cancel: CancellationToken,
}

struct DownloadState<K, D> {
    preimage: K,
    recover: RecoverState<D>,
}

enum PersistStatus<D> {
    Recovering(RecoverState<D>),
    Storing,
    Available,
}

struct PersistState<D> {
    index: u32,
    status: PersistStatus<D>,
    notify: Option<PeerId>,
}

/// A peer of the object store. For each chunk it may upload it, download it, or keep a
/// fragment of it; which of these it does shows in the table that holds the chunk.
///
/// The peer only decides. Each event gives a list of [`Action`]s, which the session that
/// owns the peer carries out.
pub struct Peer<K, E, D> {
    id: PeerId,
    key: PublicKey,
    config: Config,
    uploads: Table<Chunk, UploadState<K, E>>,
    downloads: Table<Chunk, DownloadState<K, D>>,
    persists: Table<Chunk, PersistState<D>>,
    pending_pulls: Table<Chunk, Vec<PeerId>>,
}

impl<K, E> View for UploadState<K, E> {
    type V = UploadStateView<K, E>;

    closed spec fn view(&self) -> UploadStateView<K, E> {
        UploadStateView {
            preimage: self.preimage,
            encoder: match self.encoder {
                Some(encoder) => Some(*encoder),
                None => None,
            },
            pending: self.pending@,
            available: self.available@.dom(),
            cancel: self.cancel,
        }
    }
}

impl<D> View for RecoverState<D> {
    type V = RecoverStateView<D>;

    closed spec fn view(&self) -> RecoverStateView<D> {
        RecoverStateView {
            decoder: self.decoder,
            pending: self.pending@.map_values(|fragment: Payload| fragment@),
            received: self.received@,
            cancel: self.cancel,
        }
    }
}

impl<K, D> View for DownloadState<K, D> {
    type V = DownloadStateView<K, D>;

    closed spec fn view(&self) -> DownloadStateView<K, D> {
        DownloadStateView { preimage: self.preimage, recover: self.recover@ }
    }
}

impl<D> View for PersistStatus<D> {
    type V = PersistStatusView<D>;

    closed spec fn view(&self) -> PersistStatusView<D> {
        match *self {
            PersistStatus::Recovering(recover) => PersistStatusView::Recovering(recover@),
            PersistStatus::Storing => PersistStatusView::Storing,
            PersistStatus::Available => PersistStatusView::Available,
        }
    }
}

impl<D> View for PersistState<D> {
    type V = PersistStateView<D>;

    closed spec fn view(&self) -> PersistStateView<D> {
        PersistStateView { index: self.index, status: self.status@, notify: self.notify }
    }
}

impl<K, E, D> View for Peer<K, E, D> {
    type V = PeerView<K, E, D>;

    closed spec fn view(&self) -> PeerView<K, E, D> {
        PeerView {
            id: self.id,
            key: self.key,
            fragment_len: self.config.fragment_len,
            chunk_k: self.config.chunk_k,
            chunk_n: self.config.chunk_n,
            chunk_m: self.config.chunk_m,
            uploads: self.uploads@,
            downloads: self.downloads@,
            persists: self.persists@,
            pending_pulls: self.pending_pulls@,
        }
    }
}

/// What a handler hands back, as a mathematical value.
pub open spec fn result_view<K, E, D>(result: Result<Vec<Action<K, E, D>>, Error>) -> Result<
    Seq<ActionView<K, E, D>>,
    Error,
> {
    match result {
        Ok(actions) => Ok(views(actions@)),
        Err(error) => Err(error),
    }
}

fn no_actions<K, E, D>() -> (actions: Vec<Action<K, E, D>>)
    ensures
        views(actions@) == Seq::<ActionView<K, E, D>>::empty(),
{
    let actions = Vec::new();
    assert(views(actions@) =~= Seq::<ActionView<K, E, D>>::empty());
    actions
}

fn push_action<K, E, D>(actions: &mut Vec<Action<K, E, D>>, action: Action<K, E, D>)
    ensures
        views(final(actions)@) == views(old(actions)@).push(action@),
{
    actions.push(action);
    assert(views(actions@) =~= views(old(actions)@).push(action@));
}

fn one_action<K, E, D>(action: Action<K, E, D>) -> (actions: Vec<Action<K, E, D>>)
    ensures
        views(actions@) == seq![action@],
{
    let mut actions = no_actions();
    push_action(&mut actions, action);
    actions
}

impl<K: Preimage, E, D> Peer<K, E, D> {
    /// A peer with the given identifier and key, for chunks of `chunk_k` fragments of
    /// `fragment_len` bytes each, of which `chunk_n` are placed among `chunk_m` invited
    /// peers. Its tables are empty.
    pub fn new(
        id: PeerId,
        key: PublicKey,
        fragment_len: u32,
        chunk_k: usize,
        chunk_n: usize,
        chunk_m: usize,
    ) -> (peer: Self)
        requires
            0 < chunk_k,
            0 < chunk_n,
            0 < chunk_m,
            fragment_len * chunk_k <= u64::MAX,
        ensures
            peer@ == PeerView::<K, E, D>::empty(id, key, fragment_len, chunk_k, chunk_n, chunk_m),
    {
        Peer {
            id,
            key,
            config: Config { fragment_len, chunk_k, chunk_n, chunk_m },
            uploads: Table::new(),
            downloads: Table::new(),
            persists: Table::new(),
            pending_pulls: Table::new(),
        }
    }

    /// The identifier of the peer.
    pub fn id(&self) -> (id: PeerId)
        ensures
            id == self@.id,
    {
        self.id
    }

    /// Whether the peer uploads the chunk.
    pub fn is_uploading(&self, chunk: &Chunk) -> (uploading: bool)
        ensures
            uploading == self@.uploads.contains_key(*chunk),
    {
        self.uploads.contains_key(chunk)
    }

    /// Whether the peer downloads the chunk.
    pub fn is_downloading(&self, chunk: &Chunk) -> (downloading: bool)
        ensures
            downloading == self@.downloads.contains_key(*chunk),
    {
        self.downloads.contains_key(chunk)
    }

    /// The index that the peer has promised for the chunk, if it has promised one.
    pub fn promised_index(&self, chunk: &Chunk) -> (index: Option<u32>)
        ensures
            index == if self@.persists.contains_key(*chunk) {
                Some(self@.persists[*chunk].index)
            } else {
                None
            },
    {
        match self.persists.get(chunk) {
            Some(state) => Some(state.index),
            None => None,
        }
    }

    /// Whether the peer keeps its fragment of the chunk.
    pub fn is_available(&self, chunk: &Chunk) -> (available: bool)
        ensures
            available == self@.serves(*chunk),
    {
        match self.persists.get(chunk) {
            Some(state) => match &state.status {
                PersistStatus::Available => true,
                _ => false,
            },
            None => false,
        }
    }

    /// `Put`, under a token of its own for the upload.
    pub fn on_put(&mut self, put: Put<K>) -> (result: Result<Vec<Action<K, E, D>>, Error>)
        ensures
            exists|cancel: CancellationToken|
                (Outcome { state: final(self)@, result: result_view(result) }) == old(self)@.put(
                    put@,
                    cancel,
                ),
    {
        let cancel = token_new();
        self.put_under(put, cancel)
    }

    /// `Put`, under the given token for the upload.
    pub fn put_under(&mut self, put: Put<K>, cancel: CancellationToken) -> (result: Result<
        Vec<Action<K, E, D>>,
        Error,
    >)
        ensures
            (Outcome { state: final(self)@, result: result_view(result) }) == old(self)@.put(
                put@,
                cancel,
            ),
    {
        let Put(preimage, buf) = put;
        let actual = bytes_len(&buf);
        let fits = match (self.config.fragment_len as usize).checked_mul(self.config.chunk_k) {
            Some(len) => actual == len,
            None => false,
        };
        if !fits {
            return Err(Error::ChunkLength);
        }
        let chunk = preimage.target();
        if self.uploads.contains_key(&chunk) {
            return Err(Error::DuplicateUpload(chunk));
        }
        self.uploads.insert(
            chunk,
            UploadState {
                preimage,
                encoder: None,
                pending: HashMap::new(),
                available: Table::new(),
                cancel,
            },
        );
        Ok(
            one_action(
                Action::Submit(
                    Work::NewEncoder { chunk, buf, fragment_len: self.config.fragment_len },
                ),
            ),
        )
    }

    /// Whether the peer is prepared for the encoder of the chunk.
    pub fn expects_new_encoder(&self, chunk: &Chunk) -> (expected: bool)
        ensures
            expected == self@.expects_new_encoder(*chunk),
    {
        match self.uploads.get(chunk) {
            Some(state) => state.encoder.is_none(),
            None => true,
        }
    }

    /// `NewEncoder`.
    pub fn on_new_encoder(&mut self, event: NewEncoder<E>) -> (actions: Vec<Action<K, E, D>>)
        requires
            old(self)@.expects_new_encoder(event.0),
        ensures
            (final(self)@, views(actions@)) == old(self)@.new_encoder(event.0, event.1),
    {
        let NewEncoder(chunk, encoder) = event;
        match self.uploads.remove(&chunk) {
            Some(mut state) => {
                state.encoder = Some(Arc::new(encoder));
                self.uploads.insert(chunk, state);
                assert(self.uploads@ =~= old(self).uploads@.insert(chunk, state@));
                one_action(
                    Action::SendInvite(
                        Multicast(chunk, self.config.chunk_m),
                        Invite { chunk, peer_id: self.id },
                    ),
                )
            },
            None => {
                assert(self.uploads@ =~= old(self).uploads@);
                no_actions()
            },
        }
    }

    /// The length of a chunk in bytes.
    fn chunk_len(&self) -> (len: u64)
        ensures
            len == self@.chunk_len(),
    {
        proof {
            use_type_invariant(&self.config);
        }
        assert(self.config.fragment_len * self.config.chunk_k <= u64::MAX);
        self.config.fragment_len as u64 * self.config.chunk_k as u64
    }

    /// `Invite`. For an invitation of another peer, `new_decoder` is asked for a decoder
    /// of chunks of this peer's length, in fragments of this peer's length, and an index is
    /// drawn at random.
    pub fn on_invite<F: FnOnce(u64, u32) -> Option<D>>(
        &mut self,
        invite: Invite,
        new_decoder: F,
    ) -> (result: Result<Vec<Action<K, E, D>>, Error>)
        requires
            new_decoder.requires((old(self)@.chunk_len() as u64, old(self)@.fragment_len)),
        ensures
            invite.peer_id == old(self)@.id ==> final(self)@ == old(self)@ && result_view(result)
                == Ok::<Seq<ActionView<K, E, D>>, Error>(seq![]),
            invite.peer_id != old(self)@.id ==> match result {
                Ok(actions) => exists|index: u32, decoder: D, cancel: CancellationToken|
                    {
                        &&& new_decoder.ensures(
                            (old(self)@.chunk_len() as u64, old(self)@.fragment_len),
                            Some(decoder),
                        )
                        &&& (final(self)@, views(actions@)) == old(self)@.invite(
                            invite,
                            index,
                            decoder,
                            cancel,
                        )
                    },
                Err(error) => {
                    &&& error == Error::Decoder
                    &&& new_decoder.ensures(
                        (old(self)@.chunk_len() as u64, old(self)@.fragment_len),
                        None,
                    )
                    &&& final(self)@ == old(self)@
                },
            },
    {
        if invite.peer_id == self.id {
            return Ok(no_actions());
        }
        let index = random_index();
        let decoder = match new_decoder(self.chunk_len(), self.config.fragment_len) {
            Some(decoder) => decoder,
            None => {
                return Err(Error::Decoder);
            },
        };
        let cancel = token_new();
        Ok(self.invite_with(invite, index, decoder, cancel))
    }

    /// `Invite`, with the index to promise, and the decoder and the token for the recovery
    /// of the chunk.
    pub fn invite_with(
        &mut self,
        invite: Invite,
        index: u32,
        decoder: D,
        cancel: CancellationToken,
    ) -> (actions: Vec<Action<K, E, D>>)
        ensures
            (final(self)@, views(actions@)) == old(self)@.invite(invite, index, decoder, cancel),
    {
        if invite.peer_id == self.id {
            return no_actions();
        }
        let promised = match self.persists.get(&invite.chunk) {
            Some(state) => state.index,
            None => {
                self.persists.insert(
                    invite.chunk,
                    PersistState {
                        index,
                        status: PersistStatus::Recovering(RecoverState::new(decoder, cancel)),
                        notify: None,
                    },
                );
                index
            },
        };
        one_action(
            Action::SendInviteOk(
                invite.peer_id,
                InviteOk { chunk: invite.chunk, index: promised, proof: (), peer_id: self.id },
            ),
        )
    }

    /// Whether the peer is prepared for the message.
    pub fn expects_invite_ok(&self, message: &InviteOk) -> (expected: bool)
        ensures
            expected == self@.expects_invite_ok(*message),
    {
        match self.uploads.get(&message.chunk) {
            Some(state) => state.pending.contains_key(&message.index) || state.encoder.is_some(),
            None => true,
        }
    }

    /// `InviteOk`.
    pub fn on_invite_ok(&mut self, message: InviteOk) -> (actions: Vec<Action<K, E, D>>)
        requires
            old(self)@.expects_invite_ok(message),
        ensures
            (final(self)@, views(actions@)) == old(self)@.invite_ok(message),
    {
        let reserved = match self.uploads.get(&message.chunk) {
            Some(state) => state.pending.contains_key(&message.index),
            None => true,
        };
        if reserved {
            return no_actions();
        }
        match self.uploads.remove(&message.chunk) {
            Some(mut state) => {
                state.pending.insert(message.index, message.peer_id);
                let encoder = state.encoder.as_ref().unwrap().clone();
                self.uploads.insert(message.chunk, state);
                assert(self.uploads@ =~= old(self).uploads@.insert(message.chunk, state@));
                one_action(
                    Action::Submit(
                        Work::Encode { chunk: message.chunk, index: message.index, encoder },
                    ),
                )
            },
            None => no_actions(),
        }
    }

    /// `Encode`.
    pub fn on_encode(&self, event: Encode) -> (actions: Vec<Action<K, E, D>>)
        ensures
            views(actions@) == self@.encode(event@),
    {
        let Encode(chunk, index, Payload(fragment)) = event;
        match self.uploads.get(&chunk) {
            Some(state) => match state.pending.get(&index) {
                Some(peer_id) => one_action(
                    Action::Offer {
                        peer_id: *peer_id,
                        meta: SendFragment { chunk, index, peer_id: Some(self.id) },
                        payload: bytes_from(fragment),
                        cancel: Some(state.cancel.clone()),
                    },
                ),
                None => no_actions(),
            },
            None => no_actions(),
        }
    }

    /// Whether the peer is prepared for the bulk offer.
    pub fn expects_send_fragment(&self, meta: &SendFragment) -> (expected: bool)
        ensures
            expected == self@.expects_send_fragment(*meta),
    {
        if self.downloads.contains_key(&meta.chunk) {
            return true;
        }
        match self.persists.get(&meta.chunk) {
            Some(state) => match &state.status {
                PersistStatus::Recovering(_) => meta.index != state.index || state.notify.is_none(),
                _ => meta.peer_id.is_none() || meta.index == state.index,
            },
            None => true,
        }
    }

    /// The bulk offer of a fragment, by what comes with it.
    pub fn on_send_fragment(&mut self, meta: SendFragment) -> (result: Result<
        Vec<Action<K, E, D>>,
        Error,
    >)
        requires
            old(self)@.expects_send_fragment(meta),
        ensures
            (Outcome { state: final(self)@, result: result_view(result) })
                == old(self)@.send_fragment(meta),
    {
        let expected_len = self.config.fragment_len as usize;
        match self.downloads.get(&meta.chunk) {
            Some(state) => {
                return Ok(
                    one_action(
                        Action::Accept { meta, expected_len, cancel: state.recover.cancel.clone() },
                    ),
                );
            },
            None => {},
        }
        let recovering = match self.persists.get(&meta.chunk) {
            Some(state) => match &state.status {
                PersistStatus::Recovering(recover) => Some(recover.cancel.clone()),
                _ => None,
            },
            None => {
                return Ok(no_actions());
            },
        };
        match recovering {
            Some(cancel) => {
                match self.persists.remove(&meta.chunk) {
                    Some(mut state) => {
                        if meta.index == state.index {
                            if meta.peer_id.is_none() {
                                self.persists.insert(meta.chunk, state);
                                assert(self.persists@ =~= old(self).persists@);
                                return Err(Error::MissingPeerId);
                            }
                            state.notify = meta.peer_id;
                        }
                        self.persists.insert(meta.chunk, state);
                        assert(self.persists@ =~= old(self).persists@.insert(meta.chunk, state@));
                    },
                    None => {},
                }
                Ok(one_action(Action::Accept { meta, expected_len, cancel }))
            },
            None => Ok(
                match meta.peer_id {
                    Some(peer_id) => one_action(
                        Action::SendFragmentAvailable(peer_id, self.receipt(meta.chunk)),
                    ),
                    None => no_actions(),
                },
            ),
        }
    }

    /// The receipt that this peer sends for a chunk.
    fn receipt(&self, chunk: Chunk) -> (receipt: FragmentAvailable)
        ensures
            receipt == self@.receipt(chunk),
    {
        FragmentAvailable { chunk, peer_id: self.id, peer_key: self.key }
    }

    /// `DownloadOk`.
    pub fn on_download_ok(&mut self, event: DownloadOk) -> (actions: Vec<Action<K, E, D>>)
        ensures
            (final(self)@, views(actions@)) == old(self)@.download_ok(event@),
    {
        let DownloadOk(chunk, index, fragment) = event;
        match self.downloads.remove(&chunk) {
            Some(mut state) => {
                let actions = state.recover.submit_decode(chunk, index, fragment, None);
                self.downloads.insert(chunk, state);
                assert(self.downloads@ =~= old(self).downloads@.insert(chunk, state@));
                return actions;
            },
            None => {
                assert(self.downloads@ =~= old(self).downloads@);
            },
        }
        match self.persists.remove(&chunk) {
            Some(state) => {
                let PersistState { index: own, status, notify } = state;
                let (status, actions) = match status {
                    PersistStatus::Recovering(mut recover) => {
                        if index == own {
                            (
                                PersistStatus::Storing,
                                one_action(Action::Store(Store(chunk, own, fragment))),
                            )
                        } else if recover.received.insert(index) {
                            let actions = recover.submit_decode(chunk, index, fragment, Some(own));
                            (PersistStatus::Recovering(recover), actions)
                        } else {
                            assert(recover.received@ =~= old(self).persists@[chunk].status->Recovering_0.received);
                            (PersistStatus::Recovering(recover), no_actions())
                        }
                    },
                    other => (other, no_actions()),
                };
                let state = PersistState { index: own, status, notify };
                self.persists.insert(chunk, state);
                assert(self.persists@ =~= old(self).persists@.insert(chunk, state@));
                assert(old(self).persists@.insert(chunk, old(self).persists@[chunk])
                    =~= old(self).persists@);
                actions
            },
            None => {
                assert(self.persists@ =~= old(self).persists@);
                no_actions()
            },
        }
    }

    /// `StoreOk`.
    pub fn on_store_ok(&mut self, event: StoreOk) -> (actions: Vec<Action<K, E, D>>)
        ensures
            (final(self)@, views(actions@)) == old(self)@.store_ok(event),
    {
        let StoreOk(chunk) = event;
        match self.persists.remove(&chunk) {
            Some(state) => {
                let notify = state.notify;
                let state = PersistState {
                    index: state.index,
                    status: PersistStatus::Available,
                    notify: None,
                };
                self.persists.insert(chunk, state);
                assert(self.persists@ =~= old(self).persists@.insert(chunk, state@));
                match notify {
                    Some(peer_id) => one_action(
                        Action::SendFragmentAvailable(peer_id, self.receipt(chunk)),
                    ),
                    None => no_actions(),
                }
            },
            None => {
                assert(self.persists@ =~= old(self).persists@);
                no_actions()
            },
        }
    }

    /// `FragmentAvailable`, with whether its signature holds under its key.
    pub fn on_fragment_available(&mut self, message: FragmentAvailable, verified: bool) -> (actions:
        Vec<Action<K, E, D>>)
        ensures
            (final(self)@, views(actions@)) == old(self)@.fragment_available(message, verified),
    {
        if !verified || message.peer_id != message.peer_key.sha256() {
            return no_actions();
        }
        match self.uploads.remove(&message.chunk) {
            Some(mut state) => {
                state.available.insert(message.peer_id, ());
                if state.available.len() == self.config.chunk_n {
                    let mut actions = one_action(Action::Cancel(state.cancel));
                    push_action(&mut actions, Action::PutOk(PutOk(state.preimage)));
                    actions
                } else {
                    self.uploads.insert(message.chunk, state);
                    assert(self.uploads@ =~= old(self).uploads@.insert(message.chunk, state@));
                    no_actions()
                }
            },
            None => {
                assert(self.uploads@ =~= old(self).uploads@);
                no_actions()
            },
        }
    }

    /// `Get`. Unless the chunk is being downloaded already, `new_decoder` is asked for a
    /// decoder of chunks of this peer's length, in fragments of this peer's length.
    /// Without one the download cannot start, and nothing changes.
    pub fn on_get<F: FnOnce(u64, u32) -> Option<D>>(&mut self, get: Get<K>, new_decoder: F) -> (result:
        Result<Vec<Action<K, E, D>>, Error>)
        requires
            new_decoder.requires((old(self)@.chunk_len() as u64, old(self)@.fragment_len)),
        ensures
            old(self)@.downloads.contains_key(get.0.chunk()) ==> final(self)@ == old(self)@
                && result_view(result) == Err::<Seq<ActionView<K, E, D>>, Error>(
                Error::DuplicateDownload(get.0.chunk()),
            ),
            !old(self)@.downloads.contains_key(get.0.chunk()) ==> match result {
                Ok(actions) => exists|decoder: D, cancel: CancellationToken|
                    {
                        &&& new_decoder.ensures(
                            (old(self)@.chunk_len() as u64, old(self)@.fragment_len),
                            Some(decoder),
                        )
                        &&& (Outcome { state: final(self)@, result: Ok(views(actions@)) }) == old(
                            self,
                        )@.get(get.0, decoder, cancel)
                    },
                Err(error) => {
                    &&& error == Error::Decoder
                    &&& new_decoder.ensures(
                        (old(self)@.chunk_len() as u64, old(self)@.fragment_len),
                        None,
                    )
                    &&& final(self)@ == old(self)@
                },
            },
    {
        let chunk = get.0.target();
        if self.downloads.contains_key(&chunk) {
            return Err(Error::DuplicateDownload(chunk));
        }
        let decoder = match new_decoder(self.chunk_len(), self.config.fragment_len) {
            Some(decoder) => decoder,
            None => {
                return Err(Error::Decoder);
            },
        };
        let cancel = token_new();
        self.get_with(get, decoder, cancel)
    }

    /// `Get`, with the decoder and the token for the download.
    pub fn get_with(&mut self, get: Get<K>, decoder: D, cancel: CancellationToken) -> (result:
        Result<Vec<Action<K, E, D>>, Error>)
        ensures
            (Outcome { state: final(self)@, result: result_view(result) }) == old(self)@.get(
                get.0,
                decoder,
                cancel,
            ),
    {
        let Get(preimage) = get;
        let chunk = preimage.target();
        if self.downloads.contains_key(&chunk) {
            return Err(Error::DuplicateDownload(chunk));
        }
        self.downloads.insert(
            chunk,
            DownloadState { preimage, recover: RecoverState::new(decoder, cancel) },
        );
        Ok(
            one_action(
                Action::SendPull(
                    Multicast(chunk, self.config.chunk_m),
                    Pull { chunk, peer_id: self.id },
                ),
            ),
        )
    }

    /// `Pull`.
    pub fn on_pull(&mut self, message: Pull) -> (actions: Vec<Action<K, E, D>>)
        ensures
            (final(self)@, views(actions@)) == old(self)@.pull(message),
    {
        let index = match self.persists.get(&message.chunk) {
            Some(state) => match &state.status {
                PersistStatus::Available => state.index,
                _ => {
                    return no_actions();
                },
            },
            None => {
                return no_actions();
            },
        };
        let mut waiting = match self.pending_pulls.remove(&message.chunk) {
            Some(waiting) => waiting,
            None => Vec::new(),
        };
        waiting.push(message.peer_id);
        self.pending_pulls.insert(message.chunk, waiting);
        assert(self.pending_pulls@ =~= old(self).pending_pulls@.insert(message.chunk, waiting@));
        one_action(Action::Load(Load(message.chunk, index, true)))
    }

    /// `LoadOk`.
    pub fn on_load_ok(&mut self, event: LoadOk) -> (actions: Vec<Action<K, E, D>>)
        ensures
            (final(self)@, views(actions@)) == old(self)@.load_ok(event@),
    {
        let LoadOk(chunk, index, Payload(fragment)) = event;
        let waiting = match self.pending_pulls.remove(&chunk) {
            Some(waiting) => waiting,
            None => {
                assert(self.pending_pulls@ =~= old(self).pending_pulls@);
                return no_actions();
            },
        };
        let meta = SendFragment { chunk, index, peer_id: None };
        let payload = bytes_from(fragment);
        let mut actions = no_actions();
        let mut i: usize = 0;
        while i < waiting.len()
            invariant
                i <= waiting.len(),
                bytes_content(payload) == event@.2,
                meta == (SendFragment { chunk, index, peer_id: None }),
                views(actions@).len() == i,
                forall|j: int|
                    0 <= j < i ==> #[trigger] views(actions@)[j] == (ActionView::<K, E, D>::Offer {
                        peer_id: waiting[j],
                        meta,
                        payload: event@.2,
                        cancel: None,
                    }),
            decreases waiting.len() - i,
        {
            push_action(
                &mut actions,
                Action::Offer { peer_id: waiting[i], meta, payload: payload.clone(), cancel: None },
            );
            i += 1;
        }
        assert(views(actions@) =~= old(self)@.load_ok(event@).1);
        actions
    }

    /// Whether the peer is prepared for the decoder of the chunk.
    pub fn expects_decode(&self, chunk: &Chunk) -> (expected: bool)
        ensures
            expected == self@.expects_decode(*chunk),
    {
        match self.downloads.get(chunk) {
            Some(state) => {
                return state.recover.decoder.is_none();
            },
            None => {},
        }
        match self.persists.get(chunk) {
            Some(state) => match &state.status {
                PersistStatus::Recovering(recover) => recover.decoder.is_none(),
                _ => true,
            },
            None => true,
        }
    }

    /// `Decode`. If fragments wait for the decoder, one of them leaves with it: which one
    /// is not said.
    pub fn on_decode(&mut self, event: Decode<D>) -> (actions: Vec<Action<K, E, D>>)
        requires
            old(self)@.expects_decode(event.0),
        ensures
            exists|pick: u32|
                {
                    &&& old(self)@.may_pick(event.0, pick)
                    &&& (final(self)@, views(actions@)) == old(self)@.decode(
                        event.0,
                        event.1,
                        pick,
                    )
                },
    {
        let Decode(chunk, decoder) = event;
        match self.downloads.remove(&chunk) {
            Some(mut state) => {
                let (actions, Ghost(pick)) = state.recover.on_decode(chunk, decoder, None);
                self.downloads.insert(chunk, state);
                assert(self.downloads@ =~= old(self).downloads@.insert(chunk, state@));
                assert(old(self)@.may_pick(chunk, pick));
                assert((self@, views(actions@)) == old(self)@.decode(chunk, decoder, pick));
                return actions;
            },
            None => {
                assert(self.downloads@ =~= old(self).downloads@);
            },
        }
        match self.persists.remove(&chunk) {
            Some(state) => {
                let PersistState { index, status, notify } = state;
                match status {
                    PersistStatus::Recovering(mut recover) => {
                        let (actions, Ghost(pick)) = recover.on_decode(chunk, decoder, Some(index));
                        let state = PersistState {
                            index,
                            status: PersistStatus::Recovering(recover),
                            notify,
                        };
                        self.persists.insert(chunk, state);
                        assert(self.persists@ =~= old(self).persists@.insert(chunk, state@));
                        assert(old(self)@.may_pick(chunk, pick));
                        assert((self@, views(actions@)) == old(self)@.decode(chunk, decoder, pick));
                        actions
                    },
                    other => {
                        let state = PersistState { index, status: other, notify };
                        self.persists.insert(chunk, state);
                        assert(self.persists@ =~= old(self).persists@);
                        assert(old(self)@.may_pick(chunk, 0));
                        assert((self@, Seq::<ActionView<K, E, D>>::empty()) == old(self)@.decode(
                            chunk,
                            decoder,
                            0,
                        ));
                        no_actions()
                    },
                }
            },
            None => {
                assert(self.persists@ =~= old(self).persists@);
                assert(old(self)@.may_pick(chunk, 0));
                assert((self@, Seq::<ActionView<K, E, D>>::empty()) == old(self)@.decode(chunk, decoder, 0));
                no_actions()
            },
        }
    }

    /// `Recover`.
    pub fn on_recover(&mut self, event: Recover) -> (actions: Vec<Action<K, E, D>>)
        ensures
            (final(self)@, views(actions@)) == old(self)@.recover(event@),
    {
        let Recover(chunk, buf) = event;
        match self.downloads.remove(&chunk) {
            Some(state) => {
                let mut actions = one_action(Action::Cancel(state.recover.cancel));
                push_action(&mut actions, Action::GetOk(GetOk(state.preimage, buf)));
                actions
            },
            None => {
                assert(self.downloads@ =~= old(self).downloads@);
                no_actions()
            },
        }
    }

    /// `RecoverEncode`.
    pub fn on_recover_encode(&mut self, event: RecoverEncode) -> (actions: Vec<Action<K, E, D>>)
        ensures
            (final(self)@, views(actions@)) == old(self)@.recover_encode(event@),
    {
        let RecoverEncode(chunk, fragment) = event;
        match self.persists.remove(&chunk) {
            Some(state) => {
                let PersistState { index, status, notify } = state;
                let (status, actions) = match status {
                    PersistStatus::Recovering(recover) => {
                        let mut actions = one_action(Action::Cancel(recover.cancel));
                        push_action(&mut actions, Action::Store(Store(chunk, index, fragment)));
                        (PersistStatus::Storing, actions)
                    },
                    other => (other, no_actions()),
                };
                let state = PersistState { index, status, notify };
                self.persists.insert(chunk, state);
                assert(self.persists@ =~= old(self).persists@.insert(chunk, state@));
                assert(old(self).persists@.insert(chunk, old(self).persists@[chunk])
                    =~= old(self).persists@);
                actions
            },
            None => {
                assert(self.persists@ =~= old(self).persists@);
                no_actions()
            },
        }
    }

    /// Whether the peer is prepared for the event.
    pub fn expects(&self, event: &Event<K, E, D>) -> (expected: bool)
        ensures
            expected == forall|input: Input<K, E, D>| #[trigger]
                event.gives(input) ==> self@.expects_event(input),
    {
        let expected = match event {
            Event::NewEncoder(event) => self.expects_new_encoder(&event.0),
            Event::InviteOk(Recv(message)) => self.expects_invite_ok(message),
            Event::SendFragment(meta) => self.expects_send_fragment(meta),
            Event::Decode(event) => self.expects_decode(&event.0),
            _ => true,
        };
        proof {
            let witness = event.some_input();
            assert(event.gives(witness));
            assert forall|input: Input<K, E, D>| #[trigger] event.gives(input) implies (
            self@.expects_event(input) == expected) by {}
        }
        expected
    }

    /// Any event, handed to the handler of its kind. `new_decoder` is asked for a decoder
    /// where the event needs one. What the peer does is a step from one of the inputs that
    /// the event gives. The one exception is an event that needs a decoder when none can
    /// be had: that is an error, and leaves the peer as it was.
    pub fn on_event<F: FnOnce(u64, u32) -> Option<D>>(
        &mut self,
        event: Event<K, E, D>,
        new_decoder: F,
    ) -> (result: Result<Vec<Action<K, E, D>>, Error>)
        requires
            new_decoder.requires((old(self)@.chunk_len() as u64, old(self)@.fragment_len)),
            forall|input: Input<K, E, D>| #[trigger]
                event.gives(input) ==> old(self)@.expects_event(input),
        ensures
            result_view(result) == Err::<Seq<ActionView<K, E, D>>, Error>(Error::Decoder) ==> {
                &&& final(self)@ == old(self)@
                &&& new_decoder.ensures(
                    (old(self)@.chunk_len() as u64, old(self)@.fragment_len),
                    None,
                )
                &&& event.needs_decoder(old(self)@)
            },
            result_view(result) != Err::<Seq<ActionView<K, E, D>>, Error>(Error::Decoder)
                ==> exists|input: Input<K, E, D>|
                {
                    &&& #[trigger] event.gives(input)
                    &&& old(self)@.may_pick_for(input)
                    &&& (Outcome { state: final(self)@, result: result_view(result) }) == old(self)@.step(input)
                },
    {
        let ghost before = self@;
        match event {
            Event::Put(put) => {
                let result = self.on_put(put);
                proof {
                    let cancel = choose|cancel: CancellationToken|
                        (Outcome { state: self@, result: result_view(result) }) == before.put(
                            put@,
                            cancel,
                        );
                    assert(event.gives(Input::Put { put: put@, cancel }));
                }
                result
            },
            Event::Get(get) => {
                let result = self.on_get(get, new_decoder);
                proof {
                    if result_view(result) != Err::<Seq<ActionView<K, E, D>>, Error>(Error::Decoder) {
                        let (decoder, cancel) = choose|decoder: D, cancel: CancellationToken|
                            (Outcome { state: self@, result: result_view(result) }) == before.get(
                                get.0,
                                decoder,
                                cancel,
                            );
                        assert(event.gives(Input::Get { preimage: get.0, decoder, cancel }));
                    }
                }
                result
            },
            Event::NewEncoder(new_encoder) => {
                assert(event.gives(
                    Input::NewEncoder { chunk: new_encoder.0, encoder: new_encoder.1 },
                ));
                Ok(self.on_new_encoder(new_encoder))
            },
            Event::Invite(Recv(invite)) => {
                let result = self.on_invite(invite, new_decoder);
                proof {
                    if invite.peer_id == before.id {
                        let input = Input::Invite {
                            invite,
                            index: 0,
                            decoder: arbitrary(),
                            cancel: arbitrary(),
                        };
                        assert(event.gives(input));
                        assert((Outcome { state: self@, result: result_view(result) })
                            == before.step(input));
                    } else if result is Ok {
                        let (index, decoder, cancel) = choose|
                            index: u32,
                            decoder: D,
                            cancel: CancellationToken,
                        |
                            (self@, views(result->Ok_0@)) == before.invite(
                                invite,
                                index,
                                decoder,
                                cancel,
                            );
                        assert(event.gives(Input::Invite { invite, index, decoder, cancel }));
                    }
                }
                result
            },
            Event::InviteOk(Recv(message)) => {
                assert(event.gives(Input::InviteOk(message)));
                Ok(self.on_invite_ok(message))
            },
            Event::Encode(encode) => {
                assert(event.gives(Input::Encode(encode@)));
                Ok(self.on_encode(encode))
            },
            Event::SendFragment(meta) => {
                assert(event.gives(Input::SendFragment(meta)));
                self.on_send_fragment(meta)
            },
            Event::DownloadOk(download_ok) => {
                assert(event.gives(Input::DownloadOk(download_ok@)));
                Ok(self.on_download_ok(download_ok))
            },
            Event::StoreOk(store_ok) => {
                assert(event.gives(Input::StoreOk(store_ok)));
                Ok(self.on_store_ok(store_ok))
            },
            Event::FragmentAvailable(Recv(message), verified) => {
                assert(event.gives(Input::FragmentAvailable { message, verified }));
                Ok(self.on_fragment_available(message, verified))
            },
            Event::Pull(Recv(message)) => {
                assert(event.gives(Input::Pull(message)));
                Ok(self.on_pull(message))
            },
            Event::LoadOk(load_ok) => {
                assert(event.gives(Input::LoadOk(load_ok@)));
                Ok(self.on_load_ok(load_ok))
            },
            Event::Decode(decode) => {
                assert(event.gives(Input::Decode { chunk: decode.0, decoder: decode.1, pick: 0 }));
                let actions = self.on_decode(decode);
                proof {
                    let pick = choose|pick: u32|
                        before.may_pick(decode.0, pick) && (self@, views(actions@)) == before.decode(
                            decode.0,
                            decode.1,
                            pick,
                        );
                    assert(event.gives(
                        Input::Decode { chunk: decode.0, decoder: decode.1, pick },
                    ));
                }
                Ok(actions)
            },
            Event::Recover(recover) => {
                assert(event.gives(Input::Recover(recover@)));
                Ok(self.on_recover(recover))
            },
            Event::RecoverEncode(recover_encode) => {
                assert(event.gives(Input::RecoverEncode(recover_encode@)));
                Ok(self.on_recover_encode(recover_encode))
            },
        }
    }
}

/// Whatever a peer handles: what its caller asks of it, what comes from the network, and
/// what the bulk service, the codec worker and the fragment store answer.
#[derive(Debug)]
pub enum Event<K, E, D> {
    Put(Put<K>),
    Get(Get<K>),
    NewEncoder(NewEncoder<E>),
    Invite(Recv<Invite>),
    InviteOk(Recv<InviteOk>),
    Encode(Encode),
    /// The bulk offer of a fragment, by what comes with it.
    SendFragment(SendFragment),
    DownloadOk(DownloadOk),
    StoreOk(StoreOk),
    /// A receipt, with whether its signature holds under its key.
    FragmentAvailable(Recv<FragmentAvailable>, bool),
    Pull(Recv<Pull>),
    LoadOk(LoadOk),
    Decode(Decode<D>),
    Recover(Recover),
    RecoverEncode(RecoverEncode),
}

impl<K, E, D> Event<K, E, D> {
    /// Whether the input is the event together with something that the event leaves open:
    /// a token, a decoder, an index, a pick among the waiting fragments.
    pub open spec fn gives(&self, input: Input<K, E, D>) -> bool {
        match (*self, input) {
            (Event::Put(a), Input::Put { put: b, .. }) => a@ == b,
            (Event::Get(a), Input::Get { preimage: b, .. }) => a.0 == b,
            (Event::NewEncoder(a), Input::NewEncoder { chunk, encoder }) => a.0 == chunk && a.1
                == encoder,
            (Event::Invite(a), Input::Invite { invite: b, .. }) => a.0 == b,
            (Event::InviteOk(a), Input::InviteOk(b)) => a.0 == b,
            (Event::Encode(a), Input::Encode(b)) => a@ == b,
            (Event::SendFragment(a), Input::SendFragment(b)) => a == b,
            (Event::DownloadOk(a), Input::DownloadOk(b)) => a@ == b,
            (Event::StoreOk(a), Input::StoreOk(b)) => a == b,
            (Event::FragmentAvailable(a, held), Input::FragmentAvailable { message, verified }) => a.0
                == message && held == verified,
            (Event::Pull(a), Input::Pull(b)) => a.0 == b,
            (Event::LoadOk(a), Input::LoadOk(b)) => a@ == b,
            (Event::Decode(a), Input::Decode { chunk, decoder, .. }) => a.0 == chunk && a.1
                == decoder,
            (Event::Recover(a), Input::Recover(b)) => a@ == b,
            (Event::RecoverEncode(a), Input::RecoverEncode(b)) => a@ == b,
            _ => false,
        }
    }

    /// Whether the peer needs a new decoder for the event: for a `Get` of a chunk that it
    /// does not download yet, and for the invitation of another peer.
    pub open spec fn needs_decoder(&self, peer: PeerView<K, E, D>) -> bool where K: Preimage {
        match *self {
            Event::Get(get) => !peer.downloads.contains_key(get.0.chunk()),
            Event::Invite(Recv(invite)) => invite.peer_id != peer.id,
            _ => false,
        }
    }

    /// One of the inputs that the event gives.
    pub open spec fn some_input(&self) -> Input<K, E, D> {
        match *self {
            Event::Put(a) => Input::Put { put: a@, cancel: arbitrary() },
            Event::Get(a) => Input::Get { preimage: a.0, decoder: arbitrary(), cancel: arbitrary() },
            Event::NewEncoder(a) => Input::NewEncoder { chunk: a.0, encoder: a.1 },
            Event::Invite(a) => Input::Invite {
                invite: a.0,
                index: 0,
                decoder: arbitrary(),
                cancel: arbitrary(),
            },
            Event::InviteOk(a) => Input::InviteOk(a.0),
            Event::Encode(a) => Input::Encode(a@),
            Event::SendFragment(a) => Input::SendFragment(a),
            Event::DownloadOk(a) => Input::DownloadOk(a@),
            Event::StoreOk(a) => Input::StoreOk(a),
            Event::FragmentAvailable(a, verified) => Input::FragmentAvailable {
                message: a.0,
                verified,
            },
            Event::Pull(a) => Input::Pull(a.0),
            Event::LoadOk(a) => Input::LoadOk(a@),
            Event::Decode(a) => Input::Decode { chunk: a.0, decoder: a.1, pick: 0 },
            Event::Recover(a) => Input::Recover(a@),
            Event::RecoverEncode(a) => Input::RecoverEncode(a@),
        }
    }
}

impl<D> RecoverState<D> {
    /// The state of a decoding that has seen no fragment yet.
    fn new(decoder: D, cancel: CancellationToken) -> (state: Self)
        ensures
            state@ == RecoverStateView::fresh(decoder, cancel),
    {
        let state = RecoverState {
            decoder: Some(decoder),
            pending: HashMap::new(),
            received: HashSet::new(),
            cancel,
        };
        assert(state@.pending =~= Map::empty());
        state
    }

    /// A fragment is to be decoded: it goes out with the decoder, or waits for it.
    fn submit_decode<K, E>(
        &mut self,
        chunk: Chunk,
        index: u32,
        fragment: Payload,
        encode_index: Option<u32>,
    ) -> (actions: Vec<Action<K, E, D>>)
        ensures
            (final(self)@, views(actions@)) == old(self)@.submit_decode::<K, E>(
                chunk,
                index,
                fragment@,
                encode_index,
            ),
    {
        match self.decoder.take() {
            Some(decoder) => one_action(
                Action::Submit(Work::Decode { chunk, index, fragment, decoder, encode_index }),
            ),
            None => {
                self.pending.insert(index, fragment);
                assert(self@.pending =~= old(self)@.pending.insert(index, fragment@));
                no_actions()
            },
        }
    }

    /// The index of a fragment that waits for the decoder, if one does.
    fn next_pending(&self) -> (next: Option<u32>)
        ensures
            match next {
                Some(index) => self@.pending.contains_key(index),
                None => !self@.has_pending(),
            },
    {
        for index in keys: self.pending.keys()
            invariant
                keys.index() == 0,
        {
            assert(keys.seq()[0] == index);
            assert(keys.seq().unref().to_set().contains(*index));
            return Some(*index);
        }
        None
    }

    /// The decoder comes back, and leaves again with a fragment that waits, if one does.
    fn on_decode<K, E>(&mut self, chunk: Chunk, decoder: D, encode_index: Option<u32>) -> (out: (
        Vec<Action<K, E, D>>,
        Ghost<u32>,
    ))
        requires
            old(self)@.decoder is None,
        ensures
            old(self)@.has_pending() ==> old(self)@.pending.contains_key(out.1@),
            (final(self)@, views(out.0@)) == old(self)@.on_decode::<K, E>(
                chunk,
                decoder,
                encode_index,
                out.1@,
            ),
    {
        self.decoder = Some(decoder);
        assert(self@.pending == old(self)@.pending);
        match self.next_pending() {
            Some(index) => {
                assert(old(self)@.has_pending());
                let fragment = self.pending.remove(&index).unwrap();
                assert(fragment@ == old(self)@.pending[index]);
                assert(self@.pending =~= old(self)@.pending.remove(index));
                let actions = self.submit_decode(chunk, index, fragment, encode_index);
                (actions, Ghost(index))
            },
            None => (no_actions(), Ghost(0)),
        }
    }
}

/// `random` of rand, for a `u32`: any index may come.
#[verifier::external_body]
fn random_index() -> (index: u32) {
    rand::random()
}

} // verus!
