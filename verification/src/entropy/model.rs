use crate::crypto::PublicKey;
use crate::entropy::fs::{Load, LoadOkView, StoreOk, StoreView};
use crate::entropy::{
    ActionView, Chunk, DownloadOkView, EncodeView, Error, FragmentAvailable, GetOkView, Invite,
    InviteOk, PeerId, Preimage, Pull, PutOk, PutView, RecoverEncodeView, RecoverView,
    SendFragment, WorkView,
};
use crate::net::Multicast;
use tokio_util::sync::CancellationToken;
use vstd::prelude::*;

verus! {

/// An upload: from `Put` until enough peers have answered that they keep a fragment.
pub struct UploadStateView<K, E> {
    pub preimage: K,
    pub encoder: Option<E>,
    /// The peer that reserved each index.
    pub pending: Map<u32, PeerId>,
    /// The peers whose receipts have come.
    pub available: Set<PeerId>,
    pub cancel: CancellationToken,
}

/// What a peer that decodes a chunk knows of it.
pub struct RecoverStateView<D> {
    /// The decoder, while no job holds it.
    pub decoder: Option<D>,
    /// The fragments that wait for the decoder to come back.
    pub pending: Map<u32, Seq<u8>>,
    /// The indices that have been handed to the decoder or wait for it.
    pub received: Set<u32>,
    pub cancel: CancellationToken,
}

/// A download: from `Get` until the chunk is recovered.
pub struct DownloadStateView<K, D> {
    pub preimage: K,
    pub recover: RecoverStateView<D>,
}

/// How far a peer is with the fragment that it promised to keep.
pub enum PersistStatusView<D> {
    /// It collects fragments to recover the chunk, or waits for its own fragment.
    Recovering(RecoverStateView<D>),
    /// It has handed its fragment to the fragment store.
    Storing,
    /// The fragment store keeps its fragment.
    Available,
}

/// A promise to keep the fragment of a chunk at `index`.
pub struct PersistStateView<D> {
    pub index: u32,
    pub status: PersistStatusView<D>,
    /// The peer that is owed a receipt once the fragment is kept.
    pub notify: Option<PeerId>,
}

/// A peer as a mathematical value: its parameters and its four tables.
pub struct PeerView<K, E, D> {
    pub id: PeerId,
    pub key: PublicKey,
    pub fragment_len: u32,
    pub chunk_k: usize,
    pub chunk_n: usize,
    pub chunk_m: usize,
    pub uploads: Map<Chunk, UploadStateView<K, E>>,
    pub downloads: Map<Chunk, DownloadStateView<K, D>>,
    pub persists: Map<Chunk, PersistStateView<D>>,
    pub pending_pulls: Map<Chunk, Seq<PeerId>>,
}

/// An event with what the peer needs to answer it and cannot make itself: a fresh token, a
/// fresh decoder, a drawn index, the pick among the waiting fragments.
pub enum Input<K, E, D> {
    Put { put: PutView<K>, cancel: CancellationToken },
    NewEncoder { chunk: Chunk, encoder: E },
    Invite { invite: Invite, index: u32, decoder: D, cancel: CancellationToken },
    InviteOk(InviteOk),
    Encode(EncodeView),
    SendFragment(SendFragment),
    DownloadOk(DownloadOkView),
    StoreOk(StoreOk),
    FragmentAvailable { message: FragmentAvailable, verified: bool },
    Get { preimage: K, decoder: D, cancel: CancellationToken },
    Pull(Pull),
    LoadOk(LoadOkView),
    Decode { chunk: Chunk, decoder: D, pick: u32 },
    Recover(RecoverView),
    RecoverEncode(RecoverEncodeView),
}

/// The peer after an event, and what it asks for: the actions, or the reason why it refuses.
pub struct Outcome<K, E, D> {
    pub state: PeerView<K, E, D>,
    pub result: Result<Seq<ActionView<K, E, D>>, Error>,
}

impl<D> RecoverStateView<D> {
    /// The state of a decoding that has seen no fragment yet.
    pub open spec fn fresh(decoder: D, cancel: CancellationToken) -> Self {
        RecoverStateView { decoder: Some(decoder), pending: Map::empty(), received: Set::empty(), cancel }
    }

    /// A fragment is to be decoded: it goes to the codec worker with the decoder, if the
    /// decoder is here, and waits for it otherwise.
    pub open spec fn submit_decode<K, E>(
        self,
        chunk: Chunk,
        index: u32,
        fragment: Seq<u8>,
        encode_index: Option<u32>,
    ) -> (Self, Seq<ActionView<K, E, D>>) {
        match self.decoder {
            Some(decoder) => (
                RecoverStateView { decoder: None, ..self },
                seq![
                    ActionView::Submit(
                        WorkView::Decode { chunk, index, fragment, decoder, encode_index },
                    ),
                ],
            ),
            None => (RecoverStateView { pending: self.pending.insert(index, fragment), ..self }, seq![]),
        }
    }

    /// Whether a fragment waits for the decoder.
    pub open spec fn has_pending(self) -> bool {
        exists|index: u32| self.pending.contains_key(index)
    }

    /// The decoder comes back. If fragments wait, the one at `pick` goes out with it.
    pub open spec fn on_decode<K, E>(
        self,
        chunk: Chunk,
        decoder: D,
        encode_index: Option<u32>,
        pick: u32,
    ) -> (Self, Seq<ActionView<K, E, D>>) {
        let back = RecoverStateView { decoder: Some(decoder), ..self };
        if self.has_pending() {
            RecoverStateView { pending: self.pending.remove(pick), ..back }.submit_decode(
                chunk,
                pick,
                self.pending[pick],
                encode_index,
            )
        } else {
            (back, seq![])
        }
    }
}

impl<K: Preimage, E, D> PeerView<K, E, D> {
    /// A peer whose tables are empty.
    pub open spec fn empty(
        id: PeerId,
        key: PublicKey,
        fragment_len: u32,
        chunk_k: usize,
        chunk_n: usize,
        chunk_m: usize,
    ) -> Self {
        PeerView {
            id,
            key,
            fragment_len,
            chunk_k,
            chunk_n,
            chunk_m,
            uploads: Map::empty(),
            downloads: Map::empty(),
            persists: Map::empty(),
            pending_pulls: Map::empty(),
        }
    }

    /// The length of a chunk: `k` fragments.
    pub open spec fn chunk_len(self) -> int {
        self.fragment_len * self.chunk_k
    }

    /// The receipt that this peer sends for a chunk.
    pub open spec fn receipt(self, chunk: Chunk) -> FragmentAvailable {
        FragmentAvailable { chunk, peer_id: self.id, peer_key: self.key }
    }

    /// `Put`: a buffer of another length than `k` fragments is refused, and so is a chunk
    /// that is being uploaded already: nothing changes then. Else the upload of the chunk
    /// starts, and the codec worker is asked for its encoder.
    pub open spec fn put(self, put: PutView<K>, cancel: CancellationToken) -> Outcome<K, E, D> {
        let PutView(preimage, buf) = put;
        let chunk = preimage.chunk();
        let upload = UploadStateView {
            preimage,
            encoder: None,
            pending: Map::empty(),
            available: Set::empty(),
            cancel,
        };
        let started = PeerView { uploads: self.uploads.insert(chunk, upload), ..self };
        if buf.len() != self.chunk_len() {
            Outcome {
                state: self,
                result: Err(Error::ChunkLength),
            }
        } else if self.uploads.contains_key(chunk) {
            Outcome { state: self, result: Err(Error::DuplicateUpload(chunk)) }
        } else {
            Outcome {
                state: started,
                result: Ok(
                    seq![
                        ActionView::Submit(
                            WorkView::NewEncoder { chunk, buf, fragment_len: self.fragment_len },
                        ),
                    ],
                ),
            }
        }
    }

    /// Whether the encoder of a chunk is awaited, or the chunk is not uploaded at all.
    pub open spec fn expects_new_encoder(self, chunk: Chunk) -> bool {
        self.uploads.contains_key(chunk) ==> self.uploads[chunk].encoder is None
    }

    /// `NewEncoder`: the upload of the chunk gets its encoder, and the peers closest to the
    /// chunk are invited. Without such an upload nothing happens.
    pub open spec fn new_encoder(self, chunk: Chunk, encoder: E) -> (Self, Seq<ActionView<K, E, D>>) {
        if self.uploads.contains_key(chunk) {
            let upload = UploadStateView { encoder: Some(encoder), ..self.uploads[chunk] };
            (
                PeerView { uploads: self.uploads.insert(chunk, upload), ..self },
                seq![
                    ActionView::SendInvite(
                        Multicast(chunk, self.chunk_m),
                        Invite { chunk, peer_id: self.id },
                    ),
                ],
            )
        } else {
            (self, seq![])
        }
    }

    /// `Invite`: one from this peer itself is ignored. Any other is answered with the index
    /// that this peer has for the chunk: the one it promised before, or else `index`, which
    /// it promises now.
    pub open spec fn invite(
        self,
        invite: Invite,
        index: u32,
        decoder: D,
        cancel: CancellationToken,
    ) -> (Self, Seq<ActionView<K, E, D>>) {
        if invite.peer_id == self.id {
            (self, seq![])
        } else {
            let persists = if self.persists.contains_key(invite.chunk) {
                self.persists
            } else {
                self.persists.insert(
                    invite.chunk,
                    PersistStateView {
                        index,
                        status: PersistStatusView::Recovering(RecoverStateView::fresh(decoder, cancel)),
                        notify: None,
                    },
                )
            };
            (
                PeerView { persists, ..self },
                seq![
                    ActionView::SendInviteOk(
                        invite.peer_id,
                        InviteOk {
                            chunk: invite.chunk,
                            index: persists[invite.chunk].index,
                            proof: (),
                            peer_id: self.id,
                        },
                    ),
                ],
            )
        }
    }

    /// Whether an `InviteOk` that reserves a new index finds the encoder built.
    pub open spec fn expects_invite_ok(self, message: InviteOk) -> bool {
        self.uploads.contains_key(message.chunk) && !self.uploads[message.chunk].pending.contains_key(
            message.index,
        ) ==> self.uploads[message.chunk].encoder is Some
    }

    /// `InviteOk`: in an upload, an index that nobody has reserved is reserved for the
    /// sender, and the codec worker is asked for the fragment. Anything else is ignored.
    pub open spec fn invite_ok(self, message: InviteOk) -> (Self, Seq<ActionView<K, E, D>>) {
        if self.uploads.contains_key(message.chunk) && !self.uploads[message.chunk].pending.contains_key(
            message.index,
        ) {
            let upload = self.uploads[message.chunk];
            let reserved = UploadStateView {
                pending: upload.pending.insert(message.index, message.peer_id),
                ..upload
            };
            (
                PeerView { uploads: self.uploads.insert(message.chunk, reserved), ..self },
                seq![
                    ActionView::Submit(
                        WorkView::Encode {
                            chunk: message.chunk,
                            index: message.index,
                            encoder: upload.encoder->0,
                        },
                    ),
                ],
            )
        } else {
            (self, seq![])
        }
    }

    /// `Encode`: the fragment is offered to the peer that reserved its index, under the
    /// upload's token and with a receipt asked for. Nothing changes.
    pub open spec fn encode(self, event: EncodeView) -> Seq<ActionView<K, E, D>> {
        let EncodeView(chunk, index, fragment) = event;
        if self.uploads.contains_key(chunk) && self.uploads[chunk].pending.contains_key(index) {
            seq![
                ActionView::Offer {
                    peer_id: self.uploads[chunk].pending[index],
                    meta: SendFragment { chunk, index, peer_id: Some(self.id) },
                    payload: fragment,
                    cancel: Some(self.uploads[chunk].cancel),
                },
            ]
        } else {
            seq![]
        }
    }

    /// Whether a bulk offer fits what this peer has promised: one that asks for a receipt
    /// from a peer that no longer recovers is for the peer's own index, and the fragment at
    /// the own index of a peer that recovers comes once.
    pub open spec fn expects_send_fragment(self, meta: SendFragment) -> bool {
        !self.downloads.contains_key(meta.chunk) && self.persists.contains_key(meta.chunk) ==> {
            let persist = self.persists[meta.chunk];
            match persist.status {
                PersistStatusView::Recovering(_) => meta.index == persist.index
                    ==> persist.notify is None,
                _ => meta.peer_id is Some ==> meta.index == persist.index,
            }
        }
    }

    /// The bulk offer of a fragment. A download accepts it. A peer that recovers the chunk
    /// accepts it, and notes whom to notify if the fragment is its own; one without a
    /// sender is then an error. A peer that has its fragment already sends the receipt that
    /// is asked for.
    pub open spec fn send_fragment(self, meta: SendFragment) -> Outcome<K, E, D> {
        if self.downloads.contains_key(meta.chunk) {
            Outcome {
                state: self,
                result: Ok(
                    seq![
                        ActionView::Accept {
                            meta,
                            expected_len: self.fragment_len as usize,
                            cancel: self.downloads[meta.chunk].recover.cancel,
                        },
                    ],
                ),
            }
        } else if self.persists.contains_key(meta.chunk) {
            let persist = self.persists[meta.chunk];
            match persist.status {
                PersistStatusView::Recovering(recover) => {
                    if meta.index == persist.index && meta.peer_id is None {
                        Outcome { state: self, result: Err(Error::MissingPeerId) }
                    } else {
                        let noted = if meta.index == persist.index {
                            PersistStateView { notify: meta.peer_id, ..persist }
                        } else {
                            persist
                        };
                        Outcome {
                            state: PeerView {
                                persists: self.persists.insert(meta.chunk, noted),
                                ..self
                            },
                            result: Ok(
                                seq![
                                    ActionView::Accept {
                                        meta,
                                        expected_len: self.fragment_len as usize,
                                        cancel: recover.cancel,
                                    },
                                ],
                            ),
                        }
                    }
                },
                _ => Outcome {
                    state: self,
                    result: Ok(
                        match meta.peer_id {
                            Some(peer_id) => seq![
                                ActionView::SendFragmentAvailable(peer_id, self.receipt(meta.chunk)),
                            ],
                            None => seq![],
                        },
                    ),
                },
            }
        } else {
            Outcome { state: self, result: Ok(seq![]) }
        }
    }

    /// `DownloadOk`: a download hands the fragment to its decoder. A peer that recovers
    /// the chunk stores the fragment if it is its own, and else hands it to its decoder,
    /// unless it has seen the index before.
    pub open spec fn download_ok(self, event: DownloadOkView) -> (Self, Seq<ActionView<K, E, D>>) {
        let DownloadOkView(chunk, index, fragment) = event;
        if self.downloads.contains_key(chunk) {
            let download = self.downloads[chunk];
            let (recover, actions) = download.recover.submit_decode::<K, E>(
                chunk,
                index,
                fragment,
                None,
            );
            (
                PeerView {
                    downloads: self.downloads.insert(
                        chunk,
                        DownloadStateView { recover, ..download },
                    ),
                    ..self
                },
                actions,
            )
        } else if self.persists.contains_key(chunk) {
            let persist = self.persists[chunk];
            match persist.status {
                PersistStatusView::Recovering(recover) => {
                    if index == persist.index {
                        (
                            PeerView {
                                persists: self.persists.insert(
                                    chunk,
                                    PersistStateView { status: PersistStatusView::Storing, ..persist },
                                ),
                                ..self
                            },
                            seq![ActionView::Store(StoreView(chunk, persist.index, fragment))],
                        )
                    } else if !recover.received.contains(index) {
                        let seen = RecoverStateView {
                            received: recover.received.insert(index),
                            ..recover
                        };
                        let (recover, actions) = seen.submit_decode::<K, E>(
                            chunk,
                            index,
                            fragment,
                            Some(persist.index),
                        );
                        (
                            PeerView {
                                persists: self.persists.insert(
                                    chunk,
                                    PersistStateView {
                                        status: PersistStatusView::Recovering(recover),
                                        ..persist
                                    },
                                ),
                                ..self
                            },
                            actions,
                        )
                    } else {
                        (self, seq![])
                    }
                },
                _ => (self, seq![]),
            }
        } else {
            (self, seq![])
        }
    }

    /// `StoreOk`: the fragment of the chunk is kept, and whoever waits for the receipt gets
    /// it.
    pub open spec fn store_ok(self, event: StoreOk) -> (Self, Seq<ActionView<K, E, D>>) {
        let chunk = event.0;
        if self.persists.contains_key(chunk) {
            let persist = self.persists[chunk];
            (
                PeerView {
                    persists: self.persists.insert(
                        chunk,
                        PersistStateView {
                            index: persist.index,
                            status: PersistStatusView::Available,
                            notify: None,
                        },
                    ),
                    ..self
                },
                match persist.notify {
                    Some(peer_id) => seq![
                        ActionView::SendFragmentAvailable(peer_id, self.receipt(chunk)),
                    ],
                    None => seq![],
                },
            )
        } else {
            (self, seq![])
        }
    }

    /// Whether a receipt counts: its signature holds, its sender is the owner of the key,
    /// and the chunk is being uploaded.
    pub open spec fn counts(self, message: FragmentAvailable, verified: bool) -> bool {
        &&& verified
        &&& message.peer_id == message.peer_key.digest
        &&& self.uploads.contains_key(message.chunk)
    }

    /// `FragmentAvailable`: a receipt that counts adds its sender to those of the upload.
    /// With the `n`-th of them the upload ends: its token is cancelled and the caller is
    /// told. A receipt that does not count is dropped.
    pub open spec fn fragment_available(self, message: FragmentAvailable, verified: bool) -> (
        Self,
        Seq<ActionView<K, E, D>>,
    ) {
        if self.counts(message, verified) {
            let upload = self.uploads[message.chunk];
            let available = upload.available.insert(message.peer_id);
            if available.len() == self.chunk_n {
                (
                    PeerView { uploads: self.uploads.remove(message.chunk), ..self },
                    seq![ActionView::Cancel(upload.cancel), ActionView::PutOk(PutOk(upload.preimage))],
                )
            } else {
                (
                    PeerView {
                        uploads: self.uploads.insert(
                            message.chunk,
                            UploadStateView { available, ..upload },
                        ),
                        ..self
                    },
                    seq![],
                )
            }
        } else {
            (self, seq![])
        }
    }

    /// `Get`: a chunk that is being downloaded already is refused, and nothing changes.
    /// Else the download of the chunk starts, and the peers closest to the chunk are asked
    /// for their fragments.
    pub open spec fn get(self, preimage: K, decoder: D, cancel: CancellationToken) -> Outcome<
        K,
        E,
        D,
    > {
        let chunk = preimage.chunk();
        let download = DownloadStateView { preimage, recover: RecoverStateView::fresh(decoder, cancel) };
        let started = PeerView { downloads: self.downloads.insert(chunk, download), ..self };
        if self.downloads.contains_key(chunk) {
            Outcome { state: self, result: Err(Error::DuplicateDownload(chunk)) }
        } else {
            Outcome {
                state: started,
                result: Ok(
                    seq![
                        ActionView::SendPull(
                            Multicast(chunk, self.chunk_m),
                            Pull { chunk, peer_id: self.id },
                        ),
                    ],
                ),
            }
        }
    }

    /// Whether this peer keeps its fragment of the chunk.
    pub open spec fn serves(self, chunk: Chunk) -> bool {
        self.persists.contains_key(chunk) && self.persists[chunk].status is Available
    }

    /// `Pull`: a peer that keeps its fragment of the chunk notes who asks, and asks the
    /// fragment store for the fragment. Any other ignores it.
    pub open spec fn pull(self, message: Pull) -> (Self, Seq<ActionView<K, E, D>>) {
        if self.serves(message.chunk) {
            let waiting = if self.pending_pulls.contains_key(message.chunk) {
                self.pending_pulls[message.chunk]
            } else {
                seq![]
            };
            (
                PeerView {
                    pending_pulls: self.pending_pulls.insert(
                        message.chunk,
                        waiting.push(message.peer_id),
                    ),
                    ..self
                },
                seq![ActionView::Load(Load(message.chunk, self.persists[message.chunk].index, true))],
            )
        } else {
            (self, seq![])
        }
    }

    /// `LoadOk`: the fragment is offered to each peer that asked for the chunk, in the
    /// order in which they asked, with no receipt asked for and under no token. Nobody
    /// waits for the chunk any longer.
    pub open spec fn load_ok(self, event: LoadOkView) -> (Self, Seq<ActionView<K, E, D>>) {
        let LoadOkView(chunk, index, fragment) = event;
        if self.pending_pulls.contains_key(chunk) {
            (
                PeerView { pending_pulls: self.pending_pulls.remove(chunk), ..self },
                self.pending_pulls[chunk].map_values(
                    |peer_id: PeerId|
                        ActionView::Offer {
                            peer_id,
                            meta: SendFragment { chunk, index, peer_id: None },
                            payload: fragment,
                            cancel: None,
                        },
                ),
            )
        } else {
            (self, seq![])
        }
    }

    /// Whether the place of the decoder of a chunk is empty, where the chunk has one: in
    /// a download, or with a peer that recovers the chunk.
    pub open spec fn expects_decode(self, chunk: Chunk) -> bool {
        if self.downloads.contains_key(chunk) {
            self.downloads[chunk].recover.decoder is None
        } else {
            self.recovers(chunk) ==> self.persists[chunk].status->Recovering_0.decoder is None
        }
    }

    /// Whether this peer recovers the chunk.
    pub open spec fn recovers(self, chunk: Chunk) -> bool {
        self.persists.contains_key(chunk) && self.persists[chunk].status is Recovering
    }

    /// `Decode`: the decoder of the chunk comes back to its place, and leaves again at
    /// once with the fragment at `pick` if fragments wait. A peer that no longer recovers
    /// the chunk has no place for it: the decoder is dropped.
    pub open spec fn decode(self, chunk: Chunk, decoder: D, pick: u32) -> (
        Self,
        Seq<ActionView<K, E, D>>,
    ) {
        if self.downloads.contains_key(chunk) {
            let download = self.downloads[chunk];
            let (recover, actions) = download.recover.on_decode::<K, E>(chunk, decoder, None, pick);
            (
                PeerView {
                    downloads: self.downloads.insert(
                        chunk,
                        DownloadStateView { recover, ..download },
                    ),
                    ..self
                },
                actions,
            )
        } else if self.recovers(chunk) {
            let persist = self.persists[chunk];
            let (recover, actions) = persist.status->Recovering_0.on_decode::<K, E>(
                chunk,
                decoder,
                Some(persist.index),
                pick,
            );
            (
                PeerView {
                    persists: self.persists.insert(
                        chunk,
                        PersistStateView { status: PersistStatusView::Recovering(recover), ..persist },
                    ),
                    ..self
                },
                actions,
            )
        } else {
            (self, seq![])
        }
    }

    /// Which fragment may leave with the decoder of a chunk: any that waits for it.
    pub open spec fn may_pick(self, chunk: Chunk, pick: u32) -> bool {
        if self.downloads.contains_key(chunk) {
            self.downloads[chunk].recover.has_pending()
                ==> self.downloads[chunk].recover.pending.contains_key(pick)
        } else {
            self.persists.contains_key(chunk) && self.persists[chunk].status is Recovering ==> {
                let recover = self.persists[chunk].status->Recovering_0;
                recover.has_pending() ==> recover.pending.contains_key(pick)
            }
        }
    }

    /// `Recover`: the download of the chunk ends: its token is cancelled and the caller
    /// gets the bytes.
    pub open spec fn recover(self, event: RecoverView) -> (Self, Seq<ActionView<K, E, D>>) {
        let RecoverView(chunk, buf) = event;
        if self.downloads.contains_key(chunk) {
            let download = self.downloads[chunk];
            (
                PeerView { downloads: self.downloads.remove(chunk), ..self },
                seq![
                    ActionView::Cancel(download.recover.cancel),
                    ActionView::GetOk(GetOkView(download.preimage, buf)),
                ],
            )
        } else {
            (self, seq![])
        }
    }

    /// `RecoverEncode`: a peer that recovers the chunk stops recovering, cancels the
    /// token of the recovery and stores its fragment. A peer that no longer recovers the
    /// chunk has its fragment already, and ignores this one.
    pub open spec fn recover_encode(self, event: RecoverEncodeView) -> (
        Self,
        Seq<ActionView<K, E, D>>,
    ) {
        let RecoverEncodeView(chunk, fragment) = event;
        if self.recovers(chunk) {
            let persist = self.persists[chunk];
            (
                PeerView {
                    persists: self.persists.insert(
                        chunk,
                        PersistStateView { status: PersistStatusView::Storing, ..persist },
                    ),
                    ..self
                },
                seq![
                    ActionView::Cancel(persist.status->Recovering_0.cancel),
                    ActionView::Store(StoreView(chunk, persist.index, fragment)),
                ],
            )
        } else {
            (self, seq![])
        }
    }

    /// The peer after `actions` were asked for without an error.
    pub open spec fn done(state: Self, actions: Seq<ActionView<K, E, D>>) -> Outcome<K, E, D> {
        Outcome { state, result: Ok(actions) }
    }

    /// Whether the peer is prepared for an input. It is not where the input contradicts
    /// what the peer holds: an encoder or a decoder that comes back to a place that is
    /// taken, an index reserved before the encoder is built, an offer that does not fit
    /// what the peer has promised. A session must not hand such an input to the peer.
    pub open spec fn expects_event(self, input: Input<K, E, D>) -> bool {
        match input {
            Input::NewEncoder { chunk, .. } => self.expects_new_encoder(chunk),
            Input::InviteOk(message) => self.expects_invite_ok(message),
            Input::SendFragment(meta) => self.expects_send_fragment(meta),
            Input::Decode { chunk, .. } => self.expects_decode(chunk),
            _ => true,
        }
    }

    /// Whether the pick of an input, if it has one, is among the fragments that wait.
    pub open spec fn may_pick_for(self, input: Input<K, E, D>) -> bool {
        match input {
            Input::Decode { chunk, pick, .. } => self.may_pick(chunk, pick),
            _ => true,
        }
    }

    /// Whether the peer is prepared for an input, and the input picks a fragment that
    /// waits if it picks one.
    pub open spec fn expects(self, input: Input<K, E, D>) -> bool {
        self.expects_event(input) && self.may_pick_for(input)
    }

    /// What the peer does with an input.
    pub open spec fn step(self, input: Input<K, E, D>) -> Outcome<K, E, D> {
        match input {
            Input::Put { put, cancel } => self.put(put, cancel),
            Input::NewEncoder { chunk, encoder } => {
                let (state, actions) = self.new_encoder(chunk, encoder);
                Self::done(state, actions)
            },
            Input::Invite { invite, index, decoder, cancel } => {
                let (state, actions) = self.invite(invite, index, decoder, cancel);
                Self::done(state, actions)
            },
            Input::InviteOk(message) => {
                let (state, actions) = self.invite_ok(message);
                Self::done(state, actions)
            },
            Input::Encode(event) => Self::done(self, self.encode(event)),
            Input::SendFragment(meta) => self.send_fragment(meta),
            Input::DownloadOk(event) => {
                let (state, actions) = self.download_ok(event);
                Self::done(state, actions)
            },
            Input::StoreOk(event) => {
                let (state, actions) = self.store_ok(event);
                Self::done(state, actions)
            },
            Input::FragmentAvailable { message, verified } => {
                let (state, actions) = self.fragment_available(message, verified);
                Self::done(state, actions)
            },
            Input::Get { preimage, decoder, cancel } => self.get(preimage, decoder, cancel),
            Input::Pull(message) => {
                let (state, actions) = self.pull(message);
                Self::done(state, actions)
            },
            Input::LoadOk(event) => {
                let (state, actions) = self.load_ok(event);
                Self::done(state, actions)
            },
            Input::Decode { chunk, decoder, pick } => {
                let (state, actions) = self.decode(chunk, decoder, pick);
                Self::done(state, actions)
            },
            Input::Recover(event) => {
                let (state, actions) = self.recover(event);
                Self::done(state, actions)
            },
            Input::RecoverEncode(event) => {
                let (state, actions) = self.recover_encode(event);
                Self::done(state, actions)
            },
        }
    }
}

} // verus!
