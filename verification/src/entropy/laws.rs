use crate::entropy::model::{Input, Outcome, PeerView, PersistStatusView};
use crate::entropy::{
    ActionView, Chunk, DownloadOkView, Error, FragmentAvailable, GetOkView, InviteOk, PeerId,
    Preimage, PutOk, PutView, RecoverView, WorkView,
};
use tokio_util::sync::CancellationToken;
use vstd::prelude::*;

verus! {

impl<K: Preimage, E, D> PeerView<K, E, D> {
    /// The chunk is in at most one of the tables of uploads, downloads and promises.
    pub open spec fn has_one_role(self, chunk: Chunk) -> bool {
        &&& !(self.uploads.contains_key(chunk) && self.downloads.contains_key(chunk))
        &&& !(self.uploads.contains_key(chunk) && self.persists.contains_key(chunk))
        &&& !(self.downloads.contains_key(chunk) && self.persists.contains_key(chunk))
    }

    /// No chunk is in two of the tables of uploads, downloads and promises.
    pub open spec fn tables_disjoint(self) -> bool {
        forall|chunk: Chunk| #[trigger] self.has_one_role(chunk)
    }

    /// Whether an input opens a second role for a chunk that has one: a `Put` of the right
    /// length or a `Get` for a chunk that is in another table, or the invitation of
    /// another peer for a chunk that this peer uploads or downloads.
    pub open spec fn opens_second_role(self, input: Input<K, E, D>) -> bool {
        match input {
            Input::Put { put, .. } => {
                &&& put.1.len() == self.chunk_len()
                &&& (self.downloads.contains_key(put.0.chunk()) || self.persists.contains_key(
                    put.0.chunk(),
                ))
            },
            Input::Get { preimage, .. } => self.uploads.contains_key(preimage.chunk())
                || self.persists.contains_key(preimage.chunk()),
            Input::Invite { invite, .. } => {
                &&& invite.peer_id != self.id
                &&& (self.uploads.contains_key(invite.chunk) || self.downloads.contains_key(
                    invite.chunk,
                ))
            },
            _ => false,
        }
    }

    /// The peer after a run of inputs, one after the other.
    pub open spec fn run(self, inputs: Seq<Input<K, E, D>>) -> Self
        decreases inputs.len(),
    {
        if inputs.len() == 0 {
            self
        } else {
            self.run(inputs.drop_last()).step(inputs.last()).state
        }
    }

    /// The peers from which a run of inputs brought a receipt for the chunk that was signed
    /// by its sender's own key.
    pub open spec fn receipt_senders(inputs: Seq<Input<K, E, D>>, chunk: Chunk) -> Set<PeerId>
        decreases inputs.len(),
    {
        if inputs.len() == 0 {
            Set::empty()
        } else {
            let before = Self::receipt_senders(inputs.drop_last(), chunk);
            match inputs.last() {
                Input::FragmentAvailable { message, verified } => if verified && message.peer_id
                    == message.peer_key.digest && message.chunk == chunk {
                    before.insert(message.peer_id)
                } else {
                    before
                },
                _ => before,
            }
        }
    }

    /// Whether each upload stands under the chunk of its preimage, and counts only peers
    /// from which the inputs brought a receipt.
    pub open spec fn counts_receipts_of(self, inputs: Seq<Input<K, E, D>>) -> bool {
        forall|chunk: Chunk| #[trigger]
            self.uploads.contains_key(chunk) ==> {
                &&& self.uploads[chunk].preimage.chunk() == chunk
                &&& self.uploads[chunk].available.subset_of(Self::receipt_senders(inputs, chunk))
            }
    }

    /// Whether each upload still lacks receipts: it counts finitely many peers, and fewer
    /// than `n`.
    pub open spec fn uploads_lack_receipts(self) -> bool {
        forall|chunk: Chunk| #[trigger]
            self.uploads.contains_key(chunk) ==> {
                &&& self.uploads[chunk].available.finite()
                &&& self.uploads[chunk].available.len() < self.chunk_n
            }
    }

    /// Whether the second input brings again the message of the first.
    pub open spec fn replays(first: Input<K, E, D>, second: Input<K, E, D>) -> bool {
        match (first, second) {
            (Input::Invite { invite: a, .. }, Input::Invite { invite: b, .. }) => a == b,
            (Input::InviteOk(a), Input::InviteOk(b)) => a == b,
            (
                Input::FragmentAvailable { message: a, verified: held },
                Input::FragmentAvailable { message: b, verified: holds },
            ) => a == b && held == holds,
            (Input::Pull(a), Input::Pull(b)) => a == b,
            (Input::SendFragment(a), Input::SendFragment(b)) => a == b,
            _ => false,
        }
    }

    /// Whether every decoder at rest has nothing left to do: where the decoder of a chunk
    /// is in its place, no fragment of the chunk waits for it.
    pub open spec fn decoders_rest_idle(self) -> bool {
        &&& forall|chunk: Chunk| #[trigger]
            self.downloads.contains_key(chunk) && self.downloads[chunk].recover.decoder is Some
                ==> !self.downloads[chunk].recover.has_pending()
        &&& forall|chunk: Chunk| #[trigger]
            self.persists.contains_key(chunk) ==> (self.persists[chunk].status
                matches PersistStatusView::Recovering(recover) ==> recover.decoder is Some
                ==> !recover.has_pending())
    }
}

/// An event leaves no chunk in two of the tables of uploads, downloads and promises, if
/// none was before and the event does not open a second role for a chunk.
pub proof fn law_tables_stay_disjoint<K: Preimage, E, D>(
    state: PeerView<K, E, D>,
    input: Input<K, E, D>,
)
    requires
        state.tables_disjoint(),
        !state.opens_second_role(input),
    ensures
        state.step(input).state.tables_disjoint(),
{
    let after = state.step(input).state;
    assert forall|chunk: Chunk| #[trigger] after.has_one_role(chunk) by {
        assert(state.has_one_role(chunk));
        match input {
            Input::Put { put, .. } => {
                assert(state.has_one_role(put.0.chunk()));
            },
            Input::Get { preimage, .. } => {
                assert(state.has_one_role(preimage.chunk()));
            },
            Input::Invite { invite, .. } => {
                assert(state.has_one_role(invite.chunk));
            },
            _ => {},
        }
    }
}

/// The index that a peer has promised for a chunk stays: no event takes the promise
/// away, and none changes its index.
pub proof fn law_index_is_stable<K: Preimage, E, D>(
    state: PeerView<K, E, D>,
    input: Input<K, E, D>,
    chunk: Chunk,
)
    requires
        state.persists.contains_key(chunk),
    ensures
        state.step(input).state.persists.contains_key(chunk),
        state.step(input).state.persists[chunk].index == state.persists[chunk].index,
{
}

/// A `Put` whose buffer is not `k` fragments long is refused: nothing changes and nothing
/// is asked for.
pub proof fn law_put_of_wrong_length<K: Preimage, E, D>(
    state: PeerView<K, E, D>,
    put: PutView<K>,
    cancel: CancellationToken,
)
    requires
        put.1.len() != state.fragment_len * state.chunk_k,
    ensures
        state.put(put, cancel) == (Outcome { state, result: Err(Error::ChunkLength) }),
{
}

/// An `InviteOk` for an index that is reserved is ignored, whoever sends it: so is the
/// second of two for the same index.
pub proof fn law_second_invite_ok<K: Preimage, E, D>(
    state: PeerView<K, E, D>,
    first: InviteOk,
    second: InviteOk,
)
    requires
        first.chunk == second.chunk,
        first.index == second.index,
    ensures
        state.invite_ok(first).0.invite_ok(second) == (
            state.invite_ok(first).0,
            Seq::<ActionView<K, E, D>>::empty(),
        ),
{
}

/// A receipt whose sender is not the owner of its key is dropped, and so is one whose
/// signature does not hold.
pub proof fn law_forged_receipt<K: Preimage, E, D>(
    state: PeerView<K, E, D>,
    message: FragmentAvailable,
    verified: bool,
)
    requires
        message.peer_id != message.peer_key.digest || !verified,
    ensures
        state.fragment_available(message, verified) == (state, Seq::<ActionView<K, E, D>>::empty()),
{
}

/// An upload ends once. The receipt that ends it finds `n` peers with receipts, its
/// sender among them, takes the upload from the table and tells the caller of the
/// upload's preimage; after it, a receipt for the chunk changes nothing and asks for
/// nothing, and no other event tells the caller of a stored chunk.
pub proof fn law_upload_ends_once<K: Preimage, E, D>(
    state: PeerView<K, E, D>,
    input: Input<K, E, D>,
    i: int,
)
    requires
        state.step(input).result is Ok,
        0 <= i < state.step(input).result->Ok_0.len(),
        state.step(input).result->Ok_0[i] is PutOk,
    ensures
        input matches Input::FragmentAvailable { message, verified } && {
            let upload = state.uploads[message.chunk];
            let after = state.step(input).state;
            &&& state.counts(message, verified)
            &&& upload.available.insert(message.peer_id).len() == state.chunk_n
            &&& state.step(input).result->Ok_0 == seq![
                ActionView::<K, E, D>::Cancel(upload.cancel),
                ActionView::PutOk(PutOk(upload.preimage)),
            ]
            &&& !after.uploads.contains_key(message.chunk)
            &&& forall|again: FragmentAvailable, holds: bool|
                again.chunk == message.chunk ==> #[trigger] after.fragment_available(again, holds)
                    == (after, Seq::<ActionView<K, E, D>>::empty())
        },
{
    match input {
        Input::LoadOk(event) => {
            let offers = state.load_ok(event).1;
            assert(offers[i] is Offer);
        },
        _ => {},
    }
}

/// A download ends with the bytes that the codec recovered: the caller gets a chunk only
/// in answer to `Recover` for a chunk that is downloaded, with the preimage of that
/// download and the bytes of that event, and the download is then over.
pub proof fn law_get_ok_is_recovered<K: Preimage, E, D>(
    state: PeerView<K, E, D>,
    input: Input<K, E, D>,
    i: int,
)
    requires
        state.step(input).result is Ok,
        0 <= i < state.step(input).result->Ok_0.len(),
        state.step(input).result->Ok_0[i] is GetOk,
    ensures
        input matches Input::Recover(RecoverView(chunk, bytes)) && {
            &&& state.downloads.contains_key(chunk)
            &&& state.step(input).result->Ok_0[i] == ActionView::<K, E, D>::GetOk(
                GetOkView(state.downloads[chunk].preimage, bytes),
            )
            &&& !state.step(input).state.downloads.contains_key(chunk)
        },
{
    match input {
        Input::LoadOk(event) => {
            let offers = state.load_ok(event).1;
            assert(offers[i] is Offer);
        },
        _ => {},
    }
}

/// No fragment waits while a decoder rests: if that holds before an event that the peer
/// is prepared for, it holds after it.
pub proof fn law_decoders_rest_idle<K: Preimage, E, D>(
    state: PeerView<K, E, D>,
    input: Input<K, E, D>,
)
    requires
        state.decoders_rest_idle(),
        state.expects(input),
    ensures
        state.step(input).state.decoders_rest_idle(),
{
}

/// A fragment that arrives for a download is not lost: it leaves with the decoder at
/// once, or it waits for the decoder under its index.
pub proof fn law_fragment_is_kept<K: Preimage, E, D>(
    state: PeerView<K, E, D>,
    event: DownloadOkView,
)
    requires
        state.downloads.contains_key(event.0),
    ensures
        ({
            let DownloadOkView(chunk, index, fragment) = event;
            let (after, actions) = state.download_ok(event);
            match state.downloads[chunk].recover.decoder {
                Some(decoder) => actions == seq![
                    ActionView::<K, E, D>::Submit(
                        WorkView::Decode { chunk, index, fragment, decoder, encode_index: None },
                    ),
                ],
                None => {
                    &&& after.downloads[chunk].recover.pending.contains_key(index)
                    &&& after.downloads[chunk].recover.pending[index] == fragment
                },
            }
        }),
{
}

/// A message of the overlay or the offer of a fragment that comes a second time leaves
/// the uploads, the downloads and the promises as the first left them, if the peer is
/// prepared for it; and but for a `Pull`, which notes its sender once more, it leaves the
/// whole peer so.
pub proof fn law_replay_changes_nothing<K: Preimage, E, D>(
    state: PeerView<K, E, D>,
    first: Input<K, E, D>,
    second: Input<K, E, D>,
)
    requires
        PeerView::replays(first, second),
        state.step(first).state.expects(second),
    ensures
        ({
            let once = state.step(first).state;
            let twice = once.step(second).state;
            &&& twice.uploads == once.uploads
            &&& twice.downloads == once.downloads
            &&& twice.persists == once.persists
            &&& !(first is Pull) ==> twice == once
        }),
{
    let once = state.step(first).state;
    let twice = once.step(second).state;
    match first {
        Input::FragmentAvailable { message, verified } => {
            if state.counts(message, verified) {
                let available = state.uploads[message.chunk].available.insert(message.peer_id);
                assert(available.insert(message.peer_id) =~= available);
                assert(twice.uploads =~= once.uploads);
            }
        },
        Input::SendFragment(meta) => {
            assert(twice.persists =~= once.persists);
        },
        _ => {},
    }
}

/// The uploads of a peer count only receipts that came: after any run of inputs from a
/// state without uploads, each upload stands under the chunk of its preimage, and the
/// peers that it counts are among those from which the run brought a receipt for the
/// chunk, signed by the sender's own key.
pub proof fn law_receipts_are_counted<K: Preimage, E, D>(
    state: PeerView<K, E, D>,
    inputs: Seq<Input<K, E, D>>,
)
    requires
        state.uploads == Map::<Chunk, crate::entropy::model::UploadStateView<K, E>>::empty(),
    ensures
        state.run(inputs).counts_receipts_of(inputs),
        state.run(inputs).chunk_n == state.chunk_n,
    decreases inputs.len(),
{
    if inputs.len() > 0 {
        let before = state.run(inputs.drop_last());
        let input = inputs.last();
        let after = state.run(inputs);
        law_receipts_are_counted(state, inputs.drop_last());
        assert forall|chunk: Chunk| #[trigger] after.uploads.contains_key(chunk) implies {
            &&& after.uploads[chunk].preimage.chunk() == chunk
            &&& after.uploads[chunk].available.subset_of(
                PeerView::<K, E, D>::receipt_senders(inputs, chunk),
            )
        } by {
            assert(PeerView::<K, E, D>::receipt_senders(inputs.drop_last(), chunk).subset_of(
                PeerView::<K, E, D>::receipt_senders(inputs, chunk),
            ));
            if before.uploads.contains_key(chunk) {
                assert(before.uploads[chunk].available.subset_of(
                    PeerView::<K, E, D>::receipt_senders(inputs.drop_last(), chunk),
                ));
            }
        }
    }
}

/// The peers from which a run of inputs brought receipts for a chunk are finitely many.
pub proof fn law_receipt_senders_finite<K: Preimage, E, D>(
    inputs: Seq<Input<K, E, D>>,
    chunk: Chunk,
)
    ensures
        PeerView::<K, E, D>::receipt_senders(inputs, chunk).finite(),
    decreases inputs.len(),
{
    if inputs.len() > 0 {
        law_receipt_senders_finite(inputs.drop_last(), chunk);
    }
}

/// When a peer tells its caller that a chunk is stored, at least `n` distinct peers have
/// sent it a receipt for the chunk of that preimage, each signed by its sender's own key:
/// this holds of the inputs of any run from a state without uploads.
pub proof fn law_put_ok_has_n_receipts<K: Preimage, E, D>(
    state: PeerView<K, E, D>,
    inputs: Seq<Input<K, E, D>>,
    i: int,
    preimage: K,
)
    requires
        state.uploads == Map::<Chunk, crate::entropy::model::UploadStateView<K, E>>::empty(),
        inputs.len() > 0,
        state.run(inputs.drop_last()).step(inputs.last()).result is Ok,
        0 <= i < state.run(inputs.drop_last()).step(inputs.last()).result->Ok_0.len(),
        state.run(inputs.drop_last()).step(inputs.last()).result->Ok_0[i] == ActionView::<
            K,
            E,
            D,
        >::PutOk(PutOk(preimage)),
    ensures
        PeerView::<K, E, D>::receipt_senders(inputs, preimage.chunk()).finite(),
        PeerView::<K, E, D>::receipt_senders(inputs, preimage.chunk()).len() >= state.chunk_n,
{
    let before = state.run(inputs.drop_last());
    let input = inputs.last();
    law_receipts_are_counted(state, inputs.drop_last());
    law_upload_ends_once(before, input, i);
    let message = input->FragmentAvailable_message;
    let chunk = message.chunk;
    assert(before.uploads.contains_key(chunk));
    let counted = before.uploads[chunk].available.insert(message.peer_id);
    let senders = PeerView::<K, E, D>::receipt_senders(inputs, chunk);
    assert(counted.subset_of(senders)) by {
        assert(before.uploads[chunk].available.subset_of(
            PeerView::<K, E, D>::receipt_senders(inputs.drop_last(), chunk),
        ));
    }
    law_receipt_senders_finite(inputs, chunk);
    vstd::set_lib::lemma_len_subset(counted, senders);
}

/// An upload is in the table only while it lacks receipts: if every upload counts fewer
/// than `n` peers before an event, so does every upload after it. With
/// [`law_upload_ends_once`] this says that an upload ends exactly when the `n`-th peer is
/// counted.
pub proof fn law_uploads_lack_receipts<K: Preimage, E, D>(
    state: PeerView<K, E, D>,
    input: Input<K, E, D>,
)
    requires
        0 < state.chunk_n,
        state.uploads_lack_receipts(),
    ensures
        state.step(input).state.uploads_lack_receipts(),
        state.step(input).state.chunk_n == state.chunk_n,
{
    let after = state.step(input).state;
    assert forall|chunk: Chunk| #[trigger] after.uploads.contains_key(chunk) implies {
        &&& after.uploads[chunk].available.finite()
        &&& after.uploads[chunk].available.len() < after.chunk_n
    } by {
        if state.uploads.contains_key(chunk) {
            assert(state.uploads[chunk].available.finite());
        }
        match input {
            Input::FragmentAvailable { message, verified } => {
                if state.counts(message, verified) {
                    assert(state.uploads.contains_key(message.chunk));
                    let counted = state.uploads[message.chunk].available;
                    assert(counted.finite());
                    assert(counted.insert(message.peer_id).len() <= counted.len() + 1);
                }
            },
            _ => {},
        }
    }
}

} // verus!
