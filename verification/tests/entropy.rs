use augustus::crypto::{PublicKey, H256};
use augustus::entropy::codec::{after_decode, Next};
use augustus::entropy::fs::{Load, LoadOk, Store, StoreOk};
use augustus::entropy::peer::{Event, Peer};
use augustus::entropy::{
    Action, Decode, DownloadOk, Encode, Error, FragmentAvailable, Get, Invite, InviteOk,
    NewEncoder, Pull, Put, Recover, RecoverEncode, SendFragment, Work,
};
use augustus::net::{Multicast, Payload, Recv};
use bytes::Bytes;
use std::collections::{HashMap, VecDeque};
use tokio_util::sync::CancellationToken;

const FRAGMENT_LEN: u32 = 1024;
const K: usize = 2;
const N: usize = 3;
const M: usize = 5;

/// A stand-in for the fountain code: the fragment at an index is the part of the chunk at
/// that index modulo `k`, so that any `k` fragments whose indices differ modulo `k`
/// recover the chunk.
#[derive(Debug)]
struct Enc(Vec<u8>);

#[derive(Debug)]
struct Dec {
    fragment_len: usize,
    parts: Vec<Option<Vec<u8>>>,
}

fn encode(encoder: &Enc, index: u32) -> Vec<u8> {
    let len = FRAGMENT_LEN as usize;
    let part = index as usize % (encoder.0.len() / len);
    encoder.0[part * len..(part + 1) * len].to_vec()
}

fn new_decoder(chunk_len: u64, fragment_len: u32) -> Option<Dec> {
    if fragment_len == 0 {
        return None;
    }
    let k = (chunk_len / fragment_len as u64) as usize;
    Some(Dec { fragment_len: fragment_len as usize, parts: (0..k).map(|_| None).collect() })
}

fn decode(decoder: &mut Dec, index: u32, fragment: &[u8]) -> bool {
    assert_eq!(fragment.len(), decoder.fragment_len);
    let part = index as usize % decoder.parts.len();
    decoder.parts[part] = Some(fragment.to_vec());
    decoder.parts.iter().all(|part| part.is_some())
}

fn recover(decoder: &Dec) -> Vec<u8> {
    decoder.parts.iter().flat_map(|part| part.clone().unwrap()).collect()
}

type TestPeer = Peer<H256, Enc, Dec>;

type TestAction = Action<H256, Enc, Dec>;

fn id(n: u128) -> H256 {
    H256::new(0, n)
}

fn peer(n: u128) -> TestPeer {
    Peer::new(id(n), PublicKey { digest: id(n) }, FRAGMENT_LEN, K, N, M)
}

fn chunk() -> H256 {
    H256::new(7, 7)
}

fn object() -> Vec<u8> {
    vec![0xAA; 2048]
}

fn mixed_object() -> Vec<u8> {
    (0..2048u32).map(|i| (i % 251) as u8).collect()
}

enum Ev {
    NewEncoder(NewEncoder<Enc>),
    Invite(Invite),
    InviteOk(InviteOk),
    Encode(Encode),
    Offer(SendFragment, Bytes, Option<CancellationToken>),
    DownloadOk(DownloadOk, CancellationToken),
    StoreOk(StoreOk),
    LoadOk(LoadOk),
    FragmentAvailable(FragmentAvailable),
    Pull(Pull),
    Decode(Decode<Dec>),
    Recover(Recover),
    RecoverEncode(RecoverEncode),
}

/// Peers in one process, with the overlay, the bulk service, the codec worker and the
/// fragment store played by a queue of events and a map per peer.
struct World {
    peers: Vec<TestPeer>,
    ids: Vec<H256>,
    /// The peers that a multicast reaches.
    group: Vec<usize>,
    /// The peers of the group that answer.
    honest: Vec<bool>,
    /// The index that each peer promises when it is invited.
    indices: Vec<u32>,
    files: Vec<HashMap<(H256, u32), Vec<u8>>>,
    queue: VecDeque<(usize, Ev)>,
    put_oks: Vec<(usize, H256)>,
    get_oks: Vec<(usize, H256, Vec<u8>)>,
    invites: usize,
    invite_oks_accepted: usize,
    receipts: usize,
    pulls: usize,
    download_oks: Vec<usize>,
    decodes_submitted: Vec<usize>,
    cancelled: usize,
}

impl World {
    fn new(len: usize) -> Self {
        World {
            peers: (0..len).map(|i| peer(i as u128 + 1)).collect(),
            ids: (0..len).map(|i| id(i as u128 + 1)).collect(),
            group: Vec::new(),
            honest: vec![true; len],
            indices: (0..len as u32).collect(),
            files: (0..len).map(|_| HashMap::new()).collect(),
            queue: VecDeque::new(),
            put_oks: Vec::new(),
            get_oks: Vec::new(),
            invites: 0,
            invite_oks_accepted: 0,
            receipts: 0,
            pulls: 0,
            download_oks: vec![0; len],
            decodes_submitted: vec![0; len],
            cancelled: 0,
        }
    }

    fn at(&self, peer_id: H256) -> usize {
        self.ids.iter().position(|id| *id == peer_id).unwrap()
    }

    fn multicast(&mut self, to: Multicast) -> Vec<usize> {
        assert_eq!(to.0, chunk());
        self.group.iter().copied().take(to.1).collect()
    }

    fn perform(&mut self, at: usize, actions: Vec<TestAction>) {
        for action in actions {
            match action {
                Action::Submit(Work::NewEncoder { chunk, buf, fragment_len }) => {
                    assert_eq!(fragment_len, FRAGMENT_LEN);
                    self.queue.push_back((at, Ev::NewEncoder(NewEncoder(chunk, Enc(buf.to_vec())))));
                }
                Action::Submit(Work::Encode { chunk, index, encoder }) => {
                    let fragment = encode(&encoder, index);
                    self.queue.push_back((at, Ev::Encode(Encode(chunk, index, Payload(fragment)))));
                }
                Action::Submit(Work::Decode { chunk, index, fragment, mut decoder, encode_index }) => {
                    self.decodes_submitted[at] += 1;
                    let complete = decode(&mut decoder, index, &fragment.0);
                    let event = match after_decode(complete, encode_index) {
                        Next::Return => Ev::Decode(Decode(chunk, decoder)),
                        Next::Recover => Ev::Recover(Recover(chunk, Payload(recover(&decoder)))),
                        Next::RecoverEncode(index) => Ev::RecoverEncode(RecoverEncode(
                            chunk,
                            Payload(encode(&Enc(recover(&decoder)), index)),
                        )),
                    };
                    self.queue.push_back((at, event));
                }
                Action::SendInvite(to, invite) => {
                    for peer in self.multicast(to) {
                        self.invites += 1;
                        self.queue.push_back((peer, Ev::Invite(invite)));
                    }
                }
                Action::SendInviteOk(to, message) => {
                    let to = self.at(to);
                    self.queue.push_back((to, Ev::InviteOk(message)));
                }
                Action::SendFragmentAvailable(to, message) => {
                    let to = self.at(to);
                    self.queue.push_back((to, Ev::FragmentAvailable(message)));
                }
                Action::SendPull(to, pull) => {
                    for peer in self.multicast(to) {
                        self.pulls += 1;
                        self.queue.push_back((peer, Ev::Pull(pull)));
                    }
                }
                Action::Offer { peer_id, meta, payload, cancel } => {
                    let to = self.at(peer_id);
                    self.queue.push_back((to, Ev::Offer(meta, payload, cancel)));
                }
                Action::Accept { .. } => unreachable!(),
                Action::Store(Store(chunk, index, fragment)) => {
                    self.files[at].insert((chunk, index), fragment.0);
                    self.queue.push_back((at, Ev::StoreOk(StoreOk(chunk))));
                }
                Action::Load(Load(chunk, index, take)) => {
                    let fragment = if take {
                        self.files[at].remove(&(chunk, index))
                    } else {
                        self.files[at].get(&(chunk, index)).cloned()
                    };
                    if let Some(fragment) = fragment {
                        self.queue.push_back((at, Ev::LoadOk(LoadOk(chunk, index, Payload(fragment)))));
                    }
                }
                Action::PutOk(put_ok) => self.put_oks.push((at, put_ok.0)),
                Action::GetOk(get_ok) => self.get_oks.push((at, get_ok.0, get_ok.1 .0)),
                Action::Cancel(token) => {
                    self.cancelled += 1;
                    token.cancel()
                }
            }
        }
    }

    fn handle(&mut self, at: usize, event: Ev) {
        if !self.honest[at] {
            return;
        }
        let actions = match event {
            Ev::NewEncoder(event) => {
                assert!(self.peers[at].expects_new_encoder(&event.0));
                self.peers[at].on_new_encoder(event)
            }
            Ev::Invite(invite) => {
                let decoder = new_decoder(2048, FRAGMENT_LEN).unwrap();
                let index = self.indices[at];
                self.peers[at].invite_with(invite, index, decoder, CancellationToken::new())
            }
            Ev::InviteOk(message) => {
                assert!(self.peers[at].expects_invite_ok(&message));
                let actions = self.peers[at].on_invite_ok(message);
                self.invite_oks_accepted += actions.len();
                actions
            }
            Ev::Encode(event) => self.peers[at].on_encode(event),
            Ev::Offer(meta, payload, offer_cancel) => {
                assert!(self.peers[at].expects_send_fragment(&meta));
                let mut rest = Vec::new();
                for action in self.peers[at].on_send_fragment(meta).unwrap() {
                    match action {
                        Action::Accept { meta: accepted, expected_len, cancel } => {
                            assert_eq!(accepted, meta);
                            assert_eq!(expected_len, payload.len());
                            let stopped = offer_cancel.as_ref().map_or(false, |token| token.is_cancelled());
                            if !stopped {
                                self.queue.push_back((
                                    at,
                                    Ev::DownloadOk(
                                        DownloadOk(meta.chunk, meta.index, Payload(payload.to_vec())),
                                        cancel,
                                    ),
                                ));
                            }
                        }
                        action => rest.push(action),
                    }
                }
                rest
            }
            Ev::DownloadOk(event, cancel) => {
                if cancel.is_cancelled() {
                    return;
                }
                self.download_oks[at] += 1;
                self.peers[at].on_download_ok(event)
            }
            Ev::StoreOk(event) => self.peers[at].on_store_ok(event),
            Ev::LoadOk(event) => self.peers[at].on_load_ok(event),
            Ev::FragmentAvailable(message) => {
                self.receipts += 1;
                self.peers[at].on_fragment_available(message, true)
            }
            Ev::Pull(message) => self.peers[at].on_pull(message),
            Ev::Decode(event) => {
                assert!(self.peers[at].expects_decode(&event.0));
                self.peers[at].on_decode(event)
            }
            Ev::Recover(event) => self.peers[at].on_recover(event),
            Ev::RecoverEncode(event) => self.peers[at].on_recover_encode(event),
        };
        self.perform(at, actions);
    }

    fn run(&mut self) {
        while let Some((at, event)) = self.queue.pop_front() {
            self.handle(at, event)
        }
    }

    fn put(&mut self, at: usize, object: Vec<u8>) {
        let actions = self.peers[at].on_put(Put(chunk(), Bytes::from(object))).unwrap();
        self.perform(at, actions);
    }

    fn get(&mut self, at: usize) {
        let actions = self.peers[at].on_get(Get(chunk()), new_decoder).unwrap();
        self.perform(at, actions);
    }
}

/// Peer 0 uploads, peers 1 to 5 are invited, of which 4 and 5 never answer, peer 6
/// downloads.
fn world() -> World {
    let mut world = World::new(7);
    world.group = vec![1, 2, 3, 4, 5];
    world.honest[4] = false;
    world.honest[5] = false;
    world
}

#[test]
fn put_to_three_honest_persisters() {
    let mut world = world();
    world.put(0, object());
    world.run();
    assert_eq!(world.invites, 5);
    assert!(world.invite_oks_accepted >= 3);
    assert_eq!(world.receipts, 3);
    assert_eq!(world.put_oks, vec![(0, chunk())]);
    let files: Vec<&Vec<u8>> = world.files.iter().flat_map(|files| files.values()).collect();
    assert_eq!(files.len(), 3);
    for file in files {
        assert_eq!(file.len(), 1024);
    }
    assert_eq!(world.cancelled, 1);
}

#[test]
fn put_then_get() {
    let mut world = world();
    world.put(0, object());
    world.run();
    world.get(6);
    world.run();
    assert_eq!(world.pulls, 5);
    assert!(world.download_oks[6] >= 2);
    assert_eq!(world.get_oks, vec![(6, chunk(), object())]);
}

#[test]
fn put_then_get_gives_the_bytes_back() {
    let mut world = world();
    world.put(0, mixed_object());
    world.run();
    world.get(6);
    world.run();
    assert_eq!(world.put_oks, vec![(0, chunk())]);
    assert_eq!(world.get_oks, vec![(6, chunk(), mixed_object())]);
}

#[test]
fn persister_with_its_own_fragment_stores_it_as_it_is() {
    let mut world = world();
    world.put(0, mixed_object());
    world.run();
    for persister in 1..=3 {
        assert_eq!(world.decodes_submitted[persister], 0);
        let index = world.indices[persister];
        assert_eq!(
            world.files[persister].get(&(chunk(), index)),
            Some(&encode(&Enc(mixed_object()), index))
        );
    }
    assert_eq!(world.receipts, 3);
}

#[test]
fn persister_with_other_fragments_recovers_and_encodes_its_own() {
    let mut persister = peer(2);
    let uploader = id(1);
    let own = 5;
    let invite = Invite { chunk: chunk(), peer_id: uploader };
    let actions = persister.invite_with(
        invite,
        own,
        new_decoder(2048, FRAGMENT_LEN).unwrap(),
        CancellationToken::new(),
    );
    assert!(matches!(
        &actions[..],
        [Action::SendInviteOk(to, InviteOk { index: 5, .. })] if *to == uploader
    ));
    // the offer of its own fragment comes, but the bytes are slow
    let meta = SendFragment { chunk: chunk(), index: own, peer_id: Some(uploader) };
    assert!(persister.expects_send_fragment(&meta));
    let actions = persister.on_send_fragment(meta).unwrap();
    assert!(matches!(&actions[..], [Action::Accept { expected_len: 1024, .. }]));
    // two other fragments come first
    let encoder = Enc(mixed_object());
    let actions = persister.on_download_ok(DownloadOk(chunk(), 0, Payload(encode(&encoder, 0))));
    let decoder = match actions.into_iter().next() {
        Some(Action::Submit(Work::Decode { index: 0, mut decoder, encode_index: Some(5), fragment, .. })) => {
            assert!(!decode(&mut decoder, 0, &fragment.0));
            decoder
        }
        _ => panic!("expected a decoding job"),
    };
    // the second arrives while the decoder is away, and waits
    let actions = persister.on_download_ok(DownloadOk(chunk(), 1, Payload(encode(&encoder, 1))));
    assert!(actions.is_empty());
    assert!(persister.expects_decode(&chunk()));
    let actions = persister.on_decode(Decode(chunk(), decoder));
    let fragment = match actions.into_iter().next() {
        Some(Action::Submit(Work::Decode { index: 1, mut decoder, encode_index: Some(5), fragment, .. })) => {
            assert!(decode(&mut decoder, 1, &fragment.0));
            assert_eq!(after_decode(true, Some(5)), Next::RecoverEncode(5));
            encode(&Enc(recover(&decoder)), 5)
        }
        _ => panic!("expected a decoding job"),
    };
    assert_eq!(fragment, encode(&encoder, 5));
    let actions = persister.on_recover_encode(RecoverEncode(chunk(), Payload(fragment.clone())));
    match &actions[..] {
        [Action::Cancel(_), Action::Store(Store(stored, 5, Payload(bytes)))] => {
            assert_eq!(*stored, chunk());
            assert_eq!(*bytes, fragment);
        }
        _ => panic!("expected the fragment to be stored"),
    }
    let actions = persister.on_store_ok(StoreOk(chunk()));
    match &actions[..] {
        [Action::SendFragmentAvailable(to, receipt)] => {
            assert_eq!(*to, uploader);
            assert_eq!(
                *receipt,
                FragmentAvailable { chunk: chunk(), peer_id: id(2), peer_key: PublicKey { digest: id(2) } }
            );
        }
        _ => panic!("expected a receipt"),
    }
}

#[test]
fn receipt_after_put_ok_is_a_no_op() {
    let mut world = world();
    world.put(0, object());
    world.run();
    assert_eq!(world.put_oks.len(), 1);
    let receipt = FragmentAvailable { chunk: chunk(), peer_id: id(2), peer_key: PublicKey { digest: id(2) } };
    assert!(world.peers[0].on_fragment_available(receipt, true).is_empty());
    assert!(world.peers[0].on_fragment_available(receipt, true).is_empty());
    world.run();
    assert_eq!(world.put_oks.len(), 1);
}

#[test]
fn get_before_put_concludes() {
    let mut world = world();
    world.put(0, mixed_object());
    // run until two persisters keep their fragments, and hold back the rest
    while world.files.iter().map(|files| files.len()).sum::<usize>() < 2 {
        let (at, event) = world.queue.pop_front().unwrap();
        world.handle(at, event);
    }
    let held: Vec<(usize, Ev)> = world.queue.drain(..).collect();
    assert!(world.put_oks.is_empty());
    // nobody is available yet: the store has not answered
    world.get(6);
    let pulls: Vec<(usize, Ev)> = world.queue.drain(..).collect();
    for (at, event) in pulls {
        if world.honest[at] {
            match event {
                Ev::Pull(pull) => assert!(world.peers[at].on_pull(pull).is_empty()),
                _ => unreachable!(),
            }
        }
    }
    assert!(world.get_oks.is_empty());
    // the store answers, the persisters become available, and a second round of pulls
    // is served
    world.queue.extend(held);
    world.run();
    assert_eq!(world.put_oks, vec![(0, chunk())]);
    for at in [1, 2, 3] {
        let actions = world.peers[at].on_pull(Pull { chunk: chunk(), peer_id: id(7) });
        assert!(matches!(&actions[..], [Action::Load(Load(_, _, true))]));
        world.perform(at, actions);
    }
    world.run();
    assert_eq!(world.get_oks, vec![(6, chunk(), mixed_object())]);
}

#[test]
fn put_of_wrong_length_is_refused() {
    let mut uploader = peer(1);
    assert_eq!(
        uploader.on_put(Put(chunk(), Bytes::from(vec![0; 2047]))).unwrap_err(),
        Error::ChunkLength
    );
    assert_eq!(
        uploader.on_put(Put(chunk(), Bytes::from(vec![0; 2049]))).unwrap_err(),
        Error::ChunkLength
    );
    assert_eq!(uploader.on_put(Put(chunk(), Bytes::new())).unwrap_err(), Error::ChunkLength);
    // nothing was installed: the same chunk can still be put
    let actions = uploader.on_put(Put(chunk(), Bytes::from(object()))).unwrap();
    match &actions[..] {
        [Action::Submit(Work::NewEncoder { chunk: submitted, buf, fragment_len: 1024 })] => {
            assert_eq!(*submitted, chunk());
            assert_eq!(buf.len(), 2048);
        }
        _ => panic!("expected the encoder to be asked for"),
    }
}

#[test]
fn second_put_of_a_chunk_is_an_error() {
    let mut uploader = uploading();
    let message = InviteOk { chunk: chunk(), index: 9, proof: (), peer_id: id(2) };
    uploader.on_invite_ok(message);
    assert_eq!(
        uploader.on_put(Put(chunk(), Bytes::from(object()))).unwrap_err(),
        Error::DuplicateUpload(chunk())
    );
    // the upload goes on as it was: its encoder and its reservation are still there
    assert!(!uploader.expects_new_encoder(&chunk()));
    assert!(uploader.on_invite_ok(message).is_empty());
    assert_eq!(uploader.on_encode(Encode(chunk(), 9, Payload(vec![1; 1024]))).len(), 1);
}

#[test]
fn second_get_of_a_chunk_is_an_error() {
    let mut downloader = peer(1);
    let actions = downloader.on_get(Get(chunk()), new_decoder).unwrap();
    match &actions[..] {
        [Action::SendPull(Multicast(to, 5), pull)] => {
            assert_eq!(*to, chunk());
            assert_eq!(*pull, Pull { chunk: chunk(), peer_id: id(1) });
        }
        _ => panic!("expected a pull"),
    }
    let actions = downloader.on_download_ok(DownloadOk(chunk(), 0, Payload(vec![3; 1024])));
    assert_eq!(actions.len(), 1);
    let mut asked = false;
    let again = downloader.on_get(Get(chunk()), |chunk_len, fragment_len| {
        asked = true;
        new_decoder(chunk_len, fragment_len)
    });
    assert_eq!(again.unwrap_err(), Error::DuplicateDownload(chunk()));
    assert!(!asked);
    // the download goes on as it was: its decoder is still away
    assert!(downloader.expects_decode(&chunk()));
    assert!(downloader.on_download_ok(DownloadOk(chunk(), 1, Payload(vec![3; 1024]))).is_empty());
}

#[test]
fn get_without_a_decoder_is_an_error() {
    let mut downloader = peer(1);
    assert_eq!(downloader.on_get(Get(chunk()), |_, _| None).unwrap_err(), Error::Decoder);
    // nothing was installed
    assert!(downloader.on_get(Get(chunk()), new_decoder).is_ok());
}

#[test]
fn decoder_is_asked_for_the_chunk_length() {
    let mut downloader = peer(1);
    let mut asked = None;
    downloader
        .on_get(Get(chunk()), |chunk_len, fragment_len| {
            asked = Some((chunk_len, fragment_len));
            new_decoder(chunk_len, fragment_len)
        })
        .unwrap();
    assert_eq!(asked, Some((2048, 1024)));
}

#[test]
fn invite_from_self_is_ignored() {
    let mut persister = peer(1);
    let invite = Invite { chunk: chunk(), peer_id: id(1) };
    let mut asked = false;
    let actions = persister
        .on_invite(invite, |chunk_len, fragment_len| {
            asked = true;
            new_decoder(chunk_len, fragment_len)
        })
        .unwrap();
    assert!(actions.is_empty());
    assert!(!asked);
    // no promise was made: a pull finds nothing
    assert!(persister.on_pull(Pull { chunk: chunk(), peer_id: id(2) }).is_empty());
    assert!(persister.on_store_ok(StoreOk(chunk())).is_empty());
}

#[test]
fn invite_is_answered_with_the_promised_index() {
    let mut persister = peer(2);
    let invite = Invite { chunk: chunk(), peer_id: id(1) };
    let actions = persister.on_invite(invite, new_decoder).unwrap();
    let index = match &actions[..] {
        [Action::SendInviteOk(to, InviteOk { chunk: invited, index, peer_id, .. })] => {
            assert_eq!(*to, id(1));
            assert_eq!(*invited, chunk());
            assert_eq!(*peer_id, id(2));
            *index
        }
        _ => panic!("expected an answer"),
    };
    // the promise stays, whatever index is drawn the second time
    let actions = persister.invite_with(
        invite,
        index.wrapping_add(1),
        new_decoder(2048, FRAGMENT_LEN).unwrap(),
        CancellationToken::new(),
    );
    assert!(matches!(&actions[..], [Action::SendInviteOk(_, InviteOk { index: again, .. })] if *again == index));
}

#[test]
fn invite_without_a_decoder_is_an_error() {
    let mut persister = peer(2);
    let invite = Invite { chunk: chunk(), peer_id: id(1) };
    assert_eq!(persister.on_invite(invite, |_, _| None).unwrap_err(), Error::Decoder);
}

fn uploading() -> TestPeer {
    let mut uploader = peer(1);
    uploader.on_put(Put(chunk(), Bytes::from(mixed_object()))).unwrap();
    let actions = uploader.on_new_encoder(NewEncoder(chunk(), Enc(mixed_object())));
    match &actions[..] {
        [Action::SendInvite(Multicast(to, 5), invite)] => {
            assert_eq!(*to, chunk());
            assert_eq!(*invite, Invite { chunk: chunk(), peer_id: id(1) });
        }
        _ => panic!("expected an invitation"),
    }
    uploader
}

#[test]
fn second_invite_ok_with_the_same_index_is_ignored() {
    let mut uploader = uploading();
    let first = InviteOk { chunk: chunk(), index: 9, proof: (), peer_id: id(2) };
    let actions = uploader.on_invite_ok(first);
    assert!(matches!(&actions[..], [Action::Submit(Work::Encode { index: 9, .. })]));
    assert!(uploader.on_invite_ok(first).is_empty());
    let other = InviteOk { chunk: chunk(), index: 9, proof: (), peer_id: id(3) };
    assert!(uploader.on_invite_ok(other).is_empty());
    // the fragment goes to the peer that reserved the index first
    let actions = uploader.on_encode(Encode(chunk(), 9, Payload(vec![1; 1024])));
    match &actions[..] {
        [Action::Offer { peer_id, meta, payload, cancel: Some(_) }] => {
            assert_eq!(*peer_id, id(2));
            assert_eq!(*meta, SendFragment { chunk: chunk(), index: 9, peer_id: Some(id(1)) });
            assert_eq!(&payload[..], &[1; 1024][..]);
        }
        _ => panic!("expected an offer"),
    }
}

#[test]
fn invite_ok_for_an_unknown_chunk_is_ignored() {
    let mut uploader = peer(1);
    let message = InviteOk { chunk: chunk(), index: 9, proof: (), peer_id: id(2) };
    assert!(uploader.expects_invite_ok(&message));
    assert!(uploader.on_invite_ok(message).is_empty());
    assert!(uploader.on_encode(Encode(chunk(), 9, Payload(vec![1; 1024]))).is_empty());
}

#[test]
fn invite_ok_before_the_encoder_is_not_expected() {
    let mut uploader = peer(1);
    uploader.on_put(Put(chunk(), Bytes::from(object()))).unwrap();
    let message = InviteOk { chunk: chunk(), index: 9, proof: (), peer_id: id(2) };
    assert!(!uploader.expects_invite_ok(&message));
    assert!(uploader.expects_new_encoder(&chunk()));
    uploader.on_new_encoder(NewEncoder(chunk(), Enc(object())));
    assert!(!uploader.expects_new_encoder(&chunk()));
    assert!(uploader.expects_invite_ok(&message));
}

#[test]
fn encode_for_an_index_that_nobody_reserved_is_ignored() {
    let uploader = uploading();
    assert!(uploader.on_encode(Encode(chunk(), 3, Payload(vec![1; 1024]))).is_empty());
}

#[test]
fn receipt_from_another_key_is_dropped() {
    let mut uploader = uploading();
    for n in 2..5 {
        // the sender claims to be `n`, the key is that of `n + 10`
        let forged = FragmentAvailable {
            chunk: chunk(),
            peer_id: id(n),
            peer_key: PublicKey { digest: id(n + 10) },
        };
        assert!(uploader.on_fragment_available(forged, true).is_empty());
    }
    // none of them counted: three true receipts are still needed
    for n in 2..4 {
        let receipt = FragmentAvailable { chunk: chunk(), peer_id: id(n), peer_key: PublicKey { digest: id(n) } };
        assert!(uploader.on_fragment_available(receipt, true).is_empty());
    }
    let receipt = FragmentAvailable { chunk: chunk(), peer_id: id(4), peer_key: PublicKey { digest: id(4) } };
    let actions = uploader.on_fragment_available(receipt, true);
    assert!(matches!(&actions[..], [Action::Cancel(_), Action::PutOk(_)]));
}

#[test]
fn receipt_with_a_bad_signature_is_dropped() {
    let mut uploader = uploading();
    for n in 2..5 {
        let receipt = FragmentAvailable { chunk: chunk(), peer_id: id(n), peer_key: PublicKey { digest: id(n) } };
        assert!(uploader.on_fragment_available(receipt, false).is_empty());
    }
    for n in 2..4 {
        let receipt = FragmentAvailable { chunk: chunk(), peer_id: id(n), peer_key: PublicKey { digest: id(n) } };
        assert!(uploader.on_fragment_available(receipt, true).is_empty());
    }
}

#[test]
fn receipts_of_one_peer_count_once() {
    let mut uploader = uploading();
    let receipt = FragmentAvailable { chunk: chunk(), peer_id: id(2), peer_key: PublicKey { digest: id(2) } };
    for _ in 0..5 {
        assert!(uploader.on_fragment_available(receipt, true).is_empty());
    }
    let receipt = FragmentAvailable { chunk: chunk(), peer_id: id(3), peer_key: PublicKey { digest: id(3) } };
    assert!(uploader.on_fragment_available(receipt, true).is_empty());
    let receipt = FragmentAvailable { chunk: chunk(), peer_id: id(4), peer_key: PublicKey { digest: id(4) } };
    let actions = uploader.on_fragment_available(receipt, true);
    match &actions[..] {
        [Action::Cancel(_), Action::PutOk(put_ok)] => assert_eq!(put_ok.0, chunk()),
        _ => panic!("expected the upload to end"),
    }
}

#[test]
fn the_token_of_the_upload_is_the_one_that_is_cancelled() {
    let mut uploader = peer(1);
    let token = CancellationToken::new();
    uploader.put_under(Put(chunk(), Bytes::from(object())), token.clone()).unwrap();
    uploader.on_new_encoder(NewEncoder(chunk(), Enc(object())));
    uploader.on_invite_ok(InviteOk { chunk: chunk(), index: 9, proof: (), peer_id: id(2) });
    let actions = uploader.on_encode(Encode(chunk(), 9, Payload(vec![1; 1024])));
    match &actions[..] {
        [Action::Offer { cancel: Some(offered), .. }] => assert_eq!(*offered, token),
        _ => panic!("expected an offer"),
    }
    let mut last = Vec::new();
    for n in 2..5 {
        let receipt = FragmentAvailable { chunk: chunk(), peer_id: id(n), peer_key: PublicKey { digest: id(n) } };
        last = uploader.on_fragment_available(receipt, true);
    }
    match &last[..] {
        [Action::Cancel(cancelled), Action::PutOk(_)] => assert_eq!(*cancelled, token),
        _ => panic!("expected the upload to end"),
    }
}

fn promised(own: u32) -> TestPeer {
    let mut persister = peer(2);
    persister.invite_with(
        Invite { chunk: chunk(), peer_id: id(1) },
        own,
        new_decoder(2048, FRAGMENT_LEN).unwrap(),
        CancellationToken::new(),
    );
    persister
}

#[test]
fn own_fragment_without_a_sender_is_an_error() {
    let mut persister = promised(5);
    let meta = SendFragment { chunk: chunk(), index: 5, peer_id: None };
    assert!(persister.expects_send_fragment(&meta));
    assert_eq!(persister.on_send_fragment(meta).unwrap_err(), Error::MissingPeerId);
    // nothing was noted: the same offer with a sender is still expected
    let meta = SendFragment { chunk: chunk(), index: 5, peer_id: Some(id(1)) };
    assert!(persister.expects_send_fragment(&meta));
}

#[test]
fn own_fragment_is_expected_once() {
    let mut persister = promised(5);
    let meta = SendFragment { chunk: chunk(), index: 5, peer_id: Some(id(1)) };
    assert!(persister.expects_send_fragment(&meta));
    persister.on_send_fragment(meta).unwrap();
    assert!(!persister.expects_send_fragment(&meta));
    // other fragments are still welcome
    let other = SendFragment { chunk: chunk(), index: 6, peer_id: Some(id(1)) };
    assert!(persister.expects_send_fragment(&other));
    assert!(matches!(&persister.on_send_fragment(other).unwrap()[..], [Action::Accept { .. }]));
}

#[test]
fn offer_to_a_peer_that_keeps_its_fragment_is_answered_with_a_receipt() {
    let mut persister = promised(5);
    persister.on_download_ok(DownloadOk(chunk(), 5, Payload(vec![3; 1024])));
    let meta = SendFragment { chunk: chunk(), index: 5, peer_id: Some(id(1)) };
    assert!(persister.expects_send_fragment(&meta));
    let actions = persister.on_send_fragment(meta).unwrap();
    match &actions[..] {
        [Action::SendFragmentAvailable(to, receipt)] => {
            assert_eq!(*to, id(1));
            assert_eq!(receipt.chunk, chunk());
            assert_eq!(receipt.peer_id, id(2));
        }
        _ => panic!("expected a receipt"),
    }
    let wrong = SendFragment { chunk: chunk(), index: 6, peer_id: Some(id(1)) };
    assert!(!persister.expects_send_fragment(&wrong));
    let silent = SendFragment { chunk: chunk(), index: 6, peer_id: None };
    assert!(persister.expects_send_fragment(&silent));
    assert!(persister.on_send_fragment(silent).unwrap().is_empty());
}

#[test]
fn offer_for_an_unknown_chunk_is_ignored() {
    let mut persister = peer(2);
    let meta = SendFragment { chunk: chunk(), index: 5, peer_id: Some(id(1)) };
    assert!(persister.expects_send_fragment(&meta));
    assert!(persister.on_send_fragment(meta).unwrap().is_empty());
    assert!(persister.on_download_ok(DownloadOk(chunk(), 5, Payload(vec![3; 1024]))).is_empty());
}

#[test]
fn fragment_seen_before_is_not_decoded_again() {
    let mut persister = promised(5);
    let actions = persister.on_download_ok(DownloadOk(chunk(), 0, Payload(vec![3; 1024])));
    let decoder = match actions.into_iter().next() {
        Some(Action::Submit(Work::Decode { decoder, .. })) => decoder,
        _ => panic!("expected a decoding job"),
    };
    assert!(persister.on_download_ok(DownloadOk(chunk(), 0, Payload(vec![3; 1024]))).is_empty());
    // nothing waits for the decoder
    assert!(persister.on_decode(Decode(chunk(), decoder)).is_empty());
    assert!(persister.on_download_ok(DownloadOk(chunk(), 0, Payload(vec![3; 1024]))).is_empty());
}

#[test]
fn decoder_is_not_expected_twice() {
    let mut persister = promised(5);
    assert!(!persister.expects_decode(&chunk()));
    let actions = persister.on_download_ok(DownloadOk(chunk(), 0, Payload(vec![3; 1024])));
    assert_eq!(actions.len(), 1);
    assert!(persister.expects_decode(&chunk()));
    // a chunk that the peer does not know is no trouble
    assert!(persister.expects_decode(&id(99)));
}

#[test]
fn codec_events_that_come_late_are_ignored() {
    let mut persister = promised(5);
    let actions = persister.on_download_ok(DownloadOk(chunk(), 0, Payload(vec![3; 1024])));
    let decoder = match actions.into_iter().next() {
        Some(Action::Submit(Work::Decode { decoder, .. })) => decoder,
        _ => panic!("expected a decoding job"),
    };
    // the peer's own fragment arrives while the decoder is away
    let actions = persister.on_download_ok(DownloadOk(chunk(), 5, Payload(vec![4; 1024])));
    assert!(matches!(&actions[..], [Action::Store(Store(_, 5, _))]));
    // the decoder, or the fragment encoded anew, comes back to a peer that stores already
    assert!(persister.expects_decode(&chunk()));
    assert!(persister.on_decode(Decode(chunk(), decoder)).is_empty());
    assert!(persister.on_recover_encode(RecoverEncode(chunk(), Payload(vec![5; 1024]))).is_empty());
    assert_eq!(persister.promised_index(&chunk()), Some(5));
    assert!(!persister.is_available(&chunk()));
    let actions = persister.on_store_ok(StoreOk(chunk()));
    assert!(actions.is_empty());
    assert!(persister.is_available(&chunk()));
    assert!(persister.on_recover_encode(RecoverEncode(chunk(), Payload(vec![5; 1024]))).is_empty());
    assert!(persister.is_available(&chunk()));
}

#[test]
fn pull_is_served_only_by_a_peer_that_keeps_its_fragment() {
    let mut persister = promised(5);
    let pull = Pull { chunk: chunk(), peer_id: id(7) };
    assert!(persister.on_pull(pull).is_empty());
    let actions = persister.on_download_ok(DownloadOk(chunk(), 5, Payload(vec![3; 1024])));
    match &actions[..] {
        [Action::Store(Store(stored, 5, Payload(bytes)))] => {
            assert_eq!(*stored, chunk());
            assert_eq!(*bytes, vec![3; 1024]);
        }
        _ => panic!("expected the fragment to be stored"),
    }
    assert!(persister.on_pull(pull).is_empty());
    assert!(persister.on_store_ok(StoreOk(chunk())).is_empty());
    let actions = persister.on_pull(pull);
    match &actions[..] {
        [Action::Load(load)] => assert_eq!(*load, Load(chunk(), 5, true)),
        _ => panic!("expected a load"),
    }
}

#[test]
fn loaded_fragment_goes_to_everyone_who_pulled() {
    let mut persister = promised(5);
    persister.on_download_ok(DownloadOk(chunk(), 5, Payload(vec![3; 1024])));
    persister.on_store_ok(StoreOk(chunk()));
    for n in [7, 8, 7] {
        persister.on_pull(Pull { chunk: chunk(), peer_id: id(n) });
    }
    let actions = persister.on_load_ok(LoadOk(chunk(), 5, Payload(vec![3; 1024])));
    assert_eq!(actions.len(), 3);
    for (action, n) in actions.iter().zip([7, 8, 7]) {
        match action {
            Action::Offer { peer_id, meta, payload, cancel: None } => {
                assert_eq!(*peer_id, id(n));
                assert_eq!(*meta, SendFragment { chunk: chunk(), index: 5, peer_id: None });
                assert_eq!(&payload[..], &[3; 1024][..]);
            }
            _ => panic!("expected an offer"),
        }
    }
    // the list is cleared
    assert!(persister.on_load_ok(LoadOk(chunk(), 5, Payload(vec![3; 1024]))).is_empty());
}

#[test]
fn download_hands_fragments_to_the_decoder_one_at_a_time() {
    let mut downloader = peer(7);
    downloader.on_get(Get(chunk()), new_decoder).unwrap();
    let meta = SendFragment { chunk: chunk(), index: 4, peer_id: None };
    assert!(matches!(
        &downloader.on_send_fragment(meta).unwrap()[..],
        [Action::Accept { expected_len: 1024, .. }]
    ));
    let encoder = Enc(mixed_object());
    let actions = downloader.on_download_ok(DownloadOk(chunk(), 4, Payload(encode(&encoder, 4))));
    let mut decoder = match actions.into_iter().next() {
        Some(Action::Submit(Work::Decode { index: 4, decoder, encode_index: None, .. })) => decoder,
        _ => panic!("expected a decoding job"),
    };
    assert!(!decode(&mut decoder, 4, &encode(&encoder, 4)));
    for index in [6, 7] {
        assert!(downloader
            .on_download_ok(DownloadOk(chunk(), index, Payload(encode(&encoder, index))))
            .is_empty());
    }
    assert!(downloader.expects_decode(&chunk()));
    let actions = downloader.on_decode(Decode(chunk(), decoder));
    let (first, mut decoder) = match actions.into_iter().next() {
        Some(Action::Submit(Work::Decode { index, decoder, fragment, .. })) => {
            assert_eq!(fragment.0, encode(&encoder, index));
            (index, decoder)
        }
        _ => panic!("expected a decoding job"),
    };
    assert!(first == 6 || first == 7);
    let complete = decode(&mut decoder, first, &encode(&encoder, first));
    assert_eq!(complete, first == 7);
    let actions = downloader.on_decode(Decode(chunk(), decoder));
    let (second, decoder) = match actions.into_iter().next() {
        Some(Action::Submit(Work::Decode { index, decoder, .. })) => (index, decoder),
        _ => panic!("expected a decoding job"),
    };
    assert_eq!(first + second, 13);
    assert!(downloader.on_decode(Decode(chunk(), decoder)).is_empty());
    let actions = downloader.on_recover(Recover(chunk(), Payload(mixed_object())));
    match &actions[..] {
        [Action::Cancel(_), Action::GetOk(get_ok)] => {
            assert_eq!(get_ok.0, chunk());
            assert_eq!(get_ok.1 .0, mixed_object());
        }
        _ => panic!("expected the chunk"),
    }
    assert!(downloader.on_recover(Recover(chunk(), Payload(mixed_object()))).is_empty());
}

#[test]
fn next_step_of_the_codec_worker() {
    assert_eq!(after_decode(false, None), Next::Return);
    assert_eq!(after_decode(false, Some(3)), Next::Return);
    assert_eq!(after_decode(true, None), Next::Recover);
    assert_eq!(after_decode(true, Some(3)), Next::RecoverEncode(3));
}

fn roles(peer: &TestPeer) -> usize {
    [peer.is_uploading(&chunk()), peer.is_downloading(&chunk()), peer.promised_index(&chunk()).is_some()]
        .into_iter()
        .filter(|role| *role)
        .count()
}

#[test]
fn chunk_has_one_role_on_each_peer() {
    let mut world = world();
    world.put(0, object());
    while let Some((at, event)) = world.queue.pop_front() {
        world.handle(at, event);
        for peer in &world.peers {
            assert!(roles(peer) <= 1);
        }
    }
    assert!(!world.peers[0].is_uploading(&chunk()));
    world.get(6);
    assert!(world.peers[6].is_downloading(&chunk()));
    while let Some((at, event)) = world.queue.pop_front() {
        world.handle(at, event);
        for peer in &world.peers {
            assert!(roles(peer) <= 1);
        }
    }
    assert!(!world.peers[6].is_downloading(&chunk()));
    assert_eq!(roles(&world.peers[6]), 0);
}

#[test]
fn promised_index_never_changes() {
    let mut world = world();
    world.put(0, object());
    world.run();
    for persister in 1..=3 {
        assert_eq!(world.peers[persister].promised_index(&chunk()), Some(world.indices[persister]));
        assert!(world.peers[persister].is_available(&chunk()));
    }
    world.indices = vec![100; 7];
    world.get(6);
    world.run();
    // a second upload of the chunk invites the same peers
    world.put(0, object());
    world.run();
    for persister in 1..=3 {
        assert_eq!(world.peers[persister].promised_index(&chunk()), Some(persister as u32));
    }
    assert_eq!(world.peers[4].promised_index(&chunk()), None);
    assert_eq!(world.peers[0].promised_index(&chunk()), None);
}

#[test]
fn replayed_invite_changes_nothing() {
    let mut persister = promised(5);
    let invite = Invite { chunk: chunk(), peer_id: id(1) };
    for index in [6, 7] {
        let actions = persister.invite_with(
            invite,
            index,
            new_decoder(2048, FRAGMENT_LEN).unwrap(),
            CancellationToken::new(),
        );
        assert!(matches!(&actions[..], [Action::SendInviteOk(_, InviteOk { index: 5, .. })]));
        assert_eq!(persister.promised_index(&chunk()), Some(5));
        assert!(!persister.is_available(&chunk()));
    }
}

#[test]
fn replayed_pull_and_offer_leave_the_promise_as_it_is() {
    let mut persister = promised(5);
    persister.on_download_ok(DownloadOk(chunk(), 5, Payload(vec![3; 1024])));
    persister.on_store_ok(StoreOk(chunk()));
    let pull = Pull { chunk: chunk(), peer_id: id(7) };
    let meta = SendFragment { chunk: chunk(), index: 5, peer_id: Some(id(1)) };
    for _ in 0..2 {
        assert_eq!(persister.on_pull(pull).len(), 1);
        assert_eq!(persister.on_send_fragment(meta).unwrap().len(), 1);
        assert_eq!(persister.promised_index(&chunk()), Some(5));
        assert!(persister.is_available(&chunk()));
        assert_eq!(roles(&persister), 1);
    }
}

#[test]
fn event_goes_to_the_handler_of_its_kind() {
    let mut uploader = peer(1);
    let event = Event::Put(Put(chunk(), Bytes::from(object())));
    assert!(uploader.expects(&event));
    let actions = uploader.on_event(event, new_decoder).unwrap();
    assert!(matches!(&actions[..], [Action::Submit(Work::NewEncoder { .. })]));
    let message = InviteOk { chunk: chunk(), index: 9, proof: (), peer_id: id(2) };
    assert!(!uploader.expects(&Event::InviteOk(Recv(message))));
    let event = Event::NewEncoder(NewEncoder(chunk(), Enc(object())));
    assert!(uploader.expects(&event));
    let actions = uploader.on_event(event, new_decoder).unwrap();
    assert!(matches!(&actions[..], [Action::SendInvite(..)]));
    assert!(!uploader.expects(&Event::NewEncoder(NewEncoder(chunk(), Enc(object())))));
    let event = Event::InviteOk(Recv(message));
    assert!(uploader.expects(&event));
    let actions = uploader.on_event(event, new_decoder).unwrap();
    assert!(matches!(&actions[..], [Action::Submit(Work::Encode { index: 9, .. })]));
    let mut persister = peer(2);
    let event = Event::Invite(Recv(Invite { chunk: chunk(), peer_id: id(1) }));
    assert_eq!(persister.on_event(event, |_, _| None).unwrap_err(), Error::Decoder);
    assert_eq!(persister.promised_index(&chunk()), None);
    let event = Event::Invite(Recv(Invite { chunk: chunk(), peer_id: id(1) }));
    let actions = persister.on_event(event, new_decoder).unwrap();
    assert!(matches!(&actions[..], [Action::SendInviteOk(..)]));
    assert!(persister.promised_index(&chunk()).is_some());
    let receipt = FragmentAvailable { chunk: chunk(), peer_id: id(2), peer_key: PublicKey { digest: id(2) } };
    let event = Event::FragmentAvailable(Recv(receipt), true);
    assert!(uploader.on_event(event, new_decoder).unwrap().is_empty());
    assert!(uploader.is_uploading(&chunk()));
    assert_eq!(uploader.id(), id(1));
}
