use augustus::event::{Error, SendEvent};
use augustus::net::session::{
    message_len, preamble, stays, Dispatch, DispatchNet, Outgoing, Protocol, MAX_BUF_LEN,
    TCP_PREAMBLE_LEN,
};
use augustus::net::{SendMessage, SocketAddr};
use std::sync::{Arc, Mutex};
use tokio::sync::mpsc::UnboundedReceiver;

type Connected = Arc<Mutex<Vec<(SocketAddr, Option<UnboundedReceiver<Vec<u8>>>)>>>;

/// A protocol that opens nothing: it keeps the receiving end of each connection that it is
/// asked for, or drops it at once.
struct Loopback {
    connected: Connected,
    keep: bool,
}

impl Protocol<Vec<u8>> for Loopback {
    fn connect<F: FnMut(&[u8]) -> Result<(), Error> + Clone + Send + 'static>(
        &self,
        remote: SocketAddr,
        _on_buf: F,
        receiver: UnboundedReceiver<Vec<u8>>,
    ) {
        let receiver = if self.keep { Some(receiver) } else { None };
        self.connected.lock().unwrap().push((remote, receiver))
    }
}

fn on_buf(_: &[u8]) -> Result<(), Error> {
    Ok(())
}

fn addr(port: u16) -> SocketAddr {
    SocketAddr { ip: 0x7f00_0001, port }
}

fn dispatch(keep: bool) -> (Dispatch<Loopback, Vec<u8>, fn(&[u8]) -> Result<(), Error>>, Connected) {
    let connected = Connected::default();
    let protocol = Loopback { connected: connected.clone(), keep };
    (Dispatch::new(protocol, on_buf as fn(&[u8]) -> Result<(), Error>).unwrap(), connected)
}

fn received(connected: &Connected, at: usize) -> Vec<Vec<u8>> {
    let mut connected = connected.lock().unwrap();
    let receiver = connected[at].1.as_mut().unwrap();
    let mut messages = Vec::new();
    while let Ok(message) = receiver.try_recv() {
        messages.push(message)
    }
    messages
}

#[test]
fn outgoing_opens_a_connection_and_uses_it_again() {
    let (mut dispatch, connected) = dispatch(true);
    dispatch.on_outgoing(Outgoing(addr(1), vec![1]));
    dispatch.on_outgoing(Outgoing(addr(1), vec![2]));
    dispatch.on_outgoing(Outgoing(addr(2), vec![3]));
    assert_eq!(connected.lock().unwrap().len(), 2);
    assert_eq!(connected.lock().unwrap()[0].0, addr(1));
    assert_eq!(connected.lock().unwrap()[1].0, addr(2));
    assert_eq!(received(&connected, 0), vec![vec![1], vec![2]]);
    assert_eq!(received(&connected, 1), vec![vec![3]]);
}

#[test]
fn connection_that_lies_idle_for_an_interval_is_dropped() {
    let (mut dispatch, connected) = dispatch(true);
    dispatch.on_outgoing(Outgoing(addr(1), vec![1]));
    // used since the last sweep: it stays
    dispatch.on_timer();
    dispatch.on_outgoing(Outgoing(addr(1), vec![2]));
    assert_eq!(connected.lock().unwrap().len(), 1);
    // used again: it stays, and is then idle for a whole interval
    dispatch.on_timer();
    dispatch.on_timer();
    {
        let mut connected = connected.lock().unwrap();
        let receiver = connected[0].1.as_mut().unwrap();
        assert_eq!(receiver.try_recv(), Ok(vec![1]));
        assert_eq!(receiver.try_recv(), Ok(vec![2]));
        // the sending end is gone with the connection
        assert_eq!(receiver.try_recv(), Err(tokio::sync::mpsc::error::TryRecvError::Disconnected));
    }
    dispatch.on_outgoing(Outgoing(addr(1), vec![3]));
    assert_eq!(connected.lock().unwrap().len(), 2);
    assert_eq!(received(&connected, 1), vec![vec![3]]);
}

#[test]
fn sweep_keeps_what_was_used_and_drops_the_rest() {
    let (mut dispatch, connected) = dispatch(true);
    dispatch.on_outgoing(Outgoing(addr(1), vec![1]));
    dispatch.on_outgoing(Outgoing(addr(2), vec![1]));
    dispatch.on_timer();
    dispatch.on_outgoing(Outgoing(addr(2), vec![2]));
    dispatch.on_timer();
    // the connection to 1 is gone, that to 2 is still there
    dispatch.on_outgoing(Outgoing(addr(1), vec![3]));
    dispatch.on_outgoing(Outgoing(addr(2), vec![3]));
    assert_eq!(connected.lock().unwrap().len(), 3);
    assert_eq!(connected.lock().unwrap()[2].0, addr(1));
    assert_eq!(received(&connected, 1), vec![vec![1], vec![2], vec![3]]);
}

#[test]
fn connection_whose_channel_is_closed_is_dropped_by_the_sweep() {
    let (mut dispatch, connected) = dispatch(true);
    dispatch.on_outgoing(Outgoing(addr(1), vec![1]));
    connected.lock().unwrap()[0].1.as_mut().unwrap().close();
    dispatch.on_timer();
    dispatch.on_outgoing(Outgoing(addr(1), vec![2]));
    assert_eq!(connected.lock().unwrap().len(), 2);
    assert_eq!(received(&connected, 1), vec![vec![2]]);
}

#[test]
fn message_that_a_connection_does_not_take_goes_on_a_new_one() {
    let (mut dispatch, connected) = dispatch(true);
    dispatch.on_outgoing(Outgoing(addr(1), vec![1]));
    connected.lock().unwrap()[0].1 = None;
    dispatch.on_outgoing(Outgoing(addr(1), vec![2, 2]));
    assert_eq!(connected.lock().unwrap().len(), 2);
    assert_eq!(received(&connected, 1), vec![vec![2, 2]]);
    dispatch.on_outgoing(Outgoing(addr(1), vec![3]));
    assert_eq!(connected.lock().unwrap().len(), 2);
    assert_eq!(received(&connected, 1), vec![vec![3]]);
}

#[test]
fn connection_that_fails_at_once_is_not_kept() {
    let (mut dispatch, connected) = dispatch(false);
    dispatch.on_outgoing(Outgoing(addr(1), vec![1]));
    dispatch.on_outgoing(Outgoing(addr(1), vec![2]));
    assert_eq!(connected.lock().unwrap().len(), 2);
}

#[test]
fn incoming_connection_with_an_address_is_used_for_replies() {
    let (mut dispatch, connected) = dispatch(true);
    let mut receiver = dispatch.on_incoming(Some(addr(9))).unwrap();
    dispatch.on_outgoing(Outgoing(addr(9), vec![4]));
    assert!(connected.lock().unwrap().is_empty());
    assert_eq!(receiver.try_recv(), Ok(vec![4]));
    assert!(dispatch.on_incoming(None).is_none());
}

#[test]
fn incoming_connection_counts_as_unused() {
    let (mut dispatch, connected) = dispatch(true);
    let mut receiver = dispatch.on_incoming(Some(addr(9))).unwrap();
    dispatch.on_timer();
    assert_eq!(receiver.try_recv(), Err(tokio::sync::mpsc::error::TryRecvError::Disconnected));
    dispatch.on_outgoing(Outgoing(addr(9), vec![4]));
    assert_eq!(connected.lock().unwrap().len(), 1);
}

#[test]
fn incoming_connection_replaces_the_one_before() {
    let (mut dispatch, connected) = dispatch(true);
    dispatch.on_outgoing(Outgoing(addr(9), vec![1]));
    let mut receiver = dispatch.on_incoming(Some(addr(9))).unwrap();
    dispatch.on_outgoing(Outgoing(addr(9), vec![2]));
    assert_eq!(received(&connected, 0), vec![vec![1]]);
    assert_eq!(receiver.try_recv(), Ok(vec![2]));
}

struct Queue(Vec<(SocketAddr, Vec<u8>)>);

impl SendEvent<Outgoing<Vec<u8>>> for Queue {
    fn send(&mut self, event: Outgoing<Vec<u8>>) -> Result<(), Error> {
        self.0.push((event.0, event.1));
        Ok(())
    }
}

#[test]
fn dispatch_net_sends_outgoing_events() {
    let mut net = DispatchNet(Queue(Vec::new()));
    net.send(addr(1), vec![1]).unwrap();
    net.send(addr(2), vec![2]).unwrap();
    assert_eq!(net.0 .0, vec![(addr(1), vec![1]), (addr(2), vec![2])]);
}

#[test]
fn preamble_is_padded_with_zeros() {
    assert_eq!(TCP_PREAMBLE_LEN, 16);
    assert_eq!(preamble(vec![]), vec![0; 16]);
    assert_eq!(preamble(vec![0]), vec![0; 16]);
    let mut expected = vec![1, 0, 127, 0, 0, 1, 251, 255, 31];
    expected.resize(16, 0);
    assert_eq!(preamble(vec![1, 0, 127, 0, 0, 1, 251, 255, 31]), expected);
    assert_eq!(preamble(vec![9; 15]).len(), 16);
    assert_eq!(preamble(vec![9; 15])[14], 9);
    assert_eq!(preamble(vec![9; 15])[15], 0);
}

#[test]
fn message_longer_than_the_limit_is_refused() {
    assert_eq!(MAX_BUF_LEN, 1 << 20);
    assert_eq!(message_len(0), Ok(0));
    assert_eq!(message_len(1 << 20), Ok(1 << 20));
    assert_eq!(message_len((1 << 20) + 1), Err(Error::Refused));
    assert_eq!(message_len(u64::MAX), Err(Error::Refused));
}

#[test]
fn connection_stays_if_used_and_open() {
    assert!(stays(true, false));
    assert!(!stays(true, true));
    assert!(!stays(false, false));
    assert!(!stays(false, true));
}
