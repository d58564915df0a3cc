use crate::crypto::H256;
use crate::event::SendEvent;
use crate::net::Payload;
use vstd::prelude::*;

verus! {

/// Keep the fragment of a chunk under its index.
#[derive(Debug, Clone)]
pub struct Store(pub H256, pub u32, pub Payload);

/// Read the fragment of a chunk that is kept under the index. With `true`, everything kept
/// for the chunk is removed once the fragment has been read.
#[derive(Debug, Clone, Copy, PartialEq, Eq, Structural)]
pub struct Load(pub H256, pub u32, pub bool);

/// The fragment of the chunk is kept.
#[derive(Debug, Clone, Copy, PartialEq, Eq, Structural)]
pub struct StoreOk(pub H256);

/// The fragment that was kept for the chunk under the index.
#[derive(Debug, Clone)]
pub struct LoadOk(pub H256, pub u32, pub Payload);

/// [`Store`] as a mathematical value.
pub struct StoreView(pub H256, pub u32, pub Seq<u8>);

/// [`LoadOk`] as a mathematical value.
pub struct LoadOkView(pub H256, pub u32, pub Seq<u8>);

impl View for Store {
    type V = StoreView;

    open spec fn view(&self) -> StoreView {
        StoreView(self.0, self.1, self.2@)
    }
}

impl View for LoadOk {
    type V = LoadOkView;

    open spec fn view(&self) -> LoadOkView {
        LoadOkView(self.0, self.1, self.2@)
    }
}

/// What the fragment store is asked to do.
#[derive(Debug)]
pub enum Event {
    Store(Store),
    Load(Load),
}

/// What the session of the fragment store wakes up to: a request, or the end of one of
/// the tasks that it has started.
#[derive(Debug)]
pub enum Select {
    /// A request has come.
    Recv(Event),
    /// A task has written the fragment of the chunk.
    JoinNextStore(H256),
    /// A task has read a fragment.
    JoinNextLoad(LoadOk),
}

/// What the session of the fragment store does next.
#[derive(Debug)]
pub enum Step {
    /// Start a task that makes the directory of the chunk and writes the fragment into
    /// the file of its index there.
    SpawnStore(Store),
    /// Start a task that reads the file of the index in the directory of the chunk, and
    /// then removes the directory if the request says so.
    SpawnLoad(Load),
    /// Tell the peer that the fragment is kept.
    StoreOk(StoreOk),
    /// Hand the peer the fragment.
    LoadOk(LoadOk),
}

/// What follows each wake-up: a request starts its task, and the end of a task is
/// reported to the peer.
pub open spec fn next_step(select: Select) -> Step {
    match select {
        Select::Recv(Event::Store(store)) => Step::SpawnStore(store),
        Select::Recv(Event::Load(load)) => Step::SpawnLoad(load),
        Select::JoinNextStore(chunk) => Step::StoreOk(StoreOk(chunk)),
        Select::JoinNextLoad(load_ok) => Step::LoadOk(load_ok),
    }
}

/// One turn of the session of the fragment store.
pub fn session(select: Select) -> (step: Step)
    ensures
        step == next_step(select),
{
    match select {
        Select::Recv(Event::Store(store)) => Step::SpawnStore(store),
        Select::Recv(Event::Load(load)) => Step::SpawnLoad(load),
        Select::JoinNextStore(chunk) => Step::StoreOk(StoreOk(chunk)),
        Select::JoinNextLoad(load_ok) => Step::LoadOk(load_ok),
    }
}

/// Where the answers of the fragment store go.
pub trait Upcall: SendEvent<StoreOk> + SendEvent<LoadOk> {

}

impl<T: SendEvent<StoreOk> + SendEvent<LoadOk>> Upcall for T {

}

} // verus!
