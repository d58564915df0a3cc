use augustus::crypto::H256;
use augustus::entropy::fs::{session, Event, Load, LoadOk, Select, Step, Store, StoreOk};
use augustus::net::Payload;
use augustus::table::Table;

fn key(n: u128) -> H256 {
    H256::new(n, n)
}

#[test]
fn table_is_a_map() {
    let mut table = Table::<H256, u32>::new();
    assert_eq!(table.len(), 0);
    assert_eq!(table.get(&key(1)), None);
    assert_eq!(table.insert(key(1), 10), None);
    assert_eq!(table.insert(key(2), 20), None);
    assert_eq!(table.insert(key(1), 11), Some(10));
    assert_eq!(table.len(), 2);
    assert!(table.contains_key(&key(2)));
    assert!(!table.contains_key(&key(3)));
    assert_eq!(table.get(&key(1)), Some(&11));
    assert_eq!(table.get(&key(2)), Some(&20));
    assert_eq!(table.remove(&key(3)), None);
    assert_eq!(table.remove(&key(1)), Some(11));
    assert_eq!(table.remove(&key(1)), None);
    assert_eq!(table.len(), 1);
    assert_eq!(table.get(&key(2)), Some(&20));
}

#[test]
fn keys_of_a_table_come_once_each() {
    let mut table = Table::<H256, u32>::new();
    for n in [3, 1, 2, 3, 1] {
        table.insert(key(n), 0);
    }
    table.remove(&key(2));
    let mut keys = table.keys();
    keys.sort();
    assert_eq!(keys, vec![key(1), key(3)]);
}

#[test]
fn fragment_store_starts_a_task_for_each_request() {
    let store = Store(key(1), 5, Payload(vec![1, 2]));
    match session(Select::Recv(Event::Store(store))) {
        Step::SpawnStore(Store(chunk, 5, Payload(bytes))) => {
            assert_eq!(chunk, key(1));
            assert_eq!(bytes, vec![1, 2]);
        }
        _ => panic!("expected a task that stores"),
    }
    match session(Select::Recv(Event::Load(Load(key(1), 5, true)))) {
        Step::SpawnLoad(load) => assert_eq!(load, Load(key(1), 5, true)),
        _ => panic!("expected a task that loads"),
    }
}

#[test]
fn fragment_store_reports_the_end_of_each_task() {
    match session(Select::JoinNextStore(key(1))) {
        Step::StoreOk(store_ok) => assert_eq!(store_ok, StoreOk(key(1))),
        _ => panic!("expected the news of a stored fragment"),
    }
    match session(Select::JoinNextLoad(LoadOk(key(1), 5, Payload(vec![1, 2])))) {
        Step::LoadOk(LoadOk(chunk, 5, Payload(bytes))) => {
            assert_eq!(chunk, key(1));
            assert_eq!(bytes, vec![1, 2]);
        }
        _ => panic!("expected a loaded fragment"),
    }
}
