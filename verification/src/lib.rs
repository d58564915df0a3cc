pub mod crypto;
pub mod entropy;
pub mod event;
pub mod net;
pub mod replication;
pub mod table;
pub mod timer;
