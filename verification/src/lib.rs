//! A minimal backend for a desktop media shell: one operation fetches remote
//! media bytes through a proxy, the other persists video bytes to a
//! timestamped file. The verified library holds everything the two
//! operations decide and compute — path and filename derivation, the exact
//! error messages, and the byte-for-byte pass-through of the payloads — while
//! the host binary performs the network and filesystem calls.

pub mod decimal;
pub mod media;
pub mod storage;
