//! Content exchange core of a distributed document library whose peer links
//! all travel over an onion-routed overlay.
//!
//! The crate holds the decisions of that core: the line protocols, the content
//! index and its search, the chunked transfer, the overlay's state machine and
//! the supervision of the anonymity daemon. Sockets, files, clocks and the
//! overlay network belong to the program around it, which feeds events in and
//! carries actions out.

pub mod address;
pub mod cache;
pub mod chunk;
pub mod collections;
pub mod documents;
pub mod error;
pub mod facade;
pub mod gossip;
pub mod history;
pub mod index;
pub mod laws;
pub mod logging;
pub mod models;
pub mod overlay;
pub mod protocol;
pub mod record;
pub mod runtime;
pub mod security;
pub mod settings;
pub mod storage;
pub mod strings;
pub mod text;
pub mod tor_manager;
pub mod type_detection;
