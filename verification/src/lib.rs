//! Host-local network flow telemetry.
//!
//! A classifier in the kernel looks at each packet of an interface and emits
//! a fixed-size event for every TCP or UDP packet over IPv4. The agent lifts
//! the events to metadata, keeps live counters for each flow, writes the
//! packets, or summaries of them over a window, to a local database, and
//! answers a read API.
//!
//! The modules follow the path of a packet:
//!
//! * [`classifier`] and [`event`]: from the bytes of a frame to an event,
//!   and the event's 20-byte record.
//! * [`ingest`], [`text`] and [`state`]: from a record to metadata, and the
//!   live flows with their totals ([`tally`] has the sums that the state's
//!   invariant speaks of, [`flow_table`] the concurrent map it is kept in,
//!   [`shard`] the spreading of flows over several states).
//! * [`writer`], [`aggregate`] and [`storage`]: what is written to the
//!   database and when ([`sqlite`] has the calls into the database).
//! * [`api`] and [`access`]: the answers of the read API, and who may ask.
//! * [`dns`]: the cache in front of reverse DNS ([`dns_table`] has its map).
//! * [`sniffer`]: capture from whole frames, with a filter and sampling.
//! * [`config`], [`timing`] and [`clock`]: settings, fixed periods, and the
//!   readings of the clocks.
//!
//! A function states what it returns or changes as far as that is the
//! library's to decide, and the statement is proved. Where the database or
//! a clock decides, the function states what holds whatever they answer,
//! and what is made of each answer is stated by a function that takes the
//! answer as an argument. What is taken on trust about other crates is kept
//! in small functions of its own, each named for the call it makes.

pub mod access;
pub mod aggregate;
pub mod api;
pub mod classifier;
pub mod clock;
pub mod config;
pub mod dns;
pub mod dns_table;
pub mod event;
pub mod flow_table;
pub mod ingest;
pub mod shard;
pub mod sniffer;
pub mod sqlite;
pub mod state;
pub mod storage;
pub mod tally;
pub mod text;
pub mod timing;
pub mod writer;
