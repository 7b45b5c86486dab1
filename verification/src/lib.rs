//! A single-producer/single-consumer ring buffer that hands data between a host
//! process and a network adapter process, together with the records and the
//! state machines by which the two sides, and the two adapters of a connection,
//! find each other.
//!
//! The ring is two cursors and an array of slots. [`cursor`] holds the
//! arithmetic on the cursors: how much may be written or read in one piece, and
//! where. [`protocol`] states the rules of the ring as a transition system and
//! proves what holds of every run: the occupancy stays within the capacity, and
//! the consumer reads what the producer published, in the same order.
//!
//! [`ref_ring_buffer`] and [`ring_buffer`] are the ring that a producer and a
//! consumer share between threads. Its cursors are atomic words and its slots
//! are cells, of which nothing is known but what the protocol guarantees; the
//! endpoints decide on the cursors they load with the functions of [`cursor`].
//! [`rdma_ring_buffer`] is the same ring in the hands of a single owner, where
//! the contents are known exactly; such a ring can be mirrored on another
//! machine through a [`communication_manager`].
//!
//! [`ipc`] is the handoff of a ring in shared memory from the process that
//! created it to the process that opens it. [`rdma_controller`] is the adapter:
//! the bring-up of a reliable connection, the handshake over it, and the loop
//! that moves messages between the ring and the wire. Neither touches a device,
//! a socket or shared memory: both say what is to be done and are told how it
//! went. [`loopback`] describes a run of both ends in one process and the
//! traffic that checks it.

pub mod atomic_extension;
pub mod communication_manager;
pub mod cursor;
pub mod ipc;
pub mod loopback;
pub mod protocol;
pub mod rdma_controller;
pub mod rdma_ring_buffer;
pub mod ref_ring_buffer;
pub mod ring_buffer;
