//! Multiplexing of many logical serial channels over one physical link.
//!
//! The library holds the verified core: data blocks and the wire framing,
//! the demultiplexer's state machine, the device handle manager's issuing
//! rules and the per-channel worker decisions. Device I/O, threads and
//! queues are driven by the program around it.
pub mod data_block;
pub mod framing;
pub mod demux;
pub mod port_manager;
pub mod workers;

