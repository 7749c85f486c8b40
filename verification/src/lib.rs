//! Low-latency event-ingestion core: a fixed-layout event record, a FIFO
//! ingest queue, and a read-mostly rule engine whose whole ruleset is
//! replaced atomically while readers query it without blocking.

pub mod packet;
pub mod queue;
pub mod ruleset;

pub use packet::TachyonPacket;
pub use packet::PAYLOAD_HEAD_LEN;
pub use queue::IngestError;
pub use queue::PacketIngestQueue;
pub use queue::drain_packet_count;
pub use queue::submit_packet;
pub use ruleset::RcuRuleEngine;
pub use ruleset::RulesetSnapshot;
