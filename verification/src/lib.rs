//! Safe capture-handle abstraction over a raw packet-capture engine.
//!
//! The verified core models the ownership and lifetime discipline that the
//! raw capture interface demands but cannot enforce itself:
//!
//! * the capture-handle lifecycle (create, configure, activate, capture,
//!   close) with its exactly-once release obligation,
//! * borrowed versus owned packet storage, where a borrowed view is valid
//!   only until the next poll,
//! * conversion of the engine's linked device and address lists into owned,
//!   self-contained collections,
//! * a tagged address union over IPv4, IPv6 and hardware addresses.
//!
//! The raw engine itself (a foreign library spoken to through unsafe
//! bindings) stays outside this crate's verified surface: callers drive the
//! state machines and conversion functions here with the plain values those
//! bindings produce.

pub mod addr;
pub mod devices;
pub mod error;
pub mod iface;
pub mod packet;
pub mod session;

pub use addr::Address;
pub use addr::IpAddr;
pub use addr::MacAddr;
pub use devices::PcapIfT;
pub use error::Error;
pub use iface::Interface;
pub use iface::InterfaceAddress;
pub use iface::InterfaceFlag;
pub use packet::Packet;
pub use session::Pcap;
pub use session::PcapBuilder;
pub use session::PcapFilter;
pub use session::PcapStat;
