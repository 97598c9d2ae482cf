//! Monitor-topology reconciliation for a single host: command templates,
//! display records, topology fingerprints, the topology store and the
//! decisions taken on lid and hotplug events.

pub mod command;
pub mod dock;
pub mod monitors;
pub mod store;
pub mod text;

pub use command::HyprdockCommand;
pub use dock::HyprDock;
