//! High-level BLE communication library: the decisions a scan and a device query take,
//! stated and proved.
//!
//! The crate holds the logic of a BLE scanner: what a scan is configured with, how a
//! discovered peripheral goes through the filters, which events reach the client, when
//! the scan stops, and how a device's attributes are listed. The radio work itself (the
//! adapter, peripherals, connections, notifications) is done by the caller, which hands
//! the outcomes of that work to the functions here and performs the actions they return.

pub mod characteristic;
pub mod common;
pub mod config;
pub mod device;
pub mod event;
pub mod scanner;
pub mod worker;
pub mod scan_laws;
pub mod scan_transitions;

pub use config::ScanConfig;
pub use event::DeviceEvent;
pub use worker::{CentralEventKind, ScanAction, ScanInput, ScanState};
