//! The playback controller and the interfaces it drives.
pub mod android;
pub mod backend;
pub mod controller;
pub mod device_order;
pub mod native_events;
pub mod output;
pub mod reporting;
pub mod server_reporting;
