//! Collects proximity-broadcast telemetry from Govee H5075 sensors:
//! decodes the vendor payload, keeps the freshest reading per device,
//! and prepares snapshots for pull and push style consumers.

pub mod collector;
pub mod device_database;
pub mod name_table;
pub mod server;
