//! Current regulation for an LED load: the framed serial protocol shared by the
//! power-stage and wireless-bridge controllers, and the regulation loop's rules.

pub mod adc;
pub mod bridge;
pub mod bundles;
pub mod checksum;
pub mod commands;
pub mod config;
pub mod extension;
pub mod limits;
pub mod model;
pub mod reader;
pub mod regulation;
pub mod scan_buf;
pub mod thermistor;
pub mod tuning;
pub mod types;
pub mod wire;
pub mod writer;
