//! Scan configuration and the Nushell adapter logic of `ipscan`.
//!
//! `scan_options` holds the configuration of one scan. The other modules hold
//! what the Nushell adapter decides: which arguments reach the backend
//! (`plugin`), how the backend's exit and output become Nu values or
//! failures (`output`, `json`, `value`, `error`), and the text primitives
//! they rest on (`text`).

pub mod error;
pub mod json;
pub mod output;
pub mod plugin;
pub mod scan_options;
pub mod text;
pub mod value;

pub use error::PluginError;
pub use json::json_to_value;
pub use output::{backend_output_value, format_status, parse_json_output};
pub use plugin::{
    backend_arguments, explicit_output_format, resolve_backend, IpScanCommand, IpScanPlugin,
    BACKEND_ENV, DEFAULT_BACKEND,
};
pub use scan_options::{OutputFormat, ProfileType, ScanOptions, ScanTiming};
pub use value::NuValue;
