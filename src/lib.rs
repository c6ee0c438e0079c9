//! Resolution of ARK identifiers: the check character codec, the escaping of
//! identifier segments, the current and legacy ARK grammars, and the engine
//! that turns a parsed ARK into a redirect URL or a resource IRI.
pub mod ark_path;
pub mod ark_url_formatter;
pub mod ark_url_info;
pub mod ark_url_settings;
pub mod check_digit;
pub mod errors;
pub mod legacy_uuid;
pub mod parser;
pub mod ports;
pub mod processor;
pub mod template;
pub mod settings;
pub mod string_map;
pub mod text;
pub mod use_cases;
pub mod uuid_processing;
