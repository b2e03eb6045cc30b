//! Translation of configuration formats (INI, JSON, TOML, YAML) to Nix,
//! with the decisions of its front ends: locale handling, the HTTP
//! interface, the web front end's static files and the command line.
pub mod api;
pub mod cli;
pub mod convert;
pub mod i18n;
pub mod page;
pub mod text;
pub mod website;
mod outside;

pub use convert::{ini_to_nix, json_to_nix, toml_to_nix, yaml_to_nix, ConvertError, Format, IniError};
