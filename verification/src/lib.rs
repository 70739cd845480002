pub mod align;
pub mod ansi;
pub mod colorize;
pub mod combine;
pub mod custom;
pub mod format;
pub mod format_options;
pub mod json;
pub mod json_text;
pub mod laws;
pub mod log_info;
pub mod ms;
pub mod pretty_print;
pub mod printf;
pub mod simple;
pub mod strutil;
pub mod timestamp;
pub mod uncolorize;
pub mod value;

pub use align::align;
pub use colorize::{colorize, Colorizer};
pub use combine::combine;
pub use custom::{ignore_private, volume};
pub use format::{create_format, Format, FormatKind, LogFormat};
pub use format_options::FormatOptions;
pub use json::json;
pub use log_info::LogInfo;
pub use ms::ms;
pub use pretty_print::pretty_print;
pub use printf::{printf, Printf, TemplatePart};
pub use simple::simple;
pub use timestamp::timestamp;
pub use uncolorize::uncolorize;
pub use value::Value;
