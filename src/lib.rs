pub mod engine;
pub mod helper;
pub mod web_input;
pub mod web_keycode;

pub use helper::source::{AccessError, Source, SourceRef};
pub use helper::util::{boolean, utf16};
