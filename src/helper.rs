pub mod source;
pub mod util;
