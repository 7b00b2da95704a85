//! Controller Area Network
pub mod id;
pub mod frame;
pub mod non_blocking;

pub use self::frame::{Error, ErrorKind, Frame};
pub use self::id::{ExtendedId, Id, StandardId};
pub use self::non_blocking::Can;
