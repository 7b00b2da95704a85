//! Verified embedded I/O, storage and CAN abstractions.
pub mod io;
pub mod cursor;
pub mod buf_reader;
pub mod slice_io;
pub mod vec_io;
pub mod vec_deque_io;
pub mod std_io;
pub mod storage;
pub mod nor_flash;
pub mod adapters;
pub mod asynchronous;
pub mod nb_result;
pub mod adc;
pub mod blocking;
pub mod can;
mod private;
