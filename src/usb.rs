//! Control-only USB full-speed device driver: endpoint bookkeeping, FIFO word
//! packing, and the register-bit decisions of the device core.
pub mod bus;
pub mod registers;
