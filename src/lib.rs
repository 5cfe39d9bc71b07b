//! Capacitive-touch media key: signal filtering, capsense acquisition state,
//! the sample queue, a control-only USB device driver model, and the
//! once-a-second HID report decision.
pub mod dsp_filter;
pub mod capsense;
pub mod queue;
pub mod usb;
pub mod media_key;
pub mod gpio;
