//! System-audio capture: the frames handed on, the capture formats accepted,
//! and the output devices offered.

pub mod capture;
pub mod devices;
pub mod frame;
