//! Reactive core of a camera-streaming device: shared state cells, the
//! connectivity-driven server lifecycle and the motion-JPEG relay framing.

pub mod cell;
pub mod control;
pub mod http;
pub mod indicator;
pub mod lifecycle;
pub mod mjpeg;
pub mod status;
pub mod text;
