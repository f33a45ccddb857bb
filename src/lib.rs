//! Button-gesture recognition and WiFi QR rendering for a small display device.
//!
//! The library decodes raw input-event records into button transitions,
//! classifies press timing into actions, extracts the active network identity
//! from configuration text, builds the WiFi QR payload and composes the exact
//! RGB 5-6-5 frame written to the display.
pub mod event;
pub mod gesture;
pub mod frame;
pub mod payload;
pub mod controller;
pub mod credentials;
pub mod qr;
pub mod text;
