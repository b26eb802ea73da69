//! Geometry and colour derivation for two-segment status badges: text
//! measurement, box layout, accent colours and embedded logos.

pub mod accent;
pub mod badge;
pub mod error;
pub mod layout;
pub mod logo;
pub mod text;
