//! Exact control state of an interactive Julia-set explorer: the table of
//! held controls, the key bindings, the palette dials, the zoom level, the
//! iteration budget and the surface size, with the rules that a fixed-rate
//! tick, a key event or a resize apply to them.

pub mod keys;
pub mod palette;
pub mod controls;
pub mod input;
pub mod surface;
pub mod laws;
