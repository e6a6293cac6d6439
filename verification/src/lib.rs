//! Game rules of a Wild West paintball shooter: weapon handling and
//! ballistics seeds, bot decisions, player stance decisions, HUD text and
//! the screenshot helper's command line and frame logic.
//!
//! Quantities measured in seconds, metres or radians are floating point
//! and stay with the caller; the library decides everything discrete.

pub mod ai;
pub mod ballistics;
pub mod hud;
pub mod player;
pub mod screenshot;
pub mod text;
pub mod weapon;
