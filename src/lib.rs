pub mod material;
pub mod scene;
pub mod tumble;
pub mod window;

pub use material::Custom2dMaterial;
pub use scene::{setup, Cube, Spawn, QUAD_DEPTH};
pub use tumble::{tumble_turns, Axis, Turn};
pub use window::{window_settings, WindowSettings, SCREEN_HEIGHT, SCREEN_WIDTH};
