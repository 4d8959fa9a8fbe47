//! A retained-mode 2D scene renderer core: curve evaluation, primitive mesh
//! building, scene objects with GPU buffer caches, and a two-pass frame plan
//! (shadow pass, then main pass) with signed-distance-field corner rounding.
//!
//! All geometry is carried in 48.16 fixed-point coordinates so that every
//! computation is exact integer arithmetic with a verified contract.

pub mod app;
pub mod fixed;
pub mod font;
pub mod image;
pub mod object;
pub mod renderer;
pub mod shaders;
pub mod shadows;
pub mod text;
