//! The path from window input to camera state.
//!
//! A platform event reaches a [`window::Window`], which first brings its
//! [`window::WindowState`] up to date and then calls the listeners of the
//! event's kind, in the order in which they were registered. Listeners
//! drive a controller, [`controller::OrbitController`] or
//! [`controller::FpsController`], and a controller places a camera. A
//! [`camera::PerspectiveCamera`] keeps that placement together with its
//! projection.
//!
//! Every number is fixed-point, an `i64` that counts millionths (see
//! [`fixed`]), and nothing here takes a sine or a square root. Where a
//! value would need one, the library keeps it in closed form instead: a
//! placement is a point, a distance and two angles
//! ([`transformed_object::Transform`]), a projection is a field of view, an
//! aspect and two planes ([`camera::Projection`]). Whoever draws turns
//! these into matrices. What the library decides is everything before
//! that: which listeners run and in which order, what the input comes to,
//! how far the camera may tilt and how near it may come, which parameters
//! are acceptable, and when a projection is up to date.
//!
//! No function here panics, and none asks anything of its caller.

pub mod camera;
pub mod controller;
pub mod event;
pub mod fixed;
pub mod init;
pub mod rinecraft;
pub mod transformed_object;
pub mod vector;
pub mod window;

pub use camera::Camera;
pub use controller::Controller;
