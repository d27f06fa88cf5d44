//! A walking, animated sprite followed by a camera: the frame cycle, the
//! keyboard-driven movement and the camera tracking, on fixed-point values.
pub mod animation;
pub mod camera;
pub mod movement;
pub mod scene;
pub mod timer;
