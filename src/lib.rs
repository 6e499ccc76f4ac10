//! Core of a 3D viewport: a ground mesh built from unit quads, the camera's
//! view and projection parameters, and the window settings.

pub mod camera;
pub mod mesh;
pub mod window;
