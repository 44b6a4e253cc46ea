pub mod atlas;
pub mod batch;
pub mod camera;
pub mod font;
pub mod frame;
pub mod quad;
pub mod vertex;
