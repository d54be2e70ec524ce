pub mod http;
pub mod model;
pub mod render;
