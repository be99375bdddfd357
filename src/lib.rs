pub mod json;
pub mod frame;
pub mod session;
