pub mod app;
pub mod block;
pub mod debug;
pub mod input;
pub mod pages;
pub mod state;
pub mod util;
