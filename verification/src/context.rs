pub mod common;
pub mod laws;
pub mod mono_thread;
pub mod multi_thread;
