pub mod builder;
pub mod context;

pub use builder::BufferPoolBuilder;
