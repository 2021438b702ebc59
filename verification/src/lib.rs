pub mod gpu_context;
pub mod lifecycle;
pub mod player;
pub mod state;
pub mod world;
