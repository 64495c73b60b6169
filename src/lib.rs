pub mod step;
pub mod wizard;
pub mod gate;
pub mod lock;
pub mod laws;
