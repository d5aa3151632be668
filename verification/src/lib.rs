pub mod config;
pub mod executor;
pub mod dotprompt;
pub mod installer;
pub mod lb;
pub mod read;
pub mod text;
