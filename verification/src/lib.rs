pub mod analysis;
pub mod cache;
pub mod deps;
pub mod download;
pub mod json;
pub mod metadata;
pub mod models;
pub mod paths;
pub mod pitch;
pub mod playlist;
pub mod process;
pub mod resolver;
pub mod stems;
pub mod strings;
