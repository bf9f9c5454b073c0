pub mod assertions;
pub mod cli;
pub mod json;
pub mod models;
pub mod output;
pub mod pattern;
pub mod reference;
pub mod runtime;
pub mod state;
pub mod text;
pub mod timeline;
