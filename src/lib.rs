pub mod errors;
pub mod io;
pub mod text;
pub mod service;
pub mod pipeline;
pub mod database;
pub mod template;
pub mod diagnostics;
pub mod router;
