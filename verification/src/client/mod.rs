pub mod clean;
pub mod launcher;
pub mod mcp;
pub mod pytest;
pub mod results;
pub mod submit;
