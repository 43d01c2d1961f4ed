//! A Zed extension core for Razor (`.cshtml` / `.razor`) files: it decides how
//! the HTML, CSS and Roslyn language servers are launched and which workspace
//! configuration Roslyn receives. All host interaction (settings, processes,
//! downloads, the file system) is performed by the caller; the library decides.

pub mod text;
pub mod json;
pub mod server;
pub mod roslyn;
pub mod configuration;
pub mod status;
pub mod razor_build;
pub mod launch;
pub mod extension;
pub mod nuget;
