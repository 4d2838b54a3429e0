pub mod bootstrap;
pub mod launch;
pub mod laws;
pub mod options;
pub mod profile;
pub mod text;
