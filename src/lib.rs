//! Native side of the Pierre desktop application: the platform the build targets,
//! the table of commands that the UI layer can invoke, and how the process ends
//! after the host application returns.

pub mod command;
pub mod platform;
pub mod startup;
pub mod text;
