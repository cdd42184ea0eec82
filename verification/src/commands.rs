//! The commands of the tool, each as the decisions it takes between reading and writing.

pub mod init;
pub mod ls;
pub mod status;
pub mod sync;
