//! What a host needs to know to open the window of an application.

pub mod window;
