pub mod command;
pub mod installation;
pub mod names;
pub mod package;
pub mod platform;
pub mod reconcile;
pub mod services;
pub mod text;
pub mod transfer;
