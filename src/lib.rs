pub mod aggregate;
pub mod command;
pub mod entity;
pub mod optional;
