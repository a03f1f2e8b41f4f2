//! Terminal navigator for AWS services: the state machines behind its widgets,
//! components, tabs and application loop, with their contracts.

pub mod app;
pub mod components;
pub mod event_managment;
pub mod services;
pub mod text;
pub mod utf8;
pub mod widgets;
