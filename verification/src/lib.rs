pub mod appframework;
pub mod boundary;
pub mod bountui;
pub mod clipboard;
pub mod components;
pub mod connection;
pub mod dispatcher;
pub mod event_ext;
pub mod message;
pub mod queue;
pub mod remember_user_input;
pub mod router;
pub mod routes;
pub mod text;
pub mod widgets;
