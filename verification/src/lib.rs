pub mod args;
pub mod dbus_address;
pub mod dbus_queue;
pub mod event;
pub mod nm;
pub mod service;
pub mod text;
pub mod wire;

pub use event::Event;
