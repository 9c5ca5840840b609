//! Message formats, recipient selection and screen state of a small MQTT
//! alert device: two buttons, a screen, and a broker shared with the other
//! devices of the group.

pub mod text;
pub mod settings;
pub mod mqtt;
pub mod lists;
pub mod screen;
pub mod events;
pub mod state;
pub mod laws;

