//! Verified core of a Meshtastic console client: the application state and
//! its reducer, the node list view, the settings forms and their field
//! table, how the services answer the user and the radio, how packets of
//! the mesh are read, what the screens do with the keys, and the text
//! helpers the user interface is built from.

pub mod types;
pub mod text;
pub mod radio;
pub mod node;
pub mod helpers;
pub mod formdata;
pub mod serialize;
pub mod order;
pub mod ordered;
pub mod chat;
pub mod device;
pub mod nodes_view;
pub mod forms;
pub mod state;
pub mod link;
pub mod traceroute;
pub mod config;
pub mod laws;
pub mod form_laws;
pub mod ui;
pub mod input;
pub mod device_config;
pub mod form_table;
pub mod settings;
pub mod events;
pub mod packets;
pub mod screens;
pub mod settings_screen;
pub mod messenger;
pub mod hotkeys;
pub mod nodeinfo_screen;
pub mod pickers;
pub mod links;
pub mod chat_label;
pub mod reactions;
pub mod telemetry_kind;
pub mod telemetry_view;
