//! MeshChat core: the state, message bookkeeping and radio-event decisions of a chat
//! client for Meshtastic and MeshCore LoRa radios.
pub mod text;
pub mod channel_id;
pub mod model;
pub mod strmap;
pub mod idmap;
pub mod entry;
pub mod ring;
pub mod effect;
pub mod config;
pub mod device_list;
pub mod device;
pub mod meshchat;
pub mod channel_view;
pub mod discovery;
pub mod meshc;
pub mod mesht;
pub mod subscription;
pub mod battery;
pub mod content;
