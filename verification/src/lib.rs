//! The Hermes protocol over MQTT.
//!
//! Hermes is the protocol by which the components of a voice platform talk:
//! the hotword detector, the speech recogniser, the language understanding,
//! the dialogue manager, the speech synthesiser and the audio server. Each
//! message is published on a topic of a broker.
//!
//! A [`MqttHermesProtocolHandler`] gives out facades. A method of a facade says
//! what to publish ([`requests::Publication`]) or what to subscribe to
//! ([`requests::Subscription`]); an MQTT client does it. When a message comes,
//! [`subscriptions::Subscriptions`] tells whom it is for, and
//! [`MqttHandler`] what their callbacks are given.
pub mod audio;
pub mod commands;
pub mod components;
pub mod facades;
pub mod filter;
pub mod handler;
pub mod laws;
pub mod protocol;
pub mod report;
pub mod requests;
pub mod subscriptions;
pub mod text;
pub mod topics;

pub use handler::{MqttHandler, MqttOptions};
pub use protocol::MqttHermesProtocolHandler;
pub use topics::HermesTopic;
