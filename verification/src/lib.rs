//! The decisions of a language-model provider that talks to any server which
//! speaks the OpenAI protocol: which API key is in force, when the key helper
//! command runs, how a request recovers from an expired key, what each
//! configured model offers and what the configuration view shows.
//!
//! Apart from reading the clock, nothing here performs input or output. A
//! caller runs commands, sends requests and draws the view, and hands the
//! outcomes back as plain values.

pub mod helper;
pub mod model;
pub mod provider;
pub mod request;
pub mod settings;
pub mod state;
pub mod text;
pub mod tokens;
pub mod view;
