//! The state behind each screen, and how a message from the screen changes
//! it. Nothing here draws or reads input: a message carries what was typed
//! or pressed, and the state afterwards is a function of state and message.

pub mod cipher;
pub mod fence;
