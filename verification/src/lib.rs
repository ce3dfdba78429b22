//! Verified core of the aish `commit` plugin: prompt construction for the
//! model, clean-up of the model's reply, and the decisions the plugin takes
//! while talking to its host, to git and to the user's editor.

pub mod text;
pub mod protocol;
pub mod message;
pub mod session;
pub mod git;
pub mod editor;
