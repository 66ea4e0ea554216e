//! KiYa: the decision logic of a companion chatbot for older people.
pub mod cli;
pub mod conversation;
pub mod gui;
pub mod prompt;
pub mod settings;
pub mod speech;
pub mod text;
