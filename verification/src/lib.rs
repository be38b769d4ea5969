pub mod action;
pub mod application;
pub mod completion_dispenser;
pub mod control;
pub mod controller;
pub mod direction;
pub mod display;
pub mod editor;
pub mod entry_kind;
pub mod entry_validate;
pub mod input_validate;
pub mod key_input;
pub mod mode;
pub mod model;
pub mod navigator;
pub mod text;
pub mod validator;
