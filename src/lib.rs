//! Keyboard focus order over a tree of UI elements: context resolution,
//! accept/reject/skip decisions and the focusable search engine.

pub mod consts;
pub mod types;
pub mod tree;
pub mod engine;
pub mod text;
pub mod focusable;
pub mod groupper;
pub mod root;
pub mod modalizer;
pub mod mover;
pub mod search;
pub mod focused_element;
pub mod subscribable;
pub mod web;
pub mod attribute_helpers;
pub mod dom_api;
pub mod utils;
pub mod theorems;
pub mod instance;
pub mod roundtrip;
