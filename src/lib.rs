//! A personal portfolio page described as data: the page content, the
//! components that turn it into a markup tree, and a renderer from that tree
//! to HTML text.
#![allow(non_snake_case)]

pub mod markup;
pub mod content;
pub mod components;
pub mod canvas;
