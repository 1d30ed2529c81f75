//! The verified core of a viewer for Granny2 model files: the element tree of
//! a decoded file, the widgets that show it, and the state of the shell that
//! holds the file.

pub mod app;
pub mod decimal;
pub mod element;
pub mod element_ui;
pub mod menu;
pub mod widget;
