//! Renders a notebook document (an ordered list of cells with their source
//! text and recorded outputs) as a plain, line-oriented text view.

pub mod json;
pub mod notebook;
pub mod render;

pub use json::Json;
pub use notebook::{decode_cell, decode_output, Cell, Notebook, NotebookError, Output};
pub use render::{render, render_cell, render_output};
