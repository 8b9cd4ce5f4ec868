//! A small terminal text editor's engine: rows of characters, the document
//! that owns them, and the cursor and viewport arithmetic of an editing
//! session. Reading keys, drawing and touching files are left to the caller.

pub mod config;
pub mod document;
pub mod editor;
pub mod logger;
pub mod row;
pub mod screen;
pub mod terminal;
pub mod text;

pub use document::Document;
pub use editor::Position;
pub use row::Row;
