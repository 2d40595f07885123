//! The state of a todo list and the messages that change it.
//!
//! The list holds the entered texts in the order of entry, the text of the
//! entry field, and a flag that tells whether the list may differ from what
//! was last saved. Nothing here touches a file or a window: `Todos::update`
//! hands back the bytes to save, and `Todos::view` describes the page to draw.

pub mod page;
pub mod storage;
pub mod text;
pub mod todos;
