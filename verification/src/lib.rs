//! Peekdown: the logic of a small Markdown viewer and editor, with its
//! contracts proved by Verus.

pub mod cli;
pub mod html;
pub mod state;
pub mod i18n;
pub mod ipc;
pub mod json;
pub mod protocol;
pub mod text;
pub mod url;
