//! The logic of a "save palette" dialog: the name it proposes, the text its
//! entry row holds, and what confirming or dismissing it asks of its
//! surroundings.
//!
//! The dialog itself draws nothing and sends nothing. It is a value: a
//! sequence of extracted colors, a default name, and the text of its entry
//! row. A response is answered with an [`dialog::Effect`] that the caller
//! carries out.

pub mod color;
pub mod database;
pub mod dialog;
pub mod text;
