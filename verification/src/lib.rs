//! A small task-board model: an ordered list of tasks, each with a name, an
//! assignee, an effort estimate and a status column, together with the draft
//! fields of the new-task form and a pure render model of the three-column
//! view.

pub mod parse;
pub mod state;
pub mod view;
