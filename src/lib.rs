//! A todo.txt task editor driven by a menu: the task record and its line, the
//! file's text, the presentation of a task as markup and the navigation state
//! machine.
pub mod color;
pub mod mode;
pub mod present;
pub mod store;
pub mod task;
pub mod text;
