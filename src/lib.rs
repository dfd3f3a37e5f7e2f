//! A singly-linked list whose nodes each own the rest of the chain.

pub mod laws;
pub mod linked_list;
pub mod render;

pub use linked_list::{LinkedList, LinkedListError, LinkedListIterator};
pub use render::Render;
