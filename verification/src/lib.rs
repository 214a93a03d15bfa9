//! A generic singly-linked list.
//!
//! A [`Node`] holds one element and owns the rest of the chain; a [`Link`]
//! is the list itself: empty, or the owner of the first node. No node has
//! two owners and there are no cycles, so a list is fully described by the
//! sequence of its elements, and that sequence is its view: every
//! operation states what it returns and how it changes the list over
//! `Seq<T>`.
//!
//! - [`model`]: the operations as functions on sequences.
//! - [`node`]: a node, and walking and editing the chain from a node.
//! - [`list`]: the list, with access and edits at both ends and by index.
//! - [`collect`]: lists from a repeated value and from iterators.
//! - [`iter`]: iteration by shared reference, by mutable reference with a
//!   cursor that inserts and removes, and by value.
//! - [`ops`]: indexing, `+` and `+=`, `==` and `clone`.
//! - [`fmt`]: the debug form, `[e0, e1, ..]`.
//! - [`laws`]: what holds of the operations taken together.
//!
//! Indexing with `[]` asks for an index within the list; `insert`,
//! `delete` and the cursor's edits say in their result when the index or
//! the position does not exist, and then leave the list as it was.

pub mod collect;
pub mod fmt;
pub mod iter;
pub mod laws;
pub mod list;
pub mod model;
pub mod node;
pub mod ops;

pub use iter::{IntoIter, Iter, IterMut, NO_DATA};
pub use list::Link;
pub use node::Node;
