//! Two small pieces: a singly linked list of `i32` that grows at the front,
//! and the feeding routines of an `Animal` capability with its `Dog` type.
mod feeding;
mod list;

pub use feeding::{feed_animal, feed_dog, feeding_demo, Animal, Dog};
pub use list::{lemma_pushes_reverse, List, Node};
