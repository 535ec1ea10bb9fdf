//! A persistent (immutable), structurally shared singly linked list.
//!
//! A [`List`] is a cheap handle onto a reference-counted chain of nodes.
//! Prepending with [`List::cons`] never touches existing nodes, so many
//! lists may share a common tail; duplicating a handle is O(1) and copies
//! nothing. Every operation is specified against the list's view, the
//! mathematical sequence of its elements from head to tail.

mod laws;
mod list;
mod order;
mod render;

pub use laws::lemma_cons_shape;
pub use laws::lemma_eq_reflexive;
pub use laws::lemma_eq_symmetric;
pub use laws::lemma_eq_transitive;
pub use laws::lemma_from_vec_round_trip;
pub use laws::lemma_nil_is_empty;
pub use laws::lemma_opt_accessors_agree;
pub use laws::lemma_rev_involution;
pub use laws::lemma_rev_nil;
pub use list::clone_is_exact;
pub use list::Iter;
pub use list::List;
pub use order::lex_cmp;
pub use order::lex_cmp_total;
pub use order::seq_elems_eq;
pub use render::render_spec;
pub use render::str_views;
