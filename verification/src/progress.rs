//! Creation of the progress tree and its named child node, the one piece
//! of state the dashboard thread observes while the computation mutates
//! it.

use vstd::prelude::*;

verus! {

#[verifier::external_type_specification]
#[verifier::external_body]
pub struct ExProgressRoot(prodash::tree::Root);

#[verifier::external_type_specification]
#[verifier::external_body]
pub struct ExProgressItem(prodash::tree::Item);

/// Relies on prodash::tree::Root::new: creates a new, empty progress tree
/// with default configuration.
#[verifier::external_body]
fn new_progress_tree() -> std::sync::Arc<prodash::tree::Root> {
    prodash::tree::Root::new()
}

/// Relies on prodash::tree::Root::add_child: adds a child node with the
/// given name to the tree and returns the handle through which progress
/// on it is reported.
#[verifier::external_body]
fn add_progress_child(tree: &std::sync::Arc<prodash::tree::Root>, name: &str) -> prodash::tree::Item {
    tree.add_child(name)
}

/// Creates the progress tree and one named child node. The child handle
/// goes to the computation, which is its only mutator; the tree goes to a
/// renderer, which only observes it.
pub fn create_progress(name: &str) -> (std::sync::Arc<prodash::tree::Root>, prodash::tree::Item) {
    let tree = new_progress_tree();
    let item = add_progress_child(&tree, name);
    (tree, item)
}

} // verus!
