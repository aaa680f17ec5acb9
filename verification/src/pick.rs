//! Choosing at random which node to visit.

use crate::catalog::{catalog, get_nodes, lemma_catalog_inhabited, views, ContentType, Node};
use rand::seq::SliceRandom;
use vstd::prelude::*;

verus! {

/// `rand::seq::SliceRandom::choose` on a slice, with the generator of `rand::thread_rng`:
/// believed to return none for an empty slice, and else a reference to one of its elements.
/// Which element it is depends on chance, and nothing is said of it. `thread_rng` panics
/// where the system gives it no seed.
#[verifier::external_body]
fn pick_one<'a, T>(items: &'a Vec<T>) -> (picked: Option<&'a T>)
    ensures
        items@.len() == 0 ==> picked is None,
        items@.len() > 0 ==> picked is Some && items@.contains(*picked->0),
{
    items.as_slice().choose(&mut rand::thread_rng())
}

/// One of the three content types, chosen at random.
pub(crate) fn random_content_type() -> ContentType {
    let content_types = vec![ContentType::Article, ContentType::BasicPage, ContentType::Recipe];
    let picked = pick_one(&content_types);
    *picked.unwrap()
}

/// One node of `content_type`, chosen at random, anew at every call.
pub fn random_node(content_type: &ContentType) -> (node: Node)
    ensures
        catalog(*content_type).contains(node@),
{
    let nodes = get_nodes(content_type);
    proof {
        lemma_catalog_inhabited(*content_type);
    }
    let picked = pick_one(&nodes);
    let node = *picked.unwrap();
    proof {
        let i = choose|i: int| 0 <= i < nodes@.len() && nodes@[i] == node;
        assert(views(nodes@)[i] == node@);
    }
    node
}

} // verus!
