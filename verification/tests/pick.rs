use umami::catalog::{get_nodes, ContentType};
use umami::pick::random_node;

#[test]
fn random_node_is_a_node_of_the_content_type() {
    for content_type in [ContentType::Article, ContentType::BasicPage, ContentType::Recipe] {
        let nodes = get_nodes(&content_type);
        for _ in 0..100 {
            let node = random_node(&content_type);
            assert!(nodes.contains(&node), "{:?}", node);
        }
    }
}

#[test]
fn random_basic_page_is_the_only_basic_page() {
    assert_eq!(random_node(&ContentType::BasicPage).nid, 18);
}
