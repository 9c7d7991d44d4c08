use xbrowser::dom::{elem, text, AttrMap, ElementData, Node, NodeType};

fn attrs_of(pairs: &[(&str, &str)]) -> AttrMap {
    let mut attrs = AttrMap::new();
    for (name, value) in pairs {
        attrs.insert(name.to_string(), value.to_string());
    }
    attrs
}

fn element_of(pairs: &[(&str, &str)]) -> ElementData {
    ElementData { tag_name: "div".to_string(), attrs: attrs_of(pairs) }
}

fn count_nodes(node: &Node) -> usize {
    1 + node.children.iter().map(count_nodes).sum::<usize>()
}

fn depth(node: &Node) -> usize {
    1 + node.children.iter().map(depth).max().unwrap_or(0)
}

#[test]
fn text_keeps_its_data_and_is_a_leaf() {
    for data in ["hi", "", "two words", "  ", "héllo ✓"] {
        let node = text(data.to_string());
        assert!(node.children.is_empty());
        match node.node_type {
            NodeType::Text(kept) => assert_eq!(kept, data),
            NodeType::Element(_) => panic!("a text node was expected"),
        }
    }
}

#[test]
fn elem_keeps_tag_attributes_and_children() {
    let attrs = attrs_of(&[("id", "main"), ("class", "a b"), ("href", "")]);
    let children = vec![text("one".to_string()), elem("p".to_string(), AttrMap::new(), vec![]), text("two".to_string())];
    let node = elem("section".to_string(), attrs, children);
    assert_eq!(node.children.len(), 3);
    assert!(matches!(&node.children[0].node_type, NodeType::Text(t) if t == "one"));
    assert!(matches!(&node.children[1].node_type, NodeType::Element(e) if e.tag_name == "p"));
    assert!(matches!(&node.children[2].node_type, NodeType::Text(t) if t == "two"));
    match &node.node_type {
        NodeType::Element(element) => {
            assert_eq!(element.tag_name, "section");
            assert_eq!(element.attrs.len(), 3);
            assert_eq!(element.attrs.get("id"), Some(&"main".to_string()));
            assert_eq!(element.attrs.get("class"), Some(&"a b".to_string()));
            assert_eq!(element.attrs.get("href"), Some(&String::new()));
            assert_eq!(element.attrs.get("title"), None);
        }
        NodeType::Text(_) => panic!("an element was expected"),
    }
}

#[test]
fn elem_accepts_an_empty_tag_and_no_children() {
    let node = elem(String::new(), AttrMap::new(), Vec::new());
    assert!(node.children.is_empty());
    match &node.node_type {
        NodeType::Element(element) => {
            assert_eq!(element.tag_name, "");
            assert!(element.attrs.is_empty());
            assert_eq!(element.id(), None);
            assert!(element.classes().is_empty());
        }
        NodeType::Text(_) => panic!("an element was expected"),
    }
}

#[test]
fn div_with_one_text_child() {
    let node = elem("div".to_string(), AttrMap::new(), vec![text("hi".to_string())]);
    assert!(matches!(&node.node_type, NodeType::Element(e) if e.tag_name == "div" && e.attrs.is_empty()));
    assert_eq!(node.children.len(), 1);
    let child = &node.children[0];
    assert!(child.children.is_empty());
    assert!(matches!(&child.node_type, NodeType::Text(t) if t == "hi"));
}

#[test]
fn id_is_the_stored_value() {
    assert_eq!(element_of(&[("id", "main")]).id(), Some(&"main".to_string()));
    assert_eq!(element_of(&[("id", "")]).id(), Some(&String::new()));
    assert_eq!(element_of(&[("id", " a b ")]).id(), Some(&" a b ".to_string()));
}

#[test]
fn id_is_none_without_the_attribute() {
    assert_eq!(element_of(&[]).id(), None);
    assert_eq!(element_of(&[("class", "id"), ("ID", "upper"), ("idx", "longer")]).id(), None);
}

#[test]
fn a_later_insert_of_an_attribute_wins() {
    let mut attrs = AttrMap::new();
    attrs.insert("id".to_string(), "first".to_string());
    attrs.insert("id".to_string(), "second".to_string());
    assert_eq!(attrs.len(), 1);
    let element = ElementData { tag_name: "a".to_string(), attrs };
    assert_eq!(element.id(), Some(&"second".to_string()));
}

#[test]
fn classes_of_foo_bar() {
    let classes = element_of(&[("class", "foo bar")]).classes();
    assert_eq!(classes.len(), 2);
    assert!(classes.contains("foo"));
    assert!(classes.contains("bar"));
    assert!(!classes.contains("foo bar"));
    assert!(!classes.contains(""));
}

#[test]
fn classes_without_the_attribute_are_empty() {
    let classes = element_of(&[("id", "foo bar"), ("Class", "x")]).classes();
    assert!(classes.is_empty());
    assert_eq!(classes.len(), 0);
}

#[test]
fn classes_of_the_empty_string_hold_the_empty_class() {
    let classes = element_of(&[("class", "")]).classes();
    assert_eq!(classes.len(), 1);
    assert!(classes.contains(""));
}

#[test]
fn classes_are_not_trimmed() {
    let classes = element_of(&[("class", "foo  bar")]).classes();
    assert_eq!(classes.len(), 3);
    assert!(classes.contains("foo") && classes.contains("bar") && classes.contains(""));

    let classes = element_of(&[("class", " foo")]).classes();
    assert_eq!(classes.len(), 2);
    assert!(classes.contains("foo") && classes.contains(""));

    let classes = element_of(&[("class", "foo ")]).classes();
    assert_eq!(classes.len(), 2);
    assert!(classes.contains("foo") && classes.contains(""));

    let classes = element_of(&[("class", " ")]).classes();
    assert_eq!(classes.len(), 1);
    assert!(classes.contains(""));
}

#[test]
fn classes_split_at_spaces_only() {
    let classes = element_of(&[("class", "a\tb\nc d")]).classes();
    assert_eq!(classes.len(), 2);
    assert!(classes.contains("a\tb\nc"));
    assert!(classes.contains("d"));
}

#[test]
fn classes_repeated_names_count_once() {
    let classes = element_of(&[("class", "x y x y x")]).classes();
    assert_eq!(classes.len(), 2);
    assert!(classes.contains("x") && classes.contains("y"));
}

#[test]
fn classes_of_text_beyond_ascii() {
    let classes = element_of(&[("class", "grün ✓✓ 日本語")]).classes();
    assert_eq!(classes.len(), 3);
    assert!(classes.contains("grün"));
    assert!(classes.contains("✓✓"));
    assert!(classes.contains("日本語"));
}

#[test]
fn queries_give_the_same_answer_twice() {
    let element = element_of(&[("id", "nav"), ("class", "top wide  top")]);
    let first_id = element.id().cloned();
    let second_id = element.id().cloned();
    assert_eq!(first_id, second_id);
    assert_eq!(first_id, Some("nav".to_string()));

    let first = element.classes();
    let second = element.classes();
    assert_eq!(first.len(), 3);
    assert_eq!(first.len(), second.len());
    for class in ["top", "wide", ""] {
        assert!(first.contains(class) && second.contains(class));
    }
    assert_eq!(element.attrs.len(), 2);
    assert_eq!(element.attrs.get("class"), Some(&"top wide  top".to_string()));
}

#[test]
fn a_deep_tree_is_built_and_dropped() {
    let levels = 200;
    let mut node = text("leaf".to_string());
    for level in 0..levels {
        let sibling = text(format!("beside {}", level));
        node = elem("div".to_string(), attrs_of(&[("id", "x")]), vec![node, sibling]);
    }
    assert_eq!(depth(&node), levels + 1);
    assert_eq!(count_nodes(&node), 2 * levels + 1);
    drop(node);
}

#[test]
fn classes_agree_with_a_plain_split() {
    let values = [
        "", " ", "  ", "a", " a", "a ", " a ", "a b", "a  b", "a b c", "a b a", "ab cd ef",
        "  lead", "trail  ", "x\ty z", "x\u{a0}y z", "ü ö ä ü", "one two  three   four",
    ];
    for value in values {
        let classes = element_of(&[("class", value)]).classes();
        let pieces: std::collections::HashSet<&str> = value.split(' ').collect();
        assert_eq!(classes.len(), pieces.len(), "{:?}", value);
        for piece in pieces {
            assert!(classes.contains(piece), "{:?} of {:?}", piece, value);
        }
    }
}

#[test]
fn classes_are_at_most_one_more_than_the_spaces() {
    for value in ["", "a", "a b", " a b ", "a a a a", "    "] {
        let spaces = value.chars().filter(|c| *c == ' ').count();
        let classes = element_of(&[("class", value)]).classes();
        assert!(1 <= classes.len() && classes.len() <= spaces + 1, "{:?}", value);
    }
}
