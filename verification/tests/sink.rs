//! Direct tests of the verified sink, without the engine: each callback's
//! effect on the output buffer, handle identity, and the two output shapes.

use dissolve::node::{Node, NodeOrText};
use dissolve::sink::TextOnly;

fn text(s: &str) -> NodeOrText {
    NodeOrText::AppendText(String::from(s))
}

#[test]
fn fresh_sink_yields_empty_output() {
    let sink = TextOnly::new();
    assert_eq!(sink.finish(), "");
}

#[test]
fn default_matches_new() {
    let sink: TextOnly = Default::default();
    let frags: Vec<String> = sink.finish_fragments();
    assert!(frags.is_empty());
}

#[test]
fn append_accumulates_text_in_order() {
    let mut sink = TextOnly::new();
    let doc = sink.get_document();
    sink.append(&doc, text("Hel"));
    sink.append(&doc, text("lo"));
    sink.append(&doc, text("World!"));
    assert_eq!(sink.finish(), "HelloWorld!");
}

#[test]
fn appending_a_node_adds_no_text() {
    let mut sink = TextOnly::new();
    let doc = sink.get_document();
    sink.append(&doc, text("a"));
    let div = sink.create_element(String::from("div"));
    sink.append(&doc, NodeOrText::AppendNode(div));
    sink.append(&doc, text("b"));
    assert_eq!(sink.finish(), "ab");
}

#[test]
fn foster_parenting_append_accumulates_like_append() {
    let mut sink = TextOnly::new();
    let doc = sink.get_document();
    let table = sink.create_element(String::from("table"));
    sink.append(&doc, text("a"));
    sink.append_based_on_parent_node(&table, &doc, text(" b"));
    sink.append(&doc, text("c"));
    assert_eq!(sink.finish(), "a bc");
}

#[test]
fn fragments_keep_node_boundaries() {
    let mut sink = TextOnly::new();
    let doc = sink.get_document();
    sink.append(&doc, text("Hel"));
    sink.append(&doc, text("lo"));
    let frags = sink.finish_fragments();
    assert_eq!(frags, vec!["Hel", "lo"]);
}

#[test]
fn concatenated_shape_equals_joined_fragments() {
    let build = || {
        let mut sink = TextOnly::new();
        let doc = sink.get_document();
        sink.append(&doc, text("a "));
        sink.append(&doc, text("b"));
        sink.append_based_on_parent_node(&doc, &doc, text(" c"));
        sink
    };
    assert_eq!(build().finish_fragments().concat(), build().finish());
}

#[test]
fn handles_are_distinct_identities() {
    let mut sink = TextOnly::new();
    let doc = sink.get_document();
    let a = sink.create_element(String::from("a"));
    let b = sink.create_element(String::from("a"));
    assert!(!sink.same_node(&a, &b));
    assert!(!sink.same_node(&doc, &a));
    assert!(sink.same_node(&a, &a));
    let a_again: Node = a.clone();
    assert!(sink.same_node(&a, &a_again));
}

#[test]
fn elem_name_answers_the_qualified_name() {
    let mut sink = TextOnly::new();
    let div = sink.create_element(String::from("div"));
    assert_eq!(sink.elem_name(&div).as_str(), "div");
}

#[test]
fn template_contents_is_a_fresh_handle() {
    let mut sink = TextOnly::new();
    let template = sink.create_element(String::from("template"));
    let contents = sink.get_template_contents(&template);
    assert!(!sink.same_node(&template, &contents));
    sink.append(&contents, text("inside"));
    assert_eq!(sink.finish(), "inside");
}

#[test]
fn structural_callbacks_leave_output_unchanged() {
    let mut sink = TextOnly::new();
    let doc = sink.get_document();
    let div = sink.create_element(String::from("div"));
    sink.append(&doc, text("kept"));
    sink.append_doctype_to_document();
    sink.set_quirks_mode(dissolve::node::QuirksMode::NoQuirks);
    sink.add_attrs_if_missing(&div);
    sink.remove_from_parent(&div);
    sink.reparent_children(&doc, &div);
    sink.parse_error("unexpected end of file");
    let comment = sink.create_comment();
    let pi = sink.create_pi();
    sink.append(&doc, NodeOrText::AppendNode(comment));
    sink.append(&doc, NodeOrText::AppendNode(pi));
    assert_eq!(sink.finish(), "kept");
}

#[test]
fn can_create_is_true_on_a_fresh_sink() {
    let sink = TextOnly::new();
    assert!(sink.can_create());
}
