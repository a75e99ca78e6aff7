use lowui::command::Command;
use lowui::decode::{attrs_from_json, command_node_from_json};
use lowui::builders::{ElementBuilder, GlobalAttr, NodeBuilder};
use lowui::json::{Json, Member};
use lowui::text::{all_distinct, join_as_strings};
use lowui::vdom::{attr_to_html, children_to_html, find_attr, Attr, HookKind, VDom};

fn attr(key: &str, value: &str) -> Attr {
    Attr::new(key.to_string(), value.to_string())
}

fn element(tag: &str, attrs: Vec<Attr>, children: Vec<VDom>) -> VDom {
    VDom::with_children_attr(tag, attrs, children)
}

fn text(t: &str) -> VDom {
    VDom::Text(t.to_string())
}

fn sample() -> VDom {
    element(
        "div",
        vec![attr("id", "root"), attr("class", "a \"b\""), Attr::with_key_only("hidden".to_string())],
        vec![
            VDom::with_text("p", "one".to_string()),
            text("between"),
            element("input", vec![attr("type", "text"), attr("id", "i")], vec![]),
            VDom::with_children("ul", vec![VDom::with_child("li", text("x")), text("")]),
        ],
    )
}

#[test]
fn constructors_build_the_expected_shapes() {
    assert_eq!(
        VDom::with_child("a", text("t")),
        VDom::Element { tag: "a".to_string(), attr: None, children: vec![text("t")] }
    );
    assert_eq!(
        VDom::with_children("a", vec![text("t"), text("u")]),
        VDom::Element { tag: "a".to_string(), attr: None, children: vec![text("t"), text("u")] }
    );
    assert_eq!(
        VDom::with_child_attr("a", vec![attr("k", "v")], text("t")),
        VDom::Element {
            tag: "a".to_string(),
            attr: Some(vec![attr("k", "v")]),
            children: vec![text("t")]
        }
    );
    assert_eq!(
        VDom::with_text_attr("a", "t".to_string(), vec![attr("k", "v")]),
        VDom::with_child_attr("a", vec![attr("k", "v")], text("t"))
    );
    assert_eq!(VDom::with_text("a", "t".to_string()), VDom::with_child("a", text("t")));
    assert_eq!(
        Attr::with_key_only("k".to_string()),
        Attr { key: "k".to_string(), value: None }
    );
}

#[test]
fn tree_renders_depth_first_in_order() {
    assert_eq!(
        sample().to_html(),
        "<div id=\"root\" class=\"a \"b\"\" hidden><p>one</p>between<input type=\"text\" id=\"i\"></input><ul><li>x</li></ul></div>"
    );
}

#[test]
fn empty_attribute_list_adds_no_space() {
    assert_eq!(element("p", vec![], vec![]).to_html(), "<p></p>");
    assert_eq!(VDom::with_children("p", vec![]).to_html(), "<p></p>");
    assert_eq!(element("p", vec![attr("a", "")], vec![]).to_html(), "<p a=\"\"></p>");
}

#[test]
fn rendering_is_repeatable() {
    assert_eq!(sample().to_html(), sample().to_html());
    let tree = sample();
    assert_eq!(tree.to_html(), tree.to_html());
    assert_eq!(tree.to_json(), tree.to_json());
}

#[test]
fn tree_encodes_to_json() {
    assert_eq!(text("a\"b\\c\n").to_json(), "{\"Text\":\"a\\\"b\\\\c\\n\"}");
    assert_eq!(
        VDom::with_text("p", "t".to_string()).to_json(),
        "{\"Element\":{\"tag\":\"p\",\"children\":[{\"Text\":\"t\"}]}}"
    );
    assert_eq!(
        element("p", vec![attr("k", "v"), Attr::with_key_only("f".to_string())], vec![]).to_json(),
        "{\"Element\":{\"tag\":\"p\",\"attr\":[{\"key\":\"k\",\"value\":\"v\"},{\"key\":\"f\"}],\"children\":[]}}"
    );
    assert_eq!(
        element("p", vec![], vec![]).to_json(),
        "{\"Element\":{\"tag\":\"p\",\"attr\":[],\"children\":[]}}"
    );
}

#[test]
fn json_form_reads_back_to_the_same_tree() {
    for tree in [sample(), text(""), text("t"), element("p", vec![], vec![]), VDom::with_children("q", vec![])] {
        let back = VDom::from_json_value(&tree.to_json_value());
        assert_eq!(back, Some(tree));
    }
}

#[test]
fn command_brings_back_its_tree() {
    let node = ElementBuilder::new("p").id("0").text("add").node();
    let expected = node.to_vdom();
    let command = Command::append_child_element("root", node);
    assert_eq!(command_node_from_json(&command.to_json_value()), Some(expected));
    assert_eq!(command_node_from_json(&Command::remove_element("x").to_json_value()), None);
    assert_eq!(command_node_from_json(&Command::none().to_json_value()), None);
    assert_eq!(command_node_from_json(&Json::Null), None);
}

fn member(key: &str, value: Json) -> Member {
    Member { key: key.to_string(), value }
}

fn string(s: &str) -> Json {
    Json::Str(s.to_string())
}

#[test]
fn documents_that_are_no_tree_are_rejected() {
    assert_eq!(VDom::from_json_value(&Json::Null), None);
    assert_eq!(VDom::from_json_value(&string("Text")), None);
    assert_eq!(VDom::from_json_value(&Json::Object(vec![])), None);
    assert_eq!(VDom::from_json_value(&Json::Object(vec![member("Text", Json::Null)])), None);
    assert_eq!(VDom::from_json_value(&Json::Object(vec![member("Other", string("t"))])), None);
    assert_eq!(
        VDom::from_json_value(&Json::Object(vec![member("Text", string("t")), member("x", Json::Null)])),
        None
    );
    assert_eq!(VDom::from_json_value(&Json::Object(vec![member("Element", string("t"))])), None);
    let no_children = Json::Object(vec![member("Element", Json::Object(vec![member("tag", string("p"))]))]);
    assert_eq!(VDom::from_json_value(&no_children), None);
    let no_tag = Json::Object(vec![member(
        "Element",
        Json::Object(vec![member("children", Json::Array(vec![]))]),
    )]);
    assert_eq!(VDom::from_json_value(&no_tag), None);
    let bad_child = Json::Object(vec![member(
        "Element",
        Json::Object(vec![
            member("tag", string("p")),
            member("children", Json::Array(vec![Json::Object(vec![member("Text", string("a"))]), Json::Bool(true)])),
        ]),
    )]);
    assert_eq!(VDom::from_json_value(&bad_child), None);
    let bad_attr = Json::Object(vec![member(
        "Element",
        Json::Object(vec![
            member("tag", string("p")),
            member("attr", Json::Array(vec![Json::Object(vec![member("value", string("v"))])])),
            member("children", Json::Array(vec![])),
        ]),
    )]);
    assert_eq!(VDom::from_json_value(&bad_attr), None);
}

#[test]
fn members_are_found_in_any_order() {
    let doc = Json::Object(vec![member(
        "Element",
        Json::Object(vec![
            member("children", Json::Array(vec![Json::Object(vec![member("Text", string("a"))])])),
            member("ignored", Json::Bool(false)),
            member("attr", Json::Null),
            member("tag", string("p")),
        ]),
    )]);
    assert_eq!(VDom::from_json_value(&doc), Some(VDom::with_text("p", "a".to_string())));
    let attrs = vec![
        Json::Object(vec![member("value", Json::Null), member("key", string("k"))]),
        Json::Object(vec![member("value", string("v")), member("key", string("k2"))]),
    ];
    assert_eq!(
        attrs_from_json(&attrs),
        Some(vec![Attr::with_key_only("k".to_string()), attr("k2", "v")])
    );
    assert_eq!(attrs_from_json(&vec![Json::Object(vec![member("key", Json::Bool(true))])]), None);
    assert_eq!(
        attrs_from_json(&vec![Json::Object(vec![member("key", string("k")), member("value", Json::Bool(true))])]),
        None
    );
}

#[test]
fn json_documents_render_without_white_space() {
    let doc = Json::Object(vec![
        member("a", Json::Null),
        member("b", Json::Array(vec![Json::Bool(true), Json::Bool(false), string("x")])),
        member("c", Json::Object(vec![])),
        member("d\"", Json::Array(vec![])),
    ]);
    assert_eq!(doc.render(), "{\"a\":null,\"b\":[true,false,\"x\"],\"c\":{},\"d\\\"\":[]}");
    assert_eq!(string("tab\tquote\"\u{1}é").render(), "\"tab\\tquote\\\"\\u0001é\"");
    assert_eq!(
        Json::Array(vec![Json::Number("-1.5e3".to_string()), Json::Number("0".to_string())]).render(),
        "[-1.5e3,0]"
    );
}

#[test]
fn rendered_documents_parse_back() {
    let tree = sample();
    let parsed: serde_json::Value = serde_json::from_str(&tree.to_json()).unwrap();
    assert_eq!(parsed["Element"]["tag"], serde_json::Value::String("div".to_string()));
    assert_eq!(
        parsed["Element"]["attr"][1]["value"],
        serde_json::Value::String("a \"b\"".to_string())
    );
    assert_eq!(parsed["Element"]["children"][1]["Text"], serde_json::Value::String("between".to_string()));
    assert_eq!(parsed["Element"]["children"].as_array().map(|a| a.len()), Some(4));
}

#[test]
fn hooks_go_to_elements_with_an_id() {
    let mut tree = element(
        "div",
        vec![attr("id", "root")],
        vec![
            element("button", vec![attr("id", "b")], vec![]),
            element("button", vec![attr("class", "c")], vec![]),
            VDom::with_children("button", vec![]),
            element("select", vec![attr("id", "s")], vec![element("option", vec![attr("id", "o")], vec![])]),
            element("input", vec![attr("id", "i1"), attr("type", "button")], vec![]),
            element("input", vec![attr("type", "text"), attr("id", "i2")], vec![]),
            element("input", vec![attr("id", "i3"), attr("type", "number")], vec![]),
            element("input", vec![attr("id", "i4"), attr("type", "checkbox")], vec![]),
            element("input", vec![attr("id", "i5"), attr("type", "radio")], vec![]),
            element("input", vec![attr("id", "i6"), attr("type", "color")], vec![]),
            element("input", vec![attr("id", "i7")], vec![]),
            element("input", vec![attr("type", "radio")], vec![]),
            text("button"),
        ],
    );
    tree.add_events();
    let click = attr("onclick", "buttonClick(this)");
    let change = attr("onchange", "valueChanged(this)");
    let check = attr("onchange", "checkChanged(this)");
    let expected = element(
        "div",
        vec![attr("id", "root")],
        vec![
            element("button", vec![attr("id", "b"), click.clone()], vec![]),
            element("button", vec![attr("class", "c")], vec![]),
            VDom::with_children("button", vec![]),
            element(
                "select",
                vec![attr("id", "s"), change.clone()],
                vec![element("option", vec![attr("id", "o")], vec![])],
            ),
            element("input", vec![attr("id", "i1"), attr("type", "button"), click.clone()], vec![]),
            element("input", vec![attr("type", "text"), attr("id", "i2"), change.clone()], vec![]),
            element("input", vec![attr("id", "i3"), attr("type", "number"), change.clone()], vec![]),
            element("input", vec![attr("id", "i4"), attr("type", "checkbox"), check.clone()], vec![]),
            element("input", vec![attr("id", "i5"), attr("type", "radio"), check.clone()], vec![]),
            element("input", vec![attr("id", "i6"), attr("type", "color")], vec![]),
            element("input", vec![attr("id", "i7")], vec![]),
            element("input", vec![attr("type", "radio")], vec![]),
            text("button"),
        ],
    );
    assert_eq!(tree, expected);
}

#[test]
fn hook_table_goes_by_tag_and_type() {
    assert_eq!(HookKind::lookup("button", &None), Some(HookKind::Click));
    assert_eq!(HookKind::lookup("button", &Some("radio".to_string())), Some(HookKind::Click));
    assert_eq!(HookKind::lookup("select", &None), Some(HookKind::Change));
    assert_eq!(HookKind::lookup("input", &Some("button".to_string())), Some(HookKind::Click));
    assert_eq!(HookKind::lookup("input", &Some("text".to_string())), Some(HookKind::Change));
    assert_eq!(HookKind::lookup("input", &Some("number".to_string())), Some(HookKind::Change));
    assert_eq!(HookKind::lookup("input", &Some("checkbox".to_string())), Some(HookKind::Check));
    assert_eq!(HookKind::lookup("input", &Some("radio".to_string())), Some(HookKind::Check));
    assert_eq!(HookKind::lookup("input", &Some("file".to_string())), None);
    assert_eq!(HookKind::lookup("input", &None), None);
    assert_eq!(HookKind::lookup("div", &Some("text".to_string())), None);
    assert_eq!(HookKind::Click.attr(), attr("onclick", "buttonClick(this)"));
    assert_eq!(HookKind::Change.attr(), attr("onchange", "valueChanged(this)"));
    assert_eq!(HookKind::Check.attr(), attr("onchange", "checkChanged(this)"));
}

#[test]
fn first_attribute_of_a_key_counts() {
    let attrs = vec![attr("a", "1"), Attr::with_key_only("b".to_string()), attr("a", "2")];
    assert_eq!(find_attr(&attrs, "a"), Some("1".to_string()));
    assert_eq!(find_attr(&attrs, "b"), Some(String::new()));
    assert_eq!(find_attr(&attrs, "c"), None);
}

#[test]
fn ids_come_in_document_order() {
    assert_eq!(sample().ids(), vec!["root".to_string(), "i".to_string()]);
    assert_eq!(text("t").ids(), Vec::<String>::new());
}

#[test]
fn repeated_id_is_flagged() {
    let twice = element(
        "div",
        vec![attr("id", "a")],
        vec![element("p", vec![attr("id", "b")], vec![element("span", vec![attr("id", "a")], vec![])])],
    );
    assert!(!twice.has_unique_ids());
    assert_eq!(twice.render(), None);
    assert!(sample().has_unique_ids());
    assert!(text("t").has_unique_ids());
}

#[test]
fn served_markup_has_the_hooks() {
    let tree = element(
        "div",
        vec![attr("id", "root")],
        vec![element("button", vec![attr("id", "add")], vec![text("Add")])],
    );
    assert_eq!(
        tree.render(),
        Some(
            "<div id=\"root\"><button id=\"add\" onclick=\"buttonClick(this)\">Add</button></div>"
                .to_string()
        )
    );
}

#[test]
fn strings_join_with_the_delimiter_between() {
    let parts = vec!["a".to_string(), "".to_string(), "c".to_string()];
    assert_eq!(join_as_strings(&parts, ", "), "a, , c");
    assert_eq!(join_as_strings(&vec!["a".to_string()], ", "), "a");
    assert_eq!(join_as_strings(&vec![], ", "), "");
    assert!(all_distinct(&parts));
    assert!(!all_distinct(&vec!["a".to_string(), "b".to_string(), "a".to_string()]));
    assert!(all_distinct(&vec![]));
}

#[test]
fn attribute_lists_and_child_lists_render() {
    let attrs = vec![attr("a", "1"), Attr::with_key_only("b".to_string()), attr("c", "")];
    assert_eq!(attr_to_html(&attrs), "a=\"1\" b c=\"\"");
    assert_eq!(attr_to_html(&vec![]), "");
    assert_eq!(attr("k", "v").to_html(), "k=\"v\"");
    let children = vec![text("a"), VDom::with_children("b", vec![]), text("c")];
    assert_eq!(children_to_html(&children), "a<b></b>c");
    assert_eq!(children_to_html(&vec![]), "");
}
