use lowui::builders::{ElementBuilder, EventAttr, GlobalAttr, NodeBuilder, SetAttr};
use lowui::html::{Attr, EventKind, HtmlPage, Link, Meta, Node, CLIENT_SCRIPT};

#[test]
fn attributes_render_with_and_without_value() {
    assert_eq!(Attr::new("class", "a b").to_html(), "class=\"a b\"");
    assert_eq!(Attr::new("value", "").to_html(), "value=\"\"");
    assert_eq!(Attr::name_only("checked").to_html(), "checked");
}

#[test]
fn element_renders_tag_attributes_and_children_in_order() {
    let node = ElementBuilder::new("div")
        .id("root")
        .class("box")
        .el(ElementBuilder::new("p").text("one").text("two"))
        .el(ElementBuilder::empty("br"))
        .text("tail")
        .node();
    assert_eq!(
        node.into_html(),
        "<div id=\"root\" class=\"box\"><p>onetwo</p><br>tail</div>"
    );
}

#[test]
fn element_without_attributes_has_no_space_after_the_tag() {
    assert_eq!(ElementBuilder::new("p").node().to_html(), "<p></p>");
    assert_eq!(ElementBuilder::empty("hr").node().to_html(), "<hr>");
    assert_eq!(ElementBuilder::empty("input").flag("checked").node().to_html(), "<input checked>");
}

#[test]
fn empty_element_renders_no_children() {
    let node = Node::new_el("br", vec![], vec![], vec![Node::new_text("hidden")], true);
    assert_eq!(node.to_html(), "<br>");
}

#[test]
fn text_renders_verbatim() {
    assert_eq!(Node::new_text("a < b & c").into_html(), "a < b & c");
}

#[test]
fn handlers_follow_the_attributes() {
    let node = ElementBuilder::new("button")
        .event(EventKind::Onclick)
        .id("b")
        .event(EventKind::Onkeyup)
        .node();
    assert_eq!(
        node.to_html(),
        "<button id=\"b\" onclick=\"onevent()\" onkeyup=\"onevent()\"></button>"
    );
    let direct = Node::new_el(
        "input",
        vec![EventKind::Onchange],
        vec![Attr::new("type", "text")],
        vec![],
        true,
    );
    assert_eq!(direct.to_html(), "<input type=\"text\" onchange=\"onevent()\">");
}

#[test]
fn event_kinds_have_their_attribute_names() {
    assert_eq!(EventKind::Onabort.to_str(), "onabort");
    assert_eq!(EventKind::Onclick.to_str(), "onclick");
    assert_eq!(EventKind::Onchange.to_str(), "onchange");
    assert_eq!(EventKind::Oncanplaythrough.to_str(), "oncanplaythrough");
    assert_eq!(EventKind::Onloadedmetadata.to_str(), "onloadedmetadata");
    assert_eq!(EventKind::Onwheel.to_str(), "onwheel");
    assert_eq!(EventKind::Onscroll.to_str(), "onscroll");
}

#[test]
fn meta_and_link_collect_attributes_in_order() {
    let meta = Meta::new().charset("utf-8").name("viewport").content("width=device-width").http_equiv("x");
    assert_eq!(
        meta.attrs,
        vec![
            Attr::new("charset", "utf-8"),
            Attr::new("name", "viewport"),
            Attr::new("content", "width=device-width"),
            Attr::new("http-equiv", "x"),
        ]
    );
    let link = Link::new("stylesheet")
        .crossorigin("anonymous")
        .href("css/index.css")
        .hreflang("en")
        .media("print")
        .nonce("n")
        .referrerpolicy("origin")
        .sizes("16x16")
        .type_("text/css");
    assert_eq!(
        link.attrs,
        vec![
            Attr::new("rel", "stylesheet"),
            Attr::new("crossorigin", "anonymous"),
            Attr::new("href", "css/index.css"),
            Attr::new("hreflang", "en"),
            Attr::new("media", "print"),
            Attr::new("nonce", "n"),
            Attr::new("referrerpolicy", "origin"),
            Attr::new("sizes", "16x16"),
            Attr::new("type", "text/css"),
        ]
    );
}

#[test]
fn page_collects_its_parts() {
    let page = HtmlPage::new("Title")
        .meta(Meta::new().charset("utf-8"))
        .meta_content("viewport", "width=device-width, initial-scale=1")
        .link(Link::new("stylesheet").href("css/index.css"))
        .node(ElementBuilder::new("h1").text("todos"))
        .node(ElementBuilder::new("p"));
    assert_eq!(page.title, "Title");
    assert_eq!(
        page.metas,
        vec![
            Meta::new().charset("utf-8"),
            Meta::new().name("viewport").content("width=device-width, initial-scale=1"),
        ]
    );
    assert_eq!(page.links, vec![Link::new("stylesheet").href("css/index.css")]);
    assert_eq!(
        page.nodes,
        vec![ElementBuilder::new("h1").text("todos").node(), ElementBuilder::new("p").node()]
    );
}

#[test]
fn page_renders_head_then_body() {
    let page = HtmlPage::new("Hello")
        .meta(Meta::new().charset("utf-8"))
        .meta_content("viewport", "wide")
        .link(Link::new("stylesheet").href("a.css"))
        .node(ElementBuilder::new("h1").text("Hello"))
        .node(ElementBuilder::new("p").id("para"));
    let expected = format!(
        "<html>\n<head>\n<meta charset=\"utf-8\">\n<meta name=\"viewport\" content=\"wide\">\n<link rel=\"stylesheet\" href=\"a.css\">\n<title>Hello</title>\n<script type=\"text/javascript\">{}</script>\n</head>\n<body>\n<h1>Hello</h1>\n<p id=\"para\"></p>\n</body>\n</html>\n",
        CLIENT_SCRIPT
    );
    assert_eq!(page.into_html(), expected);
}

#[test]
fn empty_page_renders() {
    let expected = format!(
        "<html>\n<head>\n\n\n<title></title>\n<script type=\"text/javascript\">{}</script>\n</head>\n<body>\n\n</body>\n</html>\n",
        CLIENT_SCRIPT
    );
    assert_eq!(HtmlPage::new("").render(), Some(expected));
}

#[test]
fn page_with_a_repeated_id_is_not_rendered() {
    let page = HtmlPage::new("t")
        .node(ElementBuilder::new("div").id("a").el(ElementBuilder::new("p").id("b")))
        .node(ElementBuilder::new("span").id("a"));
    assert!(!page.has_unique_ids());
    assert_eq!(page.render(), None);
    let fine = HtmlPage::new("t")
        .node(ElementBuilder::new("div").id("a").el(ElementBuilder::new("p").id("b")))
        .node(ElementBuilder::new("span").id("c").el(ElementBuilder::new("p")));
    assert!(fine.has_unique_ids());
    assert!(fine.render().is_some());
}

#[test]
fn client_script_speaks_the_wire_format() {
    for word in [
        "button-click", "check-changed", "value-changed", "command_type", "AppendChild",
        "InsertBefore", "Update", "Delete", "buttonClick", "valueChanged", "checkChanged",
        "onevent", "ws://localhost:1234",
    ] {
        assert!(CLIENT_SCRIPT.contains(word), "{}", word);
    }
}

#[test]
fn builder_sets_event_and_global_attributes() {
    let node = ElementBuilder::new("a")
        .set_attr("href", "x")
        .onclick("go()")
        .onmouseover("hover()")
        .title("t")
        .lang("en")
        .data("data-k", "v")
        .accesskey("k")
        .tabindex("1")
        .hidden("hidden")
        .style("color:red")
        .node();
    assert_eq!(
        node.to_html(),
        "<a href=\"x\" onclick=\"go()\" onmouseover=\"hover()\" title=\"t\" lang=\"en\" data-k=\"v\" accesskey=\"k\" tabindex=\"1\" hidden=\"hidden\" style=\"color:red\"></a>"
    );
}

#[test]
fn node_converts_to_its_wire_form() {
    let node = ElementBuilder::new("div")
        .id("d")
        .flag("hidden")
        .el(ElementBuilder::empty("br"))
        .text("t")
        .node();
    assert_eq!(
        node.to_vdom().to_json(),
        "{\"Element\":{\"tag\":\"div\",\"attr\":[{\"key\":\"id\",\"value\":\"d\"},{\"key\":\"hidden\"}],\"children\":[{\"Element\":{\"tag\":\"br\",\"children\":[]}},{\"Text\":\"t\"}]}}"
    );
}

#[test]
fn served_page_has_the_hooks() {
    let page = HtmlPage::new("t").node(
        ElementBuilder::new("div")
            .id("root")
            .el(ElementBuilder::new("button").id("add").text("Add"))
            .el(ElementBuilder::new("button").text("Idle"))
            .el(ElementBuilder::empty("input").id("n").set_attr("type", "number"))
            .el(ElementBuilder::empty("input").set_attr("type", "radio").id("r").flag("checked"))
            .el(ElementBuilder::new("select").id("s").el(ElementBuilder::new("option").id("o"))),
    );
    let served = page.render().unwrap();
    assert!(served.contains(
        "<body>\n<div id=\"root\"><button id=\"add\" onclick=\"buttonClick(this)\">Add</button><button>Idle</button><input id=\"n\" type=\"number\" onchange=\"valueChanged(this)\"><input type=\"radio\" id=\"r\" checked onchange=\"checkChanged(this)\"><select id=\"s\" onchange=\"valueChanged(this)\"><option id=\"o\"></option></select></div>\n</body>"
    ));
}

#[test]
fn hooks_are_the_same_before_and_after_conversion() {
    let build = || {
        ElementBuilder::new("div")
            .id("root")
            .el(ElementBuilder::new("button").id("add").text("Add"))
            .el(ElementBuilder::empty("input").id("c").set_attr("type", "checkbox"))
            .el(ElementBuilder::new("p"))
            .node()
    };
    let mut node = build();
    node.add_events();
    let mut tree = build().to_vdom();
    tree.add_events();
    assert_eq!(node.to_vdom(), tree);
}
