use lowui::vdom::{Attr, VDom};

#[test]
fn make_html() {
    let expected =
        "<html><head><title>Hello</title></head><body><h1>Hello</h1><p class=\"p-text\">This is a simple webpage.</p></body></html>"
        .to_string();

    let title = VDom::with_text("title", "Hello".to_string());

    let head = VDom::with_child("head", title);

    let h1 = VDom::with_text("h1", "Hello".to_string());

    let p = VDom::with_text_attr(
        "p",
        "This is a simple webpage.".to_string(),
        vec![Attr::new(String::from("class"), String::from("p-text"))],
    );

    let body = VDom::with_children("body", vec![h1, p]);

    let html = VDom::with_children("html", vec![head, body]);

    let actual = html.to_html();

    assert_eq!(expected, actual);

    let json = html.to_json();

    println!("{}", json);
}
