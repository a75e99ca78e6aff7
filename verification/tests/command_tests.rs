use lowui::builders::{ElementBuilder, GlobalAttr, NodeBuilder};
use lowui::command::{commands_to_json, Command, CommandType};

#[test]
fn command_batch_keeps_its_order() {
    let node = ElementBuilder::new("p").id("0").text("add").node();
    let batch = vec![Command::append_child_element("root", node), Command::remove_element("1")];
    assert_eq!(
        commands_to_json(&batch),
        "[{\"command_type\":\"AppendChild\",\"id\":\"root\",\"node\":{\"Element\":{\"tag\":\"p\",\"attr\":[{\"key\":\"id\",\"value\":\"0\"}],\"children\":[{\"Text\":\"add\"}]}}},{\"command_type\":\"Delete\",\"id\":\"1\"}]"
    );
}

#[test]
fn each_command_has_its_wire_name() {
    let node = || ElementBuilder::new("p").node();
    assert_eq!(commands_to_json(&vec![Command::none()]), "[{\"command_type\":\"None\"}]");
    assert_eq!(
        commands_to_json(&vec![Command::insert_element_before("s", node())]),
        "[{\"command_type\":\"InsertBefore\",\"id\":\"s\",\"node\":{\"Element\":{\"tag\":\"p\",\"children\":[]}}}]"
    );
    assert_eq!(
        commands_to_json(&vec![Command::replace_element("u", lowui::html::Node::new_text("t"))]),
        "[{\"command_type\":\"Update\",\"id\":\"u\",\"node\":{\"Text\":\"t\"}}]"
    );
    assert_eq!(
        commands_to_json(&vec![Command::remove_element("a\"b")]),
        "[{\"command_type\":\"Delete\",\"id\":\"a\\\"b\"}]"
    );
    assert_eq!(commands_to_json(&vec![]), "[]");
}

#[test]
fn constructors_fill_type_and_id() {
    assert_eq!(Command::none(), Command { command_type: CommandType::Noop, id: None });
    assert_eq!(
        Command::remove_element("x"),
        Command { command_type: CommandType::RemoveElement, id: Some("x".to_string()) }
    );
    let c = Command::append_child_element("root", lowui::html::Node::new_text("t"));
    assert_eq!(c.id, Some("root".to_string()));
    assert_eq!(c.command_type.name(), "AppendChild");
    assert_eq!(c.command_type.node(), Some(&lowui::html::Node::new_text("t")));
    assert_eq!(Command::none().command_type.node(), None);
}
