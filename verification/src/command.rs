//! Commands: the changes to the page that the server asks the browser to make,
//! and their JSON encoding.

use vstd::prelude::*;
use vstd::string::*;
use crate::html::{wire_tree, Node, NodeView};
use crate::json::{
    array_of, items_text, items_view, json_text, lemma_items_text, members_view, object_of, str_member, string_member, Json,
    JsonView, Member, MemberView,
};
use crate::text::join;
use crate::vdom::tree_json;

verus! {

/// The mathematical value of a [`CommandType`].
pub enum CommandTypeView {
    Noop,
    AppendChildElement(NodeView),
    InsertElementBefore(NodeView),
    ReplaceElement(NodeView),
    RemoveElement,
}

/// The mathematical value of a [`Command`].
pub struct CommandView {
    pub command_type: CommandTypeView,
    pub id: Option<Seq<char>>,
}

/// The type of command to execute in the client. These represent manipulations
/// of the DOM.
#[derive(Debug, PartialEq, Eq)]
pub enum CommandType {
    /// Do nothing.
    Noop,
    /// Append the node as the last child of the addressed element.
    AppendChildElement(Node),
    /// Insert the node before the addressed element.
    InsertElementBefore(Node),
    /// Replace the addressed element and all below it by the node.
    ReplaceElement(Node),
    /// Remove the addressed element.
    RemoveElement,
}

impl View for CommandType {
    type V = CommandTypeView;

    open spec fn view(&self) -> CommandTypeView {
        match self {
            CommandType::Noop => CommandTypeView::Noop,
            CommandType::AppendChildElement(n) => CommandTypeView::AppendChildElement(n@),
            CommandType::InsertElementBefore(n) => CommandTypeView::InsertElementBefore(n@),
            CommandType::ReplaceElement(n) => CommandTypeView::ReplaceElement(n@),
            CommandType::RemoveElement => CommandTypeView::RemoveElement,
        }
    }
}

/// A command to execute on the client.
#[derive(Debug, PartialEq, Eq)]
pub struct Command {
    /// The type of command.
    pub command_type: CommandType,
    /// The id of the element affected by the command.
    pub id: Option<String>,
}

impl View for Command {
    type V = CommandView;

    open spec fn view(&self) -> CommandView {
        CommandView {
            command_type: self.command_type@,
            id: match self.id {
                Some(id) => Some(id@),
                None => None,
            },
        }
    }
}

/// The views of a sequence of commands, in order.
pub open spec fn commands_view(commands: Seq<Command>) -> Seq<CommandView> {
    Seq::new(commands.len(), |i: int| commands[i]@)
}

/// The name under which a command type goes over the wire.
pub open spec fn wire_name(t: CommandTypeView) -> Seq<char> {
    match t {
        CommandTypeView::Noop => "None"@,
        CommandTypeView::AppendChildElement(_) => "AppendChild"@,
        CommandTypeView::InsertElementBefore(_) => "InsertBefore"@,
        CommandTypeView::ReplaceElement(_) => "Update"@,
        CommandTypeView::RemoveElement => "Delete"@,
    }
}

/// The node that a command type brings with it, if any.
pub open spec fn embedded_node(t: CommandTypeView) -> Option<NodeView> {
    match t {
        CommandTypeView::Noop => None,
        CommandTypeView::AppendChildElement(n) => Some(n),
        CommandTypeView::InsertElementBefore(n) => Some(n),
        CommandTypeView::ReplaceElement(n) => Some(n),
        CommandTypeView::RemoveElement => None,
    }
}

/// The members that the optional parts of a command add: `id` where the command
/// addresses an element, then `node` where it brings one.
pub open spec fn optional_members(c: CommandView) -> Seq<MemberView> {
    let id_part = match c.id {
        Some(id) => seq![str_member("id"@, id)],
        None => Seq::empty(),
    };
    let node_part = match embedded_node(c.command_type) {
        Some(n) => seq![MemberView { key: "node"@, value: tree_json(wire_tree(n)) }],
        None => Seq::empty(),
    };
    id_part + node_part
}

/// The JSON form of a command: an object with the member `command_type`, then
/// `id` where the command addresses an element, then `node` where it brings one.
pub open spec fn command_json(c: CommandView) -> JsonView {
    JsonView::Object(
        seq![str_member("command_type"@, wire_name(c.command_type))] + optional_members(c),
    )
}

/// The JSON form of a batch of commands: an array with one item for each
/// command, in the order of the batch.
pub open spec fn commands_json(commands: Seq<CommandView>) -> JsonView {
    JsonView::Array(Seq::new(commands.len(), |i: int| command_json(commands[i])))
}

impl CommandType {
    /// The name under which this command type goes over the wire.
    pub fn name(&self) -> (name: &'static str)
        ensures
            name@ == wire_name(self@),
    {
        match self {
            CommandType::Noop => "None",
            CommandType::AppendChildElement(_) => "AppendChild",
            CommandType::InsertElementBefore(_) => "InsertBefore",
            CommandType::ReplaceElement(_) => "Update",
            CommandType::RemoveElement => "Delete",
        }
    }

    /// The node that this command type brings with it, if any.
    pub fn node(&self) -> (node: Option<&Node>)
        ensures
            match node {
                Some(n) => embedded_node(self@) == Some(n@),
                None => embedded_node(self@) is None,
            },
    {
        match self {
            CommandType::Noop => None,
            CommandType::AppendChildElement(n) => Some(n),
            CommandType::InsertElementBefore(n) => Some(n),
            CommandType::ReplaceElement(n) => Some(n),
            CommandType::RemoveElement => None,
        }
    }
}

impl Command {
    /// Returns a do-nothing command.
    pub fn none() -> (c: Command)
        ensures
            c@ == (CommandView { command_type: CommandTypeView::Noop, id: None }),
    {
        Command { command_type: CommandType::Noop, id: None }
    }

    /// Returns a command to append a child node to the element identified by `id`.
    pub fn append_child_element(id: &str, node: Node) -> (c: Command)
        ensures
            c@ == (CommandView {
                command_type: CommandTypeView::AppendChildElement(node@),
                id: Some(id@),
            }),
    {
        Command {
            command_type: CommandType::AppendChildElement(node),
            id: Some(String::from_str(id)),
        }
    }

    /// Returns a command to insert a node before the element identified by `id`.
    pub fn insert_element_before(id: &str, node: Node) -> (c: Command)
        ensures
            c@ == (CommandView {
                command_type: CommandTypeView::InsertElementBefore(node@),
                id: Some(id@),
            }),
    {
        Command {
            command_type: CommandType::InsertElementBefore(node),
            id: Some(String::from_str(id)),
        }
    }

    /// Returns a command to replace the element identified by `id`, and all below
    /// it, by a new node.
    pub fn replace_element(id: &str, node: Node) -> (c: Command)
        ensures
            c@ == (CommandView {
                command_type: CommandTypeView::ReplaceElement(node@),
                id: Some(id@),
            }),
    {
        Command { command_type: CommandType::ReplaceElement(node), id: Some(String::from_str(id)) }
    }

    /// Returns a command to delete the element identified by `id`.
    pub fn remove_element(id: &str) -> (c: Command)
        ensures
            c@ == (CommandView { command_type: CommandTypeView::RemoveElement, id: Some(id@) }),
    {
        Command { command_type: CommandType::RemoveElement, id: Some(String::from_str(id)) }
    }

    /// The JSON form of this command.
    pub fn to_json_value(&self) -> (j: Json)
        ensures
            j@ == command_json(self@),
    {
        let mut members: Vec<Member> = Vec::new();
        members.push(string_member("command_type", self.command_type.name()));
        proof {
            assert(members_view(members@) =~= seq![
                str_member("command_type"@, wire_name(self@.command_type)),
            ]);
        }
        let ghost head = members_view(members@);
        if let Some(id) = &self.id {
            members.push(string_member("id", id.as_str()));
            proof {
                assert(members_view(members@) =~= head + seq![str_member("id"@, id@)]);
            }
        }
        let ghost with_id = members_view(members@);
        if let Some(node) = self.command_type.node() {
            let tree = node.to_vdom().to_json_value();
            members.push(Member { key: String::from_str("node"), value: tree });
            proof {
                assert(members_view(members@) =~= with_id + seq![
                    MemberView { key: "node"@, value: tree_json(wire_tree(node@)) },
                ]);
            }
        }
        proof {
            assert(members_view(members@) =~= head + optional_members(self@));
        }
        object_of(members)
    }
}

/// The JSON form of a batch of commands.
pub fn commands_to_json_value(commands: &Vec<Command>) -> (j: Json)
    ensures
        j@ == commands_json(commands_view(commands@)),
{
    let mut items: Vec<Json> = Vec::new();
    let mut i: usize = 0;
    while i < commands.len()
        invariant
            i <= commands.len(),
            items@.len() == i,
            forall|k: int| 0 <= k < i ==> (#[trigger] items@[k])@ == command_json(commands@[k]@),
        decreases commands.len() - i,
    {
        items.push(commands[i].to_json_value());
        i = i + 1;
    }
    proof {
        assert(items_view(items@) =~= Seq::new(
            commands_view(commands@).len(),
            |i: int| command_json(commands_view(commands@)[i]),
        ));
    }
    array_of(items)
}

/// The outbound message for a batch of commands: the text of a JSON array with
/// one object for each command, in the order of the batch.
pub fn commands_to_json(commands: &Vec<Command>) -> (out: String)
    ensures
        out@ == json_text(commands_json(commands_view(commands@))),
{
    commands_to_json_value(commands).render()
}

/// Order: the encoded batch has one item for each command, and the item at
/// each position is the encoding of the command at that position.
pub proof fn lemma_commands_keep_order(commands: Seq<CommandView>)
    ensures
        commands_json(commands) is Array,
        commands_json(commands)->Array_0.len() == commands.len(),
        forall|i: int|
            0 <= i < commands.len() ==> #[trigger] commands_json(commands)->Array_0[i]
                == command_json(commands[i]),
        json_text(commands_json(commands)) == "["@ + join(
            Seq::new(commands.len(), |i: int| json_text(command_json(commands[i]))),
            ","@,
        ) + "]"@,
{
    let items = commands_json(commands)->Array_0;
    lemma_items_text(items);
    assert(items_text(items) =~= Seq::new(
        commands.len(),
        |i: int| json_text(command_json(commands[i])),
    ));
}

} // verus!
