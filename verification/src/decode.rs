//! Reading trees back from their JSON form.

use vstd::prelude::*;
use vstd::string::*;
use crate::command::{command_json, embedded_node, CommandView};
use crate::html::wire_tree;
use crate::json::{
    find_member, items_view, lemma_json_view, member_position, member_value, members_view,
    str_member, Json, JsonView, Member, MemberView,
};
use crate::text::str_eq;
use crate::vdom::{
    attr_json, attrs_json, attrs_view, tree_json, trees_json, trees_view, Attr, AttrView, VDom,
    VDomView,
};

verus! {

/// The attribute that a JSON document stands for: an object whose member `key`
/// holds a string, and whose member `value`, where it is there and not `null`,
/// holds a string too.
pub open spec fn attr_of_json(j: JsonView) -> Option<AttrView> {
    match j {
        JsonView::Object(members) => match member_value(members, "key"@) {
            Some(JsonView::Str(key)) => match member_value(members, "value"@) {
                None => Some(AttrView { key: key, value: None }),
                Some(JsonView::Null) => Some(AttrView { key: key, value: None }),
                Some(JsonView::Str(value)) => Some(AttrView { key: key, value: Some(value) }),
                Some(_) => None,
            },
            _ => None,
        },
        _ => None,
    }
}

/// The attributes that the documents stand for, in order; none where one of
/// them stands for no attribute.
pub open spec fn attrs_of_json(items: Seq<JsonView>) -> Option<Seq<AttrView>>
    decreases items.len(),
{
    if items.len() == 0 {
        Some(Seq::empty())
    } else {
        match (attrs_of_json(items.drop_last()), attr_of_json(items.last())) {
            (Some(head), Some(last)) => Some(head.push(last)),
            _ => None,
        }
    }
}

/// The attribute list that the member `attr` of an element stands for: no list
/// where the member is absent or `null`.
pub open spec fn attr_list_of_json(attr: Option<JsonView>) -> Option<Option<Seq<AttrView>>> {
    match attr {
        None => Some(None),
        Some(JsonView::Null) => Some(None),
        Some(JsonView::Array(items)) => match attrs_of_json(items) {
            Some(attrs) => Some(Some(attrs)),
            None => None,
        },
        Some(_) => None,
    }
}

/// The tree that a JSON document stands for. A text leaf is an object with the
/// one member `Text`, a string. An element is an object with the one member
/// `Element`, an object whose member `tag` holds a string, whose member
/// `children` holds an array of trees, and whose member `attr`, where it is
/// there and not `null`, holds an array of attributes.
pub open spec fn tree_of_json(j: JsonView) -> Option<VDomView>
    decreases j, 0int,
{
    match j {
        JsonView::Object(members) => if members.len() == 1 {
            if members[0].key == "Text"@ {
                match members[0].value {
                    JsonView::Str(s) => Some(VDomView::Text(s)),
                    _ => None,
                }
            } else if members[0].key == "Element"@ {
                match members[0].value {
                    JsonView::Object(inner) => element_of_members(inner),
                    _ => None,
                }
            } else {
                None
            }
        } else {
            None
        },
        _ => None,
    }
}

/// The element that the members of an `Element` object stand for.
pub open spec fn element_of_members(inner: Seq<MemberView>) -> Option<VDomView>
    decreases inner, 2int,
{
    let at = member_position(inner, "children"@, 0);
    if 0 <= at < inner.len() {
        match (
            member_value(inner, "tag"@),
            attr_list_of_json(member_value(inner, "attr"@)),
            children_of_member(inner[at]),
        ) {
            (Some(JsonView::Str(tag)), Some(attr), Some(children)) => Some(
                VDomView::Element { tag: tag, attr: attr, children: children },
            ),
            _ => None,
        }
    } else {
        None
    }
}

/// The trees that the value of a member stands for.
pub open spec fn children_of_member(member: MemberView) -> Option<Seq<VDomView>>
    decreases member, 1int,
{
    children_of_json(member.value)
}

/// The trees that an array stands for.
pub open spec fn children_of_json(j: JsonView) -> Option<Seq<VDomView>>
    decreases j, 0int,
{
    match j {
        JsonView::Array(items) => trees_of_json(items),
        _ => None,
    }
}

/// The trees that the documents stand for, in order; none where one of them
/// stands for no tree.
pub open spec fn trees_of_json(items: Seq<JsonView>) -> Option<Seq<VDomView>>
    decreases items, 0int,
{
    if items.len() == 0 {
        Some(Seq::empty())
    } else {
        match (trees_of_json(items.drop_last()), tree_of_json(items.last())) {
            (Some(head), Some(last)) => Some(head.push(last)),
            _ => None,
        }
    }
}

/// The keys of the wire format are pairwise different.
pub proof fn lemma_keys_differ()
    ensures
        "Text"@ != "Element"@,
        "tag"@ != "attr"@,
        "tag"@ != "children"@,
        "attr"@ != "children"@,
        "key"@ != "value"@,
{
    reveal_strlit("Text");
    reveal_strlit("Element");
    reveal_strlit("tag");
    reveal_strlit("attr");
    reveal_strlit("children");
    reveal_strlit("key");
    reveal_strlit("value");
    assert("Text"@.len() != "Element"@.len());
    assert("tag"@.len() != "attr"@.len());
    assert("tag"@.len() != "children"@.len());
    assert("attr"@.len() != "children"@.len());
    assert("key"@.len() != "value"@.len());
}

/// Reading back the JSON form of an attribute gives the attribute.
pub proof fn lemma_attr_round_trip(a: AttrView)
    ensures
        attr_of_json(attr_json(a)) == Some(a),
{
    lemma_keys_differ();
    reveal_with_fuel(member_position, 3);
}

/// Reading back the JSON forms of attributes gives the attributes, in order.
pub proof fn lemma_attrs_round_trip(attrs: Seq<AttrView>)
    ensures
        attrs_of_json(attrs_json(attrs)) == Some(attrs),
    decreases attrs.len(),
{
    let items = attrs_json(attrs);
    if attrs.len() == 0 {
        assert(attrs =~= Seq::empty());
    } else {
        lemma_attrs_round_trip(attrs.drop_last());
        lemma_attr_round_trip(attrs.last());
        assert(items.drop_last() =~= attrs_json(attrs.drop_last()));
        assert(attrs.drop_last().push(attrs.last()) =~= attrs);
    }
}

/// Round trip: reading back the JSON form of a tree gives the tree again, with
/// the same tag, the same attributes in the same order and the same children
/// in the same order, at every depth.
pub proof fn lemma_tree_round_trip(t: VDomView)
    ensures
        tree_of_json(tree_json(t)) == Some(t),
    decreases t, 1int,
{
    lemma_keys_differ();
    reveal_with_fuel(member_position, 4);
    match t {
        VDomView::Text(s) => {},
        VDomView::Element { tag, attr, children } => {
            lemma_trees_round_trip(children);
            let kids = MemberView {
                key: "children"@,
                value: JsonView::Array(trees_json(children)),
            };
            match attr {
                Some(a) => {
                    lemma_attrs_round_trip(a);
                    let inner = seq![
                        str_member("tag"@, tag),
                        MemberView { key: "attr"@, value: JsonView::Array(attrs_json(a)) },
                        kids,
                    ];
                    assert(member_position(inner, "children"@, 0) == 2);
                    assert(member_position(inner, "attr"@, 0) == 1);
                    assert(member_position(inner, "tag"@, 0) == 0);
                    assert(element_of_members(inner) == Some(t));
                },
                None => {
                    let inner = seq![str_member("tag"@, tag), kids];
                    assert(member_position(inner, "children"@, 0) == 1);
                    assert(member_position(inner, "attr"@, 0) == 2);
                    assert(member_position(inner, "tag"@, 0) == 0);
                    assert(element_of_members(inner) == Some(t));
                },
            }
        },
    }
}

/// Round trip for a list of trees: reading back their JSON forms gives the
/// trees again, in the same order.
pub proof fn lemma_trees_round_trip(trees: Seq<VDomView>)
    ensures
        trees_of_json(trees_json(trees)) == Some(trees),
    decreases trees, 0int,
{
    if trees.len() == 0 {
        assert(trees =~= Seq::empty());
    } else {
        lemma_trees_round_trip(trees.drop_last());
        lemma_tree_round_trip(trees.last());
        assert(trees_json(trees).drop_last() =~= trees_json(trees.drop_last()));
        assert(trees.drop_last().push(trees.last()) =~= trees);
    }
}

/// Where the documents stand for attributes, each stands for its own; where
/// they do not, one of them stands for none.
pub proof fn lemma_attrs_of_json(items: Seq<JsonView>)
    ensures
        match attrs_of_json(items) {
            Some(attrs) => attrs.len() == items.len() && forall|i: int|
                0 <= i < items.len() ==> attr_of_json(#[trigger] items[i]) == Some(attrs[i]),
            None => exists|i: int| 0 <= i < items.len() && attr_of_json(#[trigger] items[i]) is None,
        },
    decreases items.len(),
{
    if items.len() > 0 {
        lemma_attrs_of_json(items.drop_last());
        let head = items.drop_last();
        match attrs_of_json(head) {
            Some(attrs) => {
                if attr_of_json(items.last()) is None {
                    assert(attr_of_json(items[items.len() - 1]) is None);
                } else {
                    assert forall|i: int| 0 <= i < items.len() implies attr_of_json(
                        #[trigger] items[i],
                    ) == Some(attrs_of_json(items)->0[i]) by {
                        if i < head.len() {
                            assert(head[i] == items[i]);
                        }
                    }
                }
            },
            None => {
                let i = choose|i: int| 0 <= i < head.len() && attr_of_json(#[trigger] head[i]) is None;
                assert(head[i] == items[i]);
            },
        }
    }
}

/// Where the documents stand for trees, each stands for its own; where they do
/// not, one of them stands for none.
pub proof fn lemma_trees_of_json(items: Seq<JsonView>)
    ensures
        match trees_of_json(items) {
            Some(trees) => trees.len() == items.len() && forall|i: int|
                0 <= i < items.len() ==> tree_of_json(#[trigger] items[i]) == Some(trees[i]),
            None => exists|i: int| 0 <= i < items.len() && tree_of_json(#[trigger] items[i]) is None,
        },
    decreases items.len(),
{
    if items.len() > 0 {
        lemma_trees_of_json(items.drop_last());
        let head = items.drop_last();
        match trees_of_json(head) {
            Some(trees) => {
                if tree_of_json(items.last()) is None {
                    assert(tree_of_json(items[items.len() - 1]) is None);
                } else {
                    assert forall|i: int| 0 <= i < items.len() implies tree_of_json(
                        #[trigger] items[i],
                    ) == Some(trees_of_json(items)->0[i]) by {
                        if i < head.len() {
                            assert(head[i] == items[i]);
                        }
                    }
                }
            },
            None => {
                let i = choose|i: int| 0 <= i < head.len() && tree_of_json(#[trigger] head[i]) is None;
                assert(head[i] == items[i]);
            },
        }
    }
}

/// The string that a document holds, if it is a string.
pub fn as_text(j: &Json) -> (text: Option<String>)
    ensures
        match text {
            Some(s) => j@ == JsonView::Str(s@),
            None => !(j@ is Str),
        },
{
    proof {
        lemma_json_view(*j);
    }
    match j {
        Json::Str(s) => Some(s.clone()),
        _ => None,
    }
}

impl Attr {
    /// Reads an attribute from its JSON form.
    pub fn from_json_value(j: &Json) -> (r: Option<Attr>)
        ensures
            match r {
                Some(a) => attr_of_json(j@) == Some(a@),
                None => attr_of_json(j@) is None,
            },
    {
        proof {
            lemma_json_view(*j);
        }
        let members = match j {
            Json::Object(members) => members,
            _ => {
                return None;
            },
        };
        let key = match find_member(members, "key") {
            Some(at) => match as_text(&members[at].value) {
                Some(key) => key,
                None => {
                    return None;
                },
            },
            None => {
                return None;
            },
        };
        match find_member(members, "value") {
            None => Some(Attr::with_key_only(key)),
            Some(at) => {
                proof {
                    lemma_json_view(members@[at as int].value);
                }
                match &members[at].value {
                    Json::Null => Some(Attr::with_key_only(key)),
                    Json::Str(value) => Some(Attr::new(key, value.clone())),
                    _ => None,
                }
            },
        }
    }
}

/// Reads attributes from their JSON forms, in order.
pub fn attrs_from_json(items: &Vec<Json>) -> (r: Option<Vec<Attr>>)
    ensures
        match r {
            Some(attrs) => attrs_of_json(items_view(items@)) == Some(attrs_view(attrs@)),
            None => attrs_of_json(items_view(items@)) is None,
        },
{
    let ghost views = items_view(items@);
    let mut attrs: Vec<Attr> = Vec::new();
    let mut i: usize = 0;
    while i < items.len()
        invariant
            i <= items.len(),
            views == items_view(items@),
            attrs@.len() == i,
            forall|k: int| 0 <= k < i ==> attr_of_json(views[k]) == Some((#[trigger] attrs@[k])@),
        decreases items.len() - i,
    {
        match Attr::from_json_value(&items[i]) {
            Some(a) => {
                attrs.push(a);
            },
            None => {
                proof {
                    lemma_attrs_of_json(views);
                    assert(attr_of_json(views[i as int]) is None);
                }
                return None;
            },
        }
        i = i + 1;
    }
    proof {
        lemma_attrs_of_json(views);
        if attrs_of_json(views) is None {
            let w = choose|w: int| 0 <= w < views.len() && attr_of_json(#[trigger] views[w]) is None;
            assert(attr_of_json(views[w]) == Some(attrs@[w]@));
        }
        assert(attrs_of_json(views)->0 =~= attrs_view(attrs@));
    }
    Some(attrs)
}

impl VDom {
    /// Reads a tree from its JSON form.
    pub fn from_json_value(j: &Json) -> (r: Option<VDom>)
        ensures
            match r {
                Some(t) => tree_of_json(j@) == Some(t@),
                None => tree_of_json(j@) is None,
            },
        decreases j, 0int,
    {
        proof {
            lemma_json_view(*j);
        }
        let members = match j {
            Json::Object(members) => members,
            _ => {
                return None;
            },
        };
        if members.len() != 1 {
            return None;
        }
        proof {
            lemma_json_view(members@[0].value);
        }
        if str_eq(members[0].key.as_str(), "Text") {
            match &members[0].value {
                Json::Str(s) => Some(VDom::Text(s.clone())),
                _ => None,
            }
        } else if str_eq(members[0].key.as_str(), "Element") {
            match &members[0].value {
                Json::Object(inner) => VDom::element_from_members(inner),
                _ => None,
            }
        } else {
            None
        }
    }

    /// Reads an element from the members of its `Element` object.
    pub fn element_from_members(inner: &Vec<Member>) -> (r: Option<VDom>)
        ensures
            match r {
                Some(t) => element_of_members(members_view(inner@)) == Some(t@),
                None => element_of_members(members_view(inner@)) is None,
            },
        decreases inner, 2int,
    {
        let at = match find_member(inner, "children") {
            Some(at) => at,
            None => {
                return None;
            },
        };
        let tag = match find_member(inner, "tag") {
            Some(t) => match as_text(&inner[t].value) {
                Some(tag) => tag,
                None => {
                    return None;
                },
            },
            None => {
                return None;
            },
        };
        let attr = match find_member(inner, "attr") {
            None => None,
            Some(a) => {
                proof {
                    lemma_json_view(inner@[a as int].value);
                }
                match &inner[a].value {
                    Json::Null => None,
                    Json::Array(items) => match attrs_from_json(items) {
                        Some(attrs) => Some(attrs),
                        None => {
                            return None;
                        },
                    },
                    _ => {
                        return None;
                    },
                }
            },
        };
        let children = match VDom::children_from_member(&inner[at]) {
            Some(children) => children,
            None => {
                return None;
            },
        };
        let t = VDom::Element { tag: tag, attr: attr, children: children };
        proof {
            crate::vdom::lemma_element_view(t);
        }
        Some(t)
    }

    /// Reads the trees that the value of a member holds.
    pub fn children_from_member(member: &Member) -> (r: Option<Vec<VDom>>)
        ensures
            match r {
                Some(trees) => children_of_member(member@) == Some(trees_view(trees@)),
                None => children_of_member(member@) is None,
            },
        decreases member, 1int,
    {
        VDom::children_from_json(&member.value)
    }

    /// Reads the trees that an array holds.
    pub fn children_from_json(j: &Json) -> (r: Option<Vec<VDom>>)
        ensures
            match r {
                Some(trees) => children_of_json(j@) == Some(trees_view(trees@)),
                None => children_of_json(j@) is None,
            },
        decreases j, 0int,
    {
        proof {
            lemma_json_view(*j);
        }
        match j {
            Json::Array(items) => VDom::list_from_json(items),
            _ => None,
        }
    }

    /// Reads trees from their JSON forms, in order.
    pub fn list_from_json(items: &Vec<Json>) -> (r: Option<Vec<VDom>>)
        ensures
            match r {
                Some(trees) => trees_of_json(items_view(items@)) == Some(trees_view(trees@)),
                None => trees_of_json(items_view(items@)) is None,
            },
        decreases items, 0int,
    {
        let ghost views = items_view(items@);
        let mut trees: Vec<VDom> = Vec::new();
        let mut i: usize = 0;
        while i < items.len()
            invariant
                i <= items.len(),
                views == items_view(items@),
                trees@.len() == i,
                forall|k: int|
                    0 <= k < i ==> tree_of_json(views[k]) == Some((#[trigger] trees@[k])@),
            decreases items.len() - i,
        {
            match VDom::from_json_value(&items[i]) {
                Some(t) => {
                    trees.push(t);
                },
                None => {
                    proof {
                        lemma_trees_of_json(views);
                        assert(tree_of_json(views[i as int]) is None);
                    }
                    return None;
                },
            }
            i = i + 1;
        }
        proof {
            lemma_trees_of_json(views);
            if trees_of_json(views) is None {
                let w = choose|w: int|
                    0 <= w < views.len() && tree_of_json(#[trigger] views[w]) is None;
                assert(tree_of_json(views[w]) == Some(trees@[w]@));
            }
            assert(trees_of_json(views)->0 =~= trees_view(trees@));
        }
        Some(trees)
    }
}

/// The tree that the JSON form of a command brings with it: what its member
/// `node` stands for.
pub open spec fn command_node_of_json(j: JsonView) -> Option<VDomView> {
    match j {
        JsonView::Object(members) => match member_value(members, "node"@) {
            Some(node) => tree_of_json(node),
            None => None,
        },
        _ => None,
    }
}

/// Round trip through a command: reading back the node of a command's JSON
/// form gives the wire form of the node that the command brings, which has
/// the same tag, attributes and children in the same order; and gives nothing
/// where the command brings no node.
pub proof fn lemma_command_round_trip(c: CommandView)
    ensures
        command_node_of_json(command_json(c)) == match embedded_node(c.command_type) {
            Some(n) => Some(wire_tree(n)),
            None => None,
        },
{
    reveal_strlit("command_type");
    reveal_strlit("id");
    reveal_strlit("node");
    assert("command_type"@.len() != "node"@.len());
    assert("id"@.len() != "node"@.len());
    reveal_with_fuel(member_position, 4);
    let members = command_json(c)->Object_0;
    match embedded_node(c.command_type) {
        Some(n) => {
            lemma_tree_round_trip(wire_tree(n));
            if c.id is Some {
                assert(members.len() == 3);
                assert(member_position(members, "node"@, 0) == 2);
            } else {
                assert(members.len() == 2);
                assert(member_position(members, "node"@, 0) == 1);
            }
        },
        None => {
            if c.id is Some {
                assert(members.len() == 2);
                assert(member_position(members, "node"@, 0) == 2);
            } else {
                assert(members.len() == 1);
                assert(member_position(members, "node"@, 0) == 1);
            }
        },
    }
}

/// Reads the tree that the JSON form of a command brings with it.
pub fn command_node_from_json(j: &Json) -> (r: Option<VDom>)
    ensures
        match r {
            Some(t) => command_node_of_json(j@) == Some(t@),
            None => command_node_of_json(j@) is None,
        },
{
    proof {
        lemma_json_view(*j);
    }
    match j {
        Json::Object(members) => match find_member(members, "node") {
            Some(at) => VDom::from_json_value(&members[at].value),
            None => None,
        },
        _ => None,
    }
}

} // verus!
