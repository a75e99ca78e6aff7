//! The wire-shaped document tree: elements with owned tags and attributes,
//! and text leaves.

use vstd::prelude::*;
use vstd::string::*;
use crate::json::{
    array_of, items_view, json_text, members_view, object_of, str_member, string_member, Json,
    JsonView, Member, MemberView,
};
use crate::text::{
    all_distinct, attribute_markup, attribute_to_html, close_tag, close_tag_markup, join,
    join_as_strings, open_tag, open_tag_markup, str_eq, strings_view,
};

verus! {

/// The mathematical value of an [`Attr`].
pub struct AttrView {
    pub key: Seq<char>,
    pub value: Option<Seq<char>>,
}

/// The mathematical value of a [`VDom`].
pub enum VDomView {
    Element { tag: Seq<char>, attr: Option<Seq<AttrView>>, children: Seq<VDomView> },
    Text(Seq<char>),
}

/// One attribute of an element, with or without a value.
#[derive(Debug, Clone, PartialEq, Eq)]
pub struct Attr {
    pub key: String,
    pub value: Option<String>,
}

impl View for Attr {
    type V = AttrView;

    open spec fn view(&self) -> AttrView {
        AttrView {
            key: self.key@,
            value: match self.value {
                Some(v) => Some(v@),
                None => None,
            },
        }
    }
}

/// A node of the document tree.
#[derive(Debug, PartialEq, Eq)]
pub enum VDom {
    Element { tag: String, attr: Option<Vec<Attr>>, children: Vec<VDom> },
    Text(String),
}

/// The views of a sequence of attributes, in order.
pub open spec fn attrs_view(attrs: Seq<Attr>) -> Seq<AttrView> {
    Seq::new(attrs.len(), |i: int| attrs[i]@)
}

/// The mathematical value of a tree: the same shape, with every string and
/// vector replaced by the sequence it holds.
pub open spec fn tree_view(t: VDom) -> VDomView
    decreases t,
{
    match t {
        VDom::Element { tag, attr, children } => VDomView::Element {
            tag: tag@,
            attr: match attr {
                Some(a) => Some(attrs_view(a@)),
                None => None,
            },
            children: Seq::new(
                children@.len(),
                |i: int|
                    if 0 <= i < children@.len() {
                        tree_view(children@[i])
                    } else {
                        VDomView::Text(Seq::empty())
                    },
            ),
        },
        VDom::Text(t) => VDomView::Text(t@),
    }
}

impl View for VDom {
    type V = VDomView;

    open spec fn view(&self) -> VDomView {
        tree_view(*self)
    }
}

/// The markup of one attribute: the bare key, or `key="value"`.
pub open spec fn attr_html(a: AttrView) -> Seq<char> {
    attribute_markup(a.key, a.value)
}

/// The markup of each attribute of a list, in order.
pub open spec fn attrs_markup(attrs: Seq<AttrView>) -> Seq<Seq<char>> {
    Seq::new(attrs.len(), |i: int| attr_html(attrs[i]))
}

/// The markup of an attribute list: each attribute in order, one space between
/// neighbours.
pub open spec fn attrs_html(attrs: Seq<AttrView>) -> Seq<char> {
    join(attrs_markup(attrs), " "@)
}

/// The attributes that an element carries: none where the list is absent.
pub open spec fn attrs_or_empty(attr: Option<Seq<AttrView>>) -> Seq<AttrView> {
    match attr {
        Some(a) => a,
        None => Seq::empty(),
    }
}

/// The markup of a tree: depth first, parents before children, children in
/// their given order.
pub open spec fn tree_html(t: VDomView) -> Seq<char>
    decreases t,
{
    match t {
        VDomView::Text(s) => s,
        VDomView::Element { tag, attr, children } => open_tag_markup(
            tag,
            attrs_markup(attrs_or_empty(attr)),
        ) + children_html(children) + close_tag_markup(tag),
    }
}

/// The markup of a list of trees, one after the other with nothing between.
pub open spec fn children_html(children: Seq<VDomView>) -> Seq<char>
    decreases children,
{
    if children.len() == 0 {
        Seq::empty()
    } else {
        children_html(children.drop_last()) + tree_html(children.last())
    }
}

/// The views of a sequence of trees, in order.
pub open spec fn trees_view(trees: Seq<VDom>) -> Seq<VDomView> {
    Seq::new(trees.len(), |i: int| trees[i]@)
}

impl Attr {
    /// An attribute with a value.
    pub fn new(key: String, value: String) -> (a: Attr)
        ensures
            a@ == (AttrView { key: key@, value: Some(value@) }),
    {
        Attr { key: key, value: Some(value) }
    }

    /// An attribute without a value, rendered as the bare key.
    pub fn with_key_only(key: String) -> (a: Attr)
        ensures
            a@ == (AttrView { key: key@, value: None }),
    {
        Attr { key: key, value: None }
    }

    /// The attribute's markup.
    pub fn to_html(&self) -> (out: String)
        ensures
            out@ == attr_html(self@),
    {
        attribute_to_html(self.key.as_str(), &self.value)
    }
}

/// Renders each attribute of the list, in order.
pub fn attrs_to_html(attrs: &Vec<Attr>) -> (parts: Vec<String>)
    ensures
        strings_view(parts@) == attrs_markup(attrs_view(attrs@)),
{
    let mut parts: Vec<String> = Vec::new();
    let mut i: usize = 0;
    while i < attrs.len()
        invariant
            i <= attrs.len(),
            parts@.len() == i,
            forall|k: int| 0 <= k < i ==> (#[trigger] parts@[k])@ == attr_html(attrs@[k]@),
        decreases attrs.len() - i,
    {
        parts.push(attrs[i].to_html());
        i = i + 1;
    }
    proof {
        assert(strings_view(parts@) =~= attrs_markup(attrs_view(attrs@)));
    }
    parts
}

/// Renders an attribute list: each attribute in order, separated by single
/// spaces.
pub fn attr_to_html(attr: &Vec<Attr>) -> (out: String)
    ensures
        out@ == attrs_html(attrs_view(attr@)),
{
    let parts = attrs_to_html(attr);
    join_as_strings(&parts, " ")
}

/// The view of an element holds the views of its children, in order.
pub proof fn lemma_element_view(t: VDom)
    requires
        t is Element,
    ensures
        t@ is Element,
        t@->tag == t->tag@,
        t@->children == trees_view(t->children@),
        t@->attr == match t->attr {
            Some(a) => Some(attrs_view(a@)),
            None => None,
        },
{
    assert(t@->children =~= trees_view(t->children@));
}

impl VDom {
    /// An element without attributes that holds one child.
    pub fn with_child(tag: &str, child: VDom) -> (t: VDom)
        ensures
            t@ == (VDomView::Element { tag: tag@, attr: None, children: seq![child@] }),
    {
        let t = VDom::Element { tag: String::from_str(tag), attr: None, children: vec![child] };
        proof {
            lemma_element_view(t);
            assert(trees_view(t->children@) =~= seq![child@]);
        }
        t
    }

    /// An element without attributes that holds the given children, in order.
    pub fn with_children(tag: &str, children: Vec<VDom>) -> (t: VDom)
        ensures
            t@ == (VDomView::Element {
                tag: tag@,
                attr: None,
                children: trees_view(children@),
            }),
    {
        let t = VDom::Element { tag: String::from_str(tag), attr: None, children: children };
        proof {
            lemma_element_view(t);
        }
        t
    }

    /// An element with attributes that holds one child.
    pub fn with_child_attr(tag: &str, attr: Vec<Attr>, child: VDom) -> (t: VDom)
        ensures
            t@ == (VDomView::Element {
                tag: tag@,
                attr: Some(attrs_view(attr@)),
                children: seq![child@],
            }),
    {
        let t = VDom::Element {
            tag: String::from_str(tag),
            attr: Some(attr),
            children: vec![child],
        };
        proof {
            lemma_element_view(t);
            assert(trees_view(t->children@) =~= seq![child@]);
        }
        t
    }

    /// An element with attributes that holds the given children, in order.
    pub fn with_children_attr(tag: &str, attr: Vec<Attr>, children: Vec<VDom>) -> (t: VDom)
        ensures
            t@ == (VDomView::Element {
                tag: tag@,
                attr: Some(attrs_view(attr@)),
                children: trees_view(children@),
            }),
    {
        let t = VDom::Element { tag: String::from_str(tag), attr: Some(attr), children: children };
        proof {
            lemma_element_view(t);
        }
        t
    }

    /// An element without attributes that holds one text leaf.
    pub fn with_text(tag: &str, text: String) -> (t: VDom)
        ensures
            t@ == (VDomView::Element {
                tag: tag@,
                attr: None,
                children: seq![VDomView::Text(text@)],
            }),
    {
        let t = VDom::Element {
            tag: String::from_str(tag),
            attr: None,
            children: vec![VDom::Text(text)],
        };
        proof {
            lemma_element_view(t);
            assert(trees_view(t->children@) =~= seq![VDomView::Text(text@)]);
        }
        t
    }

    /// An element with attributes that holds one text leaf.
    pub fn with_text_attr(tag: &str, text: String, attr: Vec<Attr>) -> (t: VDom)
        ensures
            t@ == (VDomView::Element {
                tag: tag@,
                attr: Some(attrs_view(attr@)),
                children: seq![VDomView::Text(text@)],
            }),
    {
        let t = VDom::Element {
            tag: String::from_str(tag),
            attr: Some(attr),
            children: vec![VDom::Text(text)],
        };
        proof {
            lemma_element_view(t);
            assert(trees_view(t->children@) =~= seq![VDomView::Text(text@)]);
        }
        t
    }

    /// The markup of this tree: depth first, parents before children, children in
    /// their given order, attributes in their given order.
    pub fn to_html(&self) -> (out: String)
        ensures
            out@ == tree_html(self@),
        decreases self,
    {
        match self {
            VDom::Element { tag, attr, children } => {
                proof {
                    lemma_element_view(*self);
                }
                let parts = match attr {
                    Some(list) => attrs_to_html(list),
                    None => Vec::new(),
                };
                proof {
                    assert(strings_view(parts@) =~= attrs_markup(attrs_or_empty(self@->attr)));
                }
                let mut out = open_tag(tag.as_str(), &parts);
                let inner = children_to_html(children);
                let close = close_tag(tag.as_str());
                out.append(inner.as_str());
                out.append(close.as_str());
                out
            },
            VDom::Text(t) => t.clone(),
        }
    }
}

/// Renders the trees one after the other, with nothing between them.
pub fn children_to_html(children: &Vec<VDom>) -> (out: String)
    ensures
        out@ == children_html(trees_view(children@)),
    decreases children,
{
    let mut out = String::new();
    let ghost views = trees_view(children@);
    let mut i: usize = 0;
    while i < children.len()
        invariant
            i <= children.len(),
            views == trees_view(children@),
            out@ == children_html(views.take(i as int)),
        decreases children.len() - i,
    {
        proof {
            assert(views.take(i as int + 1).drop_last() =~= views.take(i as int));
            assert(views.take(i as int + 1).last() == views[i as int]);
        }
        let one = children[i].to_html();
        out.append(one.as_str());
        i = i + 1;
    }
    proof {
        assert(views.take(children.len() as int) =~= views);
    }
    out
}

/// The JSON form of an attribute: an object with the member `key` and, where
/// the attribute has a value, the member `value`.
pub open spec fn attr_json(a: AttrView) -> JsonView {
    match a.value {
        Some(v) => JsonView::Object(seq![str_member("key"@, a.key), str_member("value"@, v)]),
        None => JsonView::Object(seq![str_member("key"@, a.key)]),
    }
}

/// The JSON forms of the attributes, in order.
pub open spec fn attrs_json(attrs: Seq<AttrView>) -> Seq<JsonView> {
    Seq::new(attrs.len(), |i: int| attr_json(attrs[i]))
}

/// The JSON form of a tree. A text leaf is an object with the one member
/// `Text`. An element is an object with the one member `Element`, itself an
/// object with the members `tag`, then `attr` where the element has an
/// attribute list, then `children`.
pub open spec fn tree_json(t: VDomView) -> JsonView
    decreases t,
{
    match t {
        VDomView::Text(s) => JsonView::Object(seq![str_member("Text"@, s)]),
        VDomView::Element { tag, attr, children } => {
            let kids = MemberView {
                key: "children"@,
                value: JsonView::Array(trees_json(children)),
            };
            let inner = match attr {
                Some(a) => seq![
                    str_member("tag"@, tag),
                    MemberView { key: "attr"@, value: JsonView::Array(attrs_json(a)) },
                    kids,
                ],
                None => seq![str_member("tag"@, tag), kids],
            };
            JsonView::Object(seq![MemberView { key: "Element"@, value: JsonView::Object(inner) }])
        },
    }
}

/// The JSON forms of the trees, in order.
pub open spec fn trees_json(trees: Seq<VDomView>) -> Seq<JsonView>
    decreases trees,
{
    if trees.len() == 0 {
        Seq::empty()
    } else {
        trees_json(trees.drop_last()).push(tree_json(trees.last()))
    }
}

/// The JSON forms of the trees are as many as the trees, each the form of its
/// tree.
pub proof fn lemma_trees_json(trees: Seq<VDomView>)
    ensures
        trees_json(trees).len() == trees.len(),
        forall|i: int| 0 <= i < trees.len() ==> #[trigger] trees_json(trees)[i] == tree_json(trees[i]),
    decreases trees.len(),
{
    if trees.len() > 0 {
        lemma_trees_json(trees.drop_last());
    }
}

impl Attr {
    /// The JSON form of this attribute.
    pub fn to_json_value(&self) -> (j: Json)
        ensures
            j@ == attr_json(self@),
    {
        let mut members: Vec<Member> = Vec::new();
        members.push(string_member("key", self.key.as_str()));
        if let Some(v) = &self.value {
            members.push(string_member("value", v.as_str()));
            proof {
                assert(members_view(members@) =~= seq![
                    str_member("key"@, self@.key),
                    str_member("value"@, v@),
                ]);
            }
        } else {
            proof {
                assert(members_view(members@) =~= seq![str_member("key"@, self@.key)]);
            }
        }
        object_of(members)
    }
}

/// The JSON forms of the attributes, in order.
pub fn attrs_to_json(attrs: &Vec<Attr>) -> (items: Vec<Json>)
    ensures
        items_view(items@) == attrs_json(attrs_view(attrs@)),
{
    let mut items: Vec<Json> = Vec::new();
    let mut i: usize = 0;
    while i < attrs.len()
        invariant
            i <= attrs.len(),
            items@.len() == i,
            forall|k: int| 0 <= k < i ==> (#[trigger] items@[k])@ == attr_json(attrs@[k]@),
        decreases attrs.len() - i,
    {
        items.push(attrs[i].to_json_value());
        i = i + 1;
    }
    proof {
        assert(items_view(items@) =~= attrs_json(attrs_view(attrs@)));
    }
    items
}

impl VDom {
    /// The JSON form of this tree.
    pub fn to_json_value(&self) -> (j: Json)
        ensures
            j@ == tree_json(self@),
        decreases self,
    {
        match self {
            VDom::Text(t) => {
                let mut members: Vec<Member> = Vec::new();
                members.push(string_member("Text", t.as_str()));
                proof {
                    assert(members_view(members@) =~= seq![str_member("Text"@, t@)]);
                }
                object_of(members)
            },
            VDom::Element { tag, attr, children } => {
                proof {
                    lemma_element_view(*self);
                }
                let kids = Member {
                    key: String::from_str("children"),
                    value: array_of(VDom::list_to_json(children)),
                };
                let mut inner: Vec<Member> = Vec::new();
                inner.push(string_member("tag", tag.as_str()));
                match attr {
                    Some(list) => {
                        let items = attrs_to_json(list);
                        inner.push(Member { key: String::from_str("attr"), value: array_of(items) });
                        inner.push(kids);
                        proof {
                            assert(members_view(inner@) =~= seq![
                                str_member("tag"@, tag@),
                                MemberView {
                                    key: "attr"@,
                                    value: JsonView::Array(attrs_json(attrs_view(list@))),
                                },
                                kids@,
                            ]);
                        }
                    },
                    None => {
                        inner.push(kids);
                        proof {
                            assert(members_view(inner@) =~= seq![str_member("tag"@, tag@), kids@]);
                        }
                    },
                }
                let mut outer: Vec<Member> = Vec::new();
                outer.push(Member { key: String::from_str("Element"), value: object_of(inner) });
                proof {
                    assert(members_view(outer@) =~= seq![outer@[0]@]);
                }
                object_of(outer)
            },
        }
    }

    /// The JSON forms of the trees, in order.
    pub fn list_to_json(trees: &Vec<VDom>) -> (items: Vec<Json>)
        ensures
            items_view(items@) == trees_json(trees_view(trees@)),
        decreases trees,
    {
        let mut items: Vec<Json> = Vec::new();
        let mut i: usize = 0;
        while i < trees.len()
            invariant
                i <= trees.len(),
                items@.len() == i,
                forall|k: int| 0 <= k < i ==> (#[trigger] items@[k])@ == tree_json(trees@[k]@),
            decreases trees.len() - i,
        {
            items.push(trees[i].to_json_value());
            i = i + 1;
        }
        proof {
            lemma_trees_json(trees_view(trees@));
            assert(items_view(items@) =~= trees_json(trees_view(trees@)));
        }
        items
    }

    /// The JSON text of this tree.
    pub fn to_json(&self) -> (out: String)
        ensures
            out@ == json_text(tree_json(self@)),
    {
        self.to_json_value().render()
    }
}

/// The ways in which an element reports what the user does to it.
#[derive(Debug, Clone, Copy, PartialEq, Eq, Structural)]
pub enum HookKind {
    /// Reports a click.
    Click,
    /// Reports a changed value.
    Change,
    /// Reports a changed check.
    Check,
}

/// The position of the first attribute with the given key at or after `from`,
/// or the length of the list where there is none.
pub open spec fn key_position(attrs: Seq<AttrView>, key: Seq<char>, from: int) -> int
    decreases attrs.len() - from,
{
    if from < 0 || from >= attrs.len() {
        attrs.len() as int
    } else if attrs[from].key == key {
        from
    } else {
        key_position(attrs, key, from + 1)
    }
}

/// What the first attribute with the given key holds: nothing where no
/// attribute has the key, the empty text where the attribute has no value.
pub open spec fn attr_value(attrs: Seq<AttrView>, key: Seq<char>) -> Option<Seq<char>> {
    let at = key_position(attrs, key, 0);
    if at < attrs.len() {
        match attrs[at].value {
            Some(v) => Some(v),
            None => Some(Seq::empty()),
        }
    } else {
        None
    }
}

/// The id that an element carries, if any.
pub open spec fn element_id(attr: Option<Seq<AttrView>>) -> Option<Seq<char>> {
    attr_value(attrs_or_empty(attr), "id"@)
}

/// The hook for an element, by its tag and its `type` attribute: buttons report
/// clicks, selections report changes, and an input reports what its type
/// calls for.
pub open spec fn hook_for(tag: Seq<char>, type_: Option<Seq<char>>) -> Option<HookKind> {
    if tag == "button"@ {
        Some(HookKind::Click)
    } else if tag == "select"@ {
        Some(HookKind::Change)
    } else if tag == "input"@ {
        if type_ == Some("button"@) {
            Some(HookKind::Click)
        } else if type_ == Some("text"@) || type_ == Some("number"@) {
            Some(HookKind::Change)
        } else if type_ == Some("checkbox"@) || type_ == Some("radio"@) {
            Some(HookKind::Check)
        } else {
            None
        }
    } else {
        None
    }
}

/// The attribute that installs a hook.
pub open spec fn hook_attr(kind: HookKind) -> AttrView {
    match kind {
        HookKind::Click => AttrView { key: "onclick"@, value: Some("buttonClick(this)"@) },
        HookKind::Change => AttrView { key: "onchange"@, value: Some("valueChanged(this)"@) },
        HookKind::Check => AttrView { key: "onchange"@, value: Some("checkChanged(this)"@) },
    }
}

/// The attributes of an element once its hook is installed: one more attribute
/// at the end where the element carries an id and its tag and type call for a
/// hook, else the attributes as they are.
pub open spec fn hooked_attrs(tag: Seq<char>, attr: Option<Seq<AttrView>>) -> Option<
    Seq<AttrView>,
> {
    match attr {
        None => None,
        Some(a) => if element_id(attr) is Some {
            match hook_for(tag, attr_value(a, "type"@)) {
                Some(kind) => Some(a.push(hook_attr(kind))),
                None => Some(a),
            }
        } else {
            Some(a)
        },
    }
}

/// The tree with the hooks installed on every element, at any depth.
pub open spec fn with_hooks(t: VDomView) -> VDomView
    decreases t,
{
    match t {
        VDomView::Text(s) => VDomView::Text(s),
        VDomView::Element { tag, attr, children } => VDomView::Element {
            tag: tag,
            attr: hooked_attrs(tag, attr),
            children: all_with_hooks(children),
        },
    }
}

/// Each of the trees with the hooks installed, in order.
pub open spec fn all_with_hooks(trees: Seq<VDomView>) -> Seq<VDomView>
    decreases trees,
{
    if trees.len() == 0 {
        Seq::empty()
    } else {
        all_with_hooks(trees.drop_last()).push(with_hooks(trees.last()))
    }
}

/// The hooked trees are as many as the trees, each the hooked form of its tree.
pub proof fn lemma_all_with_hooks(trees: Seq<VDomView>)
    ensures
        all_with_hooks(trees).len() == trees.len(),
        forall|i: int|
            0 <= i < trees.len() ==> #[trigger] all_with_hooks(trees)[i] == with_hooks(trees[i]),
    decreases trees.len(),
{
    if trees.len() > 0 {
        lemma_all_with_hooks(trees.drop_last());
    }
}

impl HookKind {
    /// The attribute that installs this hook.
    pub fn attr(&self) -> (a: Attr)
        ensures
            a@ == hook_attr(*self),
    {
        match self {
            HookKind::Click => Attr::new(
                String::from_str("onclick"),
                String::from_str("buttonClick(this)"),
            ),
            HookKind::Change => Attr::new(
                String::from_str("onchange"),
                String::from_str("valueChanged(this)"),
            ),
            HookKind::Check => Attr::new(
                String::from_str("onchange"),
                String::from_str("checkChanged(this)"),
            ),
        }
    }

    /// The hook for an element, by its tag and its `type` attribute.
    pub fn lookup(tag: &str, type_: &Option<String>) -> (kind: Option<HookKind>)
        ensures
            kind == hook_for(
                tag@,
                match type_ {
                    Some(t) => Some(t@),
                    None => None,
                },
            ),
    {
        if str_eq(tag, "button") {
            Some(HookKind::Click)
        } else if str_eq(tag, "select") {
            Some(HookKind::Change)
        } else if str_eq(tag, "input") {
            match type_ {
                Some(t) => {
                    if str_eq(t.as_str(), "button") {
                        Some(HookKind::Click)
                    } else if str_eq(t.as_str(), "text") || str_eq(t.as_str(), "number") {
                        Some(HookKind::Change)
                    } else if str_eq(t.as_str(), "checkbox") || str_eq(t.as_str(), "radio") {
                        Some(HookKind::Check)
                    } else {
                        None
                    }
                },
                None => None,
            }
        } else {
            None
        }
    }
}

/// What the first attribute with the given key holds.
pub fn find_attr(attrs: &Vec<Attr>, key: &str) -> (value: Option<String>)
    ensures
        match value {
            Some(v) => attr_value(attrs_view(attrs@), key@) == Some(v@),
            None => attr_value(attrs_view(attrs@), key@) is None,
        },
{
    let ghost views = attrs_view(attrs@);
    let mut i: usize = 0;
    while i < attrs.len()
        invariant
            i <= attrs.len(),
            views == attrs_view(attrs@),
            key_position(views, key@, 0) == key_position(views, key@, i as int),
        decreases attrs.len() - i,
    {
        if str_eq(attrs[i].key.as_str(), key) {
            return match &attrs[i].value {
                Some(v) => Some(v.clone()),
                None => Some(String::new()),
            };
        }
        i = i + 1;
    }
    None
}

impl VDom {
    /// Installs the hooks on every element of this tree, at any depth.
    pub fn add_events(&mut self)
        ensures
            final(self)@ == with_hooks(old(self)@),
        decreases *old(self),
    {
        let ghost before = *self;
        proof {
            if before is Element {
                lemma_element_view(before);
            }
        }
        match self {
            VDom::Text(_) => {},
            VDom::Element { tag, attr, children } => {
                VDom::add_events_to_all(children);
                match attr {
                    Some(list) => {
                        let ghost old_list = attrs_view(list@);
                        if find_attr(list, "id").is_some() {
                            let type_ = find_attr(list, "type");
                            if let Some(kind) = HookKind::lookup(tag.as_str(), &type_) {
                                list.push(kind.attr());
                                proof {
                                    assert(attrs_view(list@) =~= old_list.push(hook_attr(kind)));
                                }
                            }
                        }
                        proof {
                            assert(Some(attrs_view(list@)) == hooked_attrs(tag@, Some(old_list)));
                        }
                    },
                    None => {},
                }
            },
        }
        proof {
            if *self is Element {
                lemma_element_view(*self);
            }
        }
    }

    /// Installs the hooks on every element of every tree of the list.
    pub fn add_events_to_all(trees: &mut Vec<VDom>)
        ensures
            trees_view(final(trees)@) == all_with_hooks(trees_view(old(trees)@)),
        decreases *old(trees),
    {
        let ghost start = trees@;
        let ghost before = trees_view(trees@);
        let mut i: usize = 0;
        while i < trees.len()
            invariant
                i <= trees.len(),
                start == old(trees)@,
                before == trees_view(start),
                trees@.len() == before.len(),
                forall|k: int| 0 <= k < i ==> (#[trigger] trees@[k])@ == with_hooks(before[k]),
                forall|k: int| i <= k < trees.len() ==> #[trigger] trees@[k] == start[k],
            decreases trees.len() - i,
        {
            trees[i].add_events();
            i = i + 1;
        }
        proof {
            lemma_all_with_hooks(before);
            assert(trees_view(trees@) =~= all_with_hooks(before));
        }
    }
}

/// The ids that the elements of a tree carry, in document order: an element
/// before its children, children in their given order.
pub open spec fn tree_ids(t: VDomView) -> Seq<Seq<char>>
    decreases t,
{
    match t {
        VDomView::Text(_) => Seq::empty(),
        VDomView::Element { tag, attr, children } => (match element_id(attr) {
            Some(id) => seq![id],
            None => Seq::empty(),
        }) + all_ids(children),
    }
}

/// The ids that the elements of the trees carry, in document order.
pub open spec fn all_ids(trees: Seq<VDomView>) -> Seq<Seq<char>>
    decreases trees,
{
    if trees.len() == 0 {
        Seq::empty()
    } else {
        all_ids(trees.drop_last()) + tree_ids(trees.last())
    }
}

impl VDom {
    /// Adds the ids of this tree's elements to `out`, in document order.
    pub fn collect_ids(&self, out: &mut Vec<String>)
        ensures
            strings_view(final(out)@) == strings_view(old(out)@) + tree_ids(self@),
        decreases self,
    {
        let ghost before = strings_view(out@);
        match self {
            VDom::Text(_) => {
                proof {
                    assert(strings_view(out@) =~= before + tree_ids(self@));
                }
            },
            VDom::Element { tag, attr, children } => {
                proof {
                    lemma_element_view(*self);
                }
                if let Some(list) = attr {
                    if let Some(id) = find_attr(list, "id") {
                        out.push(id);
                        proof {
                            assert(strings_view(out@) =~= before + seq![id@]);
                        }
                    }
                } else {
                    proof {
                        assert(attrs_or_empty(self@->attr).len() == 0);
                    }
                }
                VDom::collect_all_ids(children, out);
                proof {
                    assert(strings_view(out@) =~= before + tree_ids(self@));
                }
            },
        }
    }

    /// Adds the ids of the elements of the trees to `out`, in document order.
    pub fn collect_all_ids(trees: &Vec<VDom>, out: &mut Vec<String>)
        ensures
            strings_view(final(out)@) == strings_view(old(out)@) + all_ids(trees_view(trees@)),
        decreases trees,
    {
        let ghost before = strings_view(out@);
        let ghost views = trees_view(trees@);
        let mut i: usize = 0;
        proof {
            assert(strings_view(out@) =~= before + all_ids(views.take(0)));
        }
        while i < trees.len()
            invariant
                i <= trees.len(),
                views == trees_view(trees@),
                strings_view(out@) == before + all_ids(views.take(i as int)),
            decreases trees.len() - i,
        {
            proof {
                assert(views.take(i as int + 1).drop_last() =~= views.take(i as int));
                assert(views.take(i as int + 1).last() == views[i as int]);
            }
            trees[i].collect_ids(out);
            proof {
                assert(strings_view(out@) =~= before + all_ids(views.take(i as int + 1)));
            }
            i = i + 1;
        }
        proof {
            assert(views.take(trees.len() as int) =~= views);
        }
    }

    /// The ids that the elements of this tree carry, in document order.
    pub fn ids(&self) -> (ids: Vec<String>)
        ensures
            strings_view(ids@) == tree_ids(self@),
    {
        let mut ids: Vec<String> = Vec::new();
        self.collect_ids(&mut ids);
        proof {
            assert(strings_view(ids@) =~= tree_ids(self@));
        }
        ids
    }

    /// Whether no two elements of this tree carry the same id.
    pub fn has_unique_ids(&self) -> (unique: bool)
        ensures
            unique == tree_ids(self@).no_duplicates(),
    {
        let ids = self.ids();
        all_distinct(&ids)
    }
}

/// The markup that is served for a tree: that of the tree with its hooks
/// installed. No markup is served for a tree in which two elements carry the
/// same id.
pub open spec fn served_html(t: VDomView) -> Option<Seq<char>> {
    if tree_ids(t).no_duplicates() {
        Some(tree_html(with_hooks(t)))
    } else {
        None
    }
}

impl VDom {
    /// Checks that no two elements carry the same id, installs the hooks and
    /// renders the tree.
    pub fn render(self) -> (out: Option<String>)
        ensures
            match out {
                Some(html) => served_html(self@) == Some(html@),
                None => served_html(self@) is None,
            },
    {
        if !self.has_unique_ids() {
            return None;
        }
        let mut tree = self;
        tree.add_events();
        Some(tree.to_html())
    }
}

} // verus!
