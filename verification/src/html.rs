//! Pages and their trees as an application author writes them: elements with
//! fixed tag names, attributes in order, and the names of the DOM events.

use vstd::prelude::*;
use vstd::string::*;
use crate::builders::NodeBuilder;
use crate::vdom::{
    all_ids, attr_value, find_attr, hook_attr, hook_for, lemma_all_with_hooks, trees_view,
    with_hooks, HookKind, VDom, VDomView,
};
use crate::text::{
    all_distinct, attribute_markup, attribute_to_html, close_tag, close_tag_markup, join, join_as_strings,
    open_tag, open_tag_markup, strings_view,
};

verus! {

/// The mathematical value of an [`Attr`].
pub struct AttrView {
    pub name: Seq<char>,
    pub value: Option<Seq<char>>,
}

/// The mathematical value of a [`Node`].
pub enum NodeView {
    Element { tag: Seq<char>, attrs: Seq<AttrView>, children: Seq<NodeView>, is_empty: bool },
    Text(Seq<char>),
}

/// An HTML attribute.
#[derive(Debug, Clone, PartialEq, Eq)]
pub struct Attr {
    pub name: &'static str,
    pub value: Option<String>,
}

impl View for Attr {
    type V = AttrView;

    open spec fn view(&self) -> AttrView {
        AttrView {
            name: self.name@,
            value: match self.value {
                Some(v) => Some(v@),
                None => None,
            },
        }
    }
}

/// The views of a sequence of attributes, in order.
pub open spec fn attrs_view(attrs: Seq<Attr>) -> Seq<AttrView> {
    Seq::new(attrs.len(), |i: int| attrs[i]@)
}

/// The markup of each attribute of a list, in order.
pub open spec fn attrs_markup(attrs: Seq<AttrView>) -> Seq<Seq<char>> {
    Seq::new(attrs.len(), |i: int| attribute_markup(attrs[i].name, attrs[i].value))
}

impl Attr {
    /// Returns a new attribute with a name and a value.
    pub fn new(name: &'static str, value: &str) -> (a: Attr)
        ensures
            a@ == (AttrView { name: name@, value: Some(value@) }),
    {
        Attr { name: name, value: Some(String::from_str(value)) }
    }

    /// Returns a new attribute with no value.
    pub fn name_only(name: &'static str) -> (a: Attr)
        ensures
            a@ == (AttrView { name: name@, value: None }),
    {
        Attr { name: name, value: None }
    }

    /// The attribute's markup: the bare name, or `name="value"`.
    pub fn to_html(&self) -> (out: String)
        ensures
            out@ == attribute_markup(self@.name, self@.value),
    {
        attribute_to_html(self.name, &self.value)
    }
}

/// Renders each attribute of the list, in order.
pub fn attrs_to_html(attrs: &Vec<Attr>) -> (parts: Vec<String>)
    ensures
        strings_view(parts@) == attrs_markup(attrs_view(attrs@)),
{
    let mut parts: Vec<String> = Vec::new();
    let mut i: usize = 0;
    while i < attrs.len()
        invariant
            i <= attrs.len(),
            parts@.len() == i,
            forall|k: int|
                0 <= k < i ==> (#[trigger] parts@[k])@ == attribute_markup(
                    attrs@[k]@.name,
                    attrs@[k]@.value,
                ),
        decreases attrs.len() - i,
    {
        parts.push(attrs[i].to_html());
        i = i + 1;
    }
    proof {
        assert(strings_view(parts@) =~= attrs_markup(attrs_view(attrs@)));
    }
    parts
}

/// An HTML element or text node.
#[derive(Debug, PartialEq, Eq)]
pub enum Node {
    Element {
        /// The element type, or tag.
        tag: &'static str,
        /// Any attributes of the element.
        attrs: Vec<Attr>,
        /// Any children of the element.
        children: Vec<Node>,
        /// True if the element is empty, like `<br>`.
        is_empty: bool,
    },
    Text(String),
}

/// The mathematical value of a node: the same shape, with every string and
/// vector replaced by the sequence it holds.
pub open spec fn node_view(n: Node) -> NodeView
    decreases n,
{
    match n {
        Node::Element { tag, attrs, children, is_empty } => NodeView::Element {
            tag: tag@,
            attrs: attrs_view(attrs@),
            children: Seq::new(
                children@.len(),
                |i: int|
                    if 0 <= i < children@.len() {
                        node_view(children@[i])
                    } else {
                        NodeView::Text(Seq::empty())
                    },
            ),
            is_empty: is_empty,
        },
        Node::Text(t) => NodeView::Text(t@),
    }
}

impl View for Node {
    type V = NodeView;

    open spec fn view(&self) -> NodeView {
        node_view(*self)
    }
}

/// The views of a sequence of nodes, in order.
pub open spec fn nodes_view(nodes: Seq<Node>) -> Seq<NodeView> {
    Seq::new(nodes.len(), |i: int| nodes[i]@)
}

/// The view of an element holds its tag, and the views of its attributes and
/// children, in order.
pub proof fn lemma_element_view(n: Node)
    requires
        n is Element,
    ensures
        n@ == (NodeView::Element {
            tag: n->tag@,
            attrs: attrs_view(n->attrs@),
            children: nodes_view(n->children@),
            is_empty: n->is_empty,
        }),
{
    assert(n@->children =~= nodes_view(n->children@));
}

/// The markup of a node: depth first, parents before children, children in
/// their given order. An empty element has an opening tag only.
pub open spec fn node_html(n: NodeView) -> Seq<char>
    decreases n,
{
    match n {
        NodeView::Text(s) => s,
        NodeView::Element { tag, attrs, children, is_empty } => if is_empty {
            open_tag_markup(tag, attrs_markup(attrs))
        } else {
            open_tag_markup(tag, attrs_markup(attrs)) + nodes_html(children) + close_tag_markup(
                tag,
            )
        },
    }
}

/// The markup of a list of nodes, one after the other with nothing between.
pub open spec fn nodes_html(nodes: Seq<NodeView>) -> Seq<char>
    decreases nodes,
{
    if nodes.len() == 0 {
        Seq::empty()
    } else {
        nodes_html(nodes.drop_last()) + node_html(nodes.last())
    }
}

/// The attribute that registers the page's event handler for `kind`.
pub open spec fn event_attr(kind: EventKind) -> AttrView {
    AttrView { name: kind.name(), value: Some("onevent()"@) }
}

/// The attributes that register the page's event handler for each of `events`.
pub open spec fn event_attrs(events: Seq<EventKind>) -> Seq<AttrView> {
    Seq::new(events.len(), |i: int| event_attr(events[i]))
}

impl Node {
    /// An element whose attributes are `attrs` followed by one handler attribute
    /// for each of `events`, in order.
    pub fn new_el(
        tag: &'static str,
        events: Vec<EventKind>,
        attrs: Vec<Attr>,
        children: Vec<Node>,
        is_empty: bool,
    ) -> (n: Node)
        ensures
            n@ == (NodeView::Element {
                tag: tag@,
                attrs: attrs_view(attrs@) + event_attrs(events@),
                children: nodes_view(children@),
                is_empty: is_empty,
            }),
    {
        let mut all = attrs;
        let mut i: usize = 0;
        while i < events.len()
            invariant
                i <= events.len(),
                attrs_view(all@) == attrs_view(attrs@) + event_attrs(events@.take(i as int)),
            decreases events.len() - i,
        {
            let ghost before = all@;
            all.push(Attr::new(events[i].to_str(), "onevent()"));
            proof {
                assert(attrs_view(all@) =~= attrs_view(before).push(event_attr(events@[i as int])));
                assert(event_attrs(events@.take(i as int + 1)) =~= event_attrs(
                    events@.take(i as int),
                ).push(event_attr(events@[i as int])));
                assert(attrs_view(all@) =~= attrs_view(attrs@) + event_attrs(
                    events@.take(i as int + 1),
                ));
            }
            i = i + 1;
        }
        proof {
            assert(events@.take(events.len() as int) =~= events@);
        }
        let n = Node::Element { tag: tag, attrs: all, children: children, is_empty: is_empty };
        proof {
            lemma_element_view(n);
        }
        n
    }

    /// A text node.
    pub fn new_text(text: &str) -> (n: Node)
        ensures
            n@ == NodeView::Text(text@),
    {
        Node::Text(String::from_str(text))
    }

    /// The markup of this node.
    pub fn to_html(&self) -> (out: String)
        ensures
            out@ == node_html(self@),
        decreases self,
    {
        match self {
            Node::Element { tag, attrs, children, is_empty } => {
                proof {
                    lemma_element_view(*self);
                }
                let parts = attrs_to_html(attrs);
                let mut out = open_tag(tag, &parts);
                if !*is_empty {
                    let inner = Node::list_to_html(children);
                    let close = close_tag(tag);
                    out.append(inner.as_str());
                    out.append(close.as_str());
                }
                out
            },
            Node::Text(t) => t.clone(),
        }
    }

    /// The markup of the nodes, one after the other.
    pub fn list_to_html(nodes: &Vec<Node>) -> (out: String)
        ensures
            out@ == nodes_html(nodes_view(nodes@)),
        decreases nodes,
    {
        let mut out = String::new();
        let ghost views = nodes_view(nodes@);
        let mut i: usize = 0;
        while i < nodes.len()
            invariant
                i <= nodes.len(),
                views == nodes_view(nodes@),
                out@ == nodes_html(views.take(i as int)),
            decreases nodes.len() - i,
        {
            proof {
                assert(views.take(i as int + 1).drop_last() =~= views.take(i as int));
                assert(views.take(i as int + 1).last() == views[i as int]);
            }
            let one = nodes[i].to_html();
            out.append(one.as_str());
            i = i + 1;
        }
        proof {
            assert(views.take(nodes.len() as int) =~= views);
        }
        out
    }

    /// The markup of this node.
    pub fn into_html(self) -> (out: String)
        ensures
            out@ == node_html(self@),
    {
        self.to_html()
    }
}

/// The wire form of an attribute: the same name and value.
pub open spec fn wire_attr(a: AttrView) -> crate::vdom::AttrView {
    crate::vdom::AttrView { key: a.name, value: a.value }
}

/// The wire forms of the attributes, in order.
pub open spec fn wire_attrs(attrs: Seq<AttrView>) -> Seq<crate::vdom::AttrView> {
    Seq::new(attrs.len(), |i: int| wire_attr(attrs[i]))
}

/// The wire form of a node: the same tag, the same attributes in the same
/// order (no attribute list where there is none), and the wire forms of the
/// children in the same order.
pub open spec fn wire_tree(n: NodeView) -> VDomView
    decreases n,
{
    match n {
        NodeView::Text(s) => VDomView::Text(s),
        NodeView::Element { tag, attrs, children, is_empty } => VDomView::Element {
            tag: tag,
            attr: if attrs.len() == 0 {
                None
            } else {
                Some(wire_attrs(attrs))
            },
            children: wire_trees(children),
        },
    }
}

/// The wire forms of the nodes, in order.
pub open spec fn wire_trees(nodes: Seq<NodeView>) -> Seq<VDomView>
    decreases nodes,
{
    if nodes.len() == 0 {
        Seq::empty()
    } else {
        wire_trees(nodes.drop_last()).push(wire_tree(nodes.last()))
    }
}

/// The wire forms of the nodes are as many as the nodes, each the form of its
/// node.
pub proof fn lemma_wire_trees(nodes: Seq<NodeView>)
    ensures
        wire_trees(nodes).len() == nodes.len(),
        forall|i: int| 0 <= i < nodes.len() ==> #[trigger] wire_trees(nodes)[i] == wire_tree(nodes[i]),
    decreases nodes.len(),
{
    if nodes.len() > 0 {
        lemma_wire_trees(nodes.drop_last());
    }
}

impl Attr {
    /// The wire form of this attribute.
    pub fn to_vdom(&self) -> (a: crate::vdom::Attr)
        ensures
            a@ == wire_attr(self@),
    {
        let key = String::from_str(self.name);
        match &self.value {
            Some(v) => crate::vdom::Attr::new(key, v.clone()),
            None => crate::vdom::Attr::with_key_only(key),
        }
    }
}

/// The wire forms of the attributes, in order.
pub fn attrs_to_vdom(attrs: &Vec<Attr>) -> (list: Vec<crate::vdom::Attr>)
    ensures
        crate::vdom::attrs_view(list@) == wire_attrs(attrs_view(attrs@)),
{
    let mut list: Vec<crate::vdom::Attr> = Vec::new();
    let mut i: usize = 0;
    while i < attrs.len()
        invariant
            i <= attrs.len(),
            list@.len() == i,
            forall|k: int| 0 <= k < i ==> (#[trigger] list@[k])@ == wire_attr(attrs@[k]@),
        decreases attrs.len() - i,
    {
        list.push(attrs[i].to_vdom());
        i = i + 1;
    }
    proof {
        assert(crate::vdom::attrs_view(list@) =~= wire_attrs(attrs_view(attrs@)));
    }
    list
}

impl Node {
    /// The wire form of this node.
    pub fn to_vdom(&self) -> (t: VDom)
        ensures
            t@ == wire_tree(self@),
        decreases self,
    {
        match self {
            Node::Text(s) => VDom::Text(s.clone()),
            Node::Element { tag, attrs, children, is_empty } => {
                proof {
                    lemma_element_view(*self);
                }
                let kids = Node::list_to_vdom(children);
                if attrs.len() == 0 {
                    VDom::with_children(tag, kids)
                } else {
                    VDom::with_children_attr(tag, attrs_to_vdom(attrs), kids)
                }
            },
        }
    }

    /// The wire forms of the nodes, in order.
    pub fn list_to_vdom(nodes: &Vec<Node>) -> (trees: Vec<VDom>)
        ensures
            trees_view(trees@) == wire_trees(nodes_view(nodes@)),
        decreases nodes,
    {
        let mut trees: Vec<VDom> = Vec::new();
        let mut i: usize = 0;
        while i < nodes.len()
            invariant
                i <= nodes.len(),
                trees@.len() == i,
                forall|k: int| 0 <= k < i ==> (#[trigger] trees@[k])@ == wire_tree(nodes@[k]@),
            decreases nodes.len() - i,
        {
            trees.push(nodes[i].to_vdom());
            i = i + 1;
        }
        proof {
            lemma_wire_trees(nodes_view(nodes@));
            assert(trees_view(trees@) =~= wire_trees(nodes_view(nodes@)));
        }
        trees
    }
}

/// The hook that an element calls for, by its tag and its attributes: none
/// where it carries no id.
pub open spec fn node_hook(tag: Seq<char>, attrs: Seq<AttrView>) -> Option<HookKind> {
    if attr_value(wire_attrs(attrs), "id"@) is Some {
        hook_for(tag, attr_value(wire_attrs(attrs), "type"@))
    } else {
        None
    }
}

/// The attribute that installs a hook.
pub open spec fn node_hook_attr(kind: HookKind) -> AttrView {
    AttrView { name: hook_attr(kind).key, value: hook_attr(kind).value }
}

/// The attributes of an element once its hook is installed: one more attribute
/// at the end where the element calls for a hook.
pub open spec fn hooked_node_attrs(tag: Seq<char>, attrs: Seq<AttrView>) -> Seq<AttrView> {
    match node_hook(tag, attrs) {
        Some(kind) => attrs.push(node_hook_attr(kind)),
        None => attrs,
    }
}

/// The node with the hooks installed on every element, at any depth.
pub open spec fn hooked_node(n: NodeView) -> NodeView
    decreases n,
{
    match n {
        NodeView::Text(s) => NodeView::Text(s),
        NodeView::Element { tag, attrs, children, is_empty } => NodeView::Element {
            tag: tag,
            attrs: hooked_node_attrs(tag, attrs),
            children: hooked_nodes(children),
            is_empty: is_empty,
        },
    }
}

/// Each of the nodes with the hooks installed, in order.
pub open spec fn hooked_nodes(nodes: Seq<NodeView>) -> Seq<NodeView>
    decreases nodes,
{
    if nodes.len() == 0 {
        Seq::empty()
    } else {
        hooked_nodes(nodes.drop_last()).push(hooked_node(nodes.last()))
    }
}

/// The hooked nodes are as many as the nodes, each the hooked form of its node.
pub proof fn lemma_hooked_nodes(nodes: Seq<NodeView>)
    ensures
        hooked_nodes(nodes).len() == nodes.len(),
        forall|i: int|
            0 <= i < nodes.len() ==> #[trigger] hooked_nodes(nodes)[i] == hooked_node(nodes[i]),
    decreases nodes.len(),
{
    if nodes.len() > 0 {
        lemma_hooked_nodes(nodes.drop_last());
    }
}

/// The wire form keeps the shape of a node: the tag of an element, its
/// attributes in their order and its children in their order.
pub proof fn lemma_wire_tree_keeps_shape(n: NodeView)
    requires
        n is Element,
    ensures
        wire_tree(n) is Element,
        wire_tree(n)->tag == n->tag,
        crate::vdom::attrs_or_empty(wire_tree(n)->attr) == wire_attrs(n->attrs),
        wire_tree(n)->children.len() == n->children.len(),
        forall|i: int|
            0 <= i < n->children.len() ==> #[trigger] wire_tree(n)->children[i] == wire_tree(
                n->children[i],
            ),
{
    lemma_wire_trees(n->children);
    if n->attrs.len() == 0 {
        assert(wire_attrs(n->attrs) =~= Seq::empty());
    }
}

/// The hooks of a node are those of its wire form: installing them before or
/// after the node is put in its wire form gives the same tree.
pub proof fn lemma_hooks_agree(n: NodeView)
    ensures
        wire_tree(hooked_node(n)) == with_hooks(wire_tree(n)),
    decreases n, 1int,
{
    match n {
        NodeView::Text(s) => {},
        NodeView::Element { tag, attrs, children, is_empty } => {
            lemma_all_hooks_agree(children);
            if attrs.len() == 0 {
                assert(wire_attrs(attrs) =~= Seq::empty());
                reveal_with_fuel(crate::vdom::key_position, 2);
            } else {
                match node_hook(tag, attrs) {
                    Some(kind) => {
                        assert(wire_attrs(attrs.push(node_hook_attr(kind))) =~= wire_attrs(
                            attrs,
                        ).push(hook_attr(kind)));
                    },
                    None => {},
                }
            }
        },
    }
}

/// The hooks of the nodes are those of their wire forms.
pub proof fn lemma_all_hooks_agree(nodes: Seq<NodeView>)
    ensures
        wire_trees(hooked_nodes(nodes)) == crate::vdom::all_with_hooks(wire_trees(nodes)),
    decreases nodes, 0int,
{
    lemma_hooked_nodes(nodes);
    lemma_wire_trees(nodes);
    lemma_wire_trees(hooked_nodes(nodes));
    lemma_all_with_hooks(wire_trees(nodes));
    assert forall|i: int| 0 <= i < nodes.len() implies wire_tree(hooked_node(nodes[i]))
        == with_hooks(wire_tree(nodes[i])) by {
        lemma_hooks_agree(nodes[i]);
    }
    assert(wire_trees(hooked_nodes(nodes)) =~= crate::vdom::all_with_hooks(wire_trees(nodes)));
}

/// The hook that an element calls for.
pub fn hook_of(tag: &str, attrs: &Vec<Attr>) -> (kind: Option<HookKind>)
    ensures
        kind == node_hook(tag@, attrs_view(attrs@)),
{
    let wire = attrs_to_vdom(attrs);
    if find_attr(&wire, "id").is_some() {
        let type_ = find_attr(&wire, "type");
        HookKind::lookup(tag, &type_)
    } else {
        None
    }
}

/// The attribute that installs a hook.
pub fn hook_attr_of(kind: HookKind) -> (a: Attr)
    ensures
        a@ == node_hook_attr(kind),
{
    match kind {
        HookKind::Click => Attr::new("onclick", "buttonClick(this)"),
        HookKind::Change => Attr::new("onchange", "valueChanged(this)"),
        HookKind::Check => Attr::new("onchange", "checkChanged(this)"),
    }
}

impl Node {
    /// Installs the hooks on every element of this node, at any depth.
    pub fn add_events(&mut self)
        ensures
            final(self)@ == hooked_node(old(self)@),
        decreases *old(self),
    {
        let ghost before = *self;
        proof {
            if before is Element {
                lemma_element_view(before);
            }
        }
        match self {
            Node::Text(_) => {},
            Node::Element { tag, attrs, children, is_empty } => {
                Node::add_events_to_all(children);
                let ghost old_attrs = attrs_view(attrs@);
                if let Some(kind) = hook_of(tag, attrs) {
                    attrs.push(hook_attr_of(kind));
                    proof {
                        assert(attrs_view(attrs@) =~= old_attrs.push(node_hook_attr(kind)));
                    }
                }
            },
        }
        proof {
            if *self is Element {
                lemma_element_view(*self);
            }
        }
    }

    /// Installs the hooks on every element of every node of the list.
    pub fn add_events_to_all(nodes: &mut Vec<Node>)
        ensures
            nodes_view(final(nodes)@) == hooked_nodes(nodes_view(old(nodes)@)),
        decreases *old(nodes),
    {
        let ghost start = nodes@;
        let ghost before = nodes_view(nodes@);
        let mut i: usize = 0;
        while i < nodes.len()
            invariant
                i <= nodes.len(),
                start == old(nodes)@,
                before == nodes_view(start),
                nodes@.len() == before.len(),
                forall|k: int| 0 <= k < i ==> (#[trigger] nodes@[k])@ == hooked_node(before[k]),
                forall|k: int| i <= k < nodes.len() ==> #[trigger] nodes@[k] == start[k],
            decreases nodes.len() - i,
        {
            nodes[i].add_events();
            i = i + 1;
        }
        proof {
            lemma_hooked_nodes(before);
            assert(nodes_view(nodes@) =~= hooked_nodes(before));
        }
    }
}

/// The list with one more attribute, of the given name and value, at its end.
pub fn with_attr(attrs: Vec<Attr>, name: &'static str, value: &str) -> (out: Vec<Attr>)
    ensures
        attrs_view(out@) == attrs_view(attrs@).push(
            AttrView { name: name@, value: Some(value@) },
        ),
{
    let mut out = attrs;
    out.push(Attr::new(name, value));
    proof {
        assert(attrs_view(out@) =~= attrs_view(attrs@).push(
            AttrView { name: name@, value: Some(value@) },
        ));
    }
    out
}

/// A `<meta>` element of a page's head.
#[derive(Debug, Clone, PartialEq, Eq)]
pub struct Meta {
    pub attrs: Vec<Attr>,
}

impl View for Meta {
    type V = Seq<AttrView>;

    open spec fn view(&self) -> Seq<AttrView> {
        attrs_view(self.attrs@)
    }
}

impl Meta {
    /// A `<meta>` element without attributes.
    pub fn new() -> (out: Self)
        ensures
            out@ == Seq::<AttrView>::empty(),
    {
        let out = Meta { attrs: Vec::new() };
        proof {
            assert(out@ =~= Seq::<AttrView>::empty());
        }
        out
    }

    /// Adds the `charset` attribute after those already set.
    pub fn charset(self, value: &str) -> (out: Self)
        ensures
            out@ == self@.push(AttrView { name: "charset"@, value: Some(value@) }),
    {
        Meta { attrs: with_attr(self.attrs, "charset", value) }
    }

    /// Adds the `content` attribute after those already set.
    pub fn content(self, value: &str) -> (out: Self)
        ensures
            out@ == self@.push(AttrView { name: "content"@, value: Some(value@) }),
    {
        Meta { attrs: with_attr(self.attrs, "content", value) }
    }

    /// Adds the `http-equiv` attribute after those already set.
    pub fn http_equiv(self, value: &str) -> (out: Self)
        ensures
            out@ == self@.push(AttrView { name: "http-equiv"@, value: Some(value@) }),
    {
        Meta { attrs: with_attr(self.attrs, "http-equiv", value) }
    }

    /// Adds the `name` attribute after those already set.
    pub fn name(self, value: &str) -> (out: Self)
        ensures
            out@ == self@.push(AttrView { name: "name"@, value: Some(value@) }),
    {
        Meta { attrs: with_attr(self.attrs, "name", value) }
    }
}

/// A `<link rel="...">` element of a page's head.
#[derive(Debug, Clone, PartialEq, Eq)]
pub struct Link {
    /// Attributes
    pub attrs: Vec<Attr>,
}

impl View for Link {
    type V = Seq<AttrView>;

    open spec fn view(&self) -> Seq<AttrView> {
        attrs_view(self.attrs@)
    }
}

impl Link {
    /// A `<link>` element with the given relation as its only attribute.
    pub fn new(rel: &str) -> (out: Self)
        ensures
            out@ == seq![AttrView { name: "rel"@, value: Some(rel@) }],
    {
        let out = Link { attrs: with_attr(Vec::new(), "rel", rel) };
        proof {
            assert(out@ =~= seq![AttrView { name: "rel"@, value: Some(rel@) }]);
        }
        out
    }

    /// Adds the `crossorigin` attribute after those already set.
    pub fn crossorigin(self, value: &str) -> (out: Self)
        ensures
            out@ == self@.push(AttrView { name: "crossorigin"@, value: Some(value@) }),
    {
        Link { attrs: with_attr(self.attrs, "crossorigin", value) }
    }

    /// Adds the `href` attribute after those already set.
    pub fn href(self, value: &str) -> (out: Self)
        ensures
            out@ == self@.push(AttrView { name: "href"@, value: Some(value@) }),
    {
        Link { attrs: with_attr(self.attrs, "href", value) }
    }

    /// Adds the `hreflang` attribute after those already set.
    pub fn hreflang(self, value: &str) -> (out: Self)
        ensures
            out@ == self@.push(AttrView { name: "hreflang"@, value: Some(value@) }),
    {
        Link { attrs: with_attr(self.attrs, "hreflang", value) }
    }

    /// Adds the `media` attribute after those already set.
    pub fn media(self, value: &str) -> (out: Self)
        ensures
            out@ == self@.push(AttrView { name: "media"@, value: Some(value@) }),
    {
        Link { attrs: with_attr(self.attrs, "media", value) }
    }

    /// Adds the `nonce` attribute after those already set.
    pub fn nonce(self, value: &str) -> (out: Self)
        ensures
            out@ == self@.push(AttrView { name: "nonce"@, value: Some(value@) }),
    {
        Link { attrs: with_attr(self.attrs, "nonce", value) }
    }

    /// Adds the `referrerpolicy` attribute after those already set.
    pub fn referrerpolicy(self, value: &str) -> (out: Self)
        ensures
            out@ == self@.push(AttrView { name: "referrerpolicy"@, value: Some(value@) }),
    {
        Link { attrs: with_attr(self.attrs, "referrerpolicy", value) }
    }

    /// Adds the `sizes` attribute after those already set.
    pub fn sizes(self, value: &str) -> (out: Self)
        ensures
            out@ == self@.push(AttrView { name: "sizes"@, value: Some(value@) }),
    {
        Link { attrs: with_attr(self.attrs, "sizes", value) }
    }

    /// Adds the `type` attribute after those already set.
    pub fn type_(self, value: &str) -> (out: Self)
        ensures
            out@ == self@.push(AttrView { name: "type"@, value: Some(value@) }),
    {
        Link { attrs: with_attr(self.attrs, "type", value) }
    }
}

/// The script that every page carries: it opens the connection, reports the
/// user's interactions as messages and applies the commands that come back.
pub const CLIENT_SCRIPT: &'static str = "\n\
var wsUri = 'ws://localhost:1234';\n\
var websocket = null;\n\
\n\
function sendMessage(obj) {\n\
    if (websocket != null) {\n\
        websocket.send(JSON.stringify(obj));\n\
    }\n\
}\n\
\n\
function report(kind, el) {\n\
    var msg = { event: kind, id: el.id, type: el.type || '' };\n\
    if (kind === 'check-changed') {\n\
        msg.name = el.name;\n\
        msg.checked = el.checked;\n\
    } else if (kind === 'value-changed') {\n\
        msg.value = el.value;\n\
    }\n\
    sendMessage(msg);\n\
}\n\
\n\
function buttonClick(el) {\n\
    report('button-click', el);\n\
}\n\
\n\
function valueChanged(el) {\n\
    report('value-changed', el);\n\
}\n\
\n\
function checkChanged(el) {\n\
    report('check-changed', el);\n\
}\n\
\n\
function onevent() {\n\
    var el = event.target;\n\
    if (event.type === 'click') {\n\
        buttonClick(el);\n\
    } else if (el.type === 'radio' || el.type === 'checkbox') {\n\
        checkChanged(el);\n\
    } else {\n\
        valueChanged(el);\n\
    }\n\
}\n\
\n\
function makeElement(obj) {\n\
    if (obj.Text !== undefined) {\n\
        return document.createTextNode(obj.Text);\n\
    }\n\
    var element = obj.Element;\n\
    var newEl = window.document.createElement(element.tag);\n\
    element.attr && element.attr.forEach(function (a) {\n\
        newEl.setAttribute(a.key, a.value === undefined || a.value === null ? '' : a.value);\n\
    });\n\
    element.children && element.children.forEach(function (c) {\n\
        newEl.appendChild(makeElement(c));\n\
    });\n\
    return newEl;\n\
}\n\
\n\
function receiveMessage(json) {\n\
    var objs = JSON.parse(json);\n\
    objs.forEach(function (obj) {\n\
        if (!obj.id) {\n\
            return;\n\
        }\n\
        var element = document.getElementById(obj.id);\n\
        if (obj.command_type === 'Delete') {\n\
            element.remove();\n\
        } else if (obj.command_type === 'AppendChild') {\n\
            element.appendChild(makeElement(obj.node));\n\
        } else if (obj.command_type === 'InsertBefore') {\n\
            element.parentNode.insertBefore(makeElement(obj.node), element);\n\
        } else if (obj.command_type === 'Update') {\n\
            element.parentNode.replaceChild(makeElement(obj.node), element);\n\
        }\n\
    });\n\
}\n\
\n\
function initWebSocket() {\n\
    try {\n\
        if (websocket && websocket.readyState == 1) {\n\
            websocket.close();\n\
        }\n\
        websocket = new WebSocket(wsUri);\n\
        websocket.onmessage = function (evt) {\n\
            receiveMessage(evt.data);\n\
        };\n\
    } catch (exception) {\n\
    }\n\
}\n\
\n\
function stopWebSocket() {\n\
    if (websocket) {\n\
        websocket.close();\n\
    }\n\
}\n\
\n\
window.onload = initWebSocket;\n\
window.onclose = stopWebSocket;\n\
";

/// The mathematical value of an [`HtmlPage`].
pub struct HtmlPageView {
    pub title: Seq<char>,
    pub metas: Seq<Seq<AttrView>>,
    pub links: Seq<Seq<AttrView>>,
    pub nodes: Seq<NodeView>,
}

/// A page: its title, the `<meta>` and `<link>` elements of its head, and the
/// nodes of its body.
#[derive(Debug, PartialEq, Eq)]
pub struct HtmlPage {
    pub title: String,
    pub metas: Vec<Meta>,
    pub links: Vec<Link>,
    pub nodes: Vec<Node>,
}

impl View for HtmlPage {
    type V = HtmlPageView;

    open spec fn view(&self) -> HtmlPageView {
        HtmlPageView {
            title: self.title@,
            metas: Seq::new(self.metas@.len(), |i: int| self.metas@[i]@),
            links: Seq::new(self.links@.len(), |i: int| self.links@[i]@),
            nodes: nodes_view(self.nodes@),
        }
    }
}

/// The markup of each element of a head, all of one tag, in order.
pub open spec fn head_markup(tag: Seq<char>, items: Seq<Seq<AttrView>>) -> Seq<Seq<char>> {
    Seq::new(items.len(), |i: int| open_tag_markup(tag, attrs_markup(items[i])))
}

/// The markup of each node of a body, in order.
pub open spec fn body_markup(nodes: Seq<NodeView>) -> Seq<Seq<char>> {
    Seq::new(nodes.len(), |i: int| node_html(nodes[i]))
}

/// The markup of a whole page: the head with the `<meta>` elements, the
/// `<link>` elements, the title and the client script, then the body with the
/// nodes; the elements of each group stand on lines of their own.
pub open spec fn page_html(p: HtmlPageView) -> Seq<char> {
    "<html>\n<head>\n"@ + join(head_markup("meta"@, p.metas), "\n"@) + "\n"@ + join(
        head_markup("link"@, p.links),
        "\n"@,
    ) + "\n<title>"@ + p.title + "</title>\n<script type=\"text/javascript\">"@
        + CLIENT_SCRIPT@ + "</script>\n</head>\n<body>\n"@ + join(body_markup(p.nodes), "\n"@)
        + "\n</body>\n</html>\n"@
}

/// The ids that the elements of a page carry, in document order.
pub open spec fn page_ids(p: HtmlPageView) -> Seq<Seq<char>> {
    all_ids(wire_trees(p.nodes))
}

/// The page with the hooks installed on every element of its body.
pub open spec fn hooked_page(p: HtmlPageView) -> HtmlPageView {
    HtmlPageView { nodes: hooked_nodes(p.nodes), ..p }
}

/// The markup that is served for a page: that of the page with its hooks
/// installed. No markup is served for a page in which two elements carry the
/// same id.
pub open spec fn served_page(p: HtmlPageView) -> Option<Seq<char>> {
    if page_ids(p).no_duplicates() {
        Some(page_html(hooked_page(p)))
    } else {
        None
    }
}

impl HtmlPage {
    /// A page with a title and nothing else.
    pub fn new(title: &str) -> (page: HtmlPage)
        ensures
            page@ == (HtmlPageView {
                title: title@,
                metas: Seq::empty(),
                links: Seq::empty(),
                nodes: Seq::empty(),
            }),
    {
        let page = HtmlPage {
            title: String::from_str(title),
            metas: Vec::new(),
            links: Vec::new(),
            nodes: Vec::new(),
        };
        proof {
            assert(page@.metas =~= Seq::empty());
            assert(page@.links =~= Seq::empty());
            assert(page@.nodes =~= Seq::empty());
        }
        page
    }

    /// Adds a `<meta>` element after those already in the head.
    pub fn meta(self, meta: Meta) -> (page: Self)
        ensures
            page@ == (HtmlPageView { metas: self@.metas.push(meta@), ..self@ }),
    {
        let mut metas = self.metas;
        metas.push(meta);
        let page = HtmlPage { title: self.title, metas: metas, links: self.links, nodes: self.nodes };
        proof {
            assert(page@.metas =~= self@.metas.push(meta@));
        }
        page
    }

    /// Adds a `<meta>` element with a `name` and a `content` attribute.
    pub fn meta_content(self, name: &str, content: &str) -> (page: Self)
        ensures
            page@ == (HtmlPageView {
                metas: self@.metas.push(
                    seq![
                        AttrView { name: "name"@, value: Some(name@) },
                        AttrView { name: "content"@, value: Some(content@) },
                    ],
                ),
                ..self@
            }),
    {
        let meta = Meta::new().name(name).content(content);
        proof {
            assert(meta@ =~= seq![
                AttrView { name: "name"@, value: Some(name@) },
                AttrView { name: "content"@, value: Some(content@) },
            ]);
        }
        self.meta(meta)
    }

    /// Adds a `<link>` element after those already in the head.
    pub fn link(self, link: Link) -> (page: Self)
        ensures
            page@ == (HtmlPageView { links: self@.links.push(link@), ..self@ }),
    {
        let mut links = self.links;
        links.push(link);
        let page = HtmlPage { title: self.title, metas: self.metas, links: links, nodes: self.nodes };
        proof {
            assert(page@.links =~= self@.links.push(link@));
        }
        page
    }

    /// Adds the node that `node` builds after those already in the body.
    pub fn node<B: NodeBuilder>(self, node: B) -> (page: Self)
        ensures
            page@ == (HtmlPageView { nodes: self@.nodes.push(B::built(node@)), ..self@ }),
    {
        let mut nodes = self.nodes;
        nodes.push(node.node());
        let page = HtmlPage { title: self.title, metas: self.metas, links: self.links, nodes: nodes };
        proof {
            assert(page@.nodes =~= self@.nodes.push(B::built(node@)));
        }
        page
    }

    /// Whether no two elements of the page carry the same id.
    pub fn has_unique_ids(&self) -> (unique: bool)
        ensures
            unique == page_ids(self@).no_duplicates(),
    {
        let trees = Node::list_to_vdom(&self.nodes);
        let mut ids: Vec<String> = Vec::new();
        VDom::collect_all_ids(&trees, &mut ids);
        proof {
            assert(strings_view(ids@) =~= page_ids(self@));
        }
        all_distinct(&ids)
    }

    /// Checks that no two elements of the page carry the same id, installs the
    /// hooks and renders the page.
    pub fn render(self) -> (out: Option<String>)
        ensures
            match out {
                Some(html) => served_page(self@) == Some(html@),
                None => served_page(self@) is None,
            },
    {
        if !self.has_unique_ids() {
            return None;
        }
        let mut nodes = self.nodes;
        Node::add_events_to_all(&mut nodes);
        let page = HtmlPage { title: self.title, metas: self.metas, links: self.links, nodes: nodes };
        proof {
            assert(page@.metas =~= self@.metas);
            assert(page@.links =~= self@.links);
        }
        Some(page.into_html())
    }

    /// The markup of the page.
    pub fn into_html(self) -> (out: String)
        ensures
            out@ == page_html(self@),
    {
        let mut metas: Vec<String> = Vec::new();
        let mut i: usize = 0;
        while i < self.metas.len()
            invariant
                i <= self.metas.len(),
                metas@.len() == i,
                forall|k: int|
                    0 <= k < i ==> (#[trigger] metas@[k])@ == open_tag_markup(
                        "meta"@,
                        attrs_markup(self.metas@[k]@),
                    ),
            decreases self.metas.len() - i,
        {
            let parts = attrs_to_html(&self.metas[i].attrs);
            metas.push(open_tag("meta", &parts));
            i = i + 1;
        }
        let mut links: Vec<String> = Vec::new();
        let mut j: usize = 0;
        while j < self.links.len()
            invariant
                j <= self.links.len(),
                links@.len() == j,
                forall|k: int|
                    0 <= k < j ==> (#[trigger] links@[k])@ == open_tag_markup(
                        "link"@,
                        attrs_markup(self.links@[k]@),
                    ),
            decreases self.links.len() - j,
        {
            let parts = attrs_to_html(&self.links[j].attrs);
            links.push(open_tag("link", &parts));
            j = j + 1;
        }
        let mut nodes: Vec<String> = Vec::new();
        let mut k: usize = 0;
        while k < self.nodes.len()
            invariant
                k <= self.nodes.len(),
                nodes@.len() == k,
                forall|m: int| 0 <= m < k ==> (#[trigger] nodes@[m])@ == node_html(self.nodes@[m]@),
            decreases self.nodes.len() - k,
        {
            nodes.push(self.nodes[k].to_html());
            k = k + 1;
        }
        proof {
            assert(strings_view(metas@) =~= head_markup("meta"@, self@.metas));
            assert(strings_view(links@) =~= head_markup("link"@, self@.links));
            assert(strings_view(nodes@) =~= body_markup(self@.nodes));
        }
        let metas_txt = join_as_strings(&metas, "\n");
        let links_txt = join_as_strings(&links, "\n");
        let nodes_txt = join_as_strings(&nodes, "\n");
        let mut out = String::from_str("<html>\n<head>\n");
        out.append(metas_txt.as_str());
        out.append("\n");
        out.append(links_txt.as_str());
        out.append("\n<title>");
        out.append(self.title.as_str());
        out.append("</title>\n<script type=\"text/javascript\">");
        out.append(CLIENT_SCRIPT);
        out.append("</script>\n</head>\n<body>\n");
        out.append(nodes_txt.as_str());
        out.append("\n</body>\n</html>\n");
        out
    }
}

/// The events of the DOM that an element can report.
#[derive(Debug, Clone, Copy, PartialEq, Eq, Structural)]
pub enum EventKind {
    Onabort,
    Onauxclick,
    Oncancel,
    Oncanplay,
    Oncanplaythrough,
    Onchange,
    Onclick,
    Onclose,
    Oncuechange,
    Ondblclick,
    Ondrag,
    Ondragend,
    Ondragenter,
    Ondragexit,
    Ondragleave,
    Ondragover,
    Ondragstart,
    Ondrop,
    Ondurationchange,
    Onemptied,
    Onended,
    Oninput,
    Oninvalid,
    Onkeydown,
    Onkeypress,
    Onkeyup,
    Onloadeddata,
    Onloadedmetadata,
    Onloadend,
    Onloadstart,
    Onmousedown,
    Onmouseenter,
    Onmouseleave,
    Onmousemove,
    Onmouseout,
    Onmouseover,
    Onmouseup,
    Onwheel,
    Onpause,
    Onplay,
    Onplaying,
    Onprogress,
    Onratechange,
    Onreset,
    Onseeked,
    Onseeking,
    Onselect,
    Onshow,
    Onstalled,
    Onsubmit,
    Onsuspend,
    Ontimeupdate,
    Ontoggle,
    Onvolumechange,
    Onwaiting,
    Onblur,
    Onerror,
    Onfocus,
    Onload,
    Onresize,
    Onscroll,
}

impl EventKind {
    /// The name of the attribute that registers a handler for this event: `on`
    /// followed by the event's name in lower case.
    pub open spec fn name(self) -> Seq<char> {
        match self {
            EventKind::Onabort => "onabort"@,
            EventKind::Onauxclick => "onauxclick"@,
            EventKind::Oncancel => "oncancel"@,
            EventKind::Oncanplay => "oncanplay"@,
            EventKind::Oncanplaythrough => "oncanplaythrough"@,
            EventKind::Onchange => "onchange"@,
            EventKind::Onclick => "onclick"@,
            EventKind::Onclose => "onclose"@,
            EventKind::Oncuechange => "oncuechange"@,
            EventKind::Ondblclick => "ondblclick"@,
            EventKind::Ondrag => "ondrag"@,
            EventKind::Ondragend => "ondragend"@,
            EventKind::Ondragenter => "ondragenter"@,
            EventKind::Ondragexit => "ondragexit"@,
            EventKind::Ondragleave => "ondragleave"@,
            EventKind::Ondragover => "ondragover"@,
            EventKind::Ondragstart => "ondragstart"@,
            EventKind::Ondrop => "ondrop"@,
            EventKind::Ondurationchange => "ondurationchange"@,
            EventKind::Onemptied => "onemptied"@,
            EventKind::Onended => "onended"@,
            EventKind::Oninput => "oninput"@,
            EventKind::Oninvalid => "oninvalid"@,
            EventKind::Onkeydown => "onkeydown"@,
            EventKind::Onkeypress => "onkeypress"@,
            EventKind::Onkeyup => "onkeyup"@,
            EventKind::Onloadeddata => "onloadeddata"@,
            EventKind::Onloadedmetadata => "onloadedmetadata"@,
            EventKind::Onloadend => "onloadend"@,
            EventKind::Onloadstart => "onloadstart"@,
            EventKind::Onmousedown => "onmousedown"@,
            EventKind::Onmouseenter => "onmouseenter"@,
            EventKind::Onmouseleave => "onmouseleave"@,
            EventKind::Onmousemove => "onmousemove"@,
            EventKind::Onmouseout => "onmouseout"@,
            EventKind::Onmouseover => "onmouseover"@,
            EventKind::Onmouseup => "onmouseup"@,
            EventKind::Onwheel => "onwheel"@,
            EventKind::Onpause => "onpause"@,
            EventKind::Onplay => "onplay"@,
            EventKind::Onplaying => "onplaying"@,
            EventKind::Onprogress => "onprogress"@,
            EventKind::Onratechange => "onratechange"@,
            EventKind::Onreset => "onreset"@,
            EventKind::Onseeked => "onseeked"@,
            EventKind::Onseeking => "onseeking"@,
            EventKind::Onselect => "onselect"@,
            EventKind::Onshow => "onshow"@,
            EventKind::Onstalled => "onstalled"@,
            EventKind::Onsubmit => "onsubmit"@,
            EventKind::Onsuspend => "onsuspend"@,
            EventKind::Ontimeupdate => "ontimeupdate"@,
            EventKind::Ontoggle => "ontoggle"@,
            EventKind::Onvolumechange => "onvolumechange"@,
            EventKind::Onwaiting => "onwaiting"@,
            EventKind::Onblur => "onblur"@,
            EventKind::Onerror => "onerror"@,
            EventKind::Onfocus => "onfocus"@,
            EventKind::Onload => "onload"@,
            EventKind::Onresize => "onresize"@,
            EventKind::Onscroll => "onscroll"@,
        }
    }

    /// The attribute name for this event.
    pub fn to_str(&self) -> (name: &'static str)
        ensures
            name@ == self.name(),
    {
        match self {
            EventKind::Onabort => "onabort",
            EventKind::Onauxclick => "onauxclick",
            EventKind::Oncancel => "oncancel",
            EventKind::Oncanplay => "oncanplay",
            EventKind::Oncanplaythrough => "oncanplaythrough",
            EventKind::Onchange => "onchange",
            EventKind::Onclick => "onclick",
            EventKind::Onclose => "onclose",
            EventKind::Oncuechange => "oncuechange",
            EventKind::Ondblclick => "ondblclick",
            EventKind::Ondrag => "ondrag",
            EventKind::Ondragend => "ondragend",
            EventKind::Ondragenter => "ondragenter",
            EventKind::Ondragexit => "ondragexit",
            EventKind::Ondragleave => "ondragleave",
            EventKind::Ondragover => "ondragover",
            EventKind::Ondragstart => "ondragstart",
            EventKind::Ondrop => "ondrop",
            EventKind::Ondurationchange => "ondurationchange",
            EventKind::Onemptied => "onemptied",
            EventKind::Onended => "onended",
            EventKind::Oninput => "oninput",
            EventKind::Oninvalid => "oninvalid",
            EventKind::Onkeydown => "onkeydown",
            EventKind::Onkeypress => "onkeypress",
            EventKind::Onkeyup => "onkeyup",
            EventKind::Onloadeddata => "onloadeddata",
            EventKind::Onloadedmetadata => "onloadedmetadata",
            EventKind::Onloadend => "onloadend",
            EventKind::Onloadstart => "onloadstart",
            EventKind::Onmousedown => "onmousedown",
            EventKind::Onmouseenter => "onmouseenter",
            EventKind::Onmouseleave => "onmouseleave",
            EventKind::Onmousemove => "onmousemove",
            EventKind::Onmouseout => "onmouseout",
            EventKind::Onmouseover => "onmouseover",
            EventKind::Onmouseup => "onmouseup",
            EventKind::Onwheel => "onwheel",
            EventKind::Onpause => "onpause",
            EventKind::Onplay => "onplay",
            EventKind::Onplaying => "onplaying",
            EventKind::Onprogress => "onprogress",
            EventKind::Onratechange => "onratechange",
            EventKind::Onreset => "onreset",
            EventKind::Onseeked => "onseeked",
            EventKind::Onseeking => "onseeking",
            EventKind::Onselect => "onselect",
            EventKind::Onshow => "onshow",
            EventKind::Onstalled => "onstalled",
            EventKind::Onsubmit => "onsubmit",
            EventKind::Onsuspend => "onsuspend",
            EventKind::Ontimeupdate => "ontimeupdate",
            EventKind::Ontoggle => "ontoggle",
            EventKind::Onvolumechange => "onvolumechange",
            EventKind::Onwaiting => "onwaiting",
            EventKind::Onblur => "onblur",
            EventKind::Onerror => "onerror",
            EventKind::Onfocus => "onfocus",
            EventKind::Onload => "onload",
            EventKind::Onresize => "onresize",
            EventKind::Onscroll => "onscroll",
        }
    }
}

} // verus!
