//! Builders: a fluent way to put an element together before it becomes a
//! [`Node`](crate::html::Node).

use vstd::prelude::*;
use crate::html::{
    attrs_view, event_attrs, nodes_view, with_attr, Attr, AttrView, EventKind,
    Node, NodeView,
};

verus! {

/// A builder that can be turned into a node.
pub trait NodeBuilder: Sized + View {
    /// The node that a builder of this value turns into.
    spec fn built(v: Self::V) -> NodeView;

    /// Finishes the builder.
    fn node(self) -> (n: Node)
        ensures
            n@ == Self::built(self@),
    ;
}

/// A builder that collects attributes.
pub trait SetAttr: Sized + View {
    /// The builder's value once the attribute `name="value"` has been set.
    spec fn attr_set(v: Self::V, name: Seq<char>, value: Seq<char>) -> Self::V;

    /// Sets the attribute `name` to `value`.
    fn set_attr(self, name: &'static str, value: &str) -> (out: Self)
        ensures
            out@ == Self::attr_set(self@, name@, value@),
    ;
}

/// The event handler attributes, one method for each.
pub trait EventAttr: SetAttr {
    /// Sets the `onabort` handler.
    fn onabort(self, value: &str) -> (out: Self)
        ensures
            out@ == Self::attr_set(self@, "onabort"@, value@),
    {
        self.set_attr("onabort", value)
    }

    /// Sets the `onauxclick` handler.
    fn onauxclick(self, value: &str) -> (out: Self)
        ensures
            out@ == Self::attr_set(self@, "onauxclick"@, value@),
    {
        self.set_attr("onauxclick", value)
    }

    /// Sets the `oncancel` handler.
    fn oncancel(self, value: &str) -> (out: Self)
        ensures
            out@ == Self::attr_set(self@, "oncancel"@, value@),
    {
        self.set_attr("oncancel", value)
    }

    /// Sets the `oncanplay` handler.
    fn oncanplay(self, value: &str) -> (out: Self)
        ensures
            out@ == Self::attr_set(self@, "oncanplay"@, value@),
    {
        self.set_attr("oncanplay", value)
    }

    /// Sets the `oncanplaythrough` handler.
    fn oncanplaythrough(self, value: &str) -> (out: Self)
        ensures
            out@ == Self::attr_set(self@, "oncanplaythrough"@, value@),
    {
        self.set_attr("oncanplaythrough", value)
    }

    /// Sets the `onchange` handler.
    fn onchange(self, value: &str) -> (out: Self)
        ensures
            out@ == Self::attr_set(self@, "onchange"@, value@),
    {
        self.set_attr("onchange", value)
    }

    /// Sets the `onclick` handler.
    fn onclick(self, value: &str) -> (out: Self)
        ensures
            out@ == Self::attr_set(self@, "onclick"@, value@),
    {
        self.set_attr("onclick", value)
    }

    /// Sets the `onclose` handler.
    fn onclose(self, value: &str) -> (out: Self)
        ensures
            out@ == Self::attr_set(self@, "onclose"@, value@),
    {
        self.set_attr("onclose", value)
    }

    /// Sets the `oncuechange` handler.
    fn oncuechange(self, value: &str) -> (out: Self)
        ensures
            out@ == Self::attr_set(self@, "oncuechange"@, value@),
    {
        self.set_attr("oncuechange", value)
    }

    /// Sets the `ondblclick` handler.
    fn ondblclick(self, value: &str) -> (out: Self)
        ensures
            out@ == Self::attr_set(self@, "ondblclick"@, value@),
    {
        self.set_attr("ondblclick", value)
    }

    /// Sets the `ondrag` handler.
    fn ondrag(self, value: &str) -> (out: Self)
        ensures
            out@ == Self::attr_set(self@, "ondrag"@, value@),
    {
        self.set_attr("ondrag", value)
    }

    /// Sets the `ondragend` handler.
    fn ondragend(self, value: &str) -> (out: Self)
        ensures
            out@ == Self::attr_set(self@, "ondragend"@, value@),
    {
        self.set_attr("ondragend", value)
    }

    /// Sets the `ondragenter` handler.
    fn ondragenter(self, value: &str) -> (out: Self)
        ensures
            out@ == Self::attr_set(self@, "ondragenter"@, value@),
    {
        self.set_attr("ondragenter", value)
    }

    /// Sets the `ondragexit` handler.
    fn ondragexit(self, value: &str) -> (out: Self)
        ensures
            out@ == Self::attr_set(self@, "ondragexit"@, value@),
    {
        self.set_attr("ondragexit", value)
    }

    /// Sets the `ondragleave` handler.
    fn ondragleave(self, value: &str) -> (out: Self)
        ensures
            out@ == Self::attr_set(self@, "ondragleave"@, value@),
    {
        self.set_attr("ondragleave", value)
    }

    /// Sets the `ondragover` handler.
    fn ondragover(self, value: &str) -> (out: Self)
        ensures
            out@ == Self::attr_set(self@, "ondragover"@, value@),
    {
        self.set_attr("ondragover", value)
    }

    /// Sets the `ondragstart` handler.
    fn ondragstart(self, value: &str) -> (out: Self)
        ensures
            out@ == Self::attr_set(self@, "ondragstart"@, value@),
    {
        self.set_attr("ondragstart", value)
    }

    /// Sets the `ondrop` handler.
    fn ondrop(self, value: &str) -> (out: Self)
        ensures
            out@ == Self::attr_set(self@, "ondrop"@, value@),
    {
        self.set_attr("ondrop", value)
    }

    /// Sets the `ondurationchange` handler.
    fn ondurationchange(self, value: &str) -> (out: Self)
        ensures
            out@ == Self::attr_set(self@, "ondurationchange"@, value@),
    {
        self.set_attr("ondurationchange", value)
    }

    /// Sets the `onemptied` handler.
    fn onemptied(self, value: &str) -> (out: Self)
        ensures
            out@ == Self::attr_set(self@, "onemptied"@, value@),
    {
        self.set_attr("onemptied", value)
    }

    /// Sets the `onended` handler.
    fn onended(self, value: &str) -> (out: Self)
        ensures
            out@ == Self::attr_set(self@, "onended"@, value@),
    {
        self.set_attr("onended", value)
    }

    /// Sets the `oninput` handler.
    fn oninput(self, value: &str) -> (out: Self)
        ensures
            out@ == Self::attr_set(self@, "oninput"@, value@),
    {
        self.set_attr("oninput", value)
    }

    /// Sets the `oninvalid` handler.
    fn oninvalid(self, value: &str) -> (out: Self)
        ensures
            out@ == Self::attr_set(self@, "oninvalid"@, value@),
    {
        self.set_attr("oninvalid", value)
    }

    /// Sets the `onkeydown` handler.
    fn onkeydown(self, value: &str) -> (out: Self)
        ensures
            out@ == Self::attr_set(self@, "onkeydown"@, value@),
    {
        self.set_attr("onkeydown", value)
    }

    /// Sets the `onkeypress` handler.
    fn onkeypress(self, value: &str) -> (out: Self)
        ensures
            out@ == Self::attr_set(self@, "onkeypress"@, value@),
    {
        self.set_attr("onkeypress", value)
    }

    /// Sets the `onkeyup` handler.
    fn onkeyup(self, value: &str) -> (out: Self)
        ensures
            out@ == Self::attr_set(self@, "onkeyup"@, value@),
    {
        self.set_attr("onkeyup", value)
    }

    /// Sets the `onloadeddata` handler.
    fn onloadeddata(self, value: &str) -> (out: Self)
        ensures
            out@ == Self::attr_set(self@, "onloadeddata"@, value@),
    {
        self.set_attr("onloadeddata", value)
    }

    /// Sets the `onloadedmetadata` handler.
    fn onloadedmetadata(self, value: &str) -> (out: Self)
        ensures
            out@ == Self::attr_set(self@, "onloadedmetadata"@, value@),
    {
        self.set_attr("onloadedmetadata", value)
    }

    /// Sets the `onloadend` handler.
    fn onloadend(self, value: &str) -> (out: Self)
        ensures
            out@ == Self::attr_set(self@, "onloadend"@, value@),
    {
        self.set_attr("onloadend", value)
    }

    /// Sets the `onloadstart` handler.
    fn onloadstart(self, value: &str) -> (out: Self)
        ensures
            out@ == Self::attr_set(self@, "onloadstart"@, value@),
    {
        self.set_attr("onloadstart", value)
    }

    /// Sets the `onmousedown` handler.
    fn onmousedown(self, value: &str) -> (out: Self)
        ensures
            out@ == Self::attr_set(self@, "onmousedown"@, value@),
    {
        self.set_attr("onmousedown", value)
    }

    /// Sets the `onmouseenter` handler.
    fn onmouseenter(self, value: &str) -> (out: Self)
        ensures
            out@ == Self::attr_set(self@, "onmouseenter"@, value@),
    {
        self.set_attr("onmouseenter", value)
    }

    /// Sets the `onmouseleave` handler.
    fn onmouseleave(self, value: &str) -> (out: Self)
        ensures
            out@ == Self::attr_set(self@, "onmouseleave"@, value@),
    {
        self.set_attr("onmouseleave", value)
    }

    /// Sets the `onmousemove` handler.
    fn onmousemove(self, value: &str) -> (out: Self)
        ensures
            out@ == Self::attr_set(self@, "onmousemove"@, value@),
    {
        self.set_attr("onmousemove", value)
    }

    /// Sets the `onmouseout` handler.
    fn onmouseout(self, value: &str) -> (out: Self)
        ensures
            out@ == Self::attr_set(self@, "onmouseout"@, value@),
    {
        self.set_attr("onmouseout", value)
    }

    /// Sets the `onmouseover` handler.
    fn onmouseover(self, value: &str) -> (out: Self)
        ensures
            out@ == Self::attr_set(self@, "onmouseover"@, value@),
    {
        self.set_attr("onmouseover", value)
    }

    /// Sets the `onmouseup` handler.
    fn onmouseup(self, value: &str) -> (out: Self)
        ensures
            out@ == Self::attr_set(self@, "onmouseup"@, value@),
    {
        self.set_attr("onmouseup", value)
    }

    /// Sets the `onwheel` handler.
    fn onwheel(self, value: &str) -> (out: Self)
        ensures
            out@ == Self::attr_set(self@, "onwheel"@, value@),
    {
        self.set_attr("onwheel", value)
    }

    /// Sets the `onpause` handler.
    fn onpause(self, value: &str) -> (out: Self)
        ensures
            out@ == Self::attr_set(self@, "onpause"@, value@),
    {
        self.set_attr("onpause", value)
    }

    /// Sets the `onplay` handler.
    fn onplay(self, value: &str) -> (out: Self)
        ensures
            out@ == Self::attr_set(self@, "onplay"@, value@),
    {
        self.set_attr("onplay", value)
    }

    /// Sets the `onplaying` handler.
    fn onplaying(self, value: &str) -> (out: Self)
        ensures
            out@ == Self::attr_set(self@, "onplaying"@, value@),
    {
        self.set_attr("onplaying", value)
    }

    /// Sets the `onprogress` handler.
    fn onprogress(self, value: &str) -> (out: Self)
        ensures
            out@ == Self::attr_set(self@, "onprogress"@, value@),
    {
        self.set_attr("onprogress", value)
    }

    /// Sets the `onratechange` handler.
    fn onratechange(self, value: &str) -> (out: Self)
        ensures
            out@ == Self::attr_set(self@, "onratechange"@, value@),
    {
        self.set_attr("onratechange", value)
    }

    /// Sets the `onreset` handler.
    fn onreset(self, value: &str) -> (out: Self)
        ensures
            out@ == Self::attr_set(self@, "onreset"@, value@),
    {
        self.set_attr("onreset", value)
    }

    /// Sets the `onseeked` handler.
    fn onseeked(self, value: &str) -> (out: Self)
        ensures
            out@ == Self::attr_set(self@, "onseeked"@, value@),
    {
        self.set_attr("onseeked", value)
    }

    /// Sets the `onseeking` handler.
    fn onseeking(self, value: &str) -> (out: Self)
        ensures
            out@ == Self::attr_set(self@, "onseeking"@, value@),
    {
        self.set_attr("onseeking", value)
    }

    /// Sets the `onselect` handler.
    fn onselect(self, value: &str) -> (out: Self)
        ensures
            out@ == Self::attr_set(self@, "onselect"@, value@),
    {
        self.set_attr("onselect", value)
    }

    /// Sets the `onshow` handler.
    fn onshow(self, value: &str) -> (out: Self)
        ensures
            out@ == Self::attr_set(self@, "onshow"@, value@),
    {
        self.set_attr("onshow", value)
    }

    /// Sets the `onstalled` handler.
    fn onstalled(self, value: &str) -> (out: Self)
        ensures
            out@ == Self::attr_set(self@, "onstalled"@, value@),
    {
        self.set_attr("onstalled", value)
    }

    /// Sets the `onsubmit` handler.
    fn onsubmit(self, value: &str) -> (out: Self)
        ensures
            out@ == Self::attr_set(self@, "onsubmit"@, value@),
    {
        self.set_attr("onsubmit", value)
    }

    /// Sets the `onsuspend` handler.
    fn onsuspend(self, value: &str) -> (out: Self)
        ensures
            out@ == Self::attr_set(self@, "onsuspend"@, value@),
    {
        self.set_attr("onsuspend", value)
    }

    /// Sets the `ontimeupdate` handler.
    fn ontimeupdate(self, value: &str) -> (out: Self)
        ensures
            out@ == Self::attr_set(self@, "ontimeupdate"@, value@),
    {
        self.set_attr("ontimeupdate", value)
    }

    /// Sets the `ontoggle` handler.
    fn ontoggle(self, value: &str) -> (out: Self)
        ensures
            out@ == Self::attr_set(self@, "ontoggle"@, value@),
    {
        self.set_attr("ontoggle", value)
    }

    /// Sets the `onvolumechange` handler.
    fn onvolumechange(self, value: &str) -> (out: Self)
        ensures
            out@ == Self::attr_set(self@, "onvolumechange"@, value@),
    {
        self.set_attr("onvolumechange", value)
    }

    /// Sets the `onwaiting` handler.
    fn onwaiting(self, value: &str) -> (out: Self)
        ensures
            out@ == Self::attr_set(self@, "onwaiting"@, value@),
    {
        self.set_attr("onwaiting", value)
    }

    /// Sets the `onblur` handler.
    fn onblur(self, value: &str) -> (out: Self)
        ensures
            out@ == Self::attr_set(self@, "onblur"@, value@),
    {
        self.set_attr("onblur", value)
    }

    /// Sets the `onerror` handler.
    fn onerror(self, value: &str) -> (out: Self)
        ensures
            out@ == Self::attr_set(self@, "onerror"@, value@),
    {
        self.set_attr("onerror", value)
    }

    /// Sets the `onfocus` handler.
    fn onfocus(self, value: &str) -> (out: Self)
        ensures
            out@ == Self::attr_set(self@, "onfocus"@, value@),
    {
        self.set_attr("onfocus", value)
    }

    /// Sets the `onload` handler.
    fn onload(self, value: &str) -> (out: Self)
        ensures
            out@ == Self::attr_set(self@, "onload"@, value@),
    {
        self.set_attr("onload", value)
    }

    /// Sets the `onresize` handler.
    fn onresize(self, value: &str) -> (out: Self)
        ensures
            out@ == Self::attr_set(self@, "onresize"@, value@),
    {
        self.set_attr("onresize", value)
    }

    /// Sets the `onscroll` handler.
    fn onscroll(self, value: &str) -> (out: Self)
        ensures
            out@ == Self::attr_set(self@, "onscroll"@, value@),
    {
        self.set_attr("onscroll", value)
    }
}

/// The attributes that every element accepts, one method for each.
pub trait GlobalAttr: SetAttr {
    /// Sets the `accesskey` attribute.
    fn accesskey(self, value: &str) -> (out: Self)
        ensures
            out@ == Self::attr_set(self@, "accesskey"@, value@),
    {
        self.set_attr("accesskey", value)
    }

    /// Sets the `class` attribute.
    fn class(self, value: &str) -> (out: Self)
        ensures
            out@ == Self::attr_set(self@, "class"@, value@),
    {
        self.set_attr("class", value)
    }

    /// Sets the `contenteditable` attribute.
    fn contenteditable(self, value: &str) -> (out: Self)
        ensures
            out@ == Self::attr_set(self@, "contenteditable"@, value@),
    {
        self.set_attr("contenteditable", value)
    }

    /// Sets the `dir` attribute.
    fn dir(self, value: &str) -> (out: Self)
        ensures
            out@ == Self::attr_set(self@, "dir"@, value@),
    {
        self.set_attr("dir", value)
    }

    /// Sets the `draggable` attribute.
    fn draggable(self, value: &str) -> (out: Self)
        ensures
            out@ == Self::attr_set(self@, "draggable"@, value@),
    {
        self.set_attr("draggable", value)
    }

    /// Sets the `hidden` attribute.
    fn hidden(self, value: &str) -> (out: Self)
        ensures
            out@ == Self::attr_set(self@, "hidden"@, value@),
    {
        self.set_attr("hidden", value)
    }

    /// Sets the `id` attribute.
    fn id(self, value: &str) -> (out: Self)
        ensures
            out@ == Self::attr_set(self@, "id"@, value@),
    {
        self.set_attr("id", value)
    }

    /// Sets the `lang` attribute.
    fn lang(self, value: &str) -> (out: Self)
        ensures
            out@ == Self::attr_set(self@, "lang"@, value@),
    {
        self.set_attr("lang", value)
    }

    /// Sets the `spellcheck` attribute.
    fn spellcheck(self, value: &str) -> (out: Self)
        ensures
            out@ == Self::attr_set(self@, "spellcheck"@, value@),
    {
        self.set_attr("spellcheck", value)
    }

    /// Sets the `style` attribute.
    fn style(self, value: &str) -> (out: Self)
        ensures
            out@ == Self::attr_set(self@, "style"@, value@),
    {
        self.set_attr("style", value)
    }

    /// Sets the `tabindex` attribute.
    fn tabindex(self, value: &str) -> (out: Self)
        ensures
            out@ == Self::attr_set(self@, "tabindex"@, value@),
    {
        self.set_attr("tabindex", value)
    }

    /// Sets the `title` attribute.
    fn title(self, value: &str) -> (out: Self)
        ensures
            out@ == Self::attr_set(self@, "title"@, value@),
    {
        self.set_attr("title", value)
    }

    /// Sets the `translate` attribute.
    fn translate(self, value: &str) -> (out: Self)
        ensures
            out@ == Self::attr_set(self@, "translate"@, value@),
    {
        self.set_attr("translate", value)
    }

    /// Sets a custom attribute; `name` is used as it is given.
    fn data(self, name: &'static str, value: &str) -> (out: Self)
        ensures
            out@ == Self::attr_set(self@, name@, value@),
    {
        self.set_attr(name, value)
    }
}

/// The mathematical value of an [`ElementBuilder`].
pub struct ElementBuilderView {
    pub tag: Seq<char>,
    pub events: Seq<EventKind>,
    pub attrs: Seq<AttrView>,
    pub children: Seq<NodeView>,
    pub is_empty: bool,
}

/// A builder for an element of any tag.
#[derive(Debug, PartialEq, Eq)]
pub struct ElementBuilder {
    pub tag: &'static str,
    pub events: Vec<EventKind>,
    pub attrs: Vec<Attr>,
    pub children: Vec<Node>,
    pub is_empty: bool,
}

impl View for ElementBuilder {
    type V = ElementBuilderView;

    open spec fn view(&self) -> ElementBuilderView {
        ElementBuilderView {
            tag: self.tag@,
            events: self.events@,
            attrs: attrs_view(self.attrs@),
            children: nodes_view(self.children@),
            is_empty: self.is_empty,
        }
    }
}

impl ElementBuilder {
    /// A builder for an element with a closing tag, so far without attributes,
    /// handlers or children.
    pub fn new(tag: &'static str) -> (out: Self)
        ensures
            out@ == (ElementBuilderView {
                tag: tag@,
                events: Seq::empty(),
                attrs: Seq::empty(),
                children: Seq::empty(),
                is_empty: false,
            }),
    {
        let out = ElementBuilder {
            tag: tag,
            events: Vec::new(),
            attrs: Vec::new(),
            children: Vec::new(),
            is_empty: false,
        };
        proof {
            assert(out@.attrs =~= Seq::empty());
            assert(out@.children =~= Seq::empty());
        }
        out
    }

    /// A builder for an empty element such as `<br>`, which has no closing tag
    /// and renders no children.
    pub fn empty(tag: &'static str) -> (out: Self)
        ensures
            out@ == (ElementBuilderView {
                tag: tag@,
                events: Seq::empty(),
                attrs: Seq::empty(),
                children: Seq::empty(),
                is_empty: true,
            }),
    {
        let out = ElementBuilder {
            tag: tag,
            events: Vec::new(),
            attrs: Vec::new(),
            children: Vec::new(),
            is_empty: true,
        };
        proof {
            assert(out@.attrs =~= Seq::empty());
            assert(out@.children =~= Seq::empty());
        }
        out
    }

    /// Registers the page's handler for one more event.
    pub fn event(self, kind: EventKind) -> (out: Self)
        ensures
            out@ == (ElementBuilderView { events: self@.events.push(kind), ..self@ }),
    {
        let mut events = self.events;
        events.push(kind);
        ElementBuilder {
            tag: self.tag,
            events: events,
            attrs: self.attrs,
            children: self.children,
            is_empty: self.is_empty,
        }
    }

    /// Sets an attribute that has a name only, such as `checked`.
    pub fn flag(self, name: &'static str) -> (out: Self)
        ensures
            out@ == (ElementBuilderView {
                attrs: self@.attrs.push(AttrView { name: name@, value: None }),
                ..self@
            }),
    {
        let mut attrs = self.attrs;
        attrs.push(Attr::name_only(name));
        proof {
            assert(attrs_view(attrs@) =~= self@.attrs.push(AttrView { name: name@, value: None }));
        }
        ElementBuilder {
            tag: self.tag,
            events: self.events,
            attrs: attrs,
            children: self.children,
            is_empty: self.is_empty,
        }
    }

    /// Adds the node that `child` builds after the children added so far.
    pub fn el<B: NodeBuilder>(self, child: B) -> (out: Self)
        ensures
            out@ == (ElementBuilderView {
                children: self@.children.push(B::built(child@)),
                ..self@
            }),
    {
        let mut children = self.children;
        let node = child.node();
        children.push(node);
        proof {
            assert(nodes_view(children@) =~= self@.children.push(B::built(child@)));
        }
        ElementBuilder {
            tag: self.tag,
            events: self.events,
            attrs: self.attrs,
            children: children,
            is_empty: self.is_empty,
        }
    }

    /// Adds a text node after the children added so far.
    pub fn text(self, text: &str) -> (out: Self)
        ensures
            out@ == (ElementBuilderView {
                children: self@.children.push(NodeView::Text(text@)),
                ..self@
            }),
    {
        let mut children = self.children;
        children.push(Node::new_text(text));
        proof {
            assert(nodes_view(children@) =~= self@.children.push(NodeView::Text(text@)));
        }
        ElementBuilder {
            tag: self.tag,
            events: self.events,
            attrs: self.attrs,
            children: children,
            is_empty: self.is_empty,
        }
    }
}

impl NodeBuilder for ElementBuilder {
    /// The attributes in the order they were set, then one handler attribute for
    /// each registered event; the children in the order they were added.
    open spec fn built(v: ElementBuilderView) -> NodeView {
        NodeView::Element {
            tag: v.tag,
            attrs: v.attrs + event_attrs(v.events),
            children: v.children,
            is_empty: v.is_empty,
        }
    }

    fn node(self) -> (n: Node) {
        Node::new_el(self.tag, self.events, self.attrs, self.children, self.is_empty)
    }
}

impl SetAttr for ElementBuilder {
    /// The attribute is added after those already set.
    open spec fn attr_set(
        v: ElementBuilderView,
        name: Seq<char>,
        value: Seq<char>,
    ) -> ElementBuilderView {
        ElementBuilderView { attrs: v.attrs.push(AttrView { name: name, value: Some(value) }), ..v }
    }

    fn set_attr(self, name: &'static str, value: &str) -> (out: Self) {
        ElementBuilder {
            tag: self.tag,
            events: self.events,
            attrs: with_attr(self.attrs, name, value),
            children: self.children,
            is_empty: self.is_empty,
        }
    }
}

impl EventAttr for ElementBuilder {

}

impl GlobalAttr for ElementBuilder {

}

} // verus!
