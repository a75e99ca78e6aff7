//! Text helpers shared by the renderers: joining with a delimiter and
//! comparing string slices.

use vstd::prelude::*;
use vstd::string::*;

verus! {

/// The parts in order, with `delim` between each two neighbours.
pub open spec fn join(parts: Seq<Seq<char>>, delim: Seq<char>) -> Seq<char>
    decreases parts.len(),
{
    if parts.len() == 0 {
        Seq::empty()
    } else if parts.len() == 1 {
        parts[0]
    } else {
        join(parts.drop_last(), delim) + delim + parts.last()
    }
}

/// The markup of one attribute: the bare name, or `name="value"`.
pub open spec fn attribute_markup(name: Seq<char>, value: Option<Seq<char>>) -> Seq<char> {
    match value {
        Some(v) => name + "=\""@ + v + "\""@,
        None => name,
    }
}

/// An opening tag: the tag name, then a single space and the attributes, each
/// separated from the next by a single space, where there is at least one.
pub open spec fn open_tag_markup(tag: Seq<char>, attrs: Seq<Seq<char>>) -> Seq<char> {
    if attrs.len() == 0 {
        "<"@ + tag + ">"@
    } else {
        "<"@ + tag + " "@ + join(attrs, " "@) + ">"@
    }
}

/// A closing tag.
pub open spec fn close_tag_markup(tag: Seq<char>) -> Seq<char> {
    "</"@ + tag + ">"@
}

/// The views of a vector of strings, in order.
pub open spec fn strings_view(parts: Seq<String>) -> Seq<Seq<char>> {
    Seq::new(parts.len(), |i: int| parts[i]@)
}

/// Joining one more part onto a non-empty list adds the delimiter and the part.
pub proof fn lemma_join_push(parts: Seq<Seq<char>>, delim: Seq<char>, part: Seq<char>)
    ensures
        join(parts.push(part), delim) == if parts.len() == 0 {
            part
        } else {
            join(parts, delim) + delim + part
        },
{
    let all = parts.push(part);
    assert(all.drop_last() =~= parts);
    assert(all.last() == part);
    if parts.len() > 0 {
        assert(all.len() >= 2);
    } else {
        assert(all[0] == part);
    }
}

/// `std`'s equality of string slices: true exactly when the two hold the same
/// characters.
#[verifier::external_body]
pub(crate) fn str_eq(a: &str, b: &str) -> (same: bool)
    ensures
        same == (a@ == b@),
{
    a == b
}

/// Renders one attribute from its name and optional value.
pub fn attribute_to_html(name: &str, value: &Option<String>) -> (out: String)
    ensures
        out@ == attribute_markup(
            name@,
            match value {
                Some(v) => Some(v@),
                None => None,
            },
        ),
{
    let mut out = String::from_str(name);
    if let Some(v) = value {
        out.append("=\"");
        out.append(v.as_str());
        out.append("\"");
    }
    out
}

/// Renders an opening tag from the tag name and the rendered attributes.
pub fn open_tag(tag: &str, attrs: &Vec<String>) -> (out: String)
    ensures
        out@ == open_tag_markup(tag@, strings_view(attrs@)),
{
    let mut out = String::from_str("<");
    out.append(tag);
    if attrs.len() > 0 {
        let list = join_as_strings(attrs, " ");
        out.append(" ");
        out.append(list.as_str());
    }
    out.append(">");
    out
}

/// Renders a closing tag.
pub fn close_tag(tag: &str) -> (out: String)
    ensures
        out@ == close_tag_markup(tag@),
{
    let mut out = String::from_str("</");
    out.append(tag);
    out.append(">");
    out
}

/// Joins the strings with `delim` between neighbours.
pub fn join_as_strings(parts: &Vec<String>, delim: &str) -> (out: String)
    ensures
        out@ == join(strings_view(parts@), delim@),
{
    let mut out = String::new();
    let ghost views = strings_view(parts@);
    let mut i: usize = 0;
    while i < parts.len()
        invariant
            i <= parts.len(),
            views == strings_view(parts@),
            out@ == join(views.take(i as int), delim@),
        decreases parts.len() - i,
    {
        proof {
            lemma_join_push(views.take(i as int), delim@, views[i as int]);
            assert(views.take(i as int).push(views[i as int]) =~= views.take(i as int + 1));
        }
        if i > 0 {
            out.append(delim);
        }
        out.append(parts[i].as_str());
        i = i + 1;
    }
    proof {
        assert(views.take(parts.len() as int) =~= views);
    }
    out
}

/// Whether no two of the strings are equal.
pub fn all_distinct(items: &Vec<String>) -> (distinct: bool)
    ensures
        distinct == strings_view(items@).no_duplicates(),
{
    let ghost views = strings_view(items@);
    let mut i: usize = 0;
    while i < items.len()
        invariant
            i <= items.len(),
            views == strings_view(items@),
            forall|a: int, b: int| 0 <= a < i && a < b < views.len() ==> views[a] != views[b],
        decreases items.len() - i,
    {
        let mut j: usize = i + 1;
        while j < items.len()
            invariant
                i < j <= items.len(),
                views == strings_view(items@),
                forall|b: int| i < b < j ==> views[i as int] != views[b],
            decreases items.len() - j,
        {
            if str_eq(items[i].as_str(), items[j].as_str()) {
                proof {
                    assert(views[i as int] == views[j as int]);
                }
                return false;
            }
            j = j + 1;
        }
        i = i + 1;
    }
    proof {
        assert forall|a: int, b: int|
            0 <= a < views.len() && 0 <= b < views.len() && a != b implies views[a] != views[b] by {
            if a < b {
            } else {
                assert(views[b] != views[a]);
            }
        }
    }
    true
}

} // verus!
