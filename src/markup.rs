//! Markup trees and their HTML text.
use vstd::prelude::*;

verus! {

/// Relies on std's `String::push`, which appends one character at the end.
pub assume_specification[ String::push ](s: &mut String, c: char)
    ensures
        final(s)@ == old(s)@.push(c),
;

/// The characters that stand for `c` in HTML text and in a quoted attribute value.
pub open spec fn escape_char(c: char) -> Seq<char> {
    if c == '&' {
        seq!['&', 'a', 'm', 'p', ';']
    } else if c == '<' {
        seq!['&', 'l', 't', ';']
    } else if c == '>' {
        seq!['&', 'g', 't', ';']
    } else if c == '"' {
        seq!['&', 'q', 'u', 'o', 't', ';']
    } else {
        seq![c]
    }
}

/// `s` with each character replaced by its escaped form.
pub open spec fn escaped(s: Seq<char>) -> Seq<char>
    decreases s.len(),
{
    if s.len() == 0 {
        Seq::empty()
    } else {
        escaped(s.drop_last()) + escape_char(s.last())
    }
}

/// Appends the escaped form of `c` to `out`.
fn push_escaped_char(out: &mut String, c: char)
    ensures
        final(out)@ == old(out)@ + escape_char(c),
{
    proof {
        reveal_strlit("&amp;");
        reveal_strlit("&lt;");
        reveal_strlit("&gt;");
        reveal_strlit("&quot;");
    }
    if c == '&' {
        out.append("&amp;");
    } else if c == '<' {
        out.append("&lt;");
    } else if c == '>' {
        out.append("&gt;");
    } else if c == '"' {
        out.append("&quot;");
    } else {
        out.push(c);
    }
}

/// Appends the escaped form of `s` to `out`.
pub fn push_escaped(out: &mut String, s: &str)
    ensures
        final(out)@ == old(out)@ + escaped(s@),
{
    let ghost start = out@;
    for c in it: s.chars()
        invariant
            it.seq() == s@,
            out@ == start + escaped(s@.subrange(0, it.index() as int)),
    {
        let ghost done = s@.subrange(0, it.index() as int);
        push_escaped_char(out, c);
        proof {
            let next = s@.subrange(0, it.index() + 1);
            assert(next.drop_last() =~= done);
        }
    }
    proof {
        assert(s@.subrange(0, s@.len() as int) =~= s@);
    }
}

/// One attribute of an element, as a name and an unescaped value.
pub struct Attr {
    pub name: String,
    pub value: String,
}

/// A markup tree: elements with attributes and children, void elements
/// (such as `img`) that have no children and no closing tag, and text.
pub enum Node {
    Element { tag: String, attrs: Vec<Attr>, children: Vec<Node> },
    Void { tag: String, attrs: Vec<Attr> },
    Text { text: String },
}

/// The mathematical model of a `Node`.
pub ghost enum Markup {
    Element { tag: Seq<char>, attrs: Seq<(Seq<char>, Seq<char>)>, children: Seq<Markup> },
    Void { tag: Seq<char>, attrs: Seq<(Seq<char>, Seq<char>)> },
    Text { text: Seq<char> },
}

/// Each attribute as a pair of its name and its value.
pub open spec fn attrs_model(attrs: Seq<Attr>) -> Seq<(Seq<char>, Seq<char>)> {
    attrs.map_values(|a: Attr| (a.name@, a.value@))
}

impl Node {
    pub open spec fn model(self) -> Markup
        decreases self,
    {
        match self {
            Node::Element { tag, attrs, children } => Markup::Element {
                tag: tag@,
                attrs: attrs_model(attrs@),
                children: Node::models(children@),
            },
            Node::Void { tag, attrs } => Markup::Void { tag: tag@, attrs: attrs_model(attrs@) },
            Node::Text { text } => Markup::Text { text: text@ },
        }
    }

    pub open spec fn models(nodes: Seq<Node>) -> Seq<Markup>
        decreases nodes,
    {
        if nodes.len() == 0 {
            Seq::empty()
        } else {
            Node::models(nodes.drop_last()).push(nodes.last().model())
        }
    }
}

impl View for Node {
    type V = Markup;

    open spec fn view(&self) -> Markup {
        self.model()
    }
}

/// ` name="value"` for each attribute in turn, values escaped.
pub open spec fn attrs_html(attrs: Seq<(Seq<char>, Seq<char>)>) -> Seq<char>
    decreases attrs.len(),
{
    if attrs.len() == 0 {
        Seq::empty()
    } else {
        attrs_html(attrs.drop_last()) + seq![' '] + attrs.last().0 + seq!['=', '"'] + escaped(
            attrs.last().1,
        ) + seq!['"']
    }
}

pub open spec fn open_tag(tag: Seq<char>, attrs: Seq<(Seq<char>, Seq<char>)>) -> Seq<char> {
    seq!['<'] + tag + attrs_html(attrs) + seq!['>']
}

pub open spec fn close_tag(tag: Seq<char>) -> Seq<char> {
    seq!['<', '/'] + tag + seq!['>']
}

/// The HTML text of a markup tree.
pub open spec fn html(m: Markup) -> Seq<char>
    decreases m,
{
    match m {
        Markup::Element { tag, attrs, children } => open_tag(tag, attrs) + html_all(children)
            + close_tag(tag),
        Markup::Void { tag, attrs } => open_tag(tag, attrs),
        Markup::Text { text } => escaped(text),
    }
}

/// The HTML text of a sequence of markup trees, one after another.
pub open spec fn html_all(ms: Seq<Markup>) -> Seq<char>
    decreases ms,
{
    if ms.len() == 0 {
        Seq::empty()
    } else {
        html_all(ms.drop_last()) + html(ms.last())
    }
}

proof fn lemma_models_prefix(nodes: Seq<Node>, i: int)
    requires
        0 <= i < nodes.len(),
    ensures
        Node::models(nodes.subrange(0, i + 1)) == Node::models(nodes.subrange(0, i)).push(
            nodes[i].model(),
        ),
        html_all(Node::models(nodes.subrange(0, i + 1))) == html_all(
            Node::models(nodes.subrange(0, i)),
        ) + html(nodes[i].model()),
{
    let pre = nodes.subrange(0, i + 1);
    assert(pre.drop_last() =~= nodes.subrange(0, i));
    let ms = Node::models(pre);
    assert(ms.drop_last() =~= Node::models(nodes.subrange(0, i)));
}

/// Appends `s` to `out` as it stands.
fn push_str(out: &mut String, s: &str)
    ensures
        final(out)@ == old(out)@ + s@,
{
    out.append(s);
}

fn push_attrs(out: &mut String, attrs: &Vec<Attr>)
    ensures
        final(out)@ == old(out)@ + attrs_html(attrs_model(attrs@)),
{
    let ghost start = out@;
    for i in 0..attrs.len()
        invariant
            out@ == start + attrs_html(attrs_model(attrs@.subrange(0, i as int))),
    {
        let ghost before = attrs_model(attrs@.subrange(0, i as int));
        let a = &attrs[i];
        out.push(' ');
        push_str(out, a.name.as_str());
        out.push('=');
        out.push('"');
        push_escaped(out, a.value.as_str());
        out.push('"');
        proof {
            let now = attrs_model(attrs@.subrange(0, i + 1));
            assert(now.drop_last() =~= before);
            assert(now.last() == (a.name@, a.value@));
            assert(out@ =~= start + attrs_html(now));
        }
    }
    proof {
        assert(attrs@.subrange(0, attrs@.len() as int) =~= attrs@);
    }
}

fn push_open_tag(out: &mut String, tag: &String, attrs: &Vec<Attr>)
    ensures
        final(out)@ == old(out)@ + open_tag(tag@, attrs_model(attrs@)),
{
    let ghost start = out@;
    out.push('<');
    push_str(out, tag.as_str());
    push_attrs(out, attrs);
    out.push('>');
    assert(out@ =~= start + open_tag(tag@, attrs_model(attrs@)));
}

/// Appends the HTML text of `n` to `out`.
pub fn push_html(out: &mut String, n: &Node)
    ensures
        final(out)@ == old(out)@ + html(n@),
    decreases n,
{
    let ghost start = out@;
    match n {
        Node::Element { tag, attrs, children } => {
            push_open_tag(out, tag, attrs);
            let ghost opened = out@;
            assert(decreases_to!(*n => *children));
            for i in 0..children.len()
                invariant
                    decreases_to!(*n => *children),
                    out@ == opened + html_all(Node::models(children@.subrange(0, i as int))),
            {
                proof {
                    lemma_models_prefix(children@, i as int);
                    broadcast use vstd::std_specs::vec::axiom_vec_index_decreases;

                    assert(decreases_to!(*children => children[i as int]));
                }
                push_html(out, &children[i]);
            }
            proof {
                assert(children@.subrange(0, children@.len() as int) =~= children@);
            }
            out.push('<');
            out.push('/');
            push_str(out, tag.as_str());
            out.push('>');
            assert(out@ =~= start + html(n@));
        },
        Node::Void { tag, attrs } => {
            push_open_tag(out, tag, attrs);
        },
        Node::Text { text } => {
            push_escaped(out, text.as_str());
        },
    }
}

/// The HTML text of a markup tree.
pub fn render(n: &Node) -> (r: String)
    ensures
        r@ == html(n@),
{
    let mut out = String::new();
    push_html(&mut out, n);
    assert(out@ =~= html(n@));
    out
}

/// The models of `nodes`, one for each.
pub proof fn lemma_models(nodes: Seq<Node>)
    ensures
        Node::models(nodes) == nodes.map_values(|n: Node| n@),
    decreases nodes.len(),
{
    if nodes.len() > 0 {
        lemma_models(nodes.drop_last());
    }
    assert(Node::models(nodes) =~= nodes.map_values(|n: Node| n@));
}

/// An attribute from its name and its unescaped value.
pub fn attr(name: &str, value: &str) -> (a: Attr)
    ensures
        a.name@ == name@,
        a.value@ == value@,
{
    Attr { name: String::from_str(name), value: String::from_str(value) }
}

/// A text node.
pub fn text(s: &str) -> (n: Node)
    ensures
        n@ == (Markup::Text { text: s@ }),
{
    Node::Text { text: String::from_str(s) }
}

/// An element with its attributes and children.
pub fn element(tag: &str, attrs: Vec<Attr>, children: Vec<Node>) -> (n: Node)
    ensures
        n@ == (Markup::Element {
            tag: tag@,
            attrs: attrs_model(attrs@),
            children: children@.map_values(|c: Node| c@),
        }),
{
    proof {
        lemma_models(children@);
    }
    Node::Element { tag: String::from_str(tag), attrs, children }
}

/// An element without children or closing tag.
pub fn void_element(tag: &str, attrs: Vec<Attr>) -> (n: Node)
    ensures
        n@ == (Markup::Void { tag: tag@, attrs: attrs_model(attrs@) }),
{
    Node::Void { tag: String::from_str(tag), attrs }
}

} // verus!
