use vstd::prelude::*;

use crate::attributes::KeyValue;
use crate::dom_node::{DomNode, DomValue, ValueModel};
use crate::processors::{outcome, DomNodeProcessor, Never};

verus! {

broadcast use vstd::std_specs::vec::group_vec_axioms;

/// How one character is written into markup: `&`, `<`, `>`, `"` and `'`
/// become character references, every other character stays as it is.
pub open spec fn escape_char(c: char) -> Seq<char> {
    if c == '&' {
        "&amp;"@
    } else if c == '<' {
        "&lt;"@
    } else if c == '>' {
        "&gt;"@
    } else if c == '"' {
        "&#34;"@
    } else if c == '\'' {
        "&#39;"@
    } else {
        seq![c]
    }
}

/// The text `s` with each character escaped.
pub open spec fn escaped(s: Seq<char>) -> Seq<char>
    decreases s.len(),
{
    if s.len() == 0 {
        Seq::empty()
    } else {
        escaped(s.drop_last()) + escape_char(s.last())
    }
}

/// One attribute as markup: ` key="value"`, the value escaped.
pub open spec fn attr_html(kv: KeyValue) -> Seq<char> {
    " "@ + kv.0@ + "=\""@ + escaped(kv.1.text()) + "\""@
}

/// The first `k` attributes of `attrs` as markup, in order.
pub open spec fn attrs_html(attrs: Seq<KeyValue>, k: int) -> Seq<char>
    decreases k,
{
    if k <= 0 {
        Seq::empty()
    } else {
        attrs_html(attrs, k - 1) + attr_html(attrs[k - 1])
    }
}

/// The markup of a node: an element as its opening tag with its attributes,
/// the markup of its children and its closing tag; a text escaped.
pub open spec fn html_of(n: DomNode) -> Seq<char>
    decreases n, 0int,
{
    match n.value_model() {
        ValueModel::Element(tag) => "<"@ + tag + attrs_html(n.attr_seq(), n.attr_seq().len() as int) + ">"@
            + match n {
            DomNode::Element { children, .. } => html_list(children@, children@.len() as int),
            _ => Seq::empty(),
        } + "</"@ + tag + ">"@,
        ValueModel::Text(t) => escaped(t),
    }
}

/// The markup of the first `k` nodes of `s`, one after another.
pub open spec fn html_list(s: Seq<DomNode>, k: int) -> Seq<char>
    decreases s, k,
{
    if k <= 0 || k > s.len() {
        Seq::empty()
    } else {
        html_list(s, k - 1) + html_of(s[k - 1])
    }
}

/// Appends `s` to `out`, escaped.
pub fn escape_into(out: &mut String, s: &str)
    ensures
        final(out)@ == old(out)@ + escaped(s@),
{
    let n = s.unicode_len();
    let mut i: usize = 0;
    while i < n
        invariant
            n == s@.len(),
            i <= n,
            out@ == old(out)@ + escaped(s@.take(i as int)),
        decreases n - i,
    {
        let c = s.get_char(i);
        proof {
            assert(s@.take(i + 1).drop_last() =~= s@.take(i as int));
        }
        if c == '&' {
            out.append("&amp;");
        } else if c == '<' {
            out.append("&lt;");
        } else if c == '>' {
            out.append("&gt;");
        } else if c == '"' {
            out.append("&#34;");
        } else if c == '\'' {
            out.append("&#39;");
        } else {
            let one = s.substring_char(i, i + 1);
            assert(one@ =~= seq![c]);
            out.append(one);
        }
        assert(out@ =~= old(out)@ + escaped(s@.take(i + 1)));
        i = i + 1;
    }
    assert(s@.take(i as int) =~= s@);
}

/// The text `s`, escaped.
pub fn escape(s: &str) -> (r: String)
    ensures
        r@ == escaped(s@),
{
    let mut r = String::new();
    escape_into(&mut r, s);
    assert(r@ =~= escaped(s@));
    r
}

/// Appends the attributes of `node` to `out` as markup.
fn write_attributes(out: &mut String, node: &DomNode)
    ensures
        final(out)@ == old(out)@ + attrs_html(node.attr_seq(), node.attr_seq().len() as int),
{
    let attrs = node.attributes();
    let mut i: usize = 0;
    while i < attrs.len()
        invariant
            attrs@.len() == node.attr_seq().len(),
            forall|j: int| 0 <= j < attrs@.len() ==> *attrs@[j] == node.attr_seq()[j],
            i <= attrs@.len(),
            out@ == old(out)@ + attrs_html(node.attr_seq(), i as int),
        decreases attrs@.len() - i,
    {
        let kv = attrs[i];
        out.append(" ");
        out.append(kv.0);
        out.append("=\"");
        escape_into(out, kv.1.as_str());
        out.append("\"");
        assert(out@ =~= old(out)@ + attrs_html(node.attr_seq(), i + 1));
        i = i + 1;
    }
}

/// Appends the markup of `node` to `out`.
pub fn write_node(out: &mut String, node: &DomNode)
    ensures
        final(out)@ == old(out)@ + html_of(*node),
    decreases node,
{
    match node.value() {
        DomValue::Element { tag } => {
            out.append("<");
            out.append(tag);
            write_attributes(out, node);
            out.append(">");
            let ghost head = out@;
            match node {
                DomNode::Element { children, .. } => {
                    let mut i: usize = 0;
                    while i < children.len()
                        invariant
                            i <= children@.len(),
                            out@ == head + html_list(children@, i as int),
                            decreases_to!(*node => *children),
                        decreases children@.len() - i,
                    {
                        write_node(out, &children[i]);
                        assert(out@ =~= head + html_list(children@, i + 1));
                        i = i + 1;
                    }
                },
                _ => {},
            }
            out.append("</");
            out.append(tag);
            out.append(">");
            assert(out@ =~= old(out)@ + html_of(*node));
        },
        DomValue::Text(t) => {
            escape_into(out, t.as_str());
        },
    }
}

/// Where markup goes: text is appended, and an append may fail.
///
/// What an append does is a function of the sink's view and the text alone.
pub trait Sink: View + Sized {
    /// Why an append failed.
    type Error;

    /// The view after appending `text` to a sink whose view is `v`, and the
    /// error, if the append failed.
    spec fn after_write(v: Self::V, text: Seq<char>) -> (Self::V, Option<Self::Error>);

    /// Appends `text`.
    fn write_str(&mut self, text: &str) -> (r: Result<(), Self::Error>)
        ensures
            Self::after_write(old(self)@, text@) == (final(self)@, outcome(r)),
    ;
}

/// A string takes every append.
impl Sink for String {
    type Error = Never;

    open spec fn after_write(v: Seq<char>, text: Seq<char>) -> (Seq<char>, Option<Never>) {
        (v + text, None)
    }

    fn write_str(&mut self, text: &str) -> (r: Result<(), Never>) {
        self.append(text);
        Ok(())
    }
}

/// The error of a sink that has no room left.
#[derive(Debug, Clone, Copy, PartialEq, Eq)]
pub struct SinkFull;

/// A string that holds at most `limit` characters. An append that would go
/// past the limit fails and leaves the text as it was.
pub struct LimitedSink {
    text: String,
    limit: usize,
}

impl View for LimitedSink {
    type V = (Seq<char>, nat);

    closed spec fn view(&self) -> (Seq<char>, nat) {
        (self.text@, self.limit as nat)
    }
}

impl LimitedSink {
    /// An empty sink that takes up to `limit` characters.
    pub fn new(limit: usize) -> (r: LimitedSink)
        ensures
            r@ == (Seq::<char>::empty(), limit as nat),
    {
        LimitedSink { text: String::new(), limit }
    }

    /// The text written so far.
    pub fn as_str(&self) -> (r: &str)
        ensures
            r@ == self@.0,
    {
        self.text.as_str()
    }
}

impl Sink for LimitedSink {
    type Error = SinkFull;

    open spec fn after_write(v: (Seq<char>, nat), text: Seq<char>) -> ((Seq<char>, nat), Option<SinkFull>) {
        if v.0.len() + text.len() <= v.1 {
            ((v.0 + text, v.1), None)
        } else {
            (v, Some(SinkFull))
        }
    }

    fn write_str(&mut self, text: &str) -> (r: Result<(), SinkFull>) {
        let have = self.text.as_str().unicode_len();
        let more = text.unicode_len();
        if have <= self.limit && more <= self.limit - have {
            self.text.append(text);
            Ok(())
        } else {
            Err(SinkFull)
        }
    }
}

/// A processor that writes each node handed to it, as markup, to a sink. A
/// failed write stops the fold with the sink's error.
pub struct HtmlWriter<S> {
    sink: std::marker::PhantomData<S>,
}

impl<S: Sink> DomNodeProcessor for HtmlWriter<S> {
    type Acc = S;
    type Error = S::Error;

    open spec fn step(acc: S::V, node: DomNode) -> (S::V, Option<S::Error>) {
        S::after_write(acc, html_of(node))
    }

    fn process(acc: &mut S, node: &DomNode) -> (r: Result<(), S::Error>) {
        let markup = node.to_html();
        acc.write_str(markup.as_str())
    }
}

impl DomNode {
    /// The markup of the node.
    pub fn to_html(&self) -> (r: String)
        ensures
            r@ == html_of(*self),
    {
        let mut r = String::new();
        write_node(&mut r, self);
        assert(r@ =~= html_of(*self));
        r
    }
}

} // verus!
