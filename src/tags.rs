use vstd::prelude::*;

use crate::attributes::KeyValue;
use crate::dom_node::DomNode;
use crate::processors::DomNodes;

verus! {

broadcast use vstd::std_specs::vec::group_vec_axioms;

/// An attribute list handed to a tag constructor beside its children.
pub struct Attributes {
    list: Vec<KeyValue>,
}

impl Attributes {
    /// The attributes, in order.
    pub closed spec fn view(&self) -> Seq<KeyValue> {
        self.list@
    }
}

/// Wraps `list` for a tag constructor.
pub fn attributes(list: Vec<KeyValue>) -> (r: Attributes)
    ensures
        r@ == list@,
{
    Attributes { list }
}

/// What a tag constructor takes: children alone, or an attribute list and
/// children. Either way it comes apart into attributes and children.
pub trait TagProperties: Sized {
    /// The attributes that the element gets.
    spec fn attrs_spec(&self) -> Seq<KeyValue>;

    /// The children that the element gets.
    spec fn children_spec(&self) -> Seq<DomNode>;

    /// The attributes and the children.
    fn into_parts(self) -> (r: (Vec<KeyValue>, Vec<DomNode>))
        ensures
            r.0@ == self.attrs_spec(),
            r.1@ == self.children_spec(),
    ;
}

impl TagProperties for DomNodes {
    open spec fn attrs_spec(&self) -> Seq<KeyValue> {
        Seq::empty()
    }

    open spec fn children_spec(&self) -> Seq<DomNode> {
        self@
    }

    fn into_parts(self) -> (r: (Vec<KeyValue>, Vec<DomNode>)) {
        (Vec::new(), self.into_vec())
    }
}

impl TagProperties for DomNode {
    open spec fn attrs_spec(&self) -> Seq<KeyValue> {
        Seq::empty()
    }

    open spec fn children_spec(&self) -> Seq<DomNode> {
        seq![*self]
    }

    fn into_parts(self) -> (r: (Vec<KeyValue>, Vec<DomNode>)) {
        let mut children: Vec<DomNode> = Vec::new();
        children.push(self);
        (Vec::new(), children)
    }
}

impl TagProperties for (Attributes, DomNodes) {
    open spec fn attrs_spec(&self) -> Seq<KeyValue> {
        self.0@
    }

    open spec fn children_spec(&self) -> Seq<DomNode> {
        self.1@
    }

    fn into_parts(self) -> (r: (Vec<KeyValue>, Vec<DomNode>)) {
        (self.0.list, self.1.into_vec())
    }
}

impl TagProperties for (Attributes, DomNode) {
    open spec fn attrs_spec(&self) -> Seq<KeyValue> {
        self.0@
    }

    open spec fn children_spec(&self) -> Seq<DomNode> {
        seq![self.1]
    }

    fn into_parts(self) -> (r: (Vec<KeyValue>, Vec<DomNode>)) {
        let mut children: Vec<DomNode> = Vec::new();
        children.push(self.1);
        (self.0.list, children)
    }
}

/// The element `tag` with the attributes and children of `props`.
pub fn element<P: TagProperties>(tag: &'static str, props: P) -> (r: DomNode)
    ensures
        r.is_element(tag@, props.attrs_spec(), props.children_spec()),
{
    let (attrs, children) = props.into_parts();
    DomNode::Element { tag, attrs, children }
}

/// A `a` element.
pub fn a<P: TagProperties>(props: P) -> (r: DomNode)
    ensures
        r.is_element("a"@, props.attrs_spec(), props.children_spec()),
{
    element("a", props)
}

/// A `abbr` element.
pub fn abbr<P: TagProperties>(props: P) -> (r: DomNode)
    ensures
        r.is_element("abbr"@, props.attrs_spec(), props.children_spec()),
{
    element("abbr", props)
}

/// A `address` element.
pub fn address<P: TagProperties>(props: P) -> (r: DomNode)
    ensures
        r.is_element("address"@, props.attrs_spec(), props.children_spec()),
{
    element("address", props)
}

/// A `area` element.
pub fn area<P: TagProperties>(props: P) -> (r: DomNode)
    ensures
        r.is_element("area"@, props.attrs_spec(), props.children_spec()),
{
    element("area", props)
}

/// A `article` element.
pub fn article<P: TagProperties>(props: P) -> (r: DomNode)
    ensures
        r.is_element("article"@, props.attrs_spec(), props.children_spec()),
{
    element("article", props)
}

/// A `aside` element.
pub fn aside<P: TagProperties>(props: P) -> (r: DomNode)
    ensures
        r.is_element("aside"@, props.attrs_spec(), props.children_spec()),
{
    element("aside", props)
}

/// A `audio` element.
pub fn audio<P: TagProperties>(props: P) -> (r: DomNode)
    ensures
        r.is_element("audio"@, props.attrs_spec(), props.children_spec()),
{
    element("audio", props)
}

/// A `b` element.
pub fn b<P: TagProperties>(props: P) -> (r: DomNode)
    ensures
        r.is_element("b"@, props.attrs_spec(), props.children_spec()),
{
    element("b", props)
}

/// A `base` element.
pub fn base<P: TagProperties>(props: P) -> (r: DomNode)
    ensures
        r.is_element("base"@, props.attrs_spec(), props.children_spec()),
{
    element("base", props)
}

/// A `bdi` element.
pub fn bdi<P: TagProperties>(props: P) -> (r: DomNode)
    ensures
        r.is_element("bdi"@, props.attrs_spec(), props.children_spec()),
{
    element("bdi", props)
}

/// A `bdo` element.
pub fn bdo<P: TagProperties>(props: P) -> (r: DomNode)
    ensures
        r.is_element("bdo"@, props.attrs_spec(), props.children_spec()),
{
    element("bdo", props)
}

/// A `blockquote` element.
pub fn blockquote<P: TagProperties>(props: P) -> (r: DomNode)
    ensures
        r.is_element("blockquote"@, props.attrs_spec(), props.children_spec()),
{
    element("blockquote", props)
}

/// A `body` element.
pub fn body<P: TagProperties>(props: P) -> (r: DomNode)
    ensures
        r.is_element("body"@, props.attrs_spec(), props.children_spec()),
{
    element("body", props)
}

/// A `br` element.
pub fn br<P: TagProperties>(props: P) -> (r: DomNode)
    ensures
        r.is_element("br"@, props.attrs_spec(), props.children_spec()),
{
    element("br", props)
}

/// A `button` element.
pub fn button<P: TagProperties>(props: P) -> (r: DomNode)
    ensures
        r.is_element("button"@, props.attrs_spec(), props.children_spec()),
{
    element("button", props)
}

/// A `canvas` element.
pub fn canvas<P: TagProperties>(props: P) -> (r: DomNode)
    ensures
        r.is_element("canvas"@, props.attrs_spec(), props.children_spec()),
{
    element("canvas", props)
}

/// A `caption` element.
pub fn caption<P: TagProperties>(props: P) -> (r: DomNode)
    ensures
        r.is_element("caption"@, props.attrs_spec(), props.children_spec()),
{
    element("caption", props)
}

/// A `cite` element.
pub fn cite<P: TagProperties>(props: P) -> (r: DomNode)
    ensures
        r.is_element("cite"@, props.attrs_spec(), props.children_spec()),
{
    element("cite", props)
}

/// A `code` element.
pub fn code<P: TagProperties>(props: P) -> (r: DomNode)
    ensures
        r.is_element("code"@, props.attrs_spec(), props.children_spec()),
{
    element("code", props)
}

/// A `col` element.
pub fn col<P: TagProperties>(props: P) -> (r: DomNode)
    ensures
        r.is_element("col"@, props.attrs_spec(), props.children_spec()),
{
    element("col", props)
}

/// A `colgroup` element.
pub fn colgroup<P: TagProperties>(props: P) -> (r: DomNode)
    ensures
        r.is_element("colgroup"@, props.attrs_spec(), props.children_spec()),
{
    element("colgroup", props)
}

/// A `data` element.
pub fn data<P: TagProperties>(props: P) -> (r: DomNode)
    ensures
        r.is_element("data"@, props.attrs_spec(), props.children_spec()),
{
    element("data", props)
}

/// A `datalist` element.
pub fn datalist<P: TagProperties>(props: P) -> (r: DomNode)
    ensures
        r.is_element("datalist"@, props.attrs_spec(), props.children_spec()),
{
    element("datalist", props)
}

/// A `dd` element.
pub fn dd<P: TagProperties>(props: P) -> (r: DomNode)
    ensures
        r.is_element("dd"@, props.attrs_spec(), props.children_spec()),
{
    element("dd", props)
}

/// A `del` element.
pub fn del<P: TagProperties>(props: P) -> (r: DomNode)
    ensures
        r.is_element("del"@, props.attrs_spec(), props.children_spec()),
{
    element("del", props)
}

/// A `details` element.
pub fn details<P: TagProperties>(props: P) -> (r: DomNode)
    ensures
        r.is_element("details"@, props.attrs_spec(), props.children_spec()),
{
    element("details", props)
}

/// A `dfn` element.
pub fn dfn<P: TagProperties>(props: P) -> (r: DomNode)
    ensures
        r.is_element("dfn"@, props.attrs_spec(), props.children_spec()),
{
    element("dfn", props)
}

/// A `dialog` element.
pub fn dialog<P: TagProperties>(props: P) -> (r: DomNode)
    ensures
        r.is_element("dialog"@, props.attrs_spec(), props.children_spec()),
{
    element("dialog", props)
}

/// A `div` element.
pub fn div<P: TagProperties>(props: P) -> (r: DomNode)
    ensures
        r.is_element("div"@, props.attrs_spec(), props.children_spec()),
{
    element("div", props)
}

/// A `dl` element.
pub fn dl<P: TagProperties>(props: P) -> (r: DomNode)
    ensures
        r.is_element("dl"@, props.attrs_spec(), props.children_spec()),
{
    element("dl", props)
}

/// A `dt` element.
pub fn dt<P: TagProperties>(props: P) -> (r: DomNode)
    ensures
        r.is_element("dt"@, props.attrs_spec(), props.children_spec()),
{
    element("dt", props)
}

/// A `em` element.
pub fn em<P: TagProperties>(props: P) -> (r: DomNode)
    ensures
        r.is_element("em"@, props.attrs_spec(), props.children_spec()),
{
    element("em", props)
}

/// A `embed` element.
pub fn embed<P: TagProperties>(props: P) -> (r: DomNode)
    ensures
        r.is_element("embed"@, props.attrs_spec(), props.children_spec()),
{
    element("embed", props)
}

/// A `fieldset` element.
pub fn fieldset<P: TagProperties>(props: P) -> (r: DomNode)
    ensures
        r.is_element("fieldset"@, props.attrs_spec(), props.children_spec()),
{
    element("fieldset", props)
}

/// A `figcaption` element.
pub fn figcaption<P: TagProperties>(props: P) -> (r: DomNode)
    ensures
        r.is_element("figcaption"@, props.attrs_spec(), props.children_spec()),
{
    element("figcaption", props)
}

/// A `figure` element.
pub fn figure<P: TagProperties>(props: P) -> (r: DomNode)
    ensures
        r.is_element("figure"@, props.attrs_spec(), props.children_spec()),
{
    element("figure", props)
}

/// A `footer` element.
pub fn footer<P: TagProperties>(props: P) -> (r: DomNode)
    ensures
        r.is_element("footer"@, props.attrs_spec(), props.children_spec()),
{
    element("footer", props)
}

/// A `form` element.
pub fn form<P: TagProperties>(props: P) -> (r: DomNode)
    ensures
        r.is_element("form"@, props.attrs_spec(), props.children_spec()),
{
    element("form", props)
}

/// A `h1` element.
pub fn h1<P: TagProperties>(props: P) -> (r: DomNode)
    ensures
        r.is_element("h1"@, props.attrs_spec(), props.children_spec()),
{
    element("h1", props)
}

/// A `h2` element.
pub fn h2<P: TagProperties>(props: P) -> (r: DomNode)
    ensures
        r.is_element("h2"@, props.attrs_spec(), props.children_spec()),
{
    element("h2", props)
}

/// A `h3` element.
pub fn h3<P: TagProperties>(props: P) -> (r: DomNode)
    ensures
        r.is_element("h3"@, props.attrs_spec(), props.children_spec()),
{
    element("h3", props)
}

/// A `h4` element.
pub fn h4<P: TagProperties>(props: P) -> (r: DomNode)
    ensures
        r.is_element("h4"@, props.attrs_spec(), props.children_spec()),
{
    element("h4", props)
}

/// A `h5` element.
pub fn h5<P: TagProperties>(props: P) -> (r: DomNode)
    ensures
        r.is_element("h5"@, props.attrs_spec(), props.children_spec()),
{
    element("h5", props)
}

/// A `h6` element.
pub fn h6<P: TagProperties>(props: P) -> (r: DomNode)
    ensures
        r.is_element("h6"@, props.attrs_spec(), props.children_spec()),
{
    element("h6", props)
}

/// A `head` element.
pub fn head<P: TagProperties>(props: P) -> (r: DomNode)
    ensures
        r.is_element("head"@, props.attrs_spec(), props.children_spec()),
{
    element("head", props)
}

/// A `header` element.
pub fn header<P: TagProperties>(props: P) -> (r: DomNode)
    ensures
        r.is_element("header"@, props.attrs_spec(), props.children_spec()),
{
    element("header", props)
}

/// A `hr` element.
pub fn hr<P: TagProperties>(props: P) -> (r: DomNode)
    ensures
        r.is_element("hr"@, props.attrs_spec(), props.children_spec()),
{
    element("hr", props)
}

/// A `html` element.
pub fn html<P: TagProperties>(props: P) -> (r: DomNode)
    ensures
        r.is_element("html"@, props.attrs_spec(), props.children_spec()),
{
    element("html", props)
}

/// A `i` element.
pub fn i<P: TagProperties>(props: P) -> (r: DomNode)
    ensures
        r.is_element("i"@, props.attrs_spec(), props.children_spec()),
{
    element("i", props)
}

/// A `iframe` element.
pub fn iframe<P: TagProperties>(props: P) -> (r: DomNode)
    ensures
        r.is_element("iframe"@, props.attrs_spec(), props.children_spec()),
{
    element("iframe", props)
}

/// A `img` element.
pub fn img<P: TagProperties>(props: P) -> (r: DomNode)
    ensures
        r.is_element("img"@, props.attrs_spec(), props.children_spec()),
{
    element("img", props)
}

/// A `input` element.
pub fn input<P: TagProperties>(props: P) -> (r: DomNode)
    ensures
        r.is_element("input"@, props.attrs_spec(), props.children_spec()),
{
    element("input", props)
}

/// A `ins` element.
pub fn ins<P: TagProperties>(props: P) -> (r: DomNode)
    ensures
        r.is_element("ins"@, props.attrs_spec(), props.children_spec()),
{
    element("ins", props)
}

/// A `kbd` element.
pub fn kbd<P: TagProperties>(props: P) -> (r: DomNode)
    ensures
        r.is_element("kbd"@, props.attrs_spec(), props.children_spec()),
{
    element("kbd", props)
}

/// A `label` element.
pub fn label<P: TagProperties>(props: P) -> (r: DomNode)
    ensures
        r.is_element("label"@, props.attrs_spec(), props.children_spec()),
{
    element("label", props)
}

/// A `legend` element.
pub fn legend<P: TagProperties>(props: P) -> (r: DomNode)
    ensures
        r.is_element("legend"@, props.attrs_spec(), props.children_spec()),
{
    element("legend", props)
}

/// A `li` element.
pub fn li<P: TagProperties>(props: P) -> (r: DomNode)
    ensures
        r.is_element("li"@, props.attrs_spec(), props.children_spec()),
{
    element("li", props)
}

/// A `link` element.
pub fn link<P: TagProperties>(props: P) -> (r: DomNode)
    ensures
        r.is_element("link"@, props.attrs_spec(), props.children_spec()),
{
    element("link", props)
}

/// A `main` element.
pub fn main<P: TagProperties>(props: P) -> (r: DomNode)
    ensures
        r.is_element("main"@, props.attrs_spec(), props.children_spec()),
{
    element("main", props)
}

/// A `mark` element.
pub fn mark<P: TagProperties>(props: P) -> (r: DomNode)
    ensures
        r.is_element("mark"@, props.attrs_spec(), props.children_spec()),
{
    element("mark", props)
}

/// A `meta` element.
pub fn meta<P: TagProperties>(props: P) -> (r: DomNode)
    ensures
        r.is_element("meta"@, props.attrs_spec(), props.children_spec()),
{
    element("meta", props)
}

/// A `meter` element.
pub fn meter<P: TagProperties>(props: P) -> (r: DomNode)
    ensures
        r.is_element("meter"@, props.attrs_spec(), props.children_spec()),
{
    element("meter", props)
}

/// A `nav` element.
pub fn nav<P: TagProperties>(props: P) -> (r: DomNode)
    ensures
        r.is_element("nav"@, props.attrs_spec(), props.children_spec()),
{
    element("nav", props)
}

/// A `noscript` element.
pub fn noscript<P: TagProperties>(props: P) -> (r: DomNode)
    ensures
        r.is_element("noscript"@, props.attrs_spec(), props.children_spec()),
{
    element("noscript", props)
}

/// A `object` element.
pub fn object<P: TagProperties>(props: P) -> (r: DomNode)
    ensures
        r.is_element("object"@, props.attrs_spec(), props.children_spec()),
{
    element("object", props)
}

/// A `ol` element.
pub fn ol<P: TagProperties>(props: P) -> (r: DomNode)
    ensures
        r.is_element("ol"@, props.attrs_spec(), props.children_spec()),
{
    element("ol", props)
}

/// A `optgroup` element.
pub fn optgroup<P: TagProperties>(props: P) -> (r: DomNode)
    ensures
        r.is_element("optgroup"@, props.attrs_spec(), props.children_spec()),
{
    element("optgroup", props)
}

/// A `option` element.
pub fn option<P: TagProperties>(props: P) -> (r: DomNode)
    ensures
        r.is_element("option"@, props.attrs_spec(), props.children_spec()),
{
    element("option", props)
}

/// A `output` element.
pub fn output<P: TagProperties>(props: P) -> (r: DomNode)
    ensures
        r.is_element("output"@, props.attrs_spec(), props.children_spec()),
{
    element("output", props)
}

/// A `p` element.
pub fn p<P: TagProperties>(props: P) -> (r: DomNode)
    ensures
        r.is_element("p"@, props.attrs_spec(), props.children_spec()),
{
    element("p", props)
}

/// A `param` element.
pub fn param<P: TagProperties>(props: P) -> (r: DomNode)
    ensures
        r.is_element("param"@, props.attrs_spec(), props.children_spec()),
{
    element("param", props)
}

/// A `picture` element.
pub fn picture<P: TagProperties>(props: P) -> (r: DomNode)
    ensures
        r.is_element("picture"@, props.attrs_spec(), props.children_spec()),
{
    element("picture", props)
}

/// A `pre` element.
pub fn pre<P: TagProperties>(props: P) -> (r: DomNode)
    ensures
        r.is_element("pre"@, props.attrs_spec(), props.children_spec()),
{
    element("pre", props)
}

/// A `progress` element.
pub fn progress<P: TagProperties>(props: P) -> (r: DomNode)
    ensures
        r.is_element("progress"@, props.attrs_spec(), props.children_spec()),
{
    element("progress", props)
}

/// A `q` element.
pub fn q<P: TagProperties>(props: P) -> (r: DomNode)
    ensures
        r.is_element("q"@, props.attrs_spec(), props.children_spec()),
{
    element("q", props)
}

/// A `rp` element.
pub fn rp<P: TagProperties>(props: P) -> (r: DomNode)
    ensures
        r.is_element("rp"@, props.attrs_spec(), props.children_spec()),
{
    element("rp", props)
}

/// A `rt` element.
pub fn rt<P: TagProperties>(props: P) -> (r: DomNode)
    ensures
        r.is_element("rt"@, props.attrs_spec(), props.children_spec()),
{
    element("rt", props)
}

/// A `ruby` element.
pub fn ruby<P: TagProperties>(props: P) -> (r: DomNode)
    ensures
        r.is_element("ruby"@, props.attrs_spec(), props.children_spec()),
{
    element("ruby", props)
}

/// A `s` element.
pub fn s<P: TagProperties>(props: P) -> (r: DomNode)
    ensures
        r.is_element("s"@, props.attrs_spec(), props.children_spec()),
{
    element("s", props)
}

/// A `samp` element.
pub fn samp<P: TagProperties>(props: P) -> (r: DomNode)
    ensures
        r.is_element("samp"@, props.attrs_spec(), props.children_spec()),
{
    element("samp", props)
}

/// A `script` element.
pub fn script<P: TagProperties>(props: P) -> (r: DomNode)
    ensures
        r.is_element("script"@, props.attrs_spec(), props.children_spec()),
{
    element("script", props)
}

/// A `section` element.
pub fn section<P: TagProperties>(props: P) -> (r: DomNode)
    ensures
        r.is_element("section"@, props.attrs_spec(), props.children_spec()),
{
    element("section", props)
}

/// A `select` element.
pub fn select<P: TagProperties>(props: P) -> (r: DomNode)
    ensures
        r.is_element("select"@, props.attrs_spec(), props.children_spec()),
{
    element("select", props)
}

/// A `small` element.
pub fn small<P: TagProperties>(props: P) -> (r: DomNode)
    ensures
        r.is_element("small"@, props.attrs_spec(), props.children_spec()),
{
    element("small", props)
}

/// A `source` element.
pub fn source<P: TagProperties>(props: P) -> (r: DomNode)
    ensures
        r.is_element("source"@, props.attrs_spec(), props.children_spec()),
{
    element("source", props)
}

/// A `span` element.
pub fn span<P: TagProperties>(props: P) -> (r: DomNode)
    ensures
        r.is_element("span"@, props.attrs_spec(), props.children_spec()),
{
    element("span", props)
}

/// A `strong` element.
pub fn strong<P: TagProperties>(props: P) -> (r: DomNode)
    ensures
        r.is_element("strong"@, props.attrs_spec(), props.children_spec()),
{
    element("strong", props)
}

/// A `style` element.
pub fn style<P: TagProperties>(props: P) -> (r: DomNode)
    ensures
        r.is_element("style"@, props.attrs_spec(), props.children_spec()),
{
    element("style", props)
}

/// A `sub` element.
pub fn sub<P: TagProperties>(props: P) -> (r: DomNode)
    ensures
        r.is_element("sub"@, props.attrs_spec(), props.children_spec()),
{
    element("sub", props)
}

/// A `summary` element.
pub fn summary<P: TagProperties>(props: P) -> (r: DomNode)
    ensures
        r.is_element("summary"@, props.attrs_spec(), props.children_spec()),
{
    element("summary", props)
}

/// A `sup` element.
pub fn sup<P: TagProperties>(props: P) -> (r: DomNode)
    ensures
        r.is_element("sup"@, props.attrs_spec(), props.children_spec()),
{
    element("sup", props)
}

/// A `table` element.
pub fn table<P: TagProperties>(props: P) -> (r: DomNode)
    ensures
        r.is_element("table"@, props.attrs_spec(), props.children_spec()),
{
    element("table", props)
}

/// A `tbody` element.
pub fn tbody<P: TagProperties>(props: P) -> (r: DomNode)
    ensures
        r.is_element("tbody"@, props.attrs_spec(), props.children_spec()),
{
    element("tbody", props)
}

/// A `td` element.
pub fn td<P: TagProperties>(props: P) -> (r: DomNode)
    ensures
        r.is_element("td"@, props.attrs_spec(), props.children_spec()),
{
    element("td", props)
}

/// A `template` element.
pub fn template<P: TagProperties>(props: P) -> (r: DomNode)
    ensures
        r.is_element("template"@, props.attrs_spec(), props.children_spec()),
{
    element("template", props)
}

/// A `textarea` element.
pub fn textarea<P: TagProperties>(props: P) -> (r: DomNode)
    ensures
        r.is_element("textarea"@, props.attrs_spec(), props.children_spec()),
{
    element("textarea", props)
}

/// A `tfoot` element.
pub fn tfoot<P: TagProperties>(props: P) -> (r: DomNode)
    ensures
        r.is_element("tfoot"@, props.attrs_spec(), props.children_spec()),
{
    element("tfoot", props)
}

/// A `th` element.
pub fn th<P: TagProperties>(props: P) -> (r: DomNode)
    ensures
        r.is_element("th"@, props.attrs_spec(), props.children_spec()),
{
    element("th", props)
}

/// A `thead` element.
pub fn thead<P: TagProperties>(props: P) -> (r: DomNode)
    ensures
        r.is_element("thead"@, props.attrs_spec(), props.children_spec()),
{
    element("thead", props)
}

/// A `time` element.
pub fn time<P: TagProperties>(props: P) -> (r: DomNode)
    ensures
        r.is_element("time"@, props.attrs_spec(), props.children_spec()),
{
    element("time", props)
}

/// A `title` element.
pub fn title<P: TagProperties>(props: P) -> (r: DomNode)
    ensures
        r.is_element("title"@, props.attrs_spec(), props.children_spec()),
{
    element("title", props)
}

/// A `tr` element.
pub fn tr<P: TagProperties>(props: P) -> (r: DomNode)
    ensures
        r.is_element("tr"@, props.attrs_spec(), props.children_spec()),
{
    element("tr", props)
}

/// A `track` element.
pub fn track<P: TagProperties>(props: P) -> (r: DomNode)
    ensures
        r.is_element("track"@, props.attrs_spec(), props.children_spec()),
{
    element("track", props)
}

/// A `u` element.
pub fn u<P: TagProperties>(props: P) -> (r: DomNode)
    ensures
        r.is_element("u"@, props.attrs_spec(), props.children_spec()),
{
    element("u", props)
}

/// A `ul` element.
pub fn ul<P: TagProperties>(props: P) -> (r: DomNode)
    ensures
        r.is_element("ul"@, props.attrs_spec(), props.children_spec()),
{
    element("ul", props)
}

/// A `var` element.
pub fn var<P: TagProperties>(props: P) -> (r: DomNode)
    ensures
        r.is_element("var"@, props.attrs_spec(), props.children_spec()),
{
    element("var", props)
}

/// A `video` element.
pub fn video<P: TagProperties>(props: P) -> (r: DomNode)
    ensures
        r.is_element("video"@, props.attrs_spec(), props.children_spec()),
{
    element("video", props)
}

/// A `wbr` element.
pub fn wbr<P: TagProperties>(props: P) -> (r: DomNode)
    ensures
        r.is_element("wbr"@, props.attrs_spec(), props.children_spec()),
{
    element("wbr", props)
}

} // verus!
