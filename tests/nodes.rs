use domafic::attributes::AttributeValue::{Bool, OwnedStr, Str};
use domafic::dom_node::{DomNode, DomValue};
use domafic::html_writer::{escape, HtmlWriter, LimitedSink, SinkFull};
use domafic::processors::{ChildCounter, DomNodes};
use domafic::tags::{attributes, div, element, table, th, tr};

fn bogus_one() -> DomNode {
    element("bogus_tag_one", DomNodes::empty())
}

fn bogus_two() -> DomNode {
    element("bogus_tag_two", DomNodes::empty())
}

fn html_sample() -> DomNode {
    div((
        attributes(vec![("attr", Str("value"))]),
        DomNodes::concat(vec![
            DomNodes::one(bogus_one()),
            DomNodes::one(bogus_one()),
            DomNodes::one(bogus_two()),
            DomNodes::one(table(DomNodes::concat(vec![
                DomNodes::one(DomNode::text("something&")),
                DomNodes::one(th(DomNodes::empty())),
                DomNodes::one(tr(DomNodes::empty())),
                DomNodes::one(tr(DomNodes::empty())),
            ]))),
        ]),
    ))
}

fn html_either(include_rows: bool) -> DomNode {
    div(table(if include_rows {
        DomNodes::concat(vec![
            DomNodes::one(tr(DomNode::text("a"))),
            DomNodes::one(tr(DomNode::text("b"))),
        ])
    } else {
        DomNodes::one(DomNode::text("sumthin else"))
    }))
}

fn without_whitespace(string: String) -> String {
    string.chars().filter(|c| !c.is_whitespace()).collect()
}

fn builds_an_either_string(arg: bool, expected: &'static str) {
    assert_eq!(
        without_whitespace(expected.to_string()),
        without_whitespace(html_either(arg).to_html())
    );
}

fn count_of(nodes: &DomNodes) -> usize {
    let mut count = 0;
    nodes.process_all::<ChildCounter>(&mut count).unwrap();
    count
}

#[test]
fn builds_either_string() {
    builds_an_either_string(true, r#"
    <div>
        <table>
            <tr>a</tr>
            <tr>b</tr>
        </table>
    </div>
    "#);

    builds_an_either_string(false, r#"
    <div>
        <table>
            sumthin else
        </table>
    </div>
    "#);
}

#[test]
fn nonstatic_nodes() {
    fn str_div(str_val: &str) -> DomNode {
        div(DomNode::text(str_val))
    }

    let hello_string = "hello".to_string();
    let hello_div = str_div(&hello_string);
    assert_eq!("<div>hello</div>".to_string(), hello_div.to_html());
}

#[test]
fn counts_children() {
    let mut count = 0;
    DomNodes::concat(vec![
        DomNodes::one(bogus_one()),
        DomNodes::one(bogus_one()),
        DomNodes::one(bogus_two()),
    ]).process_all::<ChildCounter>(&mut count).unwrap();
    assert_eq!(3, count);

    count = 0;
    DomNodes::concat(vec![
        DomNodes::one(bogus_one()),
        DomNodes::concat(vec![DomNodes::one(bogus_one())]),
        DomNodes::one(bogus_two()),
    ]).process_all::<ChildCounter>(&mut count).unwrap();
    assert_eq!(3, count);

    count = 0;
    DomNodes::from_vec(vec![bogus_one(), bogus_one(), bogus_one()])
        .process_all::<ChildCounter>(&mut count).unwrap();
    assert_eq!(3, count);

    count = 0;
    DomNodes::concat(vec![
        DomNodes::one(bogus_one()),
        DomNodes::one(bogus_one()),
        DomNodes::from_vec(vec![bogus_one(), bogus_one(), bogus_one()]),
        DomNodes::from_vec(vec![bogus_one()]),
        DomNodes::concat(vec![DomNodes::empty(), DomNodes::empty(), DomNodes::empty()]),
        DomNodes::from_vec(vec![bogus_two(), bogus_two(), bogus_two()]),
    ]).process_all::<ChildCounter>(&mut count).unwrap();
    assert_eq!(9, count);

    let sample = html_sample();

    count = 0;
    sample.process_all::<ChildCounter>(&mut count).unwrap();
    assert_eq!(1, count);

    count = 0;
    sample.process_children::<ChildCounter>(&mut count).unwrap();
    assert_eq!(4, count);
}

#[test]
fn builds_string() {
    let string = html_sample().to_html();
    assert_eq!(
        without_whitespace(r#"
        <div attr="value">
            <bogus_tag_one></bogus_tag_one>
            <bogus_tag_one></bogus_tag_one>
            <bogus_tag_two></bogus_tag_two>
            <table>
                something&amp;
                <th></th>
                <tr></tr>
                <tr></tr>
            </table>
        </div>
        "#.to_string()),
        without_whitespace(string)
    );
}

#[test]
fn escapes_text() {
    fn local_div(text_value: &'static str) -> DomNode {
        div(DomNodes::concat(vec![DomNodes::one(DomNode::text(text_value))]))
    }

    assert_eq!(
        r#"<div>embedded &#34;quotes&#34;</div>"#.to_string(),
        local_div(r#"embedded "quotes""#).to_html()
    );
    assert_eq!(
        r#"<div>embedded &lt;tag&gt;</div>"#.to_string(),
        local_div(r#"embedded <tag>"#).to_html()
    );
}

fn check_attribute_list(div: DomNode) {
    assert_eq!(div.get_attribute(0), Some(&("attr1", Str("val1"))));
    assert_eq!(div.get_attribute(1), Some(&("attr2", Str("val2"))));
    assert_eq!(div.get_attribute(2), Some(&("attr3", Str("val3"))));
    assert_eq!(div.get_attribute(3), None);

    let mut attr_iter = div.attributes().into_iter();
    assert_eq!(attr_iter.next(), Some(&("attr1", Str("val1"))));
    assert_eq!(attr_iter.next(), Some(&("attr2", Str("val2"))));
    assert_eq!(attr_iter.next(), Some(&("attr3", Str("val3"))));
    assert_eq!(attr_iter.next(), None);
}

#[test]
fn builds_attribute_list() {
    let div1 = div(DomNodes::empty())
        .with_attributes(vec![("attr2", Str("val2")), ("attr3", Str("val3"))])
        .with_attributes(vec![("attr1", Str("val1"))]);
    check_attribute_list(div1);

    let div2 = div((
        attributes(vec![("attr2", Str("val2")), ("attr3", Str("val3"))]),
        div(DomNodes::empty()),
    )).with_attributes(vec![("attr1", Str("val1"))]);
    check_attribute_list(div2);
}

#[test]
fn overlay_folds_no_children() {
    let wrapped = div(DomNodes::from_vec(vec![bogus_one(), bogus_two(), bogus_one()]));
    let mut count = 0;
    wrapped.process_children::<ChildCounter>(&mut count).unwrap();
    assert_eq!(3, count);

    let overlay = wrapped.with_attributes(vec![("class", Str("x"))]);
    count = 0;
    overlay.process_children::<ChildCounter>(&mut count).unwrap();
    assert_eq!(0, count);
    assert_eq!(
        "<div class=\"x\"></div>".to_string(),
        overlay.to_html()
    );
}

#[test]
fn overlay_keeps_value() {
    let overlay = DomNode::text("plain").with_attributes(vec![("k", Bool(true))]);
    match overlay.value() {
        DomValue::Text(s) => assert_eq!("plain", s),
        DomValue::Element { .. } => panic!("expected a text"),
    }
    assert_eq!(overlay.get_attribute(0), Some(&("k", Bool(true))));
    assert_eq!(overlay.get_attribute(1), None);
    assert_eq!("plain".to_string(), overlay.to_html());
    match div(DomNodes::empty()).value() {
        DomValue::Element { tag } => assert_eq!("div", tag),
        DomValue::Text(_) => panic!("expected an element"),
    }
}

#[test]
fn attribute_indices_exhaust() {
    let node = div((attributes(vec![("a", Str("1"))]), DomNodes::empty()));
    assert!(node.get_attribute(0).is_some());
    for i in 1..10 {
        assert_eq!(node.get_attribute(i), None);
    }
    let text = DomNode::text("t");
    assert_eq!(text.get_attribute(0), None);
    assert!(text.attributes().is_empty());
}

#[test]
fn serializes_end_to_end() {
    let node = div((
        attributes(vec![("attr", Str("value"))]),
        DomNodes::concat(vec![
            DomNodes::one(bogus_one()),
            DomNodes::one(bogus_one()),
            DomNodes::one(bogus_two()),
            DomNodes::one(table(DomNodes::concat(vec![
                DomNodes::one(DomNode::text("something")),
                DomNodes::one(th(DomNodes::empty())),
                DomNodes::one(tr(DomNodes::empty())),
                DomNodes::one(tr(DomNodes::empty())),
            ]))),
        ]),
    ));
    assert_eq!(
        "<div attr=\"value\"><bogus_tag_one></bogus_tag_one><bogus_tag_one></bogus_tag_one><bogus_tag_two></bogus_tag_two><table>something<th></th><tr></tr><tr></tr></table></div>".to_string(),
        node.to_html()
    );
}

#[test]
fn writer_processor_appends_markup() {
    let nodes = DomNodes::concat(vec![
        DomNodes::one(DomNode::text("a<b")),
        DomNodes::optional(None),
        DomNodes::optional(Some(tr(DomNodes::empty()))),
    ]);
    let mut out = "start:".to_string();
    nodes.process_all::<HtmlWriter<String>>(&mut out).unwrap();
    assert_eq!("start:a&lt;b<tr></tr>", out);
    assert_eq!(2, count_of(&nodes));
}

#[test]
fn escapes_every_special_character() {
    assert_eq!("&amp;&lt;&gt;&#34;&#39;x y", escape("&<>\"'x y"));
    assert_eq!("", escape(""));
    let node = div((attributes(vec![("title", OwnedStr("say \"hi\"".to_string()))]), DomNodes::empty()));
    assert_eq!("<div title=\"say &#34;hi&#34;\"></div>", node.to_html());
}

#[test]
fn attribute_value_text() {
    assert_eq!("value", Str("value").as_str());
    assert_eq!("owned", OwnedStr("owned".to_string()).as_str());
    assert_eq!("true", Bool(true).as_str());
    assert_eq!("false", Bool(false).as_str());
    let node = div((attributes(vec![("hidden", Bool(false))]), DomNodes::empty()));
    assert_eq!("<div hidden=\"false\"></div>", node.to_html());
}

#[test]
fn counts_wide_flat_collection() {
    let mut many = Vec::new();
    for _ in 0..50 {
        many.push(DomNodes::from_vec(vec![bogus_one(), bogus_two()]));
    }
    assert_eq!(100, count_of(&DomNodes::concat(many)));
    assert_eq!(0, count_of(&DomNodes::empty()));
    assert_eq!(0, count_of(&DomNodes::concat(Vec::new())));
}

#[test]
fn failed_write_stops_the_fold() {
    let nodes = DomNodes::concat(vec![
        DomNodes::one(DomNode::text("ab")),
        DomNodes::concat(vec![DomNodes::one(DomNode::text("cdef"))]),
        DomNodes::one(DomNode::text("g")),
    ]);
    let mut sink = LimitedSink::new(5);
    assert_eq!(Err(SinkFull), nodes.process_all::<HtmlWriter<LimitedSink>>(&mut sink));
    assert_eq!("ab", sink.as_str());

    let mut roomy = LimitedSink::new(7);
    assert_eq!(Ok(()), nodes.process_all::<HtmlWriter<LimitedSink>>(&mut roomy));
    assert_eq!("abcdefg", roomy.as_str());
}

#[test]
fn failed_write_inside_children_is_returned() {
    let node = div(DomNodes::from_vec(vec![bogus_one(), bogus_two()]));
    let mut none_fits = LimitedSink::new(30);
    assert_eq!(Err(SinkFull), node.process_children::<HtmlWriter<LimitedSink>>(&mut none_fits));
    assert_eq!("", none_fits.as_str());

    let mut one_fits = LimitedSink::new(31);
    assert_eq!(Err(SinkFull), node.process_children::<HtmlWriter<LimitedSink>>(&mut one_fits));
    assert_eq!("<bogus_tag_one></bogus_tag_one>", one_fits.as_str());

    let mut all_fit = LimitedSink::new(62);
    assert_eq!(Ok(()), node.process_children::<HtmlWriter<LimitedSink>>(&mut all_fit));
    assert_eq!("<bogus_tag_one></bogus_tag_one><bogus_tag_two></bogus_tag_two>", all_fit.as_str());
}
