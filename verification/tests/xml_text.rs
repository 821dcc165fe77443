use pixelletter::reader::{
    parse_document, predefined_entity, read_attributes, read_events, resolve_event,
    resolve_reference, RawEvent,
};
use pixelletter::tree::{build_tree, XmlEvent};
use pixelletter::xml::{escape_attribute, escape_text, trim, Attribute, Element};

fn leaf(name: &str, text: &str) -> Element {
    Element { name: name.to_owned(), attributes: vec![], children: vec![], text: text.to_owned() }
}

fn attribute(name: &str, value: &str) -> Attribute {
    Attribute { name: name.to_owned(), value: value.to_owned() }
}

#[test]
fn an_element_without_content_is_self_closed() {
    assert_eq!(leaf("control", "").to_xml(), "<control/>");
    let with_attribute = Element {
        name: "credit".to_owned(),
        attributes: vec![attribute("currency", "EUR")],
        children: vec![],
        text: String::new(),
    };
    assert_eq!(with_attribute.to_xml(), "<credit currency=\"EUR\"/>");
}

#[test]
fn text_is_escaped_where_it_must_be() {
    assert_eq!(leaf("msg", "a < b").to_xml(), "<msg>a &lt; b</msg>");
    assert_eq!(
        leaf("msg", "<&>\r\n\t'\" ü").to_xml(),
        "<msg>&lt;&amp;&gt;&#13;\n\t'\" ü</msg>"
    );
}

#[test]
fn element_text_keeps_quotes_tabs_and_line_feeds() {
    assert_eq!(escape_text(""), "");
    assert_eq!(escape_text("plain \u{fc}"), "plain \u{fc}");
    assert_eq!(escape_text("<"), "&lt;");
    assert_eq!(escape_text("a<b"), "a&lt;b");
    assert_eq!(escape_text("a>b&c"), "a&gt;b&amp;c");
    assert_eq!(escape_text("&&"), "&amp;&amp;");
    assert_eq!(escape_text("\r\n\t'\""), "&#13;\n\t'\"");
    assert_eq!(escape_text("&amp;"), "&amp;amp;");
}

#[test]
fn attribute_values_are_escaped_where_they_must_be() {
    let e = Element {
        name: "a".to_owned(),
        attributes: vec![attribute("k", "<&>'\"\r\n\tü"), attribute("l", "plain")],
        children: vec![],
        text: String::new(),
    };
    assert_eq!(e.to_xml(), "<a k=\"&lt;&amp;&gt;'&quot;&#13;&#10;&#9;ü\" l=\"plain\"/>");
    assert_eq!(escape_attribute(""), "");
    assert_eq!(escape_attribute("plain ü"), "plain ü");
    assert_eq!(escape_attribute("<"), "&lt;");
    assert_eq!(escape_attribute("a<b"), "a&lt;b");
    assert_eq!(escape_attribute("\"a\"\t'b'\n"), "&quot;a&quot;&#9;'b'&#10;");
    assert_eq!(escape_attribute("&&"), "&amp;&amp;");
}

#[test]
fn children_follow_the_text_in_document_order() {
    let e = Element {
        name: "root".to_owned(),
        attributes: vec![attribute("version", "1.3")],
        children: vec![leaf("a", "1"), leaf("b", ""), leaf("c", "3")],
        text: String::new(),
    };
    assert_eq!(e.to_xml(), "<root version=\"1.3\"><a>1</a><b/><c>3</c></root>");
    let mut out = String::from("<?x?>");
    e.write_xml(&mut out);
    assert_eq!(out, "<?x?><root version=\"1.3\"><a>1</a><b/><c>3</c></root>");
}

#[test]
fn a_written_element_is_read_back() {
    let e = Element {
        name: "root".to_owned(),
        attributes: vec![attribute("k", "<&>'\" x\ty"), attribute("l", "")],
        children: vec![
            leaf("a", "a < b && c > d"),
            leaf("b", ""),
            Element {
                name: "c".to_owned(),
                attributes: vec![attribute("n", "1")],
                children: vec![leaf("d", "ü\"'")],
                text: String::new(),
            },
        ],
        text: String::new(),
    };
    assert_eq!(parse_document(&e.to_xml()), Some(e));
}

#[test]
fn references_and_cdata_become_text() {
    let root = parse_document("<m>a &amp; b &lt;&gt;&apos;&quot; &#65;&#x42;<![CDATA[<raw&>]]></m>").unwrap();
    assert_eq!(root, leaf("m", "a & b <>'\" AB<raw&>"));
}

#[test]
fn white_space_in_text_is_kept() {
    let root = parse_document("<r>\n  <msg>\n    OK then \n  </msg>\n  <e>  </e>\n</r>\n").unwrap();
    assert_eq!(
        root,
        Element {
            name: "r".to_owned(),
            attributes: vec![],
            children: vec![leaf("msg", "\n    OK then \n  "), leaf("e", "  ")],
            text: "\n  \n  \n".to_owned(),
        }
    );
    let written = leaf("m", " \t x \n");
    assert_eq!(written.to_xml(), "<m> \t x \n</m>");
    assert_eq!(parse_document(&written.to_xml()), Some(written));
}

#[test]
fn white_space_around_a_text_can_be_taken_away() {
    assert_eq!(trim(" \t\r\n a b \n"), "a b");
    assert_eq!(trim(""), "");
    assert_eq!(trim("  \n"), "");
    assert_eq!(trim("x"), "x");
    assert_eq!(trim("\u{a0}x\u{a0}"), "\u{a0}x\u{a0}");
}

#[test]
fn declaration_comments_and_instructions_are_passed_over() {
    let text = "<?xml version=\"1.0\" encoding=\"UTF-8\"?>\n<!-- hello --><r><!-- in --><a>1<!-- mid -->2</a><?pi x?></r><!-- after -->";
    let root = parse_document(text).unwrap();
    assert_eq!(
        root,
        Element {
            name: "r".to_owned(),
            attributes: vec![],
            children: vec![leaf("a", "12")],
            text: String::new(),
        }
    );
}

#[test]
fn attributes_are_read_in_document_order() {
    let root = parse_document("<r b='2' a=\"&lt;1&gt;\" c = \"x&amp;y\"/>").unwrap();
    assert_eq!(
        root.attributes,
        vec![attribute("b", "2"), attribute("a", "<1>"), attribute("c", "x&y")]
    );
}

#[test]
fn text_that_is_not_well_formed_is_refused() {
    for text in [
        "",
        "   ",
        "just text",
        "<a>",
        "<a><b></a>",
        "<a></b>",
        "</a>",
        "<a>&unknown;</a>",
        "<a>&#0;</a>",
        "<a x=\"1\" x=\"2\"/>",
        "<a x=1/>",
        "<!-- only a comment -->",
    ] {
        assert_eq!(parse_document(text), None, "{text:?}");
    }
}

#[test]
fn the_items_of_a_document_end_with_its_end() {
    let events = read_events("<a k=\"v\">t<b/></a>").unwrap();
    assert_eq!(
        events,
        vec![
            XmlEvent::Start { name: "a".to_owned(), attributes: vec![attribute("k", "v")] },
            XmlEvent::Text { text: "t".to_owned() },
            XmlEvent::Empty { name: "b".to_owned(), attributes: vec![] },
            XmlEvent::End { name: "a".to_owned() },
            XmlEvent::Eof,
        ]
    );
    assert_eq!(read_events(""), Some(vec![XmlEvent::Eof]));
}

#[test]
fn a_tree_is_built_from_the_items_of_a_document() {
    let start = |name: &str| XmlEvent::Start { name: name.to_owned(), attributes: vec![] };
    let end = |name: &str| XmlEvent::End { name: name.to_owned() };
    let text = |t: &str| XmlEvent::Text { text: t.to_owned() };
    let events = vec![
        XmlEvent::Other,
        text("\n"),
        start("r"),
        text(" x"),
        start("a"),
        text(" 1 "),
        end("a"),
        XmlEvent::Other,
        XmlEvent::Empty { name: "b".to_owned(), attributes: vec![attribute("k", "v")] },
        text("y "),
        end("r"),
        start("ignored"),
        XmlEvent::Eof,
    ];
    let root = build_tree(&events).unwrap();
    assert_eq!(
        root,
        Element {
            name: "r".to_owned(),
            attributes: vec![],
            children: vec![
                leaf("a", " 1 "),
                Element {
                    name: "b".to_owned(),
                    attributes: vec![attribute("k", "v")],
                    children: vec![],
                    text: String::new(),
                },
            ],
            text: " xy ".to_owned(),
        }
    );
    assert_eq!(build_tree(&vec![start("r"), XmlEvent::Eof]), None);
    assert_eq!(build_tree(&vec![start("r"), end("s"), XmlEvent::Eof]), None);
    assert_eq!(build_tree(&vec![start("r"), start("a"), end("r"), XmlEvent::Eof]), None);
    assert_eq!(build_tree(&vec![end("r")]), None);
    assert_eq!(build_tree(&vec![text("x"), XmlEvent::Eof]), None);
    assert_eq!(build_tree(&vec![]), None);
    assert_eq!(build_tree(&vec![start("r")]), None);
}

#[test]
fn deeply_nested_elements_are_read() {
    let nested = |depth: usize| format!("{}x{}", "<a>".repeat(depth), "</a>".repeat(depth));
    for depth in [1usize, 64, 65, 500, 2000] {
        let root = parse_document(&nested(depth)).unwrap();
        let mut element = &root;
        let mut levels = 1;
        while let Some(child) = element.children.first() {
            assert_eq!(element.children.len(), 1);
            assert_eq!(element.text, "");
            element = child;
            levels += 1;
        }
        assert_eq!(levels, depth);
        assert_eq!(element.name, "a");
        assert_eq!(element.text, "x");
    }
    assert_eq!(parse_document(&format!("{}x{}", "<a>".repeat(65), "</a>".repeat(64))), None);
}

#[test]
fn references_stand_for_characters_and_predefined_entities() {
    assert_eq!(resolve_reference("amp"), Some("&".to_owned()));
    assert_eq!(resolve_reference("lt"), Some("<".to_owned()));
    assert_eq!(resolve_reference("gt"), Some(">".to_owned()));
    assert_eq!(resolve_reference("apos"), Some("'".to_owned()));
    assert_eq!(resolve_reference("quot"), Some("\"".to_owned()));
    assert_eq!(resolve_reference("#65"), Some("A".to_owned()));
    assert_eq!(resolve_reference("#x41"), Some("A".to_owned()));
    assert_eq!(resolve_reference("#x1F600"), Some("\u{1F600}".to_owned()));
    assert_eq!(resolve_reference("#13"), Some("\r".to_owned()));
    for name in ["", "nbsp", "AMP", "amp;", "#", "#x", "#0", "#-1", "#+1", "#xD800", "#x110000", "#65a"] {
        assert_eq!(resolve_reference(name), None, "{name:?}");
    }
}

#[test]
fn only_five_entities_are_predefined() {
    assert_eq!(predefined_entity("lt"), Some("<"));
    assert_eq!(predefined_entity("gt"), Some(">"));
    assert_eq!(predefined_entity("amp"), Some("&"));
    assert_eq!(predefined_entity("apos"), Some("'"));
    assert_eq!(predefined_entity("quot"), Some("\""));
    for name in ["", "LT", "lt;", " lt", "nbsp", "#60", "amp "] {
        assert_eq!(predefined_entity(name), None, "{name:?}");
    }
}

#[test]
fn a_document_type_is_passed_over() {
    let root = parse_document("<?xml version=\"1.0\"?><!DOCTYPE r><r><a>1</a></r>").unwrap();
    assert_eq!(
        root,
        Element { name: "r".to_owned(), attributes: vec![], children: vec![leaf("a", "1")], text: String::new() }
    );
}

#[test]
fn attribute_values_are_normalised_when_read() {
    let root = parse_document("<r a=\"x\ty\nz\" b=\"&#9;&quot;&#x41;\" c=\"'\" d='\"'/>").unwrap();
    assert_eq!(
        root.attributes,
        vec![attribute("a", "x y z"), attribute("b", "\t\"A"), attribute("c", "'"), attribute("d", "\"")]
    );
    assert_eq!(parse_document("<r a=\"&nope;\"/>"), None);
    assert_eq!(parse_document("<r a=\"a&b\"/>"), None);
}

#[test]
fn line_ends_in_text_are_read_as_line_feeds() {
    assert_eq!(parse_document("<m>a\r\nb\rc\nd</m>"), Some(leaf("m", "a\nb\nc\nd")));
    assert_eq!(parse_document("<m><![CDATA[a\r\nb]]></m>"), Some(leaf("m", "a\nb")));
    assert_eq!(parse_document("<m>a&#13;b</m>"), Some(leaf("m", "a\rb")));
}

#[test]
fn an_item_of_the_parser_becomes_an_item_of_the_tree() {
    let tag = |name: &str, attributes: &str| (name.to_owned(), attributes.to_owned());
    let (name, attributes) = tag("a", " k=\"v\" l='&lt;w&gt;'");
    assert_eq!(
        resolve_event(RawEvent::Start(name, attributes), 10),
        Some(XmlEvent::Start {
            name: "a".to_owned(),
            attributes: vec![attribute("k", "v"), attribute("l", "<w>")],
        })
    );
    let (name, attributes) = tag("a", "");
    assert_eq!(
        resolve_event(RawEvent::Empty(name, attributes), 0),
        Some(XmlEvent::Empty { name: "a".to_owned(), attributes: vec![] })
    );
    let (name, attributes) = tag("a", " k=\"v\" k=\"w\"");
    assert_eq!(resolve_event(RawEvent::Start(name, attributes), 10), None);
    let (name, attributes) = tag("a", " k=\"v\" l=\"w\"");
    assert_eq!(resolve_event(RawEvent::Empty(name, attributes), 1), None);
    assert_eq!(
        resolve_event(RawEvent::End("a".to_owned()), 0),
        Some(XmlEvent::End { name: "a".to_owned() })
    );
    assert_eq!(
        resolve_event(RawEvent::Text("t".to_owned()), 0),
        Some(XmlEvent::Text { text: "t".to_owned() })
    );
    assert_eq!(
        resolve_event(RawEvent::CData(" <raw&> ".to_owned()), 0),
        Some(XmlEvent::Text { text: " <raw&> ".to_owned() })
    );
    assert_eq!(
        resolve_event(RawEvent::Reference("amp".to_owned()), 0),
        Some(XmlEvent::Text { text: "&".to_owned() })
    );
    assert_eq!(resolve_event(RawEvent::Reference("nbsp".to_owned()), 0), None);
    assert_eq!(resolve_event(RawEvent::Other, 0), Some(XmlEvent::Other));
    assert_eq!(resolve_event(RawEvent::Eof, 0), Some(XmlEvent::Eof));
}

#[test]
fn the_attributes_of_a_tag_are_read_from_their_text() {
    assert_eq!(read_attributes("", 0), Some(vec![]));
    assert_eq!(read_attributes("   ", 5), Some(vec![]));
    assert_eq!(
        read_attributes(" b='2' a=\"&lt;1&gt;\" c = \"x&amp;y\"", 3),
        Some(vec![attribute("b", "2"), attribute("a", "<1>"), attribute("c", "x&y")])
    );
    assert_eq!(read_attributes(" \u{fc}=\"\u{e4}\" k=\"a\tb\"", 9), Some(vec![attribute("\u{fc}", "\u{e4}"), attribute("k", "a b")]));
    assert_eq!(read_attributes(" a=\"1\" b=\"2\"", 1), None);
    assert_eq!(read_attributes(" a=\"1\" a=\"2\"", 9), None);
    assert_eq!(read_attributes(" a=1", 9), None);
    assert_eq!(read_attributes(" a", 9), None);
    assert_eq!(read_attributes(" a=\"&unknown;\"", 9), None);
}

#[test]
fn a_document_never_holds_more_items_than_bytes_and_its_end() {
    for text in ["", "<a/>", "<a></a>", "<a>x</a>", "<a>&amp;&amp;&amp;</a>", "<a k=\"v\" l=\"w\" m=\"x\"/>", "x<a/>y", "<?x?><!----><a/>"] {
        let events = read_events(text).unwrap();
        assert!(events.len() <= text.len() + 1, "{text:?}");
    }
    let many: String = (0..200).map(|i| format!(" a{i}=\"{i}\"")).collect();
    let root = parse_document(&format!("<r{many}/>")).unwrap();
    assert_eq!(root.attributes.len(), 200);
    assert_eq!(root.attributes[199], attribute("a199", "199"));
}
