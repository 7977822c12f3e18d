use mjrender::attributes::Attributes;
use mjrender::block::{Block, Kind};
use mjrender::body::{BodyElement, Inner, InnerMut};
use mjrender::component::{BodyComponent, Component};
use mjrender::context::Context;
use mjrender::error::Error;
use mjrender::header::Header;
use mjrender::parser::{Element, Node};
use mjrender::raw::RawElement;
use mjrender::size::Size;
use mjrender::tag::Tag;

fn node(name: &str, attributes: &[(&str, &str)], children: Vec<Element>) -> Element {
    Element::Node(Node {
        name: name.to_string(),
        attributes: attributes.iter().map(|(k, v)| (k.to_string(), v.to_string())).collect(),
        children,
    })
}

fn parse(element: &Element) -> BodyElement {
    BodyElement::parse(element, &Header::new(), None).unwrap()
}

const DEFAULT_DIVIDER: &str = "<p style=\"border-top:solid 4px #000000;font-size:1px;margin:0px auto;width:100%;\"></p><!--[if mso | IE]><table border=\"0\" cellpadding=\"0\" cellspacing=\"0\" role=\"presentation\" align=\"center\" width=\"50px\" style=\"border-top:solid 4px #000000;font-size:1px;margin:0px auto;width:50px;\"><tr><td style=\"height:0;line-height:0;\">&nbsp;</td></tr></table><![endif]-->";

#[test]
fn a_divider_node_becomes_a_divider() {
    let e = parse(&node("mj-divider", &[], vec![]));
    assert!(!e.is_raw());
    assert!(matches!(e, BodyElement::MJDivider(_)));
    assert!(matches!(e.inner(), Inner::MJDivider(_)));
    assert_eq!(e.render(&Header::new()).unwrap(), DEFAULT_DIVIDER);
    assert_eq!(e.get_attribute("border-width").map(|v| v.as_str()), Some("4px"));
    assert!(e.get_children().is_empty());
    assert!(e.get_current_width().is_none());
    assert_eq!(e.get_width(), Some(Size::Percent(100_000)));
}

#[test]
fn an_unknown_node_passes_through() {
    for name in [
        "div", "mj-unknown", "MJ-DIVIDER", "mj-divider ", "", "mj-texts", "MJ-TEXT", "mj-Text",
        " mj-text", "mj-sectio", "mj_section", "mj-accordion-element", "mj-carousel-image",
        "mj-navbar-link", "mj-social-element", "mj-body", "mjml",
    ] {
        let e = parse(&node(name, &[("class", "a"), ("id", "b")], vec![]));
        assert!(e.is_raw(), "{:?}", name);
        assert!(matches!(e.inner(), Inner::Raw(_)));
        assert_eq!(e.render(&Header::new()).unwrap(), format!("<{} class=\"a\" id=\"b\" />", name));
        assert_eq!(e.get_attribute("id").map(|v| v.as_str()), Some("b"));
    }
}

#[test]
fn a_comment_passes_through() {
    let e = parse(&Element::Comment(" hello <mj-divider/> ".to_string()));
    assert!(e.is_raw());
    assert_eq!(e.render(&Header::new()).unwrap(), "<!-- hello <mj-divider/> -->");
    assert!(e.attributes().is_none());
    assert!(e.get_children().is_empty());
    assert!(e.get_width().is_none());
}

#[test]
fn text_passes_through() {
    let e = parse(&Element::Text("a & b".to_string()));
    assert!(e.is_raw());
    assert_eq!(e.render(&Header::new()).unwrap(), "a & b");
    assert!(e.attributes().is_none());
}

#[test]
fn children_are_parsed_and_rendered_in_order() {
    let tree = node(
        "div",
        &[("class", "wrap")],
        vec![
            Element::Text("one".to_string()),
            node("mj-divider", &[], vec![]),
            Element::Comment("two".to_string()),
            node("span", &[], vec![node("br", &[], vec![])]),
        ],
    );
    let e = parse(&tree);
    assert!(e.is_raw());
    let children = e.get_children();
    assert_eq!(children.len(), 4);
    assert!(children[0].is_raw());
    assert!(!children[1].is_raw());
    assert!(children[2].is_raw());
    assert_eq!(children[3].get_children().len(), 1);
    assert_eq!(
        e.render(&Header::new()).unwrap(),
        format!("<div class=\"wrap\">one{}<!--two--><span><br /></span></div>", DEFAULT_DIVIDER)
    );
}

#[test]
fn a_divider_ignores_the_children_of_its_node() {
    let e = parse(&node("mj-divider", &[], vec![Element::Text("x".to_string())]));
    assert!(e.get_children().is_empty());
    assert_eq!(e.render(&Header::new()).unwrap(), DEFAULT_DIVIDER);
}

#[test]
fn the_header_reaches_dividers_inside_unknown_nodes() {
    let mut header = Header::new();
    header.default_attributes.add("mj-divider", "border-width", "9px");
    let tree = node("div", &[], vec![node("mj-divider", &[], vec![])]);
    let e = BodyElement::parse(&tree, &header, None).unwrap();
    assert_eq!(
        e.get_children()[0].get_attribute("border-width").map(|v| v.as_str()),
        Some("9px")
    );
}

#[test]
fn extra_attributes_do_not_reach_the_divider() {
    let extra = Attributes::new().add("width", "1px");
    let e = BodyElement::parse(&node("mj-divider", &[], vec![]), &Header::new(), Some(&extra))
        .unwrap();
    assert_eq!(e.get_width(), Some(Size::Percent(100_000)));
}

#[test]
fn operations_are_forwarded_to_the_owned_component() {
    let mut e = parse(&node("mj-divider", &[("width", "50%")], vec![]));
    assert!(e.context().is_none());
    e.set_context(Context::new(Size::Pixel(600_000)));
    assert_eq!(e.get_container_width(), Some(Size::Pixel(600_000)));
    let styled = e.set_style("outlook", Tag::new("table"));
    assert_eq!(
        styled.open(),
        "<table style=\"border-top:solid 4px #000000;font-size:1px;margin:0px auto;width:250px;\">"
    );
    assert_eq!(e.set_style("other", Tag::new("table")).open(), "<table>");
    match e.inner() {
        Inner::MJDivider(d) => {
            assert_eq!(d.get_outlook_width(), Size::Pixel(250_000));
            assert_eq!(d.render(&Header::new()).unwrap(), e.render(&Header::new()).unwrap());
        }
        _ => panic!("a divider was expected"),
    }
    match e.inner_mut() {
        InnerMut::MJDivider(d) => d.set_context(Context::new(Size::Pixel(100_000))),
        _ => panic!("a divider was expected"),
    }
    assert_eq!(e.get_container_width(), Some(Size::Pixel(100_000)));
}

#[test]
fn raw_elements_take_a_context_too() {
    let mut e = parse(&Element::Comment("c".to_string()));
    e.set_context(Context::new(Size::Percent(50_000)));
    assert_eq!(e.context().unwrap().container_width(), Size::Percent(50_000));
    assert_eq!(e.render(&Header::new()).unwrap(), "<!--c-->");
    assert_eq!(e.set_style("p", Tag::new("p")).open(), "<p>");
    match e.inner_mut() {
        InnerMut::Raw(r) => r.set_context(Context::new(Size::Pixel(1_000))),
        _ => panic!("a raw element was expected"),
    }
    assert_eq!(e.get_container_width(), Some(Size::Pixel(1_000)));
}

#[test]
fn raw_element_reads_every_kind_of_node() {
    let header = Header::new();
    let r = RawElement::parse(&node("mj-divider", &[("a", "1"), ("a", "2")], vec![]), &header)
        .unwrap();
    assert_eq!(r.render(&header).unwrap(), "<mj-divider a=\"2\" />");
    assert_eq!(RawElement::comment("x").render(&header).unwrap(), "<!--x-->");
    assert_eq!(RawElement::text("x").render(&header).unwrap(), "x");
}

#[test]
fn errors_carry_their_message() {
    let e = Error::ParseError("bad node".to_string());
    assert_eq!(e.message(), "bad node");
    let r = Error::RenderError("bad child".to_string());
    assert_eq!(r.message(), "bad child");
    assert_ne!(e, r);
}

#[test]
fn a_clone_renders_as_what_it_was_made_from() {
    let tree = node(
        "div",
        &[("class", "wrap")],
        vec![node("mj-divider", &[("width", "10px")], vec![]), Element::Text("t".to_string())],
    );
    let mut e = parse(&tree);
    e.set_context(Context::new(Size::Pixel(600_000)));
    let copy = e.clone();
    let header = Header::new();
    assert_eq!(copy.render(&header).unwrap(), e.render(&header).unwrap());
    assert_eq!(copy.get_container_width(), Some(Size::Pixel(600_000)));
    assert_eq!(copy.get_children().len(), 2);
}

const KNOWN: [(&str, Kind); 15] = [
    ("mj-accordion", Kind::MJAccordion),
    ("mj-button", Kind::MJButton),
    ("mj-carousel", Kind::MJCarousel),
    ("mj-column", Kind::MJColumn),
    ("mj-group", Kind::MJGroup),
    ("mj-hero", Kind::MJHero),
    ("mj-image", Kind::MJImage),
    ("mj-navbar", Kind::MJNavbar),
    ("mj-raw", Kind::MJRaw),
    ("mj-section", Kind::MJSection),
    ("mj-social", Kind::MJSocial),
    ("mj-spacer", Kind::MJSpacer),
    ("mj-table", Kind::MJTable),
    ("mj-text", Kind::MJText),
    ("mj-wrapper", Kind::MJWrapper),
];

#[test]
fn every_known_name_becomes_its_own_case() {
    for (name, kind) in KNOWN {
        let e = parse(&node(name, &[("css-class", "x")], vec![]));
        assert!(!e.is_raw(), "{}", name);
        assert_eq!(e.kind(), Some(kind), "{}", name);
        assert_eq!(Kind::of_tag(name), Some(kind));
        assert!(matches!(e.inner(), Inner::Block(_)), "{}", name);
        assert_eq!(e.get_attribute("css-class").map(|v| v.as_str()), Some("x"));
        assert!(e.context().is_none());
    }
    let divider = parse(&node("mj-divider", &[], vec![]));
    assert_eq!(divider.kind(), None);
    assert_eq!(Kind::of_tag("mj-divider"), None);
    assert_eq!(parse(&node("div", &[], vec![])).kind(), None);
}

#[test]
fn the_case_is_the_namesake_of_the_name() {
    assert!(matches!(parse(&node("mj-accordion", &[], vec![])), BodyElement::MJAccordion(_)));
    assert!(matches!(parse(&node("mj-button", &[], vec![])), BodyElement::MJButton(_)));
    assert!(matches!(parse(&node("mj-carousel", &[], vec![])), BodyElement::MJCarousel(_)));
    assert!(matches!(parse(&node("mj-column", &[], vec![])), BodyElement::MJColumn(_)));
    assert!(matches!(parse(&node("mj-divider", &[], vec![])), BodyElement::MJDivider(_)));
    assert!(matches!(parse(&node("mj-group", &[], vec![])), BodyElement::MJGroup(_)));
    assert!(matches!(parse(&node("mj-hero", &[], vec![])), BodyElement::MJHero(_)));
    assert!(matches!(parse(&node("mj-image", &[], vec![])), BodyElement::MJImage(_)));
    assert!(matches!(parse(&node("mj-navbar", &[], vec![])), BodyElement::MJNavbar(_)));
    assert!(matches!(parse(&node("mj-raw", &[], vec![])), BodyElement::MJRaw(_)));
    assert!(matches!(parse(&node("mj-section", &[], vec![])), BodyElement::MJSection(_)));
    assert!(matches!(parse(&node("mj-social", &[], vec![])), BodyElement::MJSocial(_)));
    assert!(matches!(parse(&node("mj-spacer", &[], vec![])), BodyElement::MJSpacer(_)));
    assert!(matches!(parse(&node("mj-table", &[], vec![])), BodyElement::MJTable(_)));
    assert!(matches!(parse(&node("mj-text", &[], vec![])), BodyElement::MJText(_)));
    assert!(matches!(parse(&node("mj-wrapper", &[], vec![])), BodyElement::MJWrapper(_)));
    assert!(matches!(parse(&node("mj-other", &[], vec![])), BodyElement::Raw(_)));
}

#[test]
fn names_that_are_not_dispatched_have_no_kind() {
    for name in ["mj-accordion-element", "mj-carousel-image", "mj-navbar-link", "MJ-TEXT", "", "text"] {
        assert_eq!(Kind::of_tag(name), None, "{:?}", name);
    }
}

#[test]
fn extra_attributes_reach_the_column_and_no_other_kind() {
    let extra = Attributes::new().add("mobile-width", "mobile-width").add("width", "50%");
    let header = Header::new();
    let column = BodyElement::parse(&node("mj-column", &[("width", "25%")], vec![]), &header, Some(&extra))
        .unwrap();
    assert!(matches!(column, BodyElement::MJColumn(_)));
    assert_eq!(column.get_attribute("mobile-width").map(|v| v.as_str()), Some("mobile-width"));
    assert_eq!(column.get_attribute("width").map(|v| v.as_str()), Some("25%"));
    assert_eq!(column.get_width(), Some(Size::Percent(25_000)));
    let bare = BodyElement::parse(&node("mj-column", &[], vec![]), &header, None).unwrap();
    assert_eq!(bare.get_attribute("mobile-width"), None);
    for (name, _) in KNOWN {
        if name != "mj-column" {
            let e = BodyElement::parse(&node(name, &[], vec![]), &header, Some(&extra)).unwrap();
            assert_eq!(e.get_attribute("mobile-width"), None, "{}", name);
            assert_eq!(e.get_attribute("width"), None, "{}", name);
        }
    }
    let inside = BodyElement::parse(
        &node("mj-section", &[], vec![node("mj-column", &[], vec![])]),
        &header,
        Some(&extra),
    )
    .unwrap();
    assert_eq!(inside.get_children()[0].get_attribute("mobile-width"), None);
}

#[test]
fn a_block_layers_its_attributes() {
    let mut header = Header::new();
    header.default_attributes.add("mj-column", "padding", "1px");
    header.default_attributes.add("mj-column", "width", "10%");
    header.default_attributes.add("mj-column", "color", "red");
    header.default_attributes.add("mj-text", "color", "blue");
    let extra = Attributes::new().add("width", "20%").add("padding", "2px");
    let e = BodyElement::parse(&node("mj-column", &[("padding", "3px")], vec![]), &header, Some(&extra))
        .unwrap();
    assert_eq!(e.get_attribute("padding").map(|v| v.as_str()), Some("3px"));
    assert_eq!(e.get_attribute("width").map(|v| v.as_str()), Some("20%"));
    assert_eq!(e.get_attribute("color").map(|v| v.as_str()), Some("red"));
    assert_eq!(e.get_padding_horizontal_width(), Size::Pixel(6_000));
}

#[test]
fn a_block_renders_to_what_its_children_render_to() {
    let tree = node(
        "mj-section",
        &[("background-color", "#fff")],
        vec![node(
            "mj-column",
            &[],
            vec![
                node("mj-text", &[], vec![Element::Text("Hello ".to_string()), node("b", &[], vec![Element::Text("you".to_string())])]),
                node("mj-divider", &[], vec![]),
                node("mj-raw", &[], vec![Element::Comment("c".to_string()), node("hr", &[], vec![])]),
                node("mj-image", &[("src", "a.png")], vec![]),
            ],
        )],
    );
    let e = parse(&tree);
    assert!(matches!(e, BodyElement::MJSection(_)));
    let column = &e.get_children()[0];
    assert!(matches!(column, BodyElement::MJColumn(_)));
    assert_eq!(column.get_children().len(), 4);
    assert!(matches!(column.get_children()[0], BodyElement::MJText(_)));
    assert!(matches!(column.get_children()[1], BodyElement::MJDivider(_)));
    assert!(matches!(column.get_children()[2], BodyElement::MJRaw(_)));
    assert!(matches!(column.get_children()[3], BodyElement::MJImage(_)));
    assert!(column.get_children()[0].get_children()[0].is_raw());
    assert_eq!(
        e.render(&Header::new()).unwrap(),
        format!("Hello <b>you</b>{}<!--c--><hr />", DEFAULT_DIVIDER)
    );
    assert_eq!(parse(&node("mj-spacer", &[], vec![])).render(&Header::new()).unwrap(), "");
}

#[test]
fn a_block_takes_a_context_and_no_style() {
    let mut e = parse(&node("mj-section", &[], vec![node("mj-divider", &[], vec![])]));
    e.set_context(Context::new(Size::Pixel(600_000)));
    assert_eq!(e.get_container_width(), Some(Size::Pixel(600_000)));
    assert!(e.get_children()[0].context().is_none());
    assert!(e.get_current_width().is_none());
    assert_eq!(e.set_style("p", Tag::new("p")).open(), "<p>");
    match e.inner_mut() {
        InnerMut::Block(b) => b.set_context(Context::new(Size::Pixel(300_000))),
        _ => panic!("a block was expected"),
    }
    assert!(matches!(e, BodyElement::MJSection(_)));
    assert_eq!(e.get_container_width(), Some(Size::Pixel(300_000)));
    let mut header = Header::new();
    header.default_attributes.add("mj-section", "a", "b");
    e.update_header(&mut header);
    let again = BodyElement::parse(&node("mj-section", &[], vec![]), &header, None).unwrap();
    assert_eq!(again.get_attribute("a").map(|v| v.as_str()), Some("b"));
    let copy = e.clone();
    assert!(matches!(copy, BodyElement::MJSection(_)));
    assert_eq!(copy.render(&Header::new()).unwrap(), e.render(&Header::new()).unwrap());
}

#[test]
fn the_kinds_that_stand_inside_others_are_built_from_their_blocks() {
    let header = Header::new();
    let make = |name: &str| match node(name, &[("k", "v")], vec![Element::Text("t".to_string())]) {
        Element::Node(n) => Block::parse(&n, &header, None).unwrap(),
        _ => unreachable!(),
    };
    let cases = [
        ("mj-accordion-element", Kind::MJAccordionElement),
        ("mj-carousel-image", Kind::MJCarouselImage),
        ("mj-navbar-link", Kind::MJNavbarLink),
        ("mj-social-element", Kind::MJSocialElement),
        ("mj-text", Kind::MJText),
    ];
    for (name, kind) in cases {
        let e = BodyElement::from_block(kind, make(name));
        assert_eq!(e.kind(), Some(kind));
        assert!(!e.is_raw());
        assert_eq!(e.get_attribute("k").map(|v| v.as_str()), Some("v"));
        assert_eq!(e.render(&header).unwrap(), "t");
    }
    assert!(matches!(
        BodyElement::from_block(Kind::MJAccordionElement, make("x")),
        BodyElement::MJAccordionElement(_)
    ));
    assert!(matches!(
        BodyElement::from_block(Kind::MJCarouselImage, make("x")),
        BodyElement::MJCarouselImage(_)
    ));
    assert!(matches!(
        BodyElement::from_block(Kind::MJNavbarLink, make("x")),
        BodyElement::MJNavbarLink(_)
    ));
    assert!(matches!(
        BodyElement::from_block(Kind::MJSocialElement, make("x")),
        BodyElement::MJSocialElement(_)
    ));
}
