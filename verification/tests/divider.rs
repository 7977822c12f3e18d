use mjrender::body::BodyElement;
use mjrender::component::{BodyComponent, Component};
use mjrender::context::Context;
use mjrender::divider::MJDivider;
use mjrender::header::Header;
use mjrender::parser::Node;
use mjrender::size::Size;
use mjrender::tag::Tag;

fn node(attributes: &[(&str, &str)]) -> Node {
    Node {
        name: "mj-divider".to_string(),
        attributes: attributes.iter().map(|(k, v)| (k.to_string(), v.to_string())).collect(),
        children: Vec::new(),
    }
}

fn divider(attributes: &[(&str, &str)]) -> MJDivider {
    MJDivider::parse(&node(attributes), &Header::new()).unwrap()
}

fn in_container(attributes: &[(&str, &str)], container: Size) -> MJDivider {
    let mut d = divider(attributes);
    assert!(container.is_in_range());
    d.set_context(Context::new(container));
    d
}

fn value<'a>(d: &'a MJDivider, key: &str) -> Option<&'a str> {
    d.get_attribute(key).map(|v| v.as_str())
}

#[test]
fn parse_gives_the_default_border() {
    let d = divider(&[]);
    assert_eq!(value(&d, "border-color"), Some("#000000"));
    assert_eq!(value(&d, "border-style"), Some("solid"));
    assert_eq!(value(&d, "border-width"), Some("4px"));
    assert_eq!(value(&d, "padding"), Some("10px 25px"));
    assert_eq!(value(&d, "width"), Some("100%"));
    assert!(d.context().is_none());
}

#[test]
fn parse_keeps_the_border_beside_other_attributes() {
    let d = divider(&[("width", "50%"), ("css-class", "rule")]);
    assert_eq!(value(&d, "border-color"), Some("#000000"));
    assert_eq!(value(&d, "border-style"), Some("solid"));
    assert_eq!(value(&d, "border-width"), Some("4px"));
    assert_eq!(value(&d, "width"), Some("50%"));
    assert_eq!(value(&d, "css-class"), Some("rule"));
}

#[test]
fn node_wins_over_header_and_header_over_defaults() {
    let mut header = Header::new();
    header.default_attributes.add("mj-divider", "border-color", "#ff0000");
    header.default_attributes.add("mj-divider", "border-width", "2px");
    header.default_attributes.add("mj-text", "border-style", "dotted");
    let d = MJDivider::parse(&node(&[("border-width", "1px")]), &header).unwrap();
    assert_eq!(value(&d, "border-color"), Some("#ff0000"));
    assert_eq!(value(&d, "border-width"), Some("1px"));
    assert_eq!(value(&d, "border-style"), Some("solid"));
}

#[test]
fn outlook_width_of_a_percentage() {
    let d = in_container(&[("width", "50%"), ("padding", "10px 25px")], Size::Pixel(600_000));
    assert_eq!(d.get_outlook_width(), Size::Pixel(250_000));
    assert_eq!(d.get_outlook_width().to_string(), "250px");
}

#[test]
fn outlook_width_of_a_pixel_length() {
    let d = in_container(&[("width", "100px"), ("padding", "10px 25px")], Size::Pixel(600_000));
    assert_eq!(d.get_outlook_width(), Size::Pixel(100_000));
    assert_eq!(d.get_outlook_width().to_string(), "100px");
}

#[test]
fn outlook_width_of_an_opaque_token() {
    let d = in_container(&[("width", "wide"), ("padding", "10px 25px")], Size::Pixel(600_000));
    assert_eq!(d.get_outlook_width(), Size::Pixel(550_000));
}

#[test]
fn outlook_width_without_a_context() {
    let d = divider(&[]);
    assert_eq!(d.get_outlook_width(), Size::Pixel(50_000));
    assert_eq!(d.get_outlook_width().to_string(), "50px");
}

#[test]
fn outlook_width_takes_the_padding_off_the_share() {
    let d = in_container(&[("width", "33.333%"), ("padding", "0 10.5px")], Size::Pixel(600_000));
    // 600 * 33.333 / 100 = 199.998, less 21
    assert_eq!(d.get_outlook_width(), Size::Pixel(178_998));
    assert_eq!(d.get_outlook_width().to_string(), "178.998px");
}

#[test]
fn outlook_width_may_fall_below_zero() {
    let d = in_container(&[("width", "0%")], Size::Pixel(600_000));
    assert_eq!(d.get_outlook_width(), Size::Pixel(-50_000));
    assert_eq!(d.get_outlook_width().to_string(), "-50px");
}

#[test]
fn outlook_width_without_padding_attribute_values() {
    let d = in_container(&[("padding", "")], Size::Pixel(600_000));
    assert_eq!(d.get_outlook_width(), Size::Pixel(600_000));
}

#[test]
fn render_is_the_primary_then_the_legacy_fragment() {
    let d = in_container(&[], Size::Pixel(600_000));
    let primary = "<p style=\"border-top:solid 4px #000000;font-size:1px;margin:0px auto;width:100%;\"></p>";
    let legacy = "<!--[if mso | IE]><table border=\"0\" cellpadding=\"0\" cellspacing=\"0\" role=\"presentation\" align=\"center\" width=\"550px\" style=\"border-top:solid 4px #000000;font-size:1px;margin:0px auto;width:550px;\"><tr><td style=\"height:0;line-height:0;\">&nbsp;</td></tr></table><![endif]-->";
    let out = d.render(&Header::new()).unwrap();
    assert_eq!(out, format!("{}{}", primary, legacy));
    assert!(out.starts_with("<p "));
    assert!(out.ends_with("<![endif]-->"));
}

#[test]
fn render_uses_the_attributes_of_the_node() {
    let d = in_container(
        &[("border-color", "#cccccc"), ("border-width", "1px"), ("border-style", "dashed"), ("width", "200px")],
        Size::Pixel(600_000),
    );
    let out = d.render(&Header::new()).unwrap();
    assert!(out.starts_with(
        "<p style=\"border-top:dashed 1px #cccccc;font-size:1px;margin:0px auto;width:200px;\"></p><!--[if mso | IE]>"
    ));
    assert!(out.contains(" width=\"200px\" style=\"border-top:dashed 1px #cccccc;font-size:1px;margin:0px auto;width:200px;\">"));
}

#[test]
fn render_twice_gives_the_same() {
    let d = in_container(&[("width", "75%")], Size::Pixel(480_000));
    let header = Header::new();
    assert_eq!(d.render(&header).unwrap(), d.render(&header).unwrap());
}

#[test]
fn set_style_p_sets_the_rules_of_the_paragraph() {
    let d = divider(&[]);
    let tag = d.set_style("p", Tag::new("p"));
    assert_eq!(
        tag.render(""),
        "<p style=\"border-top:solid 4px #000000;font-size:1px;margin:0px auto;width:100%;\"></p>"
    );
}

#[test]
fn set_style_outlook_replaces_the_width() {
    let d = in_container(&[], Size::Pixel(600_000));
    let tag = d.set_style("outlook", Tag::new("div"));
    assert_eq!(
        tag.render("x"),
        "<div style=\"border-top:solid 4px #000000;font-size:1px;margin:0px auto;width:550px;\">x</div>"
    );
}

#[test]
fn set_style_of_an_unknown_slot_is_the_identity() {
    let d = divider(&[]);
    let base = || Tag::new("td").set_attribute("class", "a").set_style("color", "red");
    let tag = d.set_style("nonexistent-slot", base());
    assert_eq!(tag.render("x"), base().render("x"));
    assert_eq!(tag.open(), "<td class=\"a\" style=\"color:red;\">");
    let empty = d.set_style("", Tag::new("td"));
    assert_eq!(empty.open(), "<td>");
    let upper = d.set_style("P", Tag::new("td"));
    assert_eq!(upper.open(), "<td>");
}

#[test]
fn divider_has_no_children_and_no_current_width() {
    let d = divider(&[]);
    assert!(d.get_children().is_empty());
    assert!(d.get_children().is_empty());
    assert!(std::ptr::eq(d.get_children(), d.get_children()));
    assert!(d.get_current_width().is_none());
    assert_eq!(d.get_width(), Some(Size::Percent(100_000)));
    assert!(d.attributes().is_some());
}

#[test]
fn set_context_replaces_the_context() {
    let mut d = divider(&[]);
    d.set_context(Context::new(Size::Pixel(600_000)));
    assert_eq!(d.context().unwrap().container_width(), Size::Pixel(600_000));
    d.set_context(Context::new(Size::Pixel(300_000)));
    assert_eq!(d.get_container_width(), Some(Size::Pixel(300_000)));
    assert_eq!(d.get_outlook_width(), Size::Pixel(250_000));
    assert_eq!(value(&d, "width"), Some("100%"));
}

#[test]
fn update_header_leaves_the_header_alone() {
    let mut header = Header::new();
    header.default_attributes.add("mj-divider", "width", "10%");
    let d = divider(&[]);
    d.update_header(&mut header);
    let again = MJDivider::parse(&node(&[]), &header).unwrap();
    assert_eq!(value(&again, "width"), Some("10%"));
    let e = BodyElement::MJDivider(divider(&[]));
    e.update_header(&mut header);
    let third = MJDivider::parse(&node(&[]), &header).unwrap();
    assert_eq!(value(&third, "width"), Some("10%"));
}

#[test]
fn padding_is_read_from_the_shorthand() {
    let d = divider(&[("padding", "1px 2px 3px 4px")]);
    assert_eq!(d.get_padding_horizontal_width(), Size::Pixel(6_000));
    let e = divider(&[("padding", "7px")]);
    assert_eq!(e.get_padding_horizontal_width(), Size::Pixel(14_000));
}
