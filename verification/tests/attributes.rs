use mjrender::attributes::Attributes;
use mjrender::condition::conditional_tag;
use mjrender::header::{DefaultAttributes, Header};
use mjrender::parser::Node;
use mjrender::tag::Tag;

fn entries(a: &Attributes) -> Vec<(String, String)> {
    (0..a.len()).map(|i| (a.key_at(i).clone(), a.value_at(i).clone())).collect()
}

fn pairs(items: &[(&str, &str)]) -> Vec<(String, String)> {
    items.iter().map(|(k, v)| (k.to_string(), v.to_string())).collect()
}

fn node(name: &str, attributes: &[(&str, &str)]) -> Node {
    Node { name: name.to_string(), attributes: pairs(attributes), children: Vec::new() }
}

#[test]
fn add_keeps_the_order_and_the_last_value() {
    let a = Attributes::new().add("a", "1").add("b", "2").add("a", "3");
    assert_eq!(entries(&a), pairs(&[("a", "3"), ("b", "2")]));
    assert_eq!(a.get("a").map(|v| v.as_str()), Some("3"));
    assert_eq!(a.get("b").map(|v| v.as_str()), Some("2"));
    assert_eq!(a.get("c"), None);
    assert_eq!(a.len(), 2);
    assert_eq!(Attributes::default().len(), 0);
}

#[test]
fn merge_lets_the_upper_layer_win() {
    let base = Attributes::new().add("a", "1").add("b", "2");
    let over = Attributes::new().add("b", "3").add("c", "4");
    let merged = base.merge(&over);
    assert_eq!(entries(&merged), pairs(&[("a", "1"), ("b", "3"), ("c", "4")]));
}

#[test]
fn merging_nothing_changes_nothing() {
    let base = Attributes::new().add("border-color", "#000000").add("width", "100%");
    let same = base.clone().merge(&Attributes::new());
    assert_eq!(entries(&same), entries(&base));
    let too = base.clone().concat(&node("mj-divider", &[]));
    assert_eq!(entries(&too), entries(&base));
}

#[test]
fn concat_takes_the_attributes_of_the_node() {
    let base = Attributes::new().add("width", "100%");
    let a = base.concat(&node("x", &[("width", "50%"), ("id", "a"), ("id", "b")]));
    assert_eq!(entries(&a), pairs(&[("width", "50%"), ("id", "b")]));
}

#[test]
fn header_overrides_apply_to_their_tag_only() {
    let mut d = DefaultAttributes::new();
    d.add("mj-divider", "width", "10%");
    d.add("mj-text", "width", "20%");
    d.add("mj-divider", "padding", "0");
    d.add("mj-divider", "width", "30%");
    let base = || Attributes::new().add("padding", "1px").add("width", "100%");
    let got = d.get_attributes(&node("mj-divider", &[("width", "1px")]), base());
    assert_eq!(entries(&got), pairs(&[("padding", "0"), ("width", "30%")]));
    let other = d.get_attributes(&node("mj-image", &[]), base());
    assert_eq!(entries(&other), entries(&base()));
    let none = Header::new().default_attributes.get_attributes(&node("mj-divider", &[]), base());
    assert_eq!(entries(&none), entries(&base()));
}

#[test]
fn tag_renders_attributes_then_styles() {
    let tag = Tag::new("div").set_attribute("class", "a").set_style("color", "red").set_attribute(
        "id",
        "x",
    ).set_style("margin", "0").set_style("color", "blue").set_attribute("class", "b");
    assert_eq!(tag.open(), "<div class=\"b\" id=\"x\" style=\"color:blue;margin:0;\">");
    assert_eq!(tag.close(), "</div>");
    assert_eq!(tag.closed(), "<div class=\"b\" id=\"x\" style=\"color:blue;margin:0;\" />");
    assert_eq!(
        tag.render("<b>hi</b>"),
        "<div class=\"b\" id=\"x\" style=\"color:blue;margin:0;\"><b>hi</b></div>"
    );
    assert_eq!(Tag::new("tr").render(""), "<tr></tr>");
}

#[test]
fn tag_maybe_setters_skip_what_is_absent() {
    let value = "1px".to_string();
    let tag = Tag::new("p").maybe_set_style("width", None).maybe_set_attribute("id", None);
    assert_eq!(tag.open(), "<p>");
    let tag = tag.maybe_set_style("width", Some(&value)).maybe_set_attribute("id", Some(&value));
    assert_eq!(tag.open(), "<p id=\"1px\" style=\"width:1px;\">");
}

#[test]
fn tables_for_layout() {
    assert_eq!(Tag::table().open(), "<table border=\"0\" cellpadding=\"0\" cellspacing=\"0\">");
    assert_eq!(
        Tag::table_presentation().open(),
        "<table border=\"0\" cellpadding=\"0\" cellspacing=\"0\" role=\"presentation\">"
    );
    let a = Attributes::new().add("href", "#");
    assert_eq!(Tag::with_attributes("a", a).render("x"), "<a href=\"#\">x</a>");
}

#[test]
fn conditional_tag_wraps_the_content() {
    assert_eq!(conditional_tag("<b/>"), "<!--[if mso | IE]><b/><![endif]-->");
    assert_eq!(conditional_tag(""), "<!--[if mso | IE]><![endif]-->");
}
