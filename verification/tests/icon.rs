use svg_icon::icons::HomeIcon;
use svg_icon::markup::SvgElement;
use svg_icon::render::Icon;
use svg_icon::render::IconProps;
use svg_icon::render::effective_fill;
use svg_icon::shape::IconShape;
use svg_icon::shape::default_fill_and_stroke;
use svg_icon::shape::default_stroke_linecap;
use svg_icon::shape::default_stroke_linejoin;

fn render_home(
    height: Option<String>,
    width: Option<String>,
    fill: Option<String>,
    class: Option<String>,
    style: Option<String>,
) -> SvgElement {
    Icon(IconProps { icon: HomeIcon, height, width, fill, class, style })
}

#[test]
fn default_policy_returns_none_color_zero() {
    let (fill, stroke, stroke_width) = default_fill_and_stroke("rebeccapurple");
    assert_eq!(fill, "none");
    assert_eq!(stroke, "rebeccapurple");
    assert_eq!(stroke_width, "0");

    let (fill, stroke, stroke_width) = HomeIcon.fill_and_stroke("red");
    assert_eq!(fill, "none");
    assert_eq!(stroke, "red");
    assert_eq!(stroke_width, "0");

    let (fill, stroke, stroke_width) = ().fill_and_stroke("blue");
    assert_eq!(fill, "none");
    assert_eq!(stroke, "blue");
    assert_eq!(stroke_width, "0");
}

#[test]
fn default_line_cap_and_join() {
    assert_eq!(default_stroke_linecap(), "butt");
    assert_eq!(default_stroke_linejoin(), "miter");
    assert_eq!(HomeIcon.stroke_linecap(), "butt");
    assert_eq!(HomeIcon.stroke_linejoin(), "miter");
}

#[test]
fn absent_attributes_are_omitted() {
    let element = render_home(None, None, None, None, None);
    assert_eq!(element.class, None);
    assert_eq!(element.style, None);
    assert_eq!(element.height, None);
    assert_eq!(element.width, None);

    let attrs = element.attribute_list();
    assert_eq!(attrs.len(), 7);
    for attr in &attrs {
        assert_ne!(attr.name, "class");
        assert_ne!(attr.name, "style");
        assert_ne!(attr.name, "height");
        assert_ne!(attr.name, "width");
        assert_ne!(attr.value, "");
    }
}

#[test]
fn unspecified_fill_defaults_to_current_color() {
    assert_eq!(effective_fill(&None), "currentColor");
    assert_eq!(effective_fill(&Some("tomato".to_string())), "tomato");

    let element = render_home(None, None, None, None, None);
    assert_eq!(element.fill, "none");
    assert_eq!(element.stroke, "currentColor");
    assert_eq!(element.stroke_width, "0");
}

#[test]
fn supplied_fill_reaches_the_policy() {
    let element = render_home(None, None, Some("red".to_string()), None, None);
    assert_eq!(element.fill, "none");
    assert_eq!(element.stroke, "red");
    assert_eq!(element.stroke_width, "0");
}

#[test]
fn placeholder_shape_renders_empty() {
    let element = Icon(IconProps {
        icon: (),
        height: None,
        width: None,
        fill: None,
        class: None,
        style: None,
    });
    assert_eq!(element.view_box, "0 0 0 0");
    assert_eq!(element.xmlns, "http://www.w3.org/2000/svg");
    assert!(element.children.is_empty());
}

#[test]
fn rendering_twice_is_identical() {
    let first = render_home(
        Some("32".to_string()),
        Some("32".to_string()),
        Some("green".to_string()),
        Some("icon".to_string()),
        Some("margin: 2px".to_string()),
    );
    let second = render_home(
        Some("32".to_string()),
        Some("32".to_string()),
        Some("green".to_string()),
        Some("icon".to_string()),
        Some("margin: 2px".to_string()),
    );
    assert_eq!(first, second);
    assert_eq!(first.attribute_list(), second.attribute_list());
}

#[test]
fn home_icon_with_size_and_default_fill() {
    let element = render_home(Some("24".to_string()), Some("24".to_string()), None, None, None);
    assert_eq!(element.view_box, "0 0 24 24");
    assert_eq!(element.fill, "none");
    assert_eq!(element.stroke, "currentColor");
    assert_eq!(element.stroke_width, "0");
    assert_eq!(element.width, Some("24".to_string()));
    assert_eq!(element.height, Some("24".to_string()));
    assert_eq!(element.class, None);
    assert_eq!(element.style, None);
}

#[test]
fn home_icon_children_are_one_path() {
    let element = render_home(None, None, None, None, None);
    assert_eq!(element.children.len(), 1);
    let path = &element.children[0];
    assert_eq!(path.name, "path");
    assert_eq!(path.attributes.len(), 1);
    assert_eq!(path.attributes[0].name, "d");
    assert_eq!(path.attributes[0].value, "M3 9l9-7 9 7v11a2 2 0 0 1-2 2H5a2 2 0 0 1-2-2z");
}

#[test]
fn attribute_list_in_markup_order() {
    let element = render_home(
        Some("16".to_string()),
        Some("18".to_string()),
        Some("black".to_string()),
        Some("nav-icon".to_string()),
        Some("opacity: 0.5".to_string()),
    );
    let attrs = element.attribute_list();
    let pairs: Vec<(&str, &str)> = attrs
        .iter()
        .map(|a| (a.name.as_str(), a.value.as_str()))
        .collect();
    assert_eq!(
        pairs,
        vec![
            ("class", "nav-icon"),
            ("style", "opacity: 0.5"),
            ("height", "16"),
            ("width", "18"),
            ("viewBox", "0 0 24 24"),
            ("xmlns", "http://www.w3.org/2000/svg"),
            ("fill", "none"),
            ("stroke", "black"),
            ("stroke-width", "0"),
            ("stroke-linecap", "butt"),
            ("stroke-linejoin", "miter"),
        ]
    );
}

#[test]
fn placeholder_shape_methods() {
    assert_eq!(().view_box(), "0 0 0 0");
    assert_eq!(().xmlns(), "http://www.w3.org/2000/svg");
    assert!(().child_elements().is_empty());
}
