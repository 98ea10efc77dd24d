//! The render function: one shape plus display attributes in, one root SVG
//! markup element out.

use vstd::prelude::*;

use crate::markup::DrawingPrimitiveView;
use crate::markup::SvgElement;
use crate::markup::SvgElementView;
use crate::markup::opt_text_view;
use crate::shape::IconShape;

verus! {

/// Display attributes for one render call. Every field but the shape itself
/// is optional; an unspecified fill stands for the default color
/// `"currentColor"`.
pub struct IconProps<T: IconShape> {
    /// The icon shape to use.
    pub icon: T,
    /// The height of the `<svg>` element.
    pub height: Option<String>,
    /// The width of the `<svg>` element.
    pub width: Option<String>,
    /// The color to use for filling the icon. Defaults to "currentColor".
    pub fill: Option<String>,
    /// A class for the `<svg>` element.
    pub class: Option<String>,
    /// The style of the `<svg>` element.
    pub style: Option<String>,
}

/// The effective fill input: the caller's color when one was supplied,
/// `"currentColor"` otherwise.
pub open spec fn spec_effective_fill(fill: Option<Seq<char>>) -> Seq<char> {
    match fill {
        Option::Some(color) => color,
        Option::None => "currentColor"@,
    }
}

/// Substitutes the default color `"currentColor"` for an unspecified fill.
pub fn effective_fill(fill: &Option<String>) -> (r: String)
    ensures
        r@ == spec_effective_fill(opt_text_view(*fill)),
{
    match fill {
        Option::Some(color) => color.clone(),
        Option::None => String::from_str("currentColor"),
    }
}

/// The rendered markup for one shape and one set of display attributes:
/// namespace and viewport from the shape; fill, stroke and stroke width from
/// the shape's policy applied to the effective fill input; line cap and join
/// from the shape; the optional attributes kept exactly as supplied; and the
/// shape's drawing primitives nested inside.
pub open spec fn spec_render<T: IconShape>(
    icon: &T,
    height: Option<Seq<char>>,
    width: Option<Seq<char>>,
    fill: Option<Seq<char>>,
    class: Option<Seq<char>>,
    style: Option<Seq<char>>,
) -> SvgElementView {
    let triple = icon.spec_fill_and_stroke(spec_effective_fill(fill));
    SvgElementView {
        class: class,
        style: style,
        height: height,
        width: width,
        view_box: icon.spec_view_box(),
        xmlns: icon.spec_xmlns(),
        fill: triple.0,
        stroke: triple.1,
        stroke_width: triple.2,
        stroke_linecap: icon.spec_stroke_linecap(),
        stroke_linejoin: icon.spec_stroke_linejoin(),
        children: icon.spec_child_elements(),
    }
}

/// Renders one icon: builds the root `svg` element from the shape and the
/// display attributes. Pure and deterministic; absent optional attributes
/// stay absent in the output.
#[allow(non_snake_case)]
pub fn Icon<T: IconShape>(props: IconProps<T>) -> (r: SvgElement)
    ensures
        r@ == spec_render(
            &props.icon,
            opt_text_view(props.height),
            opt_text_view(props.width),
            opt_text_view(props.fill),
            opt_text_view(props.class),
            opt_text_view(props.style),
        ),
{
    let IconProps { icon, height, width, fill, class, style } = props;
    let fill_input = effective_fill(&fill);
    let (fill_value, stroke, stroke_width) = icon.fill_and_stroke(fill_input.as_str());
    let element = SvgElement {
        class,
        style,
        height,
        width,
        view_box: icon.view_box(),
        xmlns: icon.xmlns(),
        fill: fill_value,
        stroke,
        stroke_width,
        stroke_linecap: icon.stroke_linecap(),
        stroke_linejoin: icon.stroke_linejoin(),
        children: icon.child_elements(),
    };
    element
}

/// Rendering is deterministic: two renderings of the same shape and the same
/// display attributes are structurally identical.
pub proof fn lemma_render_deterministic<T: IconShape>(
    icon: &T,
    height: Option<Seq<char>>,
    width: Option<Seq<char>>,
    fill: Option<Seq<char>>,
    class: Option<Seq<char>>,
    style: Option<Seq<char>>,
    first: SvgElementView,
    second: SvgElementView,
)
    requires
        first == spec_render(icon, height, width, fill, class, style),
        second == spec_render(icon, height, width, fill, class, style),
    ensures
        first == second,
{
}

/// With fill unspecified, the effective fill input is the literal text
/// `"currentColor"`, and the rendered triple is the shape's policy applied
/// to it.
pub proof fn lemma_unspecified_fill_defaults<T: IconShape>(
    icon: &T,
    height: Option<Seq<char>>,
    width: Option<Seq<char>>,
    class: Option<Seq<char>>,
    style: Option<Seq<char>>,
)
    ensures
        spec_effective_fill(Option::None) == "currentColor"@,
        spec_render(icon, height, width, Option::None, class, style).fill
            == icon.spec_fill_and_stroke("currentColor"@).0,
        spec_render(icon, height, width, Option::None, class, style).stroke
            == icon.spec_fill_and_stroke("currentColor"@).1,
        spec_render(icon, height, width, Option::None, class, style).stroke_width
            == icon.spec_fill_and_stroke("currentColor"@).2,
{
}

/// The null/placeholder shape renders a view box of `"0 0 0 0"`, the SVG
/// namespace URI, and an empty child-primitive sequence, whatever the
/// display attributes.
pub proof fn lemma_placeholder_renders_empty(
    height: Option<Seq<char>>,
    width: Option<Seq<char>>,
    fill: Option<Seq<char>>,
    class: Option<Seq<char>>,
    style: Option<Seq<char>>,
)
    ensures
        spec_render(&(), height, width, fill, class, style).view_box == "0 0 0 0"@,
        spec_render(&(), height, width, fill, class, style).xmlns
            == "http://www.w3.org/2000/svg"@,
        spec_render(&(), height, width, fill, class, style).children == Seq::<
            DrawingPrimitiveView,
        >::empty(),
{
}

/// With class, style, height and width absent, the rendered markup omits
/// those attributes entirely: no entry of the produced attribute list bears
/// one of their names (in particular none is emitted as an empty string).
pub proof fn lemma_absent_attributes_omitted<T: IconShape>(icon: &T, fill: Option<Seq<char>>)
    ensures
        ({
            let rendered = spec_render(
                icon,
                Option::None,
                Option::None,
                fill,
                Option::None,
                Option::None,
            );
            let attrs = rendered.attribute_list();
            &&& attrs.len() == 7
            &&& forall|i: int|
                0 <= i < attrs.len() ==> #[trigger] attrs[i].name != "class"@ && attrs[i].name
                    != "style"@ && attrs[i].name != "height"@ && attrs[i].name != "width"@
        }),
{
    reveal_strlit("class");
    reveal_strlit("style");
    reveal_strlit("height");
    reveal_strlit("width");
    reveal_strlit("viewBox");
    reveal_strlit("xmlns");
    reveal_strlit("fill");
    reveal_strlit("stroke");
    reveal_strlit("stroke-width");
    reveal_strlit("stroke-linecap");
    reveal_strlit("stroke-linejoin");
    let rendered = spec_render(icon, Option::None, Option::None, fill, Option::None, Option::None);
    let attrs = rendered.attribute_list();
    assert(attrs.len() == 7);
    assert("class"@.len() == 5 && "class"@[0] == 'c');
    assert("style"@.len() == 5 && "style"@[0] == 's');
    assert("height"@.len() == 6 && "height"@[0] == 'h');
    assert("width"@.len() == 5 && "width"@[0] == 'w');
    assert("viewBox"@.len() == 7);
    assert("xmlns"@.len() == 5 && "xmlns"@[0] == 'x');
    assert("fill"@.len() == 4);
    assert("stroke"@.len() == 6 && "stroke"@[0] == 's');
    assert("stroke-width"@.len() == 12);
    assert("stroke-linecap"@.len() == 14);
    assert("stroke-linejoin"@.len() == 15);
    assert forall|i: int| 0 <= i < attrs.len() implies #[trigger] attrs[i].name != "class"@
        && attrs[i].name != "style"@ && attrs[i].name != "height"@ && attrs[i].name
        != "width"@ by {
        assert(attrs[i].name == "viewBox"@ || attrs[i].name == "xmlns"@ || attrs[i].name == "fill"@
            || attrs[i].name == "stroke"@ || attrs[i].name == "stroke-width"@ || attrs[i].name
            == "stroke-linecap"@ || attrs[i].name == "stroke-linejoin"@);
    }
}

} // verus!
