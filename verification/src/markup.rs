//! The markup tree produced by rendering an icon.
//!
//! The tree is made of plain values: a root SVG element with typed
//! attribute fields, and a sequence of atomic drawing primitives nested
//! inside it. Optional attributes that are absent are omitted from the
//! produced attribute list entirely.

use vstd::prelude::*;

verus! {

/// One markup attribute: a name/value pair on an element.
#[derive(Clone, Debug, PartialEq, Eq)]
pub struct Attribute {
    pub name: String,
    pub value: String,
}

/// The mathematical value of an [`Attribute`].
#[verifier::ext_equal]
pub ghost struct AttributeView {
    pub name: Seq<char>,
    pub value: Seq<char>,
}

impl View for Attribute {
    type V = AttributeView;

    open spec fn view(&self) -> AttributeView {
        AttributeView { name: self.name@, value: self.value@ }
    }
}

impl Attribute {
    /// Builds the attribute `name="value"`.
    pub fn new(name: &str, value: String) -> (r: Attribute)
        ensures
            r@ == (AttributeView { name: name@, value: value@ }),
    {
        Attribute { name: String::from_str(name), value }
    }
}

/// An atomic drawing primitive (for example a `path`): an element name
/// together with its attributes. Primitives carry no further nesting.
#[derive(Clone, Debug, PartialEq, Eq)]
pub struct DrawingPrimitive {
    pub name: String,
    pub attributes: Vec<Attribute>,
}

/// The mathematical value of a [`DrawingPrimitive`].
#[verifier::ext_equal]
pub ghost struct DrawingPrimitiveView {
    pub name: Seq<char>,
    pub attributes: Seq<AttributeView>,
}

impl View for DrawingPrimitive {
    type V = DrawingPrimitiveView;

    open spec fn view(&self) -> DrawingPrimitiveView {
        DrawingPrimitiveView {
            name: self.name@,
            attributes: self.attributes@.map_values(|a: Attribute| a@),
        }
    }
}

/// The mathematical value of an optional text attribute.
pub open spec fn opt_text_view(o: Option<String>) -> Option<Seq<char>> {
    match o {
        Option::Some(s) => Option::Some(s@),
        Option::None => Option::None,
    }
}

/// The root element of a rendered icon: an `svg` element. The optional
/// presentation attributes keep their absence (`None` never turns into an
/// empty string), the remaining attributes are always present, and the
/// shape's drawing primitives are nested inside.
#[derive(Clone, Debug, PartialEq, Eq)]
pub struct SvgElement {
    pub class: Option<String>,
    pub style: Option<String>,
    pub height: Option<String>,
    pub width: Option<String>,
    pub view_box: String,
    pub xmlns: String,
    pub fill: String,
    pub stroke: String,
    pub stroke_width: String,
    pub stroke_linecap: String,
    pub stroke_linejoin: String,
    pub children: Vec<DrawingPrimitive>,
}

/// The mathematical value of an [`SvgElement`].
#[verifier::ext_equal]
pub ghost struct SvgElementView {
    pub class: Option<Seq<char>>,
    pub style: Option<Seq<char>>,
    pub height: Option<Seq<char>>,
    pub width: Option<Seq<char>>,
    pub view_box: Seq<char>,
    pub xmlns: Seq<char>,
    pub fill: Seq<char>,
    pub stroke: Seq<char>,
    pub stroke_width: Seq<char>,
    pub stroke_linecap: Seq<char>,
    pub stroke_linejoin: Seq<char>,
    pub children: Seq<DrawingPrimitiveView>,
}

impl View for SvgElement {
    type V = SvgElementView;

    open spec fn view(&self) -> SvgElementView {
        SvgElementView {
            class: opt_text_view(self.class),
            style: opt_text_view(self.style),
            height: opt_text_view(self.height),
            width: opt_text_view(self.width),
            view_box: self.view_box@,
            xmlns: self.xmlns@,
            fill: self.fill@,
            stroke: self.stroke@,
            stroke_width: self.stroke_width@,
            stroke_linecap: self.stroke_linecap@,
            stroke_linejoin: self.stroke_linejoin@,
            children: self.children@.map_values(|c: DrawingPrimitive| c@),
        }
    }
}

/// The attribute list contribution of one optional attribute: nothing when
/// the attribute is absent, one name/value pair when it is present.
pub open spec fn spec_opt_attr(name: Seq<char>, value: Option<Seq<char>>) -> Seq<AttributeView> {
    match value {
        Option::Some(v) => seq![AttributeView { name: name, value: v }],
        Option::None => Seq::empty(),
    }
}

impl SvgElementView {
    /// The element's attributes in markup order, under their standard SVG
    /// names. Absent optional attributes contribute nothing.
    pub open spec fn attribute_list(self) -> Seq<AttributeView> {
        spec_opt_attr("class"@, self.class) + spec_opt_attr("style"@, self.style)
            + spec_opt_attr("height"@, self.height) + spec_opt_attr("width"@, self.width)
            + seq![
                AttributeView { name: "viewBox"@, value: self.view_box },
                AttributeView { name: "xmlns"@, value: self.xmlns },
                AttributeView { name: "fill"@, value: self.fill },
                AttributeView { name: "stroke"@, value: self.stroke },
                AttributeView { name: "stroke-width"@, value: self.stroke_width },
                AttributeView { name: "stroke-linecap"@, value: self.stroke_linecap },
                AttributeView { name: "stroke-linejoin"@, value: self.stroke_linejoin },
            ]
    }
}

/// Appends `name="value"` to `attrs` when `value` is present, and leaves
/// `attrs` unchanged when it is absent.
fn push_opt_attr(attrs: &mut Vec<Attribute>, name: &str, value: &Option<String>)
    ensures
        final(attrs)@.map_values(|a: Attribute| a@) == old(attrs)@.map_values(|a: Attribute| a@)
            + spec_opt_attr(name@, opt_text_view(*value)),
{
    match value {
        Option::Some(v) => {
            attrs.push(Attribute::new(name, v.clone()));
        },
        Option::None => {},
    }
}

/// Appends `name="value"` to `attrs`.
fn push_attr(attrs: &mut Vec<Attribute>, name: &str, value: &String)
    ensures
        final(attrs)@.map_values(|a: Attribute| a@) == old(attrs)@.map_values(|a: Attribute| a@)
            + seq![AttributeView { name: name@, value: value@ }],
{
    attrs.push(Attribute::new(name, value.clone()));
}

impl SvgElement {
    /// The element's attributes in markup order, under their standard SVG
    /// names (`view_box` is emitted as `viewBox`). An absent optional
    /// attribute is omitted entirely, never emitted as an empty string.
    pub fn attribute_list(&self) -> (r: Vec<Attribute>)
        ensures
            r@.map_values(|a: Attribute| a@) == self@.attribute_list(),
    {
        let mut attrs: Vec<Attribute> = Vec::new();
        push_opt_attr(&mut attrs, "class", &self.class);
        push_opt_attr(&mut attrs, "style", &self.style);
        push_opt_attr(&mut attrs, "height", &self.height);
        push_opt_attr(&mut attrs, "width", &self.width);
        push_attr(&mut attrs, "viewBox", &self.view_box);
        push_attr(&mut attrs, "xmlns", &self.xmlns);
        push_attr(&mut attrs, "fill", &self.fill);
        push_attr(&mut attrs, "stroke", &self.stroke);
        push_attr(&mut attrs, "stroke-width", &self.stroke_width);
        push_attr(&mut attrs, "stroke-linecap", &self.stroke_linecap);
        push_attr(&mut attrs, "stroke-linejoin", &self.stroke_linejoin);
        attrs
    }
}

} // verus!
