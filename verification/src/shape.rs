//! The shape descriptor: the per-icon bundle of geometry and stroke/fill
//! defaults that the renderer consumes.

use vstd::prelude::*;

use crate::markup::Attribute;
use crate::markup::AttributeView;
use crate::markup::DrawingPrimitive;
use crate::markup::DrawingPrimitiveView;

verus! {

/// The default fill-and-stroke policy as a mathematical value: the shape is
/// not filled, is stroked with the caller's color, and has stroke width zero.
pub open spec fn spec_default_fill_and_stroke(user_color: Seq<char>) -> (Seq<char>, Seq<
    char,
>, Seq<char>) {
    ("none"@, user_color, "0"@)
}

/// The default fill-and-stroke policy: `("none", user_color, "0")`, so that
/// by default a shape is stroke-colored and not filled.
pub fn default_fill_and_stroke(user_color: &str) -> (r: (String, String, String))
    ensures
        r.0@ == spec_default_fill_and_stroke(user_color@).0,
        r.1@ == spec_default_fill_and_stroke(user_color@).1,
        r.2@ == spec_default_fill_and_stroke(user_color@).2,
        r.0@ == "none"@,
        r.1@ == user_color@,
        r.2@ == "0"@,
{
    (String::from_str("none"), String::from_str(user_color), String::from_str("0"))
}

/// The default line cap, `"butt"`.
pub fn default_stroke_linecap() -> (r: String)
    ensures
        r@ == "butt"@,
{
    String::from_str("butt")
}

/// The default line join, `"miter"`.
pub fn default_stroke_linejoin() -> (r: String)
    ensures
        r@ == "miter"@,
{
    String::from_str("miter")
}

/// The capability contract every concrete icon type implements: a viewport
/// bounding box, a namespace identifier, the icon's drawing primitives, and
/// (overridably) how a caller-supplied color turns into the effective
/// (fill, stroke, stroke-width) triple and which line cap and join to use.
///
/// All methods are total functions over an immutable shape value; each is
/// pinned to its mathematical counterpart, so rendering is deterministic.
pub trait IconShape {
    /// The viewport bounding box as a formatted string.
    spec fn spec_view_box(&self) -> Seq<char>;

    /// The namespace identifier.
    spec fn spec_xmlns(&self) -> Seq<char>;

    /// The icon's drawing primitives.
    spec fn spec_child_elements(&self) -> Seq<DrawingPrimitiveView>;

    /// The effective (fill, stroke, stroke-width) triple for a caller color.
    spec fn spec_fill_and_stroke(&self, user_color: Seq<char>) -> (Seq<char>, Seq<char>, Seq<
        char,
    >);

    /// The line cap.
    spec fn spec_stroke_linecap(&self) -> Seq<char>;

    /// The line join.
    spec fn spec_stroke_linejoin(&self) -> Seq<char>;

    fn view_box(&self) -> (r: String)
        ensures
            r@ == self.spec_view_box(),
    ;

    fn xmlns(&self) -> (r: String)
        ensures
            r@ == self.spec_xmlns(),
    ;

    fn child_elements(&self) -> (r: Vec<DrawingPrimitive>)
        ensures
            r@.map_values(|c: DrawingPrimitive| c@) == self.spec_child_elements(),
    ;

    fn fill_and_stroke(&self, user_color: &str) -> (r: (String, String, String))
        ensures
            r.0@ == self.spec_fill_and_stroke(user_color@).0,
            r.1@ == self.spec_fill_and_stroke(user_color@).1,
            r.2@ == self.spec_fill_and_stroke(user_color@).2,
    ;

    fn stroke_linecap(&self) -> (r: String)
        ensures
            r@ == self.spec_stroke_linecap(),
    ;

    fn stroke_linejoin(&self) -> (r: String)
        ensures
            r@ == self.spec_stroke_linejoin(),
    ;
}

/// A shape that keeps the default policy maps any caller color `C` to
/// `("none", C, "0")`: by default the shape is stroke-colored and not filled.
pub proof fn lemma_default_policy<T: IconShape>(icon: &T, user_color: Seq<char>)
    requires
        icon.spec_fill_and_stroke(user_color) == spec_default_fill_and_stroke(user_color),
    ensures
        icon.spec_fill_and_stroke(user_color).0 == "none"@,
        icon.spec_fill_and_stroke(user_color).1 == user_color,
        icon.spec_fill_and_stroke(user_color).2 == "0"@,
{
}

/// The null/placeholder shape: a zero-sized view box, the standard SVG
/// namespace, no drawing primitives, and the default policy throughout.
impl IconShape for () {
    open spec fn spec_view_box(&self) -> Seq<char> {
        "0 0 0 0"@
    }

    open spec fn spec_xmlns(&self) -> Seq<char> {
        "http://www.w3.org/2000/svg"@
    }

    open spec fn spec_child_elements(&self) -> Seq<DrawingPrimitiveView> {
        Seq::empty()
    }

    open spec fn spec_fill_and_stroke(&self, user_color: Seq<char>) -> (Seq<char>, Seq<char>, Seq<
        char,
    >) {
        spec_default_fill_and_stroke(user_color)
    }

    open spec fn spec_stroke_linecap(&self) -> Seq<char> {
        "butt"@
    }

    open spec fn spec_stroke_linejoin(&self) -> Seq<char> {
        "miter"@
    }

    fn view_box(&self) -> (r: String) {
        String::from_str("0 0 0 0")
    }

    fn xmlns(&self) -> (r: String) {
        String::from_str("http://www.w3.org/2000/svg")
    }

    fn child_elements(&self) -> (r: Vec<DrawingPrimitive>) {
        let children: Vec<DrawingPrimitive> = Vec::new();
        children
    }

    fn fill_and_stroke(&self, user_color: &str) -> (r: (String, String, String)) {
        default_fill_and_stroke(user_color)
    }

    fn stroke_linecap(&self) -> (r: String) {
        default_stroke_linecap()
    }

    fn stroke_linejoin(&self) -> (r: String) {
        default_stroke_linejoin()
    }
}

} // verus!
