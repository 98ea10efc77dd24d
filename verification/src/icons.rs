//! A sample concrete icon shape.
//!
//! Icon packs supply their own shape types; this module holds one small
//! example, a home glyph, so that the renderer can be exercised end to end.

use vstd::prelude::*;

use crate::markup::Attribute;
use crate::markup::AttributeView;
use crate::markup::DrawingPrimitive;
use crate::markup::DrawingPrimitiveView;
use crate::shape::IconShape;
use crate::shape::default_fill_and_stroke;
use crate::shape::default_stroke_linecap;
use crate::shape::default_stroke_linejoin;
use crate::shape::spec_default_fill_and_stroke;

verus! {

/// A home glyph on a 24 by 24 viewport, drawn as a single path and using
/// the default stroke/fill policy.
#[derive(Clone, Copy, Debug, PartialEq, Eq)]
pub struct HomeIcon;

impl IconShape for HomeIcon {
    open spec fn spec_view_box(&self) -> Seq<char> {
        "0 0 24 24"@
    }

    open spec fn spec_xmlns(&self) -> Seq<char> {
        "http://www.w3.org/2000/svg"@
    }

    open spec fn spec_child_elements(&self) -> Seq<DrawingPrimitiveView> {
        seq![
            DrawingPrimitiveView {
                name: "path"@,
                attributes: seq![
                    AttributeView {
                        name: "d"@,
                        value: "M3 9l9-7 9 7v11a2 2 0 0 1-2 2H5a2 2 0 0 1-2-2z"@,
                    },
                ],
            },
        ]
    }

    open spec fn spec_fill_and_stroke(&self, user_color: Seq<char>) -> (Seq<char>, Seq<char>, Seq<
        char,
    >) {
        spec_default_fill_and_stroke(user_color)
    }

    open spec fn spec_stroke_linecap(&self) -> Seq<char> {
        "butt"@
    }

    open spec fn spec_stroke_linejoin(&self) -> Seq<char> {
        "miter"@
    }

    fn view_box(&self) -> (r: String) {
        String::from_str("0 0 24 24")
    }

    fn xmlns(&self) -> (r: String) {
        String::from_str("http://www.w3.org/2000/svg")
    }

    fn child_elements(&self) -> (r: Vec<DrawingPrimitive>) {
        let mut path_attributes: Vec<Attribute> = Vec::new();
        path_attributes.push(
            Attribute::new(
                "d",
                String::from_str("M3 9l9-7 9 7v11a2 2 0 0 1-2 2H5a2 2 0 0 1-2-2z"),
            ),
        );
        let path = DrawingPrimitive { name: String::from_str("path"), attributes: path_attributes };
        assert(path@.attributes =~= self.spec_child_elements()[0].attributes);
        assert(path@ =~= self.spec_child_elements()[0]);
        let mut children: Vec<DrawingPrimitive> = Vec::new();
        children.push(path);
        assert(children@.map_values(|c: DrawingPrimitive| c@) =~= self.spec_child_elements());
        children
    }

    fn fill_and_stroke(&self, user_color: &str) -> (r: (String, String, String)) {
        default_fill_and_stroke(user_color)
    }

    fn stroke_linecap(&self) -> (r: String) {
        default_stroke_linecap()
    }

    fn stroke_linejoin(&self) -> (r: String) {
        default_stroke_linejoin()
    }
}

} // verus!
