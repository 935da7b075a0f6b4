//! The placeholder served while a user has no image: seven hexagonal cubes on
//! a light square, six of them in colours drawn from a small palette by a
//! generator seeded with the user's id, the middle one always orange.
//!
//! The picture is described here element by element; the `svg` crate turns
//! the elements into text. The colours are drawn by `rand`'s small generator,
//! whose stream the crate documents as not portable: nothing is claimed of
//! which colours come out, only that the picture is the one described for the
//! colours that did.

use crate::markup::{
    append, assign, element_attributes, element_children, element_name, markup, new_element,
    no_attributes, one_attribute, write_element, written,
};
use rand::rngs::SmallRng;
use rand::seq::IndexedRandom;
use rand::SeedableRng;
use svg::node::element::Element;
use vstd::prelude::*;

verus! {

/// `rand::rngs::SmallRng`, the generator the colours are drawn with. Its
/// state is carried from draw to draw and never looked into.
#[verifier::external_type_specification]
#[verifier::external_body]
pub struct ExSmallRng(rand::rngs::SmallRng);

/// A colour a cube can be drawn in.
#[derive(Clone, Copy, Debug, PartialEq, Eq, Structural)]
pub enum CubeColor {
    Amber,
    Red,
    Rose,
    Violet,
    Blue,
}

/// How many cubes take a drawn colour.
pub const DRAWN_CUBES: usize = 6;

/// The colour as an SVG paint value.
pub open spec fn color_paint(c: CubeColor) -> Seq<char> {
    match c {
        CubeColor::Amber => "#FFBE0B"@,
        CubeColor::Red => "#FF4037"@,
        CubeColor::Rose => "#FF006E"@,
        CubeColor::Violet => "#8338EC"@,
        CubeColor::Blue => "#3A86FF"@,
    }
}

/// The palette, in the order the colours are drawn from.
pub open spec fn palette_colors() -> Seq<CubeColor> {
    seq![CubeColor::Amber, CubeColor::Red, CubeColor::Rose, CubeColor::Violet, CubeColor::Blue]
}

/// Where the `i`-th drawn cube stands: its `x` and `y` attribute.
pub open spec fn cube_place(i: int) -> (Seq<char>, Seq<char>) {
    if i == 0 {
        ("22"@, "14.68"@)
    } else if i == 1 {
        ("42"@, "14.68"@)
    } else if i == 2 {
        ("12"@, "32"@)
    } else if i == 3 {
        ("52"@, "32"@)
    } else if i == 4 {
        ("22"@, "49.32"@)
    } else {
        ("42"@, "49.32"@)
    }
}

/// A reference to the cube shape, placed and filled.
pub open spec fn use_markup(x: Seq<char>, y: Seq<char>, fill: Seq<char>) -> Seq<u8> {
    written(
        "use"@,
        one_attribute("xlink:href"@, "#cube"@).insert("x"@, x).insert("y"@, y).insert(
            "fill"@,
            fill,
        ),
        Seq::<Seq<u8>>::empty(),
    )
}

/// The `i`-th drawn cube in the colour `c`.
pub open spec fn drawn_cube_markup(i: int, c: CubeColor) -> Seq<u8> {
    use_markup(cube_place(i).0, cube_place(i).1, color_paint(c))
}

/// The group of all seven cubes: the drawn ones in order, then the orange one
/// in the middle.
pub open spec fn cubes_markup(fills: Seq<CubeColor>) -> Seq<u8> {
    written(
        "g"@,
        one_attribute("transform"@, "rotate(0 32 32)"@),
        Seq::new(fills.len(), |i: int| drawn_cube_markup(i, fills[i])).push(
            use_markup("32"@, "32"@, "#FF7F00"@),
        ),
    )
}

/// The light square behind the cubes.
pub open spec fn background_markup() -> Seq<u8> {
    written(
        "rect"@,
        one_attribute("width"@, "64"@).insert("height"@, "64"@).insert("x"@, "0"@).insert(
            "y"@,
            "0"@,
        ).insert("fill"@, "#EEE"@),
        Seq::<Seq<u8>>::empty(),
    )
}

/// The corner points of the hexagon that outlines a cube.
pub open spec fn hexagon_points() -> Seq<char> {
    "9.0,0.0 4.5,7.794 -4.5,7.794 -9.0,0 -4.5,-7.794 4.5,-7.794"@
}

/// The mask that clips a cube's inner edges to its outline.
pub open spec fn mask_markup() -> Seq<u8> {
    written(
        "mask"@,
        one_attribute("id"@, "poly"@).insert("mask-type"@, "luminance"@).insert(
            "x"@,
            "-100"@,
        ).insert("y"@, "-100"@).insert("width"@, "200"@).insert("height"@, "200"@).insert(
            "maskUnits"@,
            "userSpaceOnUse"@,
        ),
        seq![
            written(
                "polygon"@,
                one_attribute("points"@, hexagon_points()).insert("fill"@, "white"@),
                Seq::<Seq<u8>>::empty(),
            ),
        ],
    )
}

/// The cube shape, defined once and referred to by each cube.
pub open spec fn definitions_markup() -> Seq<u8> {
    written(
        "defs"@,
        no_attributes(),
        seq![
            written(
                "g"@,
                one_attribute("id"@, "cube"@),
                seq![
                    written(
                        "polygon"@,
                        one_attribute("points"@, hexagon_points()),
                        Seq::<Seq<u8>>::empty(),
                    ),
                    written(
                        "polyline"@,
                        one_attribute("mask"@, "url(#poly)"@).insert(
                            "points"@,
                            "9,0 0,0 -4.5,7.794 0,0 -4.5,-7.794"@,
                        ).insert("style"@, "fill:none;stroke:#02020244;stroke-width:.6"@),
                        Seq::<Seq<u8>>::empty(),
                    ),
                ],
            ),
        ],
    )
}

/// The whole placeholder for the given drawn colours: the document element
/// with background, mask, definitions and cubes, as the bytes it is written as.
pub open spec fn placeholder_markup(fills: Seq<CubeColor>) -> Seq<u8> {
    written(
        "svg"@,
        one_attribute("xmlns"@, "http://www.w3.org/2000/svg"@).insert(
            "viewBox"@,
            "0 0 64 64"@,
        ).insert("xmlns:xlink"@, "http://www.w3.org/1999/xlink"@).insert("id"@, "flynn"@),
        seq![background_markup(), mask_markup(), definitions_markup(), cubes_markup(fills)],
    )
}

/// `SmallRng::seed_from_u64`: a generator started from the seed. Nothing is
/// stated of the values it will give.
#[verifier::external_body]
fn seeded(seed: u64) -> SmallRng {
    SmallRng::seed_from_u64(seed)
}

/// `IndexedRandom::choose` on a slice of colours: one of the slice's
/// elements, and none only where the slice is empty.
#[verifier::external_body]
fn pick(rng: &mut SmallRng, colors: &[CubeColor]) -> (picked: Option<CubeColor>)
    ensures
        picked is None <==> colors@.len() == 0,
        picked matches Some(c) ==> colors@.contains(c),
{
    colors.choose(rng).copied()
}

impl CubeColor {
    /// The colour as an SVG paint value.
    pub fn paint(self) -> (s: &'static str)
        ensures
            s@ == color_paint(self),
    {
        match self {
            CubeColor::Amber => "#FFBE0B",
            CubeColor::Red => "#FF4037",
            CubeColor::Rose => "#FF006E",
            CubeColor::Violet => "#8338EC",
            CubeColor::Blue => "#3A86FF",
        }
    }
}

/// The palette, in the order the colours are drawn from.
pub fn palette() -> (colors: Vec<CubeColor>)
    ensures
        colors@ == palette_colors(),
{
    let mut colors: Vec<CubeColor> = Vec::new();
    colors.push(CubeColor::Amber);
    colors.push(CubeColor::Red);
    colors.push(CubeColor::Rose);
    colors.push(CubeColor::Violet);
    colors.push(CubeColor::Blue);
    assert(colors@ =~= palette_colors());
    colors
}

fn use_element(x: &str, y: &str, fill: &str) -> (e: Element)
    ensures
        markup(e) == use_markup(x@, y@, fill@),
{
    let mut e = new_element("use");
    assign(&mut e, "xlink:href", "#cube");
    assign(&mut e, "x", x);
    assign(&mut e, "y", y);
    assign(&mut e, "fill", fill);
    e
}

fn drawn_cube(i: usize, c: CubeColor) -> (e: Element)
    requires
        i < DRAWN_CUBES,
    ensures
        markup(e) == drawn_cube_markup(i as int, c),
{
    if i == 0 {
        use_element("22", "14.68", c.paint())
    } else if i == 1 {
        use_element("42", "14.68", c.paint())
    } else if i == 2 {
        use_element("12", "32", c.paint())
    } else if i == 3 {
        use_element("52", "32", c.paint())
    } else if i == 4 {
        use_element("22", "49.32", c.paint())
    } else {
        use_element("42", "49.32", c.paint())
    }
}

fn background() -> (e: Element)
    ensures
        markup(e) == background_markup(),
{
    let mut e = new_element("rect");
    assign(&mut e, "width", "64");
    assign(&mut e, "height", "64");
    assign(&mut e, "x", "0");
    assign(&mut e, "y", "0");
    assign(&mut e, "fill", "#EEE");
    e
}

fn mask() -> (e: Element)
    ensures
        markup(e) == mask_markup(),
{
    let mut polygon = new_element("polygon");
    assign(&mut polygon, "points", "9.0,0.0 4.5,7.794 -4.5,7.794 -9.0,0 -4.5,-7.794 4.5,-7.794");
    assign(&mut polygon, "fill", "white");

    let mut e = new_element("mask");
    assign(&mut e, "id", "poly");
    assign(&mut e, "mask-type", "luminance");
    assign(&mut e, "x", "-100");
    assign(&mut e, "y", "-100");
    assign(&mut e, "width", "200");
    assign(&mut e, "height", "200");
    assign(&mut e, "maskUnits", "userSpaceOnUse");
    append(&mut e, polygon);
    assert(element_children(e) =~= seq![
        written(
            "polygon"@,
            one_attribute("points"@, hexagon_points()).insert("fill"@, "white"@),
            Seq::<Seq<u8>>::empty(),
        ),
    ]);
    e
}

fn definitions() -> (e: Element)
    ensures
        markup(e) == definitions_markup(),
{
    let mut polygon = new_element("polygon");
    assign(&mut polygon, "points", "9.0,0.0 4.5,7.794 -4.5,7.794 -9.0,0 -4.5,-7.794 4.5,-7.794");

    let mut polyline = new_element("polyline");
    assign(&mut polyline, "mask", "url(#poly)");
    assign(&mut polyline, "points", "9,0 0,0 -4.5,7.794 0,0 -4.5,-7.794");
    assign(&mut polyline, "style", "fill:none;stroke:#02020244;stroke-width:.6");

    let mut cube = new_element("g");
    assign(&mut cube, "id", "cube");
    let ghost polygon_markup = markup(polygon);
    let ghost polyline_markup = markup(polyline);
    append(&mut cube, polygon);
    append(&mut cube, polyline);
    assert(element_children(cube) =~= seq![polygon_markup, polyline_markup]);

    let mut e = new_element("defs");
    let ghost cube_markup = markup(cube);
    append(&mut e, cube);
    assert(element_children(e) =~= seq![cube_markup]);
    e
}

fn cubes(fills: &Vec<CubeColor>) -> (e: Element)
    requires
        fills.len() == DRAWN_CUBES,
    ensures
        markup(e) == cubes_markup(fills@),
{
    let mut e = new_element("g");
    assign(&mut e, "transform", "rotate(0 32 32)");
    let mut i: usize = 0;
    while i < DRAWN_CUBES
        invariant
            i <= DRAWN_CUBES,
            fills.len() == DRAWN_CUBES,
            element_name(e) == "g"@,
            element_attributes(e) == one_attribute("transform"@, "rotate(0 32 32)"@),
            element_children(e) == Seq::new(i as nat, |j: int| drawn_cube_markup(j, fills@[j])),
        decreases DRAWN_CUBES - i,
    {
        let cube = drawn_cube(i, fills[i]);
        append(&mut e, cube);
        assert(element_children(e) =~= Seq::new(
            (i + 1) as nat,
            |j: int| drawn_cube_markup(j, fills@[j]),
        ));
        i = i + 1;
    }
    let middle = use_element("32", "32", "#FF7F00");
    append(&mut e, middle);
    e
}

/// The placeholder in which the six outer cubes take the given colours.
pub fn render_placeholder(fills: &Vec<CubeColor>) -> (bytes: Vec<u8>)
    requires
        fills.len() == DRAWN_CUBES,
    ensures
        bytes@ == placeholder_markup(fills@),
{
    let mut document = new_element("svg");
    assign(&mut document, "xmlns", "http://www.w3.org/2000/svg");
    assign(&mut document, "viewBox", "0 0 64 64");
    assign(&mut document, "xmlns:xlink", "http://www.w3.org/1999/xlink");
    assign(&mut document, "id", "flynn");
    append(&mut document, background());
    append(&mut document, mask());
    append(&mut document, definitions());
    append(&mut document, cubes(fills));
    assert(element_children(document) =~= seq![
        background_markup(),
        mask_markup(),
        definitions_markup(),
        cubes_markup(fills@),
    ]);
    write_element(&document)
}

/// Draws the colours of the six outer cubes from the palette, with a
/// generator seeded by `user_id`.
pub fn draw_fills(user_id: u32) -> (fills: Vec<CubeColor>)
    ensures
        fills.len() == DRAWN_CUBES,
        forall|i: int| 0 <= i < fills.len() ==> palette_colors().contains(#[trigger] fills[i]),
{
    let colors = palette();
    let mut rng = seeded(user_id as u64);
    let mut fills: Vec<CubeColor> = Vec::new();
    let mut i: usize = 0;
    while i < DRAWN_CUBES
        invariant
            i <= DRAWN_CUBES,
            fills.len() == i,
            colors@ == palette_colors(),
            forall|k: int| 0 <= k < fills.len() ==> palette_colors().contains(#[trigger] fills[k]),
        decreases DRAWN_CUBES - i,
    {
        match pick(&mut rng, colors.as_slice()) {
            Some(c) => fills.push(c),
            None => {
                // the palette is not empty, so there is always a colour to draw
                assert(false);
            },
        }
        i = i + 1;
    }
    fills
}

/// Whether `fills` can be drawn: one colour of the palette for each of the
/// six outer cubes.
pub open spec fn is_drawable(fills: Seq<CubeColor>) -> bool {
    fills.len() == DRAWN_CUBES && forall|i: int|
        0 <= i < fills.len() ==> palette_colors().contains(#[trigger] fills[i])
}

/// The placeholder for a user: the picture with the six outer cubes in the
/// colours drawn for `user_id`, each of them a colour of the palette.
pub fn make_placeholder(user_id: u32) -> (bytes: Vec<u8>)
    ensures
        exists|fills: Seq<CubeColor>|
            is_drawable(fills) && bytes@ == #[trigger] placeholder_markup(fills),
{
    let fills = draw_fills(user_id);
    assert(is_drawable(fills@));
    render_placeholder(&fills)
}

} // verus!
