//! The SVG renderer.
//!
//! A composed document is parsed into an SVG tree, its text elements
//! are resolved into path geometry with the supplied font, and the tree
//! is rasterized onto a fixed-size canvas whose content is returned as
//! PNG bytes. Every step is a call into the SVG stack; the values that
//! flow between the steps are opaque to the library, so this module
//! states only which failures each step can surface.

use vstd::prelude::*;
use usvg::TreeParsing;
use usvg::TreeTextToPath;
use crate::errors::CardError;
use crate::CANVAS_WIDTH;
use crate::CANVAS_HEIGHT;

verus! {

#[verifier::external_type_specification]
#[verifier::external_body]
pub struct ExSvgTree(usvg::Tree);

#[verifier::external_type_specification]
#[verifier::external_body]
pub struct ExFontDatabase(usvg::fontdb::Database);

#[verifier::external_type_specification]
#[verifier::external_body]
pub struct ExRenderTree(resvg::Tree);

#[verifier::external_type_specification]
#[verifier::external_body]
pub struct ExPixmap(resvg::tiny_skia::Pixmap);

/// Relies on usvg::fontdb::Database::new: creates an empty font database.
#[verifier::external_body]
fn new_font_database() -> usvg::fontdb::Database {
    usvg::fontdb::Database::new()
}

/// Relies on usvg::fontdb::Database::load_font_data: parses the bytes as
/// a font and adds every face found; bytes that are no font are ignored.
#[verifier::external_body]
fn load_font_data(db: &mut usvg::fontdb::Database, data: &Vec<u8>) {
    db.load_font_data(data.clone());
}

/// Whether a document's bytes parse as well-formed SVG for the subset
/// usvg supports, under default options. Parsing checks UTF-8, XML
/// structure and the size attributes, all from the bytes alone, so the
/// outcome is a function of the document's bytes.
pub uninterp spec fn parses_as_svg(doc: Seq<u8>) -> bool;

/// Relies on usvg::TreeParsing::from_data with default options: parses
/// SVG text (or gzip-compressed SVG) into a tree, or reports why the
/// text is not well-formed; the error is returned as its display text.
/// Success is decided by the document's bytes alone, named
/// `parses_as_svg`.
#[verifier::external_body]
fn parse_svg(doc: &Vec<u8>) -> (r: Result<usvg::Tree, String>)
    ensures
        r is Ok <==> parses_as_svg(doc@),
{
    match usvg::Tree::from_data(doc.as_slice(), &usvg::Options::default()) {
        Ok(tree) => Ok(tree),
        Err(e) => Err(e.to_string()),
    }
}

/// Relies on usvg::TreeTextToPath::convert_text: resolves the tree's
/// text elements into path geometry using the given font database.
#[verifier::external_body]
fn convert_text_to_paths(tree: &mut usvg::Tree, db: &usvg::fontdb::Database) {
    tree.convert_text(db);
}

/// Relies on resvg::tiny_skia::Pixmap::new: allocates a transparent
/// canvas of the given size. Allocation fails only for a zero
/// dimension, a row width beyond 31 bits, or a byte size beyond the
/// machine; it succeeds for every size within those bounds.
#[verifier::external_body]
fn new_pixmap(width: u32, height: u32) -> (r: Option<resvg::tiny_skia::Pixmap>)
    ensures
        (1 <= width && 1 <= height && 4 * (width as int) <= 0x7fff_ffff && 4 * (width as int) * (
        height as int) <= usize::MAX as int) ==> r is Some,
{
    resvg::tiny_skia::Pixmap::new(width, height)
}

/// Relies on resvg::Tree::from_usvg: lowers a parsed SVG tree into a
/// rendering tree; text elements must already be converted to paths.
#[verifier::external_body]
fn build_render_tree(tree: &usvg::Tree) -> resvg::Tree {
    resvg::Tree::from_usvg(tree)
}

/// Relies on resvg::Tree::render with the identity transform: draws the
/// rendering tree onto the canvas.
#[verifier::external_body]
fn render_to_pixmap(tree: &resvg::Tree, pixmap: &mut resvg::tiny_skia::Pixmap) {
    tree.render(resvg::tiny_skia::Transform::default(), &mut pixmap.as_mut());
}

/// Relies on resvg::tiny_skia::Pixmap::encode_png: encodes the canvas
/// content as a PNG byte stream; the error is returned as its display
/// text.
#[verifier::external_body]
fn encode_pixmap_png(pixmap: &resvg::tiny_skia::Pixmap) -> Result<Vec<u8>, String> {
    match pixmap.encode_png() {
        Ok(v) => Ok(v),
        Err(e) => Err(e.to_string()),
    }
}

/// Parses a composed document, resolves its text with the given font,
/// rasterizes it onto the fixed-size card canvas, and returns the
/// canvas content as PNG bytes. Fails with Parse exactly when the
/// document is not well-formed for the supported SVG subset, and with
/// Write when the canvas cannot be encoded as PNG; the fixed-size
/// canvas allocation cannot fail, so the Canvas error is unreachable.
pub fn render_document(doc: &Vec<u8>, font: &Vec<u8>) -> (r: Result<Vec<u8>, CardError>)
    ensures
        r matches Err(e) ==> (e is Parse || e is Write),
        (r is Err && r->Err_0 is Parse) <==> !parses_as_svg(doc@),
        r is Ok ==> parses_as_svg(doc@),
{
    let mut db = new_font_database();
    load_font_data(&mut db, font);
    let mut tree = match parse_svg(doc) {
        Ok(tree) => tree,
        Err(m) => {
            return Err(CardError::Parse(m));
        },
    };
    convert_text_to_paths(&mut tree, &db);
    let render_tree = build_render_tree(&tree);
    let mut pixmap = match new_pixmap(CANVAS_WIDTH, CANVAS_HEIGHT) {
        Some(p) => p,
        None => {
            return Err(CardError::Canvas);
        },
    };
    render_to_pixmap(&render_tree, &mut pixmap);
    match encode_pixmap_png(&pixmap) {
        Ok(png) => Ok(png),
        Err(m) => Err(CardError::Write(m)),
    }
}

} // verus!
