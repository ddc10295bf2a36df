//! Filename stem and extension rules.
//!
//! A file name splits at its last dot, except that a dot in the leading
//! position starts a hidden name rather than an extension: `CARD1.png`
//! has stem `CARD1` and extension `png`. A hidden or extension-only
//! name whose only dot is the leading one, such as `.png`, has no
//! extension and no extractable stem: no code can be derived from it,
//! and the pipeline reports the naming error. The stem of a qualifying
//! input is the card's code and the output file name's stem.

use vstd::prelude::*;
use crate::text::copy_range;

verus! {

/// The byte value of the ASCII dot.
pub const DOT: u8 = 46;

/// The largest index in `[1, i]` holding a dot, or `None`.
pub open spec fn last_dot_from(name: Seq<u8>, i: int) -> Option<int>
    decreases i,
{
    if i < 1 || i >= name.len() {
        None
    } else if name[i] == DOT {
        Some(i)
    } else {
        last_dot_from(name, i - 1)
    }
}

/// The position of the dot separating stem from extension: the last dot
/// of the name, unless it stands first (a hidden name has no extension).
pub open spec fn spec_last_dot(name: Seq<u8>) -> Option<int> {
    last_dot_from(name, name.len() - 1)
}

/// The stem of a file name: everything before the separating dot, or
/// the whole name when there is no dot at all. An empty name has no
/// stem, and neither has a hidden or extension-only name whose only
/// dot is the leading one.
pub open spec fn spec_file_stem(name: Seq<u8>) -> Option<Seq<u8>> {
    if name.len() == 0 {
        None
    } else {
        match spec_last_dot(name) {
            None => if name[0] == DOT {
                None
            } else {
                Some(name)
            },
            Some(i) => Some(name.subrange(0, i)),
        }
    }
}

/// The extension of a file name: everything after the separating dot,
/// or `None` when there is none.
pub open spec fn spec_extension(name: Seq<u8>) -> Option<Seq<u8>> {
    if name.len() == 0 {
        None
    } else {
        match spec_last_dot(name) {
            None => None,
            Some(i) => Some(name.subrange(i + 1, name.len() as int)),
        }
    }
}

/// Finds the dot separating stem from extension.
fn last_dot(name: &Vec<u8>) -> (r: Option<usize>)
    ensures
        match r {
            Some(i) => 1 <= i < name@.len() && spec_last_dot(name@) == Some(i as int),
            None => spec_last_dot(name@) is None,
        },
{
    let mut i: usize = name.len();
    loop
        invariant
            i <= name@.len(),
            spec_last_dot(name@) == last_dot_from(name@, i - 1),
        decreases i,
    {
        if i <= 1 {
            return None;
        }
        i = i - 1;
        if name[i] == DOT {
            return Some(i);
        }
    }
}

/// Extracts the stem of a file name, the card's code.
pub fn file_stem_of(name: &Vec<u8>) -> (r: Option<Vec<u8>>)
    ensures
        match r {
            Some(stem) => spec_file_stem(name@) == Some(stem@),
            None => spec_file_stem(name@) is None,
        },
{
    if name.len() == 0 {
        return None;
    }
    match last_dot(name) {
        None => {
            if name[0] == DOT {
                return None;
            }
            proof {
                assert(name@.subrange(0, name@.len() as int) =~= name@);
            }
            Some(copy_range(name, 0, name.len()))
        },
        Some(i) => Some(copy_range(name, 0, i)),
    }
}

/// Extracts the extension of a file name.
pub fn extension_of(name: &Vec<u8>) -> (r: Option<Vec<u8>>)
    ensures
        match r {
            Some(ext) => spec_extension(name@) == Some(ext@),
            None => spec_extension(name@) is None,
        },
{
    if name.len() == 0 {
        return None;
    }
    match last_dot(name) {
        None => None,
        Some(i) => Some(copy_range(name, i + 1, name.len())),
    }
}

/// Bounds on the separating dot: it lies strictly inside the name and
/// holds a dot.
proof fn lemma_last_dot_bounds(name: Seq<u8>, i: int)
    ensures
        last_dot_from(name, i) matches Some(j) ==> 1 <= j <= i && j < name.len() && name[j]
            == DOT,
    decreases i,
{
    if i < 1 || i >= name.len() {
    } else if name[i] == DOT {
    } else {
        lemma_last_dot_bounds(name, i - 1);
    }
}

/// A code is never empty: whatever stem a name yields has at least one
/// byte, so the output file name never starts at its own extension.
pub proof fn lemma_stem_nonempty(name: Seq<u8>)
    ensures
        spec_file_stem(name) matches Some(stem) ==> stem.len() > 0,
{
    lemma_last_dot_bounds(name, name.len() - 1);
}

/// A name that has an extension always has a stem: the directory
/// walker's filter only passes names from which a code can be derived.
pub proof fn lemma_extension_implies_stem(name: Seq<u8>)
    requires
        spec_extension(name) is Some,
    ensures
        spec_file_stem(name) is Some,
{
}

/// The suffix of an output card file: `.png`.
pub open spec fn png_suffix() -> Seq<u8> {
    seq![46u8, 112u8, 110u8, 103u8]
}

/// The suffix of a debug document file: `.svg`.
pub open spec fn svg_suffix() -> Seq<u8> {
    seq![46u8, 115u8, 118u8, 103u8]
}

/// The name of the output card file for a code: `<code>.png`.
pub fn output_png_name(code: &Vec<u8>) -> (r: Vec<u8>)
    ensures
        r@ == code@ + png_suffix(),
{
    let mut out = copy_range(code, 0, code.len());
    out.push(46);
    out.push(112);
    out.push(110);
    out.push(103);
    proof {
        assert(code@.subrange(0, code@.len() as int) =~= code@);
        assert(out@ =~= code@ + png_suffix());
    }
    out
}

/// The name of the debug document file for a code: `<code>.svg`.
pub fn debug_svg_name(code: &Vec<u8>) -> (r: Vec<u8>)
    ensures
        r@ == code@ + svg_suffix(),
{
    let mut out = copy_range(code, 0, code.len());
    out.push(46);
    out.push(115);
    out.push(118);
    out.push(103);
    proof {
        assert(code@.subrange(0, code@.len() as int) =~= code@);
        assert(out@ =~= code@ + svg_suffix());
    }
    out
}

/// The extension the directory walker accepts, as bytes: `png`.
pub open spec fn png_extension() -> Seq<u8> {
    seq![112u8, 110u8, 103u8]
}

/// The output name round-trips: the card written for a code is named
/// `<code>.png`, a qualifying input whose stem is that code again and
/// whose extension is exactly `png`.
pub proof fn lemma_output_name_round_trip(code: Seq<u8>)
    requires
        code.len() > 0,
    ensures
        spec_file_stem(code + png_suffix()) == Some(code),
        spec_extension(code + png_suffix()) == Some(png_extension()),
{
    let name = code + png_suffix();
    let n = code.len() as int;
    assert(name.len() == n + 4);
    assert(name[n] == DOT);
    assert(name[n + 1] == 112u8);
    assert(name[n + 2] == 110u8);
    assert(name[n + 3] == 103u8);
    assert(last_dot_from(name, n + 3) == last_dot_from(name, n + 2));
    assert(last_dot_from(name, n + 2) == last_dot_from(name, n + 1));
    assert(last_dot_from(name, n + 1) == last_dot_from(name, n));
    assert(last_dot_from(name, n) == Some(n));
    assert(spec_last_dot(name) == Some(n));
    assert(name.subrange(0, n) =~= code);
    assert(name.subrange(n + 1, name.len() as int) =~= png_extension());
}

/// Decides whether a directory entry qualifies as input: its name's
/// extension is exactly `png`, case-sensitively.
pub fn is_png_name(name: &Vec<u8>) -> (r: bool)
    ensures
        r == (spec_extension(name@) == Some(png_extension())),
{
    match extension_of(name) {
        None => false,
        Some(ext) => {
            if ext.len() != 3 {
                proof {
                    assert(png_extension().len() == 3);
                }
                false
            } else {
                let r = ext[0] == 112 && ext[1] == 110 && ext[2] == 103;
                proof {
                    if r {
                        assert(ext@ =~= png_extension());
                    } else {
                        assert(ext@ != png_extension());
                    }
                }
                r
            }
        },
    }
}

} // verus!
