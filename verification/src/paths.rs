//! Filesystem paths. Verus sees a path as an opaque value; what the library states of one
//! is the sequence of its components.

use vstd::prelude::*;
use vstd::utf8::encode_utf8;
use std::path::{Path, PathBuf};

verus! {

#[verifier::external_type_specification]
#[verifier::external_body]
pub struct ExPath(Path);

#[verifier::external_type_specification]
#[verifier::external_body]
pub struct ExPathBuf(PathBuf);

/// The components of a borrowed path, each as the encoded bytes
/// (`OsStr::as_encoded_bytes`) of what `Path::components` yields for it, in order.
pub uninterp spec fn path_components(p: &Path) -> Seq<Seq<u8>>;

/// The components of an owned path, each as the encoded bytes
/// (`OsStr::as_encoded_bytes`) of what `Path::components` yields for it, in order.
pub uninterp spec fn path_buf_components(p: PathBuf) -> Seq<Seq<u8>>;

/// The encoded bytes of a component written with the characters `s`: their UTF-8 encoding.
pub open spec fn component_bytes(s: Seq<char>) -> Seq<u8> {
    encode_utf8(s)
}

/// A byte that Windows reads as a path separator.
pub open spec fn is_separator_byte(b: u8) -> bool {
    b == 47u8 || b == 92u8
}

/// An ASCII letter, as a byte.
pub open spec fn is_ascii_letter_byte(b: u8) -> bool {
    (65u8 <= b && b <= 90u8) || (97u8 <= b && b <= 122u8)
}

/// A path whose start cannot change when components are appended to it, on Unix or on
/// Windows: it has components, and it is relative (its first component neither begins with
/// a separator nor has `:` as its second byte), or rooted in the Unix way (the component
/// `/`), or starts with a drive such as `C:`, or is rooted with at least two components
/// after the root. Left out are the empty path and the paths that a separator and a
/// component can turn into a Windows UNC or device prefix: `\\server` joined with `share`
/// is the prefix `\\server\share`.
pub open spec fn is_settled_path(c: Seq<Seq<u8>>) -> bool {
    &&& c.len() > 0
    &&& c[0].len() > 0
    &&& {
        ||| !is_separator_byte(c[0][0]) && !(c[0].len() >= 2 && c[0][1] == 58u8)
        ||| c[0] == seq![47u8]
        ||| c[0].len() == 2 && is_ascii_letter_byte(c[0][0]) && c[0][1] == 58u8
        ||| c[0] == seq![92u8] && c.len() >= 3
    }
}

/// Text that extends a path on Unix and on Windows alike: it does not start with `/`, and
/// it holds no `\` and no `:`, so that it has neither root nor prefix and `/` is its only
/// separator.
pub open spec fn is_relative_text(s: Seq<char>) -> bool {
    &&& s.len() == 0 || s[0] != '/'
    &&& forall|i: int| 0 <= i < s.len() ==> #[trigger] s[i] != '\\' && s[i] != ':'
}

/// `d` is the position of the first `/` in `s`.
pub open spec fn is_first_slash(s: Seq<char>, d: int) -> bool {
    &&& 0 <= d < s.len()
    &&& s[d] == '/'
    &&& forall|j: int| 0 <= j < d ==> s[j] != '/'
}

/// The component that a piece of text between separators adds after the start of a path:
/// none for an empty piece or `.`, else the piece itself (`..` included).
pub open spec fn piece_components(piece: Seq<char>) -> Seq<Seq<u8>> {
    if piece.len() == 0 || piece == seq!['.'] {
        Seq::empty()
    } else {
        seq![component_bytes(piece)]
    }
}

/// The components that relative text adds when it is appended to a path that has
/// components: its pieces between `/` separators, without empty pieces and without `.`.
pub open spec fn text_components(s: Seq<char>) -> Seq<Seq<u8>>
    decreases s.len(),
{
    if exists|d: int| is_first_slash(s, d) {
        let d = choose|d: int| is_first_slash(s, d);
        piece_components(s.take(d)) + text_components(s.skip(d + 1))
    } else {
        piece_components(s)
    }
}

/// Calls `Path::join`: `base` extended by `part`, as `PathBuf::push` extends a path.
///
/// States, for relative text `part` and a settled `base`: the components of the result are
/// those of `base` followed by those that `part` adds (repeated separators and `.` are
/// dropped, as `Path::components` documents). Of other bases (the empty path, and rooted
/// paths that `part` could turn into a Windows prefix) and other parts (with a root, a
/// prefix or `\`, which is a separator on Windows only) nothing is said.
#[verifier::external_body]
pub(crate) fn path_join(base: &Path, part: &str) -> (r: PathBuf)
    ensures
        is_relative_text(part@) && is_settled_path(path_components(base)) ==> path_buf_components(r)
            == path_components(base) + text_components(part@),
{
    base.join(part)
}

/// Calls `PathBuf::push`: extends `path` in place by `part`.
///
/// States, for relative text `part` and a settled path: the new components are the old
/// ones followed by those that `part` adds. Nothing is said of other paths and parts; see
/// `path_join`.
#[verifier::external_body]
pub(crate) fn path_push(path: &mut PathBuf, part: &str)
    ensures
        is_relative_text(part@) && is_settled_path(path_buf_components(*old(path)))
            ==> path_buf_components(*final(path)) == path_buf_components(*old(path))
            + text_components(part@),
{
    path.push(part)
}

/// Calls `Path::exists` on a path held in a `PathBuf`.
///
/// Nothing is stated of the result: it depends on what is on disk when it is called.
#[verifier::external_body]
pub(crate) fn path_exists(path: &PathBuf) -> bool {
    path.exists()
}

/// `PathBuf::clone` gives a path with the same components.
pub assume_specification[ <PathBuf as Clone>::clone ](path: &PathBuf) -> (r: PathBuf)
    ensures
        path_buf_components(r) == path_buf_components(*path),
;

/// Appending components to a settled path leaves it settled.
pub proof fn lemma_settled_extended(c: Seq<Seq<u8>>, more: Seq<Seq<u8>>)
    requires
        is_settled_path(c),
    ensures
        is_settled_path(c + more),
{
    assert((c + more)[0] == c[0]);
}

/// Text without `/` adds itself as one component, unless it is empty or `.`.
pub proof fn lemma_text_components_without_slash(s: Seq<char>)
    requires
        forall|i: int| 0 <= i < s.len() ==> s[i] != '/',
    ensures
        text_components(s) == piece_components(s),
{
    assert(!exists|d: int| is_first_slash(s, d));
}

} // verus!
