//! What the library takes on trust from the graphics binding and from the
//! standard library: three constants, the lossy decoding of a driver log, and
//! the extension of a path.

use vstd::prelude::*;
use vstd::utf8::*;

verus! {

/// The stage tag `gl::VERTEX_SHADER`, which the binding defines as `0x8B31`.
#[verifier::external_body]
pub(crate) fn gl_vertex_shader() -> (tag: u32)
    ensures
        tag == 0x8B31,
{
    gl::VERTEX_SHADER
}

/// The stage tag `gl::FRAGMENT_SHADER`, which the binding defines as `0x8B30`.
#[verifier::external_body]
pub(crate) fn gl_fragment_shader() -> (tag: u32)
    ensures
        tag == 0x8B30,
{
    gl::FRAGMENT_SHADER
}

/// The boolean `gl::TRUE`, which the binding defines as `1`.
#[verifier::external_body]
pub(crate) fn gl_true() -> (flag: u8)
    ensures
        flag == 1,
{
    gl::TRUE
}

/// The text that `String::from_utf8_lossy` makes of a byte sequence.
pub uninterp spec fn utf8_lossy(bytes: Seq<u8>) -> Seq<char>;

/// `String::from_utf8_lossy` of `bytes`, as an owned `String`. The result is
/// a function of the bytes alone, named `utf8_lossy`; bytes that are valid
/// UTF-8 come back as the very text that they encode.
#[verifier::external_body]
pub(crate) fn lossy_text(bytes: &Vec<u8>) -> (text: String)
    ensures
        text@ == utf8_lossy(bytes@),
        valid_utf8(bytes@) ==> text@ == decode_utf8(bytes@),
{
    String::from_utf8_lossy(bytes).into_owned()
}

/// The text of a driver log: what its bytes encode where they are UTF-8, and
/// their lossy decoding where they are not.
pub open spec fn log_text(bytes: Seq<u8>) -> Seq<char> {
    if valid_utf8(bytes) {
        decode_utf8(bytes)
    } else {
        utf8_lossy(bytes)
    }
}

/// Decodes a driver log.
pub(crate) fn decode_log(bytes: &Vec<u8>) -> (text: String)
    ensures
        text@ == log_text(bytes@),
{
    lossy_text(bytes)
}

/// Whether `extension` stands in `path` directly behind a dot.
pub open spec fn follows_a_dot(path: Seq<char>, extension: Seq<char>) -> bool {
    exists|i: int|
        0 <= i && i + 1 + extension.len() <= path.len() && path[i] == '.'
            && #[trigger] path.subrange(i + 1, i + 1 + extension.len()) == extension
}

/// Whether `path` is a bare file name on every platform: it holds none of
/// the characters that part a path anywhere (`/`, `\`, `:`), and is not `..`.
pub open spec fn is_bare_name(path: Seq<char>) -> bool {
    &&& !path.contains('/')
    &&& !path.contains('\\')
    &&& !path.contains(':')
    &&& path != seq!['.', '.']
}

/// Whether the last dot of `name` stands at `i`, behind at least one
/// character.
pub open spec fn last_dot_at(name: Seq<char>, i: int) -> bool {
    &&& 0 < i < name.len()
    &&& name[i] == '.'
    &&& forall|j: int| i < j < name.len() ==> name[j] != '.'
}

/// The extension of a bare file name: what follows its last dot, where that
/// dot is not the name's first character, and none where there is no such
/// dot.
pub open spec fn bare_name_extension(name: Seq<char>) -> Option<Seq<char>> {
    if exists|i: int| last_dot_at(name, i) {
        let i = choose|i: int| last_dot_at(name, i);
        Some(name.subrange(i + 1, name.len() as int))
    } else {
        None
    }
}

/// A name has one last dot at most, so the extension of a bare name whose
/// last dot stands at `i` is what follows `i`.
pub proof fn last_dot_decides(name: Seq<char>, i: int)
    requires
        last_dot_at(name, i),
    ensures
        bare_name_extension(name) == Some(name.subrange(i + 1, name.len() as int)),
{
    let chosen = choose|k: int| last_dot_at(name, k);
    assert(last_dot_at(name, chosen));
    if chosen < i {
        assert(name[i] != '.');
    } else if i < chosen {
        assert(name[chosen] != '.');
    }
}

/// What holds of the extension that is found for a path, whatever the
/// platform's path syntax. An extension holds no dot and follows one in the
/// path, so a path without a dot has none. And a bare file name has the
/// extension that `bare_name_extension` gives, and no other.
pub open spec fn extension_fits(path: Seq<char>, extension: Option<Seq<char>>) -> bool {
    &&& extension matches Some(e) ==> path.contains('.') && !e.contains('.') && follows_a_dot(
        path,
        e,
    )
    &&& is_bare_name(path) ==> extension == bare_name_extension(path)
}

/// `std::path::Path::extension` of `path`, copied into a `String`. Which
/// extension a path with a separator has depends on the platform's path
/// syntax, so of such a path the claim is only that an extension that is
/// found holds no dot and follows a dot in the path. A path without any
/// separator is its own file name everywhere, and of it the claim is exact:
/// the extension is what follows the last dot, unless that dot is the first
/// character or the name is `..`, and there is none without such a dot.
#[verifier::external_body]
pub(crate) fn path_extension(path: &str) -> (extension: Option<String>)
    ensures
        extension_fits(path@, extension.deep_view()),
{
    match std::path::Path::new(path).extension() {
        Some(e) => Some(e.to_string_lossy().into_owned()),
        None => None,
    }
}

} // verus!
