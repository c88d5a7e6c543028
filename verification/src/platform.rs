//! What the library takes from the standard library without proof.
use std::path::{Path, PathBuf};
use std::time::SystemTime;
use vstd::prelude::*;
use vstd::utf8::*;

verus! {

/// The standard library's owned path. The library carries paths through and looks at them only
/// through [`path_components`].
#[verifier::external_type_specification]
#[verifier::external_body]
pub struct ExPathBuf(PathBuf);

/// The standard library's point in time, which the library only carries through.
#[verifier::external_type_specification]
#[verifier::external_body]
pub struct ExSystemTime(SystemTime);

/// What a path holds: the names of its components, from the outermost folder to the file.
pub uninterp spec fn path_components(path: PathBuf) -> Seq<Seq<char>>;

/// Whether a text is a plain file or folder name: letters, digits and underscores only, so that
/// it is one component of a path on every platform.
pub open spec fn plain_name(name: Seq<char>) -> bool {
    &&& name.len() > 0
    &&& forall|i: int|
        0 <= i < name.len() ==> {
            let c = #[trigger] name[i];
            'a' <= c <= 'z' || 'A' <= c <= 'Z' || '0' <= c <= '9' || c == '_'
        }
}

/// `std::path::Path::join`: a plain folder name joined with a plain file name is the path with
/// these two components, in that order.
#[verifier::external_body]
pub(crate) fn join_path(folder: &str, file: &str) -> (path: PathBuf)
    requires
        plain_name(folder@),
        plain_name(file@),
    ensures
        path_components(path) == seq![folder@, file@],
{
    Path::new(folder).join(file)
}

/// `std::time::SystemTime::now`: the system clock. Nothing is promised of what it says.
#[verifier::external_body]
pub(crate) fn current_time() -> (now: SystemTime) {
    SystemTime::now()
}

/// The lower case equivalent of a text, by the Unicode case mappings.
pub uninterp spec fn unicode_lowercase(text: Seq<char>) -> Seq<char>;

/// An ASCII character in lower case.
pub open spec fn ascii_lowercase(c: char) -> char {
    if 'A' <= c <= 'Z' {
        ((c as int) + 32) as char
    } else {
        c
    }
}

/// `str::to_lowercase`: the lower case equivalent of a text. A text of ASCII characters has its
/// letters `A` to `Z` replaced by `a` to `z` and is otherwise unchanged; for other texts the
/// Unicode mapping is not spelled out.
#[verifier::external_body]
pub(crate) fn lowercase(text: &str) -> (lower: String)
    ensures
        lower@ == unicode_lowercase(text@),
        is_ascii_chars(text@) ==> lower@ == text@.map_values(|c: char| ascii_lowercase(c)),
{
    text.to_lowercase()
}

/// The text that lossy UTF-8 decoding reads from bytes.
pub uninterp spec fn utf8_lossy(bytes: Seq<u8>) -> Seq<char>;

/// The text of bytes: what they encode, or what lossy decoding makes of them.
pub open spec fn output_text(bytes: Seq<u8>) -> Seq<char> {
    if valid_utf8(bytes) {
        decode_utf8(bytes)
    } else {
        utf8_lossy(bytes)
    }
}

/// `String::from_utf8_lossy`: valid UTF-8 is decoded as it stands; what replaces an invalid
/// sequence is not spelled out.
#[verifier::external_body]
pub(crate) fn decode_lossy(bytes: &[u8]) -> (text: String)
    ensures
        text@ == utf8_lossy(bytes@),
        valid_utf8(bytes@) ==> text@ == decode_utf8(bytes@),
{
    String::from_utf8_lossy(bytes).into_owned()
}

} // verus!
