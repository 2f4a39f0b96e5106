//! Which file names are accepted for upload: a name needs an extension, and
//! the extension has to be on the allow-list.

use crate::reply::ValidationError;
use vstd::prelude::*;
use vstd::std_specs::iter::IteratorSpec;
use vstd::string::*;

verus! {

/// The text behind the last `.` of `name`, or `None` where `name` holds no
/// `.` at all. A name that ends in `.` has the empty extension.
pub open spec fn extension_of(name: Seq<char>) -> Option<Seq<char>> {
    match name.index_of_last('.') {
        Some(dot) => Some(name.skip(dot + 1)),
        None => None,
    }
}

/// The extensions that are accepted, written as they must appear: the
/// comparison is exact, so `TXT` is not `txt`.
pub open spec fn allowed_extensions() -> Seq<Seq<char>> {
    seq!["txt"@, "png"@, "jpg"@, "jpeg"@, "pdf"@]
}

/// Whether `extension` is on the allow-list.
pub open spec fn is_allowed_extension(extension: Seq<char>) -> bool {
    allowed_extensions().contains(extension)
}

/// The verdict on a file name: accepted, or the reason why not.
pub open spec fn validation(name: Seq<char>) -> Result<(), ValidationError> {
    match extension_of(name) {
        None => Err(ValidationError::NoExtension),
        Some(extension) => if is_allowed_extension(extension) {
            Ok(())
        } else {
            Err(ValidationError::TypeNotAllowed)
        },
    }
}

/// The name that a field is stored under: the one it declares, or
/// `upload.bin` where it declares none.
pub open spec fn stored_name(declared: Option<Seq<char>>) -> Seq<char> {
    match declared {
        Some(name) => name,
        None => "upload.bin"@,
    }
}

/// A name has an extension exactly where it holds a `.`.
pub proof fn extension_needs_a_dot(name: Seq<char>)
    ensures
        extension_of(name) is Some <==> name.contains('.'),
{
    name.index_of_last_ensures('.');
}

/// The extension of a name that is put together from a stem, a `.` and a
/// text without a `.` is that text.
pub proof fn extension_of_joined_name(stem: Seq<char>, extension: Seq<char>)
    requires
        !extension.contains('.'),
    ensures
        extension_of(stem + seq!['.'] + extension) == Some(extension),
{
    let name = stem + seq!['.'] + extension;
    name.index_of_last_ensures('.');
    assert(name[stem.len() as int] == '.');
    let dot = name.index_of_last('.')->0;
    if dot < stem.len() {
        assert(name[stem.len() as int] != '.');
    }
    if dot > stem.len() {
        assert(extension[dot - stem.len() - 1] == name[dot]);
        assert(extension.contains('.'));
    }
    assert(name.skip(dot + 1) =~= extension);
}

/// A field that declares no file name is refused: the name it is given has
/// an extension that is not on the allow-list.
pub proof fn unnamed_field_is_refused()
    ensures
        validation(stored_name(None)) == Err::<(), ValidationError>(
            ValidationError::TypeNotAllowed,
        ),
{
    reveal_strlit("upload.bin");
    reveal_strlit("txt");
    reveal_strlit("png");
    reveal_strlit("jpg");
    reveal_strlit("jpeg");
    reveal_strlit("pdf");
    let stem = seq!['u', 'p', 'l', 'o', 'a', 'd'];
    let extension = seq!['b', 'i', 'n'];
    assert("upload.bin"@ =~= stem + seq!['.'] + extension);
    extension_of_joined_name(stem, extension);
    let list = allowed_extensions();
    assert forall|i: int| 0 <= i < list.len() implies list[i] != extension by {
        assert(list[i][0] != 'b');
    }
}

/// Whether `dot` is the place of the last `.` among the first `seen`
/// characters of `name`, with `None` for "there is none".
spec fn is_last_dot_of_prefix(name: Seq<char>, seen: int, dot: Option<usize>) -> bool {
    match dot {
        Some(d) => d < seen && name[d as int] == '.' && forall|j: int|
            d < j < seen ==> name[j] != '.',
        None => forall|j: int| 0 <= j < seen ==> name[j] != '.',
    }
}

/// The place of the last `.` decides the extension.
proof fn lemma_extension_from_last_dot(name: Seq<char>, dot: Option<usize>)
    requires
        is_last_dot_of_prefix(name, name.len() as int, dot),
    ensures
        extension_of(name) == match dot {
            Some(d) => Some(name.skip(d + 1)),
            None => None,
        },
{
    name.index_of_last_ensures('.');
    match dot {
        Some(d) => {
            assert(name.contains('.'));
        },
        None => {
            if name.contains('.') {
                let i = choose|i: int| 0 <= i < name.len() && name[i] == '.';
                assert(name[i] != '.');
            }
        },
    }
}

/// The text behind the last `.` of `name`, if `name` holds a `.`.
pub fn extension(name: &str) -> (found: Option<&str>)
    ensures
        found is Some == extension_of(name@) is Some,
        found matches Some(text) ==> extension_of(name@) == Some(text@),
{
    broadcast use group_string_axioms;

    let length = name.unicode_len();
    let mut rest = name.chars();
    let mut seen: usize = 0;
    let mut dot: Option<usize> = None;
    loop
        invariant
            length == name@.len(),
            seen <= length,
            rest.remaining() == name@.skip(seen as int),
            is_last_dot_of_prefix(name@, seen as int, dot),
        ensures
            seen == length,
        decreases length - seen,
    {
        match rest.next() {
            Some(c) => {
                assert(c == name@[seen as int]);
                assert(name@.skip(seen as int).drop_first() =~= name@.skip(seen + 1));
                if c == '.' {
                    dot = Some(seen);
                }
                seen = seen + 1;
            },
            None => {
                assert(name@.skip(seen as int).len() == 0);
                break ;
            },
        }
    }
    proof {
        lemma_extension_from_last_dot(name@, dot);
    }
    match dot {
        Some(d) => Some(name.substring_char(d + 1, length)),
        None => None,
    }
}

/// Whether two texts are the same, character by character.
pub fn same_text(a: &str, b: &str) -> (same: bool)
    ensures
        same == (a@ == b@),
{
    broadcast use group_string_axioms;

    let mut left = a.chars();
    let mut right = b.chars();
    let ghost mut seen: int = 0;
    loop
        invariant
            0 <= seen <= a@.len(),
            seen <= b@.len(),
            left.remaining() == a@.skip(seen),
            right.remaining() == b@.skip(seen),
            a@.take(seen) == b@.take(seen),
        decreases a@.len() - seen,
    {
        match (left.next(), right.next()) {
            (Some(x), Some(y)) => {
                assert(x == a@[seen] && y == b@[seen]);
                if x != y {
                    return false;
                }
                proof {
                    assert(a@.skip(seen).drop_first() =~= a@.skip(seen + 1));
                    assert(b@.skip(seen).drop_first() =~= b@.skip(seen + 1));
                    assert(a@.take(seen + 1) =~= a@.take(seen).push(x));
                    assert(b@.take(seen + 1) =~= b@.take(seen).push(y));
                    seen = seen + 1;
                }
            },
            (None, None) => {
                assert(a@.skip(seen).len() == 0 && b@.skip(seen).len() == 0);
                assert(a@ =~= a@.take(seen) && b@ =~= b@.take(seen));
                return true;
            },
            _ => {
                assert(a@.len() != b@.len());
                return false;
            },
        }
    }
}

/// Whether `extension` is on the allow-list.
pub fn is_allowed(extension: &str) -> (allowed: bool)
    ensures
        allowed == is_allowed_extension(extension@),
{
    let allowed = same_text(extension, "txt") || same_text(extension, "png") || same_text(
        extension,
        "jpg",
    ) || same_text(extension, "jpeg") || same_text(extension, "pdf");
    proof {
        let list = allowed_extensions();
        assert(list[0] == "txt"@ && list[1] == "png"@ && list[2] == "jpg"@ && list[3] == "jpeg"@
            && list[4] == "pdf"@);
    }
    allowed
}

/// Decides whether a file may be stored under `name`: the name needs an
/// extension, and the extension has to be on the allow-list.
pub fn validate(name: &str) -> (verdict: Result<(), ValidationError>)
    ensures
        verdict == validation(name@),
{
    match extension(name) {
        None => Err(ValidationError::NoExtension),
        Some(text) => if is_allowed(text) {
            Ok(())
        } else {
            Err(ValidationError::TypeNotAllowed)
        },
    }
}

/// The name that a field is stored under: the one it declares, or
/// `upload.bin` where it declares none.
pub fn name_of_field(declared: Option<String>) -> (name: String)
    ensures
        name@ == stored_name(
            match declared {
                Some(text) => Some(text@),
                None => None,
            },
        ),
{
    match declared {
        Some(text) => text,
        None => String::from_str("upload.bin"),
    }
}

} // verus!
