//! Shape checks for the texts carried by authority facts: normalized free
//! text, token references, and repo-relative paths.
use vstd::prelude::*;
use crate::error::CoveyError;
use crate::text::{
    chars_of, concat2, contains_char, has_ctrl, has_ws, is_blank, split, split_vec, starts_with,
    trim, vec_contains_char, vec_has_control, vec_has_whitespace, vec_is_blank, vec_is_trimmed,
    vec_starts_with,
};

verus! {

/// The longest object id, in UTF-8 bytes.
pub const MAX_OBJECT_ID_LEN: usize = 128;

/// The longest subtask title, in UTF-8 bytes.
pub const MAX_TITLE_LEN: usize = 512;

/// Whether a text is longer than an object id may be, in UTF-8 bytes.
pub open spec fn too_long(v: Seq<char>) -> bool {
    vstd::utf8::encode_utf8(v).len() > MAX_OBJECT_ID_LEN
}

/// Whether `e` says that field `field` is longer than an object id may be.
pub open spec fn is_too_long_error(e: CoveyError, field: Seq<char>) -> bool {
    match e {
        CoveyError::FieldTooLong { field: f, max } => f@ == field && max == MAX_OBJECT_ID_LEN,
        _ => false,
    }
}

/// Requires field `field` to be no longer than an object id may be.
pub fn ensure_object_id_len(field: &str, value: &str) -> (r: Result<(), CoveyError>)
    ensures
        r is Ok <==> !too_long(value@),
        r is Err ==> is_too_long_error(r->Err_0, field@),
{
    if value.as_bytes().len() > MAX_OBJECT_ID_LEN {
        Err(CoveyError::FieldTooLong { field: crate::text::owned(field), max: MAX_OBJECT_ID_LEN })
    } else {
        Ok(())
    }
}

/// Whether a text is longer than a subtask title may be, in UTF-8 bytes.
pub open spec fn title_too_long(v: Seq<char>) -> bool {
    vstd::utf8::encode_utf8(v).len() > MAX_TITLE_LEN
}

/// Requires a subtask title to be no longer than a title may be.
pub fn ensure_title_len(field: &str, value: &str) -> (r: Result<(), CoveyError>)
    ensures
        r is Ok <==> !title_too_long(value@),
        r matches Err(e) ==> e matches CoveyError::FieldTooLong { field: f, max } && f@ == field@ && max == MAX_TITLE_LEN,
{
    if value.as_bytes().len() > MAX_TITLE_LEN {
        Err(CoveyError::FieldTooLong { field: crate::text::owned(field), max: MAX_TITLE_LEN })
    } else {
        Ok(())
    }
}

/// Why a free-text field is rejected, if it is: blank, padded, or holding a
/// control character.
pub open spec fn text_error(label: Seq<char>, v: Seq<char>) -> Option<Seq<char>> {
    if is_blank(v) {
        Some(label + " must not be empty"@)
    } else if trim(v) != v {
        Some(label + " must be normalized"@)
    } else if has_ctrl(v) {
        Some(label + " must not contain control characters"@)
    } else {
        None
    }
}

/// Checks a free-text field (project paths, reasons).
pub fn check_text(label: &str, value: &str) -> (r: Result<(), String>)
    ensures
        r is Err <==> text_error(label@, value@) is Some,
        r matches Err(e) ==> e@ == text_error(label@, value@)->0,
{
    let c = chars_of(value);
    if vec_is_blank(&c) {
        return Err(concat2(label, " must not be empty"));
    }
    if !vec_is_trimmed(&c) {
        return Err(concat2(label, " must be normalized"));
    }
    if vec_has_control(&c) {
        return Err(concat2(label, " must not contain control characters"));
    }
    Ok(())
}

/// The most bytes a token reference may take.
pub const MAX_TOKEN_REF_BYTES: usize = 256;

/// Why a token reference is rejected, if it is: blank, padded, over 256 bytes
/// of UTF-8, or holding whitespace or control characters.
pub open spec fn token_ref_error(label: Seq<char>, v: Seq<char>) -> Option<Seq<char>> {
    if is_blank(v) {
        Some(label + " must not be empty"@)
    } else if trim(v) != v {
        Some(label + " must be normalized"@)
    } else if vstd::utf8::encode_utf8(v).len() > 256 {
        Some(label + " exceeds 256 bytes"@)
    } else if has_ws(v) || has_ctrl(v) {
        Some(label + " must not contain whitespace or control characters"@)
    } else {
        None
    }
}

/// Checks a token reference (owners, session tokens, fact sources).
pub fn check_token_ref(label: &str, value: &str) -> (r: Result<(), String>)
    ensures
        r is Err <==> token_ref_error(label@, value@) is Some,
        r matches Err(e) ==> e@ == token_ref_error(label@, value@)->0,
{
    let c = chars_of(value);
    if vec_is_blank(&c) {
        return Err(concat2(label, " must not be empty"));
    }
    if !vec_is_trimmed(&c) {
        return Err(concat2(label, " must be normalized"));
    }
    if value.as_bytes().len() > MAX_TOKEN_REF_BYTES {
        return Err(concat2(label, " exceeds 256 bytes"));
    }
    if vec_has_whitespace(&c) || vec_has_control(&c) {
        return Err(concat2(label, " must not contain whitespace or control characters"));
    }
    Ok(())
}

/// Whether a path piece is empty, `.` or `..`.
pub open spec fn is_dot_or_empty(p: Seq<char>) -> bool {
    p.len() == 0 || p == seq!['.'] || p == seq!['.', '.']
}

/// Why a repo-relative path is rejected, if it is: a bad text, an absolute
/// start, a backslash, or an empty, `.` or `..` piece.
pub open spec fn relative_path_error(label: Seq<char>, v: Seq<char>) -> Option<Seq<char>> {
    if text_error(label, v) is Some {
        text_error(label, v)
    } else if starts_with(v, seq!['/']) || starts_with(v, seq!['\\']) {
        Some(label + " must be repo-relative"@)
    } else if contains_char(v, '\\') || exists|k: int|
        0 <= k < split(v, '/').len() && is_dot_or_empty(#[trigger] split(v, '/')[k]) {
        Some(label + " must be normalized"@)
    } else {
        None
    }
}

/// Whether a piece is empty, `.` or `..`.
pub fn piece_is_dot_or_empty(p: &Vec<char>) -> (r: bool)
    ensures
        r == is_dot_or_empty(p@),
{
    if p.len() == 0 {
        return true;
    }
    if p.len() == 1 {
        let r = p[0] == '.';
        proof {
            if r {
                assert(p@ =~= seq!['.']);
            }
        }
        return r;
    }
    if p.len() == 2 {
        let r = p[0] == '.' && p[1] == '.';
        proof {
            if r {
                assert(p@ =~= seq!['.', '.']);
            }
        }
        return r;
    }
    false
}

/// Whether some piece of `v` split on `/` is empty, `.` or `..`.
pub fn has_dot_or_empty_piece(v: &Vec<char>) -> (r: bool)
    ensures
        r == exists|k: int| 0 <= k < split(v@, '/').len() && is_dot_or_empty(#[trigger] split(v@, '/')[k]),
{
    let parts = split_vec(v, '/');
    let mut k: usize = 0;
    while k < parts.len()
        invariant
            k <= parts@.len(),
            parts@.len() == split(v@, '/').len(),
            forall|j: int| 0 <= j < parts@.len() ==> (#[trigger] parts@[j])@ == split(v@, '/')[j],
            forall|j: int| 0 <= j < k ==> !is_dot_or_empty(#[trigger] split(v@, '/')[j]),
        decreases parts@.len() - k,
    {
        if piece_is_dot_or_empty(&parts[k]) {
            assert(is_dot_or_empty(split(v@, '/')[k as int]));
            return true;
        }
        k = k + 1;
    }
    false
}

/// Whether some piece of `v` between slashes is `..`.
pub open spec fn traverses(v: Seq<char>) -> bool {
    exists|k: int| 0 <= k < split(v, '/').len() && #[trigger] split(v, '/')[k] == seq!['.', '.']
}

/// Why a project path is rejected, if it is: a bad text, or a `..` piece
/// that climbs out of the directory it names.
pub open spec fn project_path_error(label: Seq<char>, v: Seq<char>) -> Option<Seq<char>> {
    if text_error(label, v) is Some {
        text_error(label, v)
    } else if traverses(v) {
        Some(label + " must not traverse parent directories"@)
    } else {
        None
    }
}

fn has_parent_piece(v: &Vec<char>) -> (r: bool)
    ensures
        r == traverses(v@),
{
    let parts = split_vec(v, '/');
    let mut k: usize = 0;
    while k < parts.len()
        invariant
            k <= parts@.len(),
            parts@.len() == split(v@, '/').len(),
            forall|j: int| 0 <= j < parts@.len() ==> (#[trigger] parts@[j])@ == split(v@, '/')[j],
            forall|j: int| 0 <= j < k ==> #[trigger] split(v@, '/')[j] != seq!['.', '.'],
        decreases parts@.len() - k,
    {
        let p = &parts[k];
        if p.len() == 2 && p[0] == '.' && p[1] == '.' {
            assert(p@ =~= seq!['.', '.']);
            assert(split(v@, '/')[k as int] == seq!['.', '.']);
            return true;
        }
        assert(p@ != seq!['.', '.']);
        k = k + 1;
    }
    false
}

/// Checks a project path (the policy and execution paths of git context).
pub fn check_project_path(label: &str, value: &str) -> (r: Result<(), String>)
    ensures
        r is Err <==> project_path_error(label@, value@) is Some,
        r matches Err(e) ==> e@ == project_path_error(label@, value@)->0,
{
    check_text(label, value)?;
    let c = chars_of(value);
    if has_parent_piece(&c) {
        return Err(concat2(label, " must not traverse parent directories"));
    }
    Ok(())
}

/// Checks a repo-relative path (lock paths, repo path prefixes).
pub fn check_relative_path(label: &str, value: &str) -> (r: Result<(), String>)
    ensures
        r is Err <==> relative_path_error(label@, value@) is Some,
        r matches Err(e) ==> e@ == relative_path_error(label@, value@)->0,
{
    check_text(label, value)?;
    let c = chars_of(value);
    if vec_starts_with(&c, "/") || vec_starts_with(&c, "\\") {
        proof {
            reveal_strlit("/");
            reveal_strlit("\\");
            assert("/"@ =~= seq!['/']);
            assert("\\"@ =~= seq!['\\']);
        }
        return Err(concat2(label, " must be repo-relative"));
    }
    proof {
        reveal_strlit("/");
        reveal_strlit("\\");
        assert("/"@ =~= seq!['/']);
        assert("\\"@ =~= seq!['\\']);
    }
    if vec_contains_char(&c, '\\') || has_dot_or_empty_piece(&c) {
        return Err(concat2(label, " must be normalized"));
    }
    Ok(())
}

} // verus!
