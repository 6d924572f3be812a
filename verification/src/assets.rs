//! Which embedded web assets are served, and with what content type.
use vstd::prelude::*;

verus! {

broadcast use vstd::string::group_string_axioms;

/// The path steps up a directory somewhere: it holds "..".
pub open spec fn has_parent_step(s: Seq<char>) -> bool {
    exists|i: int| 0 <= i < s.len() - 1 && #[trigger] s[i] == '.' && s[i + 1] == '.'
}

fn contains_parent_step(path: &str) -> (r: bool)
    ensures
        r == has_parent_step(path@),
{
    let mut previous_dot = false;
    for c in it: path.chars()
        invariant
            it.seq() == path@,
            previous_dot == (it.index() > 0 && path@[it.index() - 1] == '.'),
            !has_parent_step(path@.take(it.index() as int)),
    {
        if previous_dot && c == '.' {
            return true;
        }
        previous_dot = c == '.';
    }
    assert(path@.take(path@.len() as int) =~= path@);
    false
}

/// The path is absolute: it starts with '/'.
pub open spec fn starts_with_slash(s: Seq<char>) -> bool {
    s.len() > 0 && s[0] == '/'
}

/// An asset path may be looked up: it neither steps up a directory nor is
/// absolute.
pub open spec fn asset_path_ok(s: Seq<char>) -> bool {
    !has_parent_step(s) && !starts_with_slash(s)
}

/// Whether `path` may be looked up among the embedded assets.
pub fn asset_path_allowed(path: &str) -> (b: bool)
    ensures
        b == asset_path_ok(path@),
{
    if contains_parent_step(path) {
        return false;
    }
    if path.is_empty() {
        return true;
    }
    path.get_char(0) != '/'
}

/// The content type that mime_guess gives for a path, from its extension.
pub uninterp spec fn guessed_mime_type(path: Seq<char>) -> Seq<char>;

/// Guesses the content type of a file with
/// `mime_guess::from_path(..).first_or_octet_stream()`; nothing more is
/// claimed than that the text is the one `guessed_mime_type` names.
#[verifier::external_body]
fn guess_mime_type(path: &str) -> (t: String)
    ensures
        t@ == guessed_mime_type(path@),
{
    mime_guess::from_path(path).first_or_octet_stream().as_ref().to_owned()
}

/// The answer to a request for an embedded asset.
#[derive(Debug, PartialEq, Eq)]
pub enum AssetResponse {
    /// 404 Not Found.
    NotFound,
    /// 200 with this content type and body.
    File { content_type: String, body: Vec<u8> },
}

/// Answers a request for the asset at `path`, given what the lookup among
/// the embedded assets found there: a path that steps up a directory or is
/// absolute, and a path with nothing there, are not found; otherwise the
/// file is served with the content type guessed from its name.
pub fn embedded_file(path: &str, found: Option<Vec<u8>>) -> (r: AssetResponse)
    ensures
        !asset_path_ok(path@) ==> r is NotFound,
        asset_path_ok(path@) && found is None ==> r is NotFound,
        asset_path_ok(path@) ==> (found matches Some(data) ==> (r matches AssetResponse::File { content_type, body }
            && content_type@ == guessed_mime_type(path@) && body == data)),
{
    if !asset_path_allowed(path) {
        return AssetResponse::NotFound;
    }
    match found {
        Some(data) => AssetResponse::File { content_type: guess_mime_type(path), body: data },
        None => AssetResponse::NotFound,
    }
}

/// Law: a path may be looked up exactly when no two neighbouring
/// characters are both '.', and it does not start with '/'; its length, and
/// every other character, play no part.
pub proof fn lemma_asset_path_rule(s: Seq<char>)
    ensures
        asset_path_ok(s) <==> (
            (forall|i: int| 0 <= i < s.len() - 1 ==> !(#[trigger] s[i] == '.' && s[i + 1] == '.'))
            && (s.len() == 0 || s[0] != '/')),
{
}
} // verus!
