//! The web front end's static files: which file a request path names, and
//! how it is answered.
use vstd::prelude::*;
use crate::text::{strip_leading, without_leading};

verus! {

/// The status of a successful response.
pub const OK: u16 = 200;

/// The status of a response for a file that does not exist.
pub const NOT_FOUND: u16 = 404;

/// The media type that `mime_guess` gives for a path, by its extension:
/// the first one it knows, or `application/octet-stream`.
pub uninterp spec fn mime_type_of(path: Seq<char>) -> Seq<char>;

/// `mime_guess::from_path(path).first_or_octet_stream()`, as text. Claimed:
/// the result is `mime_type_of` the path (the guess reads only the path's
/// extension and a table compiled into the crate).
#[verifier::external_body]
fn guess_media_type(path: &str) -> (r: String)
    ensures
        r@ == mime_type_of(path@),
{
    mime_guess::from_path(path).first_or_octet_stream().as_ref().to_string()
}

/// The answer to a request for a static file.
pub struct AssetResponse {
    pub status: u16,
    /// The media type of the body, where there is one.
    pub content_type: Option<String>,
    pub body: Vec<u8>,
}

/// The name under which a requested path is looked up: the path without
/// its leading slashes.
pub fn asset_key(path: &str) -> (r: &str)
    ensures
        r@ == strip_leading(path@, '/'),
{
    without_leading(path, '/')
}

/// The key of a path is the path with all its leading slashes removed: the
/// path is some slashes followed by the key, and the key does not begin with
/// a slash.
pub proof fn law_asset_key_drops_leading_slashes(path: Seq<char>)
    ensures
        strip_leading(path, '/').len() <= path.len(),
        path =~= Seq::new((path.len() - strip_leading(path, '/').len()) as nat, |i: int| '/')
            + strip_leading(path, '/'),
        strip_leading(path, '/').len() > 0 ==> strip_leading(path, '/')[0] != '/',
    decreases path.len(),
{
    if path.len() > 0 && path[0] == '/' {
        law_asset_key_drops_leading_slashes(path.drop_first());
        let k = strip_leading(path, '/');
        let n = (path.len() - k.len()) as nat;
        assert forall|i: int| 0 <= i < path.len() implies path[i] == (Seq::new(n, |i: int| '/')
            + k)[i] by {
            if i > 0 {
                assert(path[i] == path.drop_first()[i - 1]);
            }
        }
    }
}

/// The answer for the file stored under `key`, given what the lookup found:
/// its contents with their media type, or `404 Not Found` with no body.
pub fn asset_response(key: &str, content: Option<Vec<u8>>) -> (r: AssetResponse)
    ensures
        match content {
            Some(data) => {
                &&& r.status == OK
                &&& r.content_type is Some
                &&& r.content_type->0@ == mime_type_of(key@)
                &&& r.body@ == data@
            },
            None => r.status == NOT_FOUND && r.content_type is None && r.body@.len() == 0,
        },
{
    match content {
        Some(data) => AssetResponse {
            status: OK,
            content_type: Some(guess_media_type(key)),
            body: data,
        },
        None => AssetResponse { status: NOT_FOUND, content_type: None, body: Vec::new() },
    }
}

} // verus!
