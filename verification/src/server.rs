//! Routing of the local image server: cached images are served with the
//! content type their extension calls for, since the model only fetches
//! images with a proper MIME type.
use vstd::prelude::*;

use crate::text::{chars_of, seq_ends_with, seq_starts_with, str_ends_with, str_starts_with};

verus! {

/// The path without its leading slashes (`trim_start_matches('/')`).
pub open spec fn trim_leading_slashes(p: Seq<char>) -> Seq<char>
    decreases p.len(),
{
    if p.len() > 0 && p[0] == '/' {
        trim_leading_slashes(p.drop_first())
    } else {
        p
    }
}

/// The content type for a served file, by its extension.
pub open spec fn content_type(path: Seq<char>) -> Seq<char> {
    if seq_ends_with(path, ".jpg"@) || seq_ends_with(path, ".jpeg"@) {
        "image/jpeg"@
    } else if seq_ends_with(path, ".png"@) {
        "image/png"@
    } else if seq_ends_with(path, ".webp"@) {
        "image/webp"@
    } else {
        "application/octet-stream"@
    }
}

/// Determine content type based on file extension
pub fn content_type_for(path: &str) -> (r: &'static str)
    ensures
        r@ == content_type(path@),
{
    if str_ends_with(path, ".jpg") || str_ends_with(path, ".jpeg") {
        "image/jpeg"
    } else if str_ends_with(path, ".png") {
        "image/png"
    } else if str_ends_with(path, ".webp") {
        "image/webp"
    } else {
        "application/octet-stream"
    }
}

/// What the server does with a request path.
pub enum Route {
    /// Answer 404.
    NotFound,
    /// Read the file and serve it with the given content type.
    ServeFile { file_path: String, content_type: &'static str },
}

/// A `..` segment starts at position `i` of `p`: two dots between slashes
/// or the ends of the path.
pub open spec fn parent_segment_at(p: Seq<char>, i: int) -> bool {
    &&& 0 <= i
    &&& i + 2 <= p.len()
    &&& p[i] == '.'
    &&& p[i + 1] == '.'
    &&& (i == 0 || p[i - 1] == '/')
    &&& (i + 2 == p.len() || p[i + 2] == '/')
}

/// The path climbs to a parent directory somewhere.
pub open spec fn has_parent_segment(p: Seq<char>) -> bool {
    exists|i: int| parent_segment_at(p, i)
}

/// Whether the path has a `..` segment.
fn climbs_out(p: &str) -> (r: bool)
    ensures
        r == has_parent_segment(p@),
{
    let cs = chars_of(p);
    let n = cs.len();
    let mut i: usize = 0;
    while n >= 2 && i <= n - 2
        invariant
            cs@ == p@,
            n == cs.len(),
            i <= n,
            forall|j: int| 0 <= j < i ==> !parent_segment_at(p@, j),
        decreases n - i,
    {
        if cs[i] == '.' && cs[i + 1] == '.' && (i == 0 || cs[i - 1] == '/') && (i + 2 == n
            || cs[i + 2] == '/') {
            assert(parent_segment_at(p@, i as int));
            return true;
        }
        i = i + 1;
    }
    assert forall|j: int| !parent_segment_at(p@, j) by {
        if j >= i {
            assert(!(j + 2 <= p@.len()));
        }
    }
    false
}

/// Only paths under "images/" (leading slashes aside) with no `..` segment
/// are served, from the cache directory "assets/cache/".
pub open spec fn route_spec(path: Seq<char>) -> Option<(Seq<char>, Seq<char>)> {
    let p = trim_leading_slashes(path);
    if seq_starts_with(p, "images/"@) && !has_parent_segment(p) {
        Some(("assets/cache/"@ + p, content_type(p)))
    } else {
        None
    }
}

/// Removes the leading slashes of a path.
pub fn trim_slashes(path: &str) -> (r: String)
    ensures
        r@ == trim_leading_slashes(path@),
{
    let cs = chars_of(path);
    let mut i: usize = 0;
    assert(path@.subrange(0, path@.len() as int) =~= path@);
    while i < cs.len() && cs[i] == '/'
        invariant
            i <= cs.len(),
            cs@ == path@,
            trim_leading_slashes(path@) == trim_leading_slashes(path@.subrange(i as int, path@.len() as int)),
        decreases cs.len() - i,
    {
        assert(path@.subrange(i as int, path@.len() as int).drop_first() =~= path@.subrange(
            i as int + 1,
            path@.len() as int,
        ));
        i = i + 1;
    }
    let rest = path.substring_char(i, cs.len());
    proof {
        let t = path@.subrange(i as int, path@.len() as int);
        if t.len() > 0 {
            assert(t[0] == cs@[i as int]);
        }
    }
    String::from_str(rest)
}

/// Where a request path leads.
pub fn route_request(path: &str) -> (r: Route)
    ensures
        match route_spec(path@) {
            Some((file, ct)) => r matches Route::ServeFile { file_path, content_type } && file_path@ == file && content_type@ == ct,
            None => r is NotFound,
        },
{
    let p = trim_slashes(path);
    if !str_starts_with(p.as_str(), "images/") || climbs_out(p.as_str()) {
        return Route::NotFound;
    }
    let mut file_path = String::from_str("assets/cache/");
    file_path.append(p.as_str());
    Route::ServeFile { file_path, content_type: content_type_for(p.as_str()) }
}

/// The status of a file response: 404 where the file does not open, 500
/// where it opens but cannot be read, 200 otherwise.
pub fn file_response_status(opened: bool, read_ok: bool) -> (r: u16)
    ensures
        r == (if !opened {
            404u16
        } else if !read_ok {
            500u16
        } else {
            200u16
        }),
{
    if !opened {
        404
    } else if !read_ok {
        500
    } else {
        200
    }
}

} // verus!
