pub mod auth_token;
pub mod handlers;

use vstd::prelude::*;

use crate::text::str_eq;

verus! {

/// What the standard library's `Path::extension` gives for the path `path`, as text.
pub uninterp spec fn path_extension(path: Seq<char>) -> Option<Seq<char>>;

/// Calls the standard library's `Path::new(path).extension()` and reads the extension as
/// text. The outcome is named by `path_extension`.
#[verifier::external_body]
fn extension_of(path: &str) -> (r: Option<String>)
    ensures
        match r {
            Some(e) => path_extension(path@) == Some(e@),
            None => path_extension(path@) is None,
        },
{
    std::path::Path::new(path).extension().and_then(|e| e.to_str()).map(|e| e.to_string())
}

/// The media type that a file extension is served with.
pub open spec fn content_type_of(ext: Option<Seq<char>>) -> Seq<char> {
    match ext {
        Some(e) => if e == "html"@ {
            "text/html"@
        } else if e == "css"@ {
            "text/css"@
        } else if e == "js"@ {
            "application/javascript"@
        } else if e == "ico"@ {
            "image/x-icon"@
        } else if e == "png"@ {
            "image/png"@
        } else if e == "svg"@ {
            "image/svg+xml"@
        } else {
            "application/octet-stream"@
        },
        None => "application/octet-stream"@,
    }
}

/// The media type with which the static file at `path` is served, by its extension.
pub fn content_type_for(path: &str) -> (r: &'static str)
    ensures
        r@ == content_type_of(path_extension(path@)),
{
    match extension_of(path) {
        Some(e) => {
            let e = e.as_str();
            if str_eq(e, "html") {
                "text/html"
            } else if str_eq(e, "css") {
                "text/css"
            } else if str_eq(e, "js") {
                "application/javascript"
            } else if str_eq(e, "ico") {
                "image/x-icon"
            } else if str_eq(e, "png") {
                "image/png"
            } else if str_eq(e, "svg") {
                "image/svg+xml"
            } else {
                "application/octet-stream"
            }
        },
        None => "application/octet-stream",
    }
}

} // verus!
