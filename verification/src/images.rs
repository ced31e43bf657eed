//! Image-URL construction: every icon asset has a base path and a native
//! extension, and a `webp` rendition exists for the raster formats.

use vstd::prelude::*;
use vstd::string::{StrSliceExecFns, StringExecFns};

verus! {

/// The native extensions for which a `webp` rendition of the asset exists.
pub open spec fn is_convertible_extension(ext: Seq<char>) -> bool {
    ext == "png"@ || ext == "jpg"@
}

/// The URL `build_webp_url` returns: the base path, a dot, and either `webp`
/// (when the browser supports it and the native extension has a rendition)
/// or the native extension itself.
pub open spec fn webp_url(path: Seq<char>, ext: Seq<char>, has_support: bool) -> Seq<char> {
    path + "."@ + (if has_support && is_convertible_extension(ext) {
        "webp"@
    } else {
        ext
    })
}

/// Character-by-character equality of two string slices.
fn str_eq(a: &str, b: &str) -> (r: bool)
    ensures
        r == (a@ == b@),
{
    let a_len = a.unicode_len();
    let b_len = b.unicode_len();
    if a_len != b_len {
        return false;
    }
    let mut i: usize = 0;
    while i < a_len
        invariant
            a_len == a@.len(),
            b_len == b@.len(),
            a_len == b_len,
            i <= a_len,
            forall|j: int| 0 <= j < i ==> a@[j] == b@[j],
        decreases a_len - i,
    {
        if a.get_char(i) != b.get_char(i) {
            return false;
        }
        i += 1;
    }
    proof {
        assert(a@ =~= b@);
    }
    true
}

/// The relative URL of an icon asset: `path` plus `.webp` when the browser
/// supports webp and the native extension is one of the convertible set,
/// else `path` plus the native extension.
pub fn build_webp_url(path: &str, default_extension: &str, has_support: bool) -> (url: String)
    ensures
        url@ == webp_url(path@, default_extension@, has_support),
{
    let mut url = String::from_str(path);
    url.append(".");
    if has_support && (str_eq(default_extension, "png") || str_eq(default_extension, "jpg")) {
        url.append("webp");
    } else {
        url.append(default_extension);
    }
    url
}

} // verus!
