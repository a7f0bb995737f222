//! File paths as text.
//!
//! Paths are held as strings and are Unix paths: `/` parts their
//! components, and a path that begins with `/` is absolute.
use crate::text::chars_of;
use crate::text::concat_str;
use vstd::prelude::*;
use vstd::string::*;

verus! {

/// The path of `name` under `base`: `name` itself where it is absolute;
/// else `base`, a `/` unless `base` is empty or ends in one, and `name`.
pub open spec fn join_spec(base: Seq<char>, name: Seq<char>) -> Seq<char> {
    if name.len() > 0 && name[0] == '/' {
        name
    } else if base.len() == 0 || base.last() == '/' {
        base + name
    } else {
        base + seq!['/'] + name
    }
}

/// The path that `std::path::Path::with_extension` gives for `name` with
/// the extension `ext`.
pub uninterp spec fn with_extension_spec(name: Seq<char>, ext: Seq<char>) -> Seq<char>;

/// The path of `name` under `base`.
pub fn join(base: &str, name: &str) -> (r: String)
    ensures
        r@ == join_spec(base@, name@),
{
    let n = chars_of(name);
    if n.len() > 0 && n[0] == '/' {
        return name.to_owned();
    }
    let b = chars_of(base);
    if b.len() == 0 || b[b.len() - 1] == '/' {
        concat_str(base, name)
    } else {
        proof {
            reveal_strlit("/");
            assert("/"@ =~= seq!['/']);
        }
        let mut r = concat_str(base, "/");
        r.append(name);
        r
    }
}

/// Calls `std::path::Path::with_extension`, which panics on an extension
/// that holds a path separator; such an extension is left out. The
/// contract only names the result.
#[verifier::external_body]
pub(crate) fn with_extension(name: &str, ext: &str) -> (r: String)
    requires
        !ext@.contains('/'),
    ensures
        r@ == with_extension_spec(name@, ext@),
{
    std::path::Path::new(name).with_extension(ext).to_string_lossy().into_owned()
}

} // verus!
