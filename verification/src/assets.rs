//! Resolution of dashboard asset paths.
//!
//! A request path maps to an embedded asset: the leading slash is
//! stripped, and the extension of the final path component decides the
//! content type. A path whose final component has no extension is
//! answered with the dashboard index page, so every dashboard route
//! serves the single-page application.

use vstd::prelude::*;
use vstd::string::StrSliceExecFns;
use vstd::string::StringExecFns;

verus! {

/// The path without its leading slash, if it has one.
pub open spec fn spec_strip_slash(s: Seq<char>) -> Seq<char> {
    if s.len() > 0 && s[0] == '/' {
        s.subrange(1, s.len() as int)
    } else {
        s
    }
}

/// The index of the last occurrence of `c` in `s`, or `-1`.
pub open spec fn spec_last_index(s: Seq<char>, c: char) -> int
    decreases s.len(),
{
    if s.len() == 0 {
        -1
    } else if s.last() == c {
        s.len() - 1
    } else {
        spec_last_index(s.drop_last(), c)
    }
}

/// The last occurrence is inside the sequence, or absent.
proof fn lemma_last_index_bounds(s: Seq<char>, c: char)
    ensures
        -1 <= spec_last_index(s, c) < s.len(),
    decreases s.len(),
{
    if s.len() > 0 {
        lemma_last_index_bounds(s.drop_last(), c);
    }
}

/// The index of the last occurrence of `c`, or `-1` when `c` does not
/// occur.
fn last_index_of(s: &str, c: char) -> (r: i64)
    requires
        s@.len() < 0x1000_0000,
    ensures
        r == spec_last_index(s@, c),
{
    let n: usize = s.unicode_len();
    let mut i: usize = 0;
    let mut last: i64 = -1;
    proof {
        assert(s@.take(0) =~= Seq::<char>::empty());
    }
    while i < n
        invariant
            i <= n,
            n == s@.len(),
            n < 0x1000_0000,
            last == spec_last_index(s@.take(i as int), c),
        decreases n - i,
    {
        proof {
            assert(s@.take(i as int + 1).drop_last() =~= s@.take(i as int));
            assert(s@.take(i as int + 1).last() == s@[i as int]);
        }
        if s.get_char(i) == c {
            last = i as i64;
        }
        i = i + 1;
    }
    proof {
        assert(s@.take(n as int) =~= s@);
    }
    last
}

/// A resolved asset: the file path inside the embedded bundle and the
/// extension that decides its content type.
#[derive(Debug)]
pub struct AssetResolution {
    /// Path of the file to serve.
    pub path: String,
    /// Extension the content type is guessed from.
    pub extension: String,
}

/// Resolve a request path to the asset to serve: the path without its
/// leading slash when its final component carries an extension — the
/// part after the last dot, a dot leading the component not counting —
/// and the index page otherwise.
pub fn resolve_public_path(path: &str) -> (r: AssetResolution)
    requires
        path@.len() < 0x1000_0000,
    ensures
        ({
            let p = spec_strip_slash(path@);
            let component_start = spec_last_index(p, '/') + 1;
            let dot = spec_last_index(p, '.');
            if dot > component_start {
                r.path@ == p && r.extension@ == p.subrange(dot + 1, p.len() as int)
            } else {
                r.path@ == "index.html"@ && r.extension@ == "html"@
            }
        }),
{
    let n: usize = path.unicode_len();
    let stripped: &str = if n > 0 && path.get_char(0) == '/' {
        path.substring_char(1, n)
    } else {
        path
    };
    let ghost p = spec_strip_slash(path@);
    proof {
        assert(stripped@ =~= p);
    }
    let m: usize = stripped.unicode_len();
    let slash = last_index_of(stripped, '/');
    let dot = last_index_of(stripped, '.');
    proof {
        lemma_last_index_bounds(p, '/');
        lemma_last_index_bounds(p, '.');
    }
    if dot > slash + 1 {
        let extension = stripped.substring_char((dot + 1) as usize, m);
        let path_out = String::from_str(stripped);
        AssetResolution { path: path_out, extension: String::from_str(extension) }
    } else {
        AssetResolution {
            path: String::from_str("index.html"),
            extension: String::from_str("html"),
        }
    }
}

} // verus!
