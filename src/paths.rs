//! Joining path components, as `Path::join` does on Unix.
use vstd::prelude::*;
use vstd::string::*;
use crate::text::has_prefix;

verus! {

/// `name` under `base`: an absolute `name` replaces `base`; otherwise one
/// separator goes between them unless `base` is empty or already ends in one.
pub open spec fn path_join(base: Seq<char>, name: Seq<char>) -> Seq<char> {
    if has_prefix(name, "/"@) {
        name
    } else if base.len() == 0 || base.last() == '/' {
        base + name
    } else {
        base + "/"@ + name
    }
}

/// Joins `name` onto `base`.
pub fn join_path(base: &str, name: &str) -> (r: String)
    ensures
        r@ == path_join(base@, name@),
{
    proof {
        reveal_strlit("/");
    }
    let starts_with_separator = name.unicode_len() > 0 && name.get_char(0) == '/';
    if starts_with_separator {
        assert(name@.subrange(0, 1) =~= "/"@);
        return name.to_owned();
    }
    assert(!has_prefix(name@, "/"@)) by {
        if name@.len() > 0 {
            assert(name@.subrange(0, 1)[0] == name@[0]);
        }
    }
    let n = base.unicode_len();
    let mut r = base.to_owned();
    if n == 0 || base.get_char(n - 1) == '/' {
        r.append(name);
    } else {
        r.append("/");
        r.append(name);
    }
    r
}

} // verus!
