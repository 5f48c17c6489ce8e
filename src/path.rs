use vstd::prelude::*;

verus! {

/// `base` joined with `part` as a Unix path: an absolute `part` replaces
/// `base`; otherwise a `/` separates the two unless `base` is empty or already
/// ends in one.
pub open spec fn path_join(base: Seq<char>, part: Seq<char>) -> Seq<char> {
    if part.len() > 0 && part[0] == '/' {
        part
    } else if base.len() == 0 || base.last() == '/' {
        base + part
    } else {
        base + seq!['/'] + part
    }
}

/// Joins two Unix paths as `Path::join` does.
pub fn join_path(base: &str, part: &str) -> (r: String)
    ensures
        r@ == path_join(base@, part@),
{
    proof {
        reveal_strlit("/");
    }
    if !part.is_empty() && part.get_char(0) == '/' {
        return String::from_str(part);
    }
    if base.is_empty() {
        return String::from_str(part);
    }
    let n = base.unicode_len();
    if base.get_char(n - 1) == '/' {
        String::from_str(base).concat(part)
    } else {
        let r = String::from_str(base).concat("/").concat(part);
        assert(r@ =~= base@ + seq!['/'] + part@);
        r
    }
}

} // verus!
