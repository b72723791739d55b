use vstd::prelude::*;

verus! {

/// Joins a path component onto a base path, with `/` as separator.
/// An absolute component replaces the base, an empty base yields the
/// component, and no separator is doubled.
pub open spec fn path_join(base: Seq<char>, comp: Seq<char>) -> Seq<char> {
    if comp.len() > 0 && comp[0] == '/' {
        comp
    } else if base.len() == 0 {
        comp
    } else if base[base.len() - 1] == '/' {
        base + comp
    } else {
        base + seq!['/'] + comp
    }
}

/// Executable form of `path_join`.
pub fn join(base: &str, comp: &str) -> (r: String)
    ensures
        r@ == path_join(base@, comp@),
{
    let bl = base.unicode_len();
    let cl = comp.unicode_len();
    if cl > 0 && comp.get_char(0) == '/' {
        return String::from_str(comp);
    }
    if bl == 0 {
        return String::from_str(comp);
    }
    let mut r = String::from_str(base);
    if base.get_char(bl - 1) != '/' {
        r.append("/");
        proof { reveal_strlit("/"); }
    }
    r.append(comp);
    proof {
        assert(r@ =~= path_join(base@, comp@));
    }
    r
}

} // verus!
