//! Paths written as texts with `/` between their components.
use vstd::prelude::*;

use crate::common::text::{join, spec_join, spec_split, split_by_char, str_eq, views};

verus! {

/// Whether a piece of a path is a component (not empty).
pub open spec fn is_component(c: Seq<char>) -> bool {
    c.len() > 0
}

/// The components of a path, in order.
pub open spec fn spec_components(p: Seq<char>) -> Seq<Seq<char>> {
    spec_split(p, '/').filter(|c: Seq<char>| is_component(c))
}

/// Whether the first `k` components end with `src/main/java`.
pub open spec fn is_java_root_at(comps: Seq<Seq<char>>, k: int) -> bool {
    3 <= k <= comps.len() && comps[k - 1] == "java"@ && comps[k - 2] == "main"@ && comps[k - 3]
        == "src"@
}

/// The largest `j <= k` such that the first `j` components end with `src/main/java`.
pub open spec fn spec_java_root_upto(comps: Seq<Seq<char>>, k: int) -> Option<int>
    decreases k,
{
    if k < 3 {
        None
    } else if is_java_root_at(comps, k) {
        Some(k)
    } else {
        spec_java_root_upto(comps, k - 1)
    }
}

/// The number of components of the deepest ancestor (the path itself included) that ends
/// with `src/main/java`, if any.
pub open spec fn spec_java_root(comps: Seq<Seq<char>>) -> Option<int> {
    spec_java_root_upto(comps, comps.len() as int)
}

pub proof fn lemma_java_root_upto_bounds(comps: Seq<Seq<char>>, k: int)
    requires
        k <= comps.len(),
    ensures
        spec_java_root_upto(comps, k) matches Some(j) ==> 3 <= j <= k && is_java_root_at(comps, j),
    decreases k,
{
    if k >= 3 && !is_java_root_at(comps, k) {
        lemma_java_root_upto_bounds(comps, k - 1);
    }
}

/// The components of a path.
pub fn components(p: &str) -> (r: Vec<String>)
    ensures
        views(r@) == spec_components(p@),
{
    let pieces = split_by_char(p, '/');
    let ghost all = views(pieces@);
    let mut res: Vec<String> = Vec::new();
    let mut i: usize = 0;
    while i < pieces.len()
        invariant
            all == views(pieces@),
            i <= pieces.len(),
            views(res@) == all.take(i as int).filter(|c: Seq<char>| is_component(c)),
        decreases pieces.len() - i,
    {
        reveal_with_fuel(Seq::<_>::filter, 1);
        assert(all.take(i + 1).drop_last() =~= all.take(i as int));
        let piece = pieces[i].clone();
        if piece.as_str().unicode_len() > 0 {
            let ghost prev = res@;
            res.push(piece);
            assert(views(res@) =~= views(prev).push(piece@));
        }
        i = i + 1;
    }
    assert(all.take(pieces.len() as int) =~= all);
    res
}

/// The index just past the deepest `src/main/java` among the components, if any.
pub fn java_root_index(comps: &Vec<String>) -> (r: Option<usize>)
    ensures
        r matches Some(k) ==> spec_java_root(views(comps@)) == Some(k as int),
        r is None ==> spec_java_root(views(comps@)) is None,
{
    let ghost cs = views(comps@);
    let mut k: usize = comps.len();
    while k >= 3
        invariant
            cs == views(comps@),
            k <= comps.len(),
            spec_java_root(cs) == spec_java_root_upto(cs, k as int),
        decreases k,
    {
        if str_eq(comps[k - 1].as_str(), "java") && str_eq(comps[k - 2].as_str(), "main") && str_eq(
            comps[k - 3].as_str(),
            "src",
        ) {
            assert(is_java_root_at(cs, k as int));
            return Some(k);
        }
        k = k - 1;
    }
    None
}

/// The text of `name` placed inside the directory `dir`.
pub open spec fn spec_path_join(dir: Seq<char>, name: Seq<char>) -> Seq<char> {
    if dir.len() == 0 {
        name
    } else if dir.last() == '/' {
        dir + name
    } else {
        dir + "/"@ + name
    }
}

/// The path of `name` inside the directory `dir`.
pub fn path_join(dir: &str, name: &str) -> (r: String)
    ensures
        r@ == spec_path_join(dir@, name@),
{
    let n = dir.unicode_len();
    let mut res = dir.to_owned();
    if n == 0 {
        return name.to_owned();
    }
    if dir.get_char(n - 1) != '/' {
        res.append("/");
    }
    res.append(name);
    res
}

/// The path made of the first `k` components of `comps`, absolute when `absolute` holds.
pub open spec fn spec_path_of(comps: Seq<Seq<char>>, absolute: bool) -> Seq<char> {
    (if absolute { "/"@ } else { Seq::<char>::empty() }) + spec_join(comps, "/"@)
}

/// The path of the directory holding the file at `p`.
pub open spec fn spec_parent(p: Seq<char>) -> Seq<char> {
    let comps = spec_components(p);
    spec_path_of(
        if comps.len() > 0 { comps.drop_last() } else { comps },
        p.len() > 0 && p[0] == '/',
    )
}

/// The last component of the path `p`, or an empty text when there is none.
pub open spec fn spec_last_component(p: Seq<char>) -> Seq<char> {
    if spec_components(p).len() > 0 {
        spec_components(p).last()
    } else {
        Seq::<char>::empty()
    }
}

/// The path of the directory holding the file at `p`.
pub fn parent_path(p: &str) -> (r: String)
    ensures
        r@ == spec_parent(p@),
{
    let mut comps = components(p);
    if comps.len() > 0 {
        let ghost before = views(comps@);
        comps.pop();
        assert(views(comps@) =~= before.drop_last());
    }
    let mut res = String::new();
    if p.unicode_len() > 0 && p.get_char(0) == '/' {
        res.append("/");
    }
    let joined = join(&comps, "/");
    res.append(joined.as_str());
    res
}

/// The last component of the path `p`, or an empty text when there is none.
pub fn last_component(p: &str) -> (r: String)
    ensures
        r@ == spec_last_component(p@),
{
    let comps = components(p);
    if comps.len() > 0 {
        let r = comps[comps.len() - 1].clone();
        assert(views(comps@).last() == comps@[comps.len() - 1]@);
        r
    } else {
        String::new()
    }
}

} // verus!
