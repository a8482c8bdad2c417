//! The import routes of the Java files of a project, and their search by route.
use vstd::prelude::*;

use crate::common::path::{
    components, java_root_index, last_component, lemma_java_root_upto_bounds, parent_path,
    spec_components, spec_java_root, spec_last_component, spec_parent,
};
use crate::common::text::{ends_with, join, spec_ends_with, spec_join, str_eq, views};

verus! {

/// The route (such as `org.test.Class`) by which other files import the Java file at `p`, when
/// the file is a `.java` file inside a package of the `src/main/java` folder of a project.
pub open spec fn spec_file_import_route(p: Seq<char>) -> Option<Seq<char>> {
    let name = spec_last_component(p);
    let comps = spec_components(spec_parent(p));
    if spec_ends_with(name, ".java"@) && spec_java_root(comps) is Some && spec_java_root(comps)->0
        < comps.len() {
        Some(
            spec_join(
                comps.skip(spec_java_root(comps)->0).push(name.take(name.len() - 5)),
                "."@,
            ),
        )
    } else {
        None
    }
}

/// The route by which other files import the Java file at `file_path`, if it has one.
pub fn file_import_route(file_path: &str) -> (r: Option<String>)
    ensures
        r matches Some(s) ==> spec_file_import_route(file_path@) == Some(s@),
        r is None ==> spec_file_import_route(file_path@) is None,
{
    proof {
        reveal_strlit(".java");
    }
    let name = last_component(file_path);
    if !ends_with(name.as_str(), ".java") {
        return None;
    }
    let dir = parent_path(file_path);
    let comps = components(dir.as_str());
    let k = match java_root_index(&comps) {
        Some(k) => k,
        None => {
            return None;
        },
    };
    proof {
        lemma_java_root_upto_bounds(views(comps@), comps.len() as int);
    }
    if k >= comps.len() {
        return None;
    }
    let mut nodes: Vec<String> = Vec::new();
    let mut i = k;
    while i < comps.len()
        invariant
            k <= i <= comps.len(),
            views(nodes@) == views(comps@).subrange(k as int, i as int),
        decreases comps.len() - i,
    {
        let ghost prev = nodes@;
        nodes.push(comps[i].clone());
        assert(views(nodes@) =~= views(prev).push(comps@[i as int]@));
        assert(views(comps@).subrange(k as int, i + 1) =~= views(comps@).subrange(
            k as int,
            i as int,
        ).push(comps@[i as int]@));
        i = i + 1;
    }
    let n = name.as_str().unicode_len();
    let last = name.as_str().substring_char(0, n - 5).to_owned();
    let ghost prev = nodes@;
    nodes.push(last);
    assert(views(nodes@) =~= views(comps@).skip(k as int).push(name@.take(name@.len() - 5))) by {
        assert(views(nodes@) =~= views(prev).push(last@));
        assert(views(comps@).subrange(k as int, comps.len() as int) =~= views(comps@).skip(
            k as int,
        ));
    }
    Some(join(&nodes, "."))
}

/// The Java files, among `java_files`, that other files import by `import_route`, in order.
pub fn search_imports(import_route: &str, java_files: &Vec<String>) -> (r: Vec<String>)
    ensures
        views(r@) == views(java_files@).filter(
            |f: Seq<char>| spec_file_import_route(f) == Some(import_route@),
        ),
{
    let ghost all = views(java_files@);
    let ghost pred = |f: Seq<char>| spec_file_import_route(f) == Some(import_route@);
    let mut res: Vec<String> = Vec::new();
    let mut i: usize = 0;
    while i < java_files.len()
        invariant
            all == views(java_files@),
            pred == (|f: Seq<char>| spec_file_import_route(f) == Some(import_route@)),
            i <= java_files.len(),
            views(res@) == all.take(i as int).filter(pred),
        decreases java_files.len() - i,
    {
        reveal_with_fuel(Seq::<_>::filter, 1);
        assert(all.take(i + 1).drop_last() =~= all.take(i as int));
        let matches = match file_import_route(java_files[i].as_str()) {
            Some(route) => str_eq(route.as_str(), import_route),
            None => false,
        };
        if matches {
            let ghost prev = res@;
            res.push(java_files[i].clone());
            assert(views(res@) =~= views(prev).push(java_files@[i as int]@));
        }
        i = i + 1;
    }
    assert(all.take(java_files.len() as int) =~= all);
    res
}

/// Whether the path names a `.java` file.
pub fn is_java_file(file_name: &str) -> (r: bool)
    ensures
        r == spec_ends_with(spec_last_component(file_name@), ".java"@),
{
    let name = last_component(file_name);
    ends_with(name.as_str(), ".java")
}

} // verus!
