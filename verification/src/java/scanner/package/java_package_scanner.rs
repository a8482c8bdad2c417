//! The packages of a Java project: the package of a directory under `src/main/java`, the
//! project directory, which directories to scan, and where a file declares its package.
use vstd::prelude::*;

use crate::common::path::{
    components, java_root_index, lemma_java_root_upto_bounds, parent_path, spec_components,
    spec_java_root, spec_parent, spec_path_of,
};
use crate::common::text::{join, spec_join, str_eq, views};
use crate::java::parser::java_node::JavaNode;
use crate::java::parser::java_node_type::JavaNodeType;

verus! {

/// The package (such as `org.test`) that the directory at `dir_path` stands for, when it lies
/// under the deepest `src/main/java` of its path.
pub open spec fn spec_package_route_of_dir(dir_path: Seq<char>) -> Option<Seq<char>> {
    let comps = spec_components(dir_path);
    match spec_java_root(comps) {
        Some(k) => Some(spec_join(comps.skip(k), "."@)),
        None => None,
    }
}

/// Whether the directory at `dir_path` is the `src/main/java` directory itself, which stands
/// for no package.
pub open spec fn spec_is_java_root_dir(dir_path: Seq<char>) -> bool {
    let comps = spec_components(dir_path);
    spec_java_root(comps) == Some(comps.len() as int)
}

/// Whether the directory at `dir_path` is the `src/main/java` directory itself.
pub fn is_java_root_dir(dir_path: &str) -> (r: bool)
    ensures
        r == spec_is_java_root_dir(dir_path@),
{
    let comps = components(dir_path);
    match java_root_index(&comps) {
        Some(k) => k == comps.len(),
        None => false,
    }
}

/// The package that the directory at `dir_path` stands for, if it lies under `src/main/java`;
/// the directory is not that folder itself.
pub fn get_package_route_opt_from_dir_no_check(dir_path: &str) -> (r: Option<String>)
    requires
        !spec_is_java_root_dir(dir_path@),
    ensures
        match (r, spec_package_route_of_dir(dir_path@)) {
            (Some(a), Some(b)) => a@ == b,
            (None, None) => true,
            _ => false,
        },
{
    let comps = components(dir_path);
    let k = match java_root_index(&comps) {
        Some(k) => k,
        None => {
            return None;
        },
    };
    proof {
        lemma_java_root_upto_bounds(views(comps@), comps.len() as int);
    }
    let mut nodes: Vec<String> = Vec::new();
    let mut i = k;
    while i < comps.len()
        invariant
            k <= i <= comps.len(),
            views(nodes@) == views(comps@).subrange(k as int, i as int),
        decreases comps.len() - i,
    {
        let ghost prev = nodes@;
        nodes.push(comps[i].clone());
        proof {
            assert(views(nodes@) =~= views(prev).push(comps@[i as int]@));
            assert(views(comps@).subrange(k as int, i + 1) =~= views(comps@).subrange(
                k as int,
                i as int,
            ).push(comps@[i as int]@));
        }
        i = i + 1;
    }
    proof {
        assert(views(comps@).subrange(k as int, comps.len() as int) =~= views(comps@).skip(k as int));
    }
    Some(join(&nodes, "."))
}

/// The package of the Java file at `file_path`, if its directory lies under `src/main/java`;
/// the file does not lie directly in that folder.
pub fn get_package_route_from_file(file_path: &str) -> (r: Option<String>)
    requires
        !spec_is_java_root_dir(spec_parent(file_path@)),
    ensures
        match (r, spec_package_route_of_dir(spec_parent(file_path@))) {
            (Some(a), Some(b)) => a@ == b,
            (None, None) => true,
            _ => false,
        },
{
    let dir = parent_path(file_path);
    get_package_route_opt_from_dir_no_check(dir.as_str())
}

/// Whether the components of a path end with `suffix`.
pub open spec fn spec_ends_with_components(comps: Seq<Seq<char>>, suffix: Seq<Seq<char>>) -> bool {
    suffix.len() <= comps.len() && comps.skip(comps.len() - suffix.len()) == suffix
}

/// Whether a project scan goes into the directory at `dir_path`: not into `src/test/java`,
/// `target` or `.mvn`.
pub open spec fn spec_should_scan_dir(dir_path: Seq<char>) -> bool {
    let comps = spec_components(dir_path);
    if spec_ends_with_components(comps, seq!["java"@]) {
        !spec_ends_with_components(comps, seq!["src"@, "test"@, "java"@])
    } else {
        !spec_ends_with_components(comps, seq!["target"@]) && !spec_ends_with_components(
            comps,
            seq![".mvn"@],
        )
    }
}

fn last_components_are(comps: &Vec<String>, suffix: &Vec<&str>) -> (r: bool)
    ensures
        r == spec_ends_with_components(views(comps@), suffix@.map_values(|s: &str| s@)),
{
    let ghost cs = views(comps@);
    let ghost sf = suffix@.map_values(|s: &str| s@);
    if suffix.len() > comps.len() {
        return false;
    }
    let start = comps.len() - suffix.len();
    let mut i: usize = 0;
    while i < suffix.len()
        invariant
            i <= suffix.len(),
            start == comps.len() - suffix.len(),
            cs == views(comps@),
            sf == suffix@.map_values(|s: &str| s@),
            forall|j: int| 0 <= j < i ==> cs[start + j] == sf[j],
        decreases suffix.len() - i,
    {
        if !str_eq(comps[start + i].as_str(), suffix[i]) {
            proof {
                assert(cs.skip(start as int)[i as int] != sf[i as int]);
            }
            return false;
        }
        i = i + 1;
    }
    proof {
        assert(cs.skip(start as int) =~= sf);
    }
    true
}

/// Whether a project scan goes into the directory at `dir_path`: not into `src/test/java`,
/// `target` or `.mvn`.
pub fn should_scan_dir(dir_path: &str) -> (r: bool)
    ensures
        r == spec_should_scan_dir(dir_path@),
{
    let comps = components(dir_path);
    proof {
        reveal_strlit("java");
        reveal_strlit("src");
        reveal_strlit("test");
        reveal_strlit("target");
        reveal_strlit(".mvn");
    }
    let java = vec!["java"];
    proof {
        assert(java@.map_values(|s: &str| s@) =~= seq!["java"@]);
    }
    if last_components_are(&comps, &java) {
        let test_java = vec!["src", "test", "java"];
        proof {
            assert(test_java@.map_values(|s: &str| s@) =~= seq!["src"@, "test"@, "java"@]);
        }
        return !last_components_are(&comps, &test_java);
    }
    let target = vec!["target"];
    let mvn = vec![".mvn"];
    proof {
        assert(target@.map_values(|s: &str| s@) =~= seq!["target"@]);
        assert(mvn@.map_values(|s: &str| s@) =~= seq![".mvn"@]);
    }
    !last_components_are(&comps, &target) && !last_components_are(&comps, &mvn)
}

/// The directory of the project that holds the directory at `input_dir_path`: the parent of the
/// `src` of its deepest `src/main/java`, if any.
pub open spec fn spec_base_project_dir(input_dir_path: Seq<char>) -> Option<Seq<char>> {
    let comps = spec_components(input_dir_path);
    match spec_java_root(comps) {
        Some(k) => Some(
            spec_path_of(comps.take(k - 3), input_dir_path.len() > 0 && input_dir_path[0] == '/'),
        ),
        None => None,
    }
}

/// The directory of the project that holds the directory at `input_dir_path`: the parent of the
/// `src` of its deepest `src/main/java`, if any. Whether it holds a build file is for the
/// caller to check.
pub fn get_base_project_dir(input_dir_path: &str) -> (r: Option<String>)
    ensures
        match (r, spec_base_project_dir(input_dir_path@)) {
            (Some(a), Some(b)) => a@ == b,
            (None, None) => true,
            _ => false,
        },
{
    let mut comps = components(input_dir_path);
    let k = match java_root_index(&comps) {
        Some(k) => k,
        None => {
            return None;
        },
    };
    proof {
        lemma_java_root_upto_bounds(views(comps@), comps.len() as int);
    }
    let ghost all = views(comps@);
    comps.truncate(k - 3);
    proof {
        assert(views(comps@) =~= all.take(k - 3));
    }
    let mut res = String::new();
    if input_dir_path.unicode_len() > 0 && input_dir_path.get_char(0) == '/' {
        res.append("/");
    }
    let joined = join(&comps, "/");
    res.append(joined.as_str());
    Some(res)
}

/// The first and last bytes of the package name that a parsed Java file declares: the first
/// scoped identifier of its tree; an error when there is none.
pub fn find_package_start_end_bytes(root: &JavaNode, input_java_file: &str) -> (r: Result<(usize, usize), String>)
    ensures
        match (r, root.spec_dfs_first(JavaNodeType::ScopedIdentifier)) {
            (Ok((a, b)), Some(n)) => a == n.spec_start_byte() && b == n.spec_end_byte(),
            (Err(e), None) => e@ == "Package not found for java file:\n\""@ + input_java_file@ + "\"\n"@,
            _ => false,
        },
{
    match root.depth_first_search_first_with_type(JavaNodeType::ScopedIdentifier) {
        Some(n) => Ok((n.get_start_byte(), n.get_end_byte())),
        None => {
            let mut e = "Package not found for java file:\n\"".to_owned();
            e.append(input_java_file);
            e.append("\"\n");
            Err(e)
        },
    }
}

} // verus!
