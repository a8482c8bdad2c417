//! Java imports: routes such as `org.test.Class`, or references to a file of a Java project.
use vstd::prelude::*;

use crate::common::path::{
    components, java_root_index, last_component, lemma_java_root_upto_bounds, parent_path, path_join,
    spec_components,
    spec_java_root, spec_last_component, spec_parent, spec_path_join,
};
use crate::common::file_cache::FileCache;
use crate::java::parser::java_node::JavaNode;
use crate::java::scanner::package::java_dependency_scanner::{search_imports, spec_file_import_route};
use crate::common::text::{
    clone_strings, ends_with, join, lemma_join_split, lemma_split_nonempty, spec_ends_with, spec_join, spec_split,
    split_by_char, str_eq, views,
};

verus! {

/// What an import holds: a route written by hand, or the folder of a Java file with the
/// package under `src/main/java` and the names inside the file.
pub struct JavaImportView {
    pub route: Seq<char>,
    pub folder: Option<Seq<char>>,
    pub package_nodes: Seq<Seq<char>>,
    pub nodes: Seq<Seq<char>>,
}

impl JavaImportView {
    /// The nodes after the package (the whole route for a route import).
    pub open spec fn spec_nodes(self) -> Seq<Seq<char>> {
        if self.folder is Some {
            self.nodes
        } else {
            spec_split(self.route, '.')
        }
    }

    /// Every node of the import, package included.
    pub open spec fn spec_all_nodes(self) -> Seq<Seq<char>> {
        if self.folder is Some {
            self.package_nodes + self.nodes
        } else {
            spec_split(self.route, '.')
        }
    }

    /// Whether the import names one type.
    pub open spec fn spec_is_explicit(self) -> bool {
        if self.folder is Some {
            self.nodes.len() > 0
        } else {
            spec_split(self.route, '.').last() != "*"@
        }
    }

    /// Whether the import names every type of a package.
    pub open spec fn spec_is_wildcard(self) -> bool {
        if self.folder is Some {
            self.nodes.len() == 0
        } else {
            spec_split(self.route, '.').last() == "*"@
        }
    }

    /// The last node of the import.
    pub open spec fn spec_last_node(self) -> Seq<char> {
        self.spec_all_nodes().last()
    }

    /// The route of the import, or only its package when `just_package_route` holds.
    pub open spec fn spec_route_internal(self, just_package_route: bool) -> Seq<char> {
        if self.folder is None {
            self.route
        } else {
            let package = spec_join(self.package_nodes, "."@);
            if just_package_route {
                package
            } else if self.nodes.len() > 0 {
                package + "."@ + spec_join(self.nodes, "."@)
            } else {
                package + ".*"@
            }
        }
    }

    /// The import as written in a Java file.
    pub open spec fn spec_to_string(self) -> Seq<char> {
        "import "@ + spec_join(self.spec_all_nodes(), "."@) + (if self.folder is Some
            && self.nodes.len() == 0 { ".*"@ } else { Seq::<char>::empty() }) + ";"@
    }
}

/// Every import is either explicit (it names one type) or a wildcard import (it names every
/// type of a package), and never both.
pub proof fn law_explicit_xor_wildcard(import: JavaImportView)
    ensures
        import.spec_is_explicit() <==> !import.spec_is_wildcard(),
{
}

/// An import of a route is written as `import`, the route and a semicolon.
pub proof fn law_route_import_to_string(route: Seq<char>)
    ensures
        spec_route_import(route).spec_to_string() == "import "@ + route + ";"@,
{
    lemma_join_split(route, '.');
    reveal_strlit(".");
    assert(seq!['.'] =~= "."@);
    assert(spec_route_import(route).spec_to_string() =~= "import "@ + route + ";"@);
}

/// The route by which a project file is searched among the project's files is the route of
/// the import by which other files import it.
pub proof fn law_file_route_is_self_import_route(file_path: Seq<char>)
    requires
        spec_file_import_route(file_path) is Some,
    ensures
        spec_import_of_file(file_path).spec_route_internal(false) == spec_file_import_route(file_path)->0,
        spec_import_of_file(file_path).spec_is_explicit(),
{
    let comps = spec_components(spec_parent(file_path));
    let name = spec_last_component(file_path);
    let k = spec_java_root(comps)->0;
    let package = comps.skip(k);
    let last = name.take(name.len() - 5);
    let all = package.push(last);
    assert(all.drop_last() =~= package);
    assert(all.last() == last);
    lemma_java_root_upto_bounds(comps, comps.len() as int);
    assert(package.len() > 0);
    assert(spec_join(seq![last], "."@) == last);
    assert(spec_join(all, "."@) == spec_join(package, "."@) + "."@ + last);
}

/// The views of a sequence of imports.
pub open spec fn import_views(v: Seq<JavaImport>) -> Seq<JavaImportView> {
    v.map_values(|i: JavaImport| i@)
}

/// A copy of a vector of imports.
pub fn clone_imports(v: &Vec<JavaImport>) -> (r: Vec<JavaImport>)
    ensures
        import_views(r@) == import_views(v@),
{
    let mut r: Vec<JavaImport> = Vec::new();
    let mut i: usize = 0;
    while i < v.len()
        invariant
            i <= v.len(),
            import_views(r@) == import_views(v@).take(i as int),
        decreases v.len() - i,
    {
        let ghost prev = r@;
        r.push(v[i].clone());
        assert(import_views(r@) =~= import_views(prev).push(v@[i as int]@));
        assert(import_views(v@).take(i + 1) =~= import_views(v@).take(i as int).push(v@[i as int]@));
        i = i + 1;
    }
    assert(import_views(v@).take(v.len() as int) =~= import_views(v@));
    r
}

/// The import of the Java file at `p`.
pub open spec fn spec_import_of_file(p: Seq<char>) -> JavaImportView {
    let comps = spec_components(spec_parent(p));
    let name = spec_last_component(p);
    JavaImportView {
        route: Seq::<char>::empty(),
        folder: Some(spec_parent(p)),
        package_nodes: comps.skip(spec_java_root(comps)->0),
        nodes: seq![name.take(name.len() - 5)],
    }
}

/// The import of a route, not checked against any project.
pub open spec fn spec_route_import(route: Seq<char>) -> JavaImportView {
    JavaImportView {
        route: route,
        folder: None,
        package_nodes: Seq::empty(),
        nodes: Seq::empty(),
    }
}

/// The Java files of the project of a cached file that other files import by `route`.
pub open spec fn spec_files_of_route(cache: FileCache, route: Seq<char>) -> Seq<Seq<char>> {
    cache.spec_project_files().filter(|f: Seq<char>| spec_file_import_route(f) == Some(route))
}

/// The error for an attempt to make an explicit import of a route that ends with `*`.
pub open spec fn spec_invalid_route_import(route: Seq<char>) -> Seq<char> {
    "Invalid attempt to create an explicit java import:\n\t\""@ + route + "\""@
}

/// A Java import: a route written by hand (`org.test.Class`), or a reference to a file of a
/// Java project.
pub struct JavaImport {
    fake_non_checked_route: String,
    folder_path: Option<String>,
    package_nodes: Vec<String>,
    nodes: Vec<String>,
}

impl View for JavaImport {
    type V = JavaImportView;

    closed spec fn view(&self) -> JavaImportView {
        JavaImportView {
            route: self.fake_non_checked_route@,
            folder: match self.folder_path {
                Some(f) => Some(f@),
                None => None,
            },
            package_nodes: views(self.package_nodes@),
            nodes: views(self.nodes@),
        }
    }
}

impl Clone for JavaImport {
    fn clone(&self) -> (r: Self)
        ensures
            r@ == self@,
    {
        proof {
            use_type_invariant(self);
        }
        let folder_path = match &self.folder_path {
            Some(f) => Some(f.clone()),
            None => None,
        };
        JavaImport {
            fake_non_checked_route: self.fake_non_checked_route.clone(),
            folder_path,
            package_nodes: clone_strings(&self.package_nodes),
            nodes: clone_strings(&self.nodes),
        }
    }
}

impl JavaImport {
    /// An import of a file always has a package.
    #[verifier::type_invariant]
    closed spec fn inv(self) -> bool {
        self.folder_path is Some ==> self.package_nodes.len() > 0
    }

    /// Every import has at least one node.
    proof fn lemma_has_nodes(&self)
        requires
            self.inv(),
        ensures
            self@.spec_all_nodes().len() > 0,
            self@.spec_nodes().len() > 0 || self@.folder is Some,
    {
        lemma_split_nonempty(self@.route, '.');
    }

    /// An import of the route as written, not checked against any project.
    pub fn new_from_route(route: &str) -> (r: JavaImport)
        ensures
            r@ == (JavaImportView {
                route: route@,
                folder: None,
                package_nodes: Seq::empty(),
                nodes: Seq::empty(),
            }),
    {
        let r = JavaImport {
            fake_non_checked_route: route.to_owned(),
            folder_path: None,
            package_nodes: Vec::new(),
            nodes: Vec::new(),
        };
        assert(views(r.package_nodes@) =~= Seq::empty());
        assert(views(r.nodes@) =~= Seq::empty());
        r
    }

    /// An explicit import of a well-known route (such as an annotation of a framework); an
    /// error when the route ends with `*`.
    pub fn new_explicit_import_requiring_m2_repo_scan(route: &str) -> (r: Result<JavaImport, String>)
        ensures
            r matches Ok(i) ==> i@ == (JavaImportView {
                route: route@,
                folder: None,
                package_nodes: Seq::empty(),
                nodes: Seq::empty(),
            }),
            r is Ok <==> spec_split(route@, '.').last() != "*"@,
            r matches Err(e) ==> e@ == spec_invalid_route_import(route@),
    {
        Self::new_explicit_import_without_m2_repo_scan(route)
    }

    /// An explicit import of a route; an error when the route ends with `*`.
    pub fn new_explicit_import_without_m2_repo_scan(route: &str) -> (r: Result<JavaImport, String>)
        ensures
            r matches Ok(i) ==> i@ == (JavaImportView {
                route: route@,
                folder: None,
                package_nodes: Seq::empty(),
                nodes: Seq::empty(),
            }),
            r is Ok <==> spec_split(route@, '.').last() != "*"@,
            r matches Err(e) ==> e@ == spec_invalid_route_import(route@),
    {
        let import = JavaImport::new_from_route(route);
        match Self::check_if_explicit_import(&import) {
            Ok(()) => Ok(import),
            Err(e) => Err(e),
        }
    }

    /// An explicit import of the Java file at `file_path`, which, when its name ends with
    /// `.java`, lies in the `src/main/java` folder of a project; an error when the file name does not end with `.java` or the file
    /// lies directly in that folder.
    pub fn new_explicit_import_from_file(file_path: &str) -> (r: Result<JavaImport, String>)
        requires
            spec_ends_with(spec_last_component(file_path@), ".java"@) ==> spec_java_root(
                spec_components(spec_parent(file_path@)),
            ) is Some,
        ensures
            r is Ok <==> spec_ends_with(spec_last_component(file_path@), ".java"@) && spec_java_root(
                spec_components(spec_parent(file_path@)),
            )->0 < spec_components(spec_parent(file_path@)).len(),
            r matches Ok(i) ==> i@ == spec_import_of_file(file_path@),
            !spec_ends_with(spec_last_component(file_path@), ".java"@) ==> (r matches Err(e) && e@
                == "Can not create an explicit java import using non java file:\n\t\""@ + file_path@
                + "\"\n"@),
            spec_ends_with(spec_last_component(file_path@), ".java"@) && r is Err ==> (r matches Err(
                e,
            ) && e@
                == "Invalid attempt to create an explicit java import using a file not associated to a java project:\n\""@
                + file_path@ + "\""@),
    {
        let name = last_component(file_path);
        if !ends_with(name.as_str(), ".java") {
            let mut e = "Can not create an explicit java import using non java file:\n\t\""
                .to_owned();
            e.append(file_path);
            e.append("\"\n");
            return Err(e);
        }
        proof {
            reveal_strlit(".java");
        }
        let dir_path = parent_path(file_path);
        let package_nodes = get_package_nodes_vec_from_dir(dir_path.as_str());
        proof {
            let comps = spec_components(dir_path@);
            crate::common::path::lemma_java_root_upto_bounds(comps, comps.len() as int);
            assert(views(package_nodes@).len() == package_nodes@.len());
            assert(views(package_nodes@).len() == comps.len() - spec_java_root(comps)->0);
        }
        if package_nodes.len() == 0 {
            let mut e =
                "Invalid attempt to create an explicit java import using a file not associated to a java project:\n\""
                .to_owned();
            e.append(file_path);
            e.append("\"");
            return Err(e);
        }
        let n = name.as_str().unicode_len();
        let last_node = name.as_str().substring_char(0, n - 5).to_owned();
        let mut nodes = Vec::new();
        nodes.push(last_node);
        let r = JavaImport {
            fake_non_checked_route: String::new(),
            folder_path: Some(dir_path),
            package_nodes,
            nodes,
        };
        assert(views(r.nodes@) =~= seq![name@.take(name@.len() - 5)]);
        Ok(r)
    }

    /// The import that a declaration `import <import_route>;` stands for in a file of the
    /// project: the import of the one project file with that route, or else the route itself.
    pub fn from_file_import_decl(import_route: String, java_file_cache: &FileCache) -> (r: JavaImport)
        ensures
            spec_files_of_route(*java_file_cache, import_route@).len() == 1 ==> r@
                == spec_import_of_file(spec_files_of_route(*java_file_cache, import_route@)[0]),
            spec_files_of_route(*java_file_cache, import_route@).len() != 1 ==> r@
                == spec_route_import(import_route@),
    {
        let imports = search_imports(import_route.as_str(), java_file_cache.get_project_files());
        if imports.len() == 1 {
            let path = imports[0].as_str();
            assert(views(imports@)[0] == imports@[0]@);
            proof {
                broadcast use vstd::seq_lib::group_filter_ensures;
                let found = spec_files_of_route(*java_file_cache, import_route@);
                assert(found[0] == path@);
                assert(found.contains(path@));
                reveal_strlit(".java");
            }
            match Self::new_explicit_import_from_file(path) {
                Ok(import) => {
                    return import;
                },
                Err(_) => {},
            }
        }
        Self::new_from_route(import_route.as_str())
    }

    /// The import that a scoped identifier (such as `jakarta.persistence.Entity`) stands for.
    pub fn new_explicit_import_from_scoped_identifier(
        scoped_identifier: &JavaNode,
        java_file_cache: &FileCache,
    ) -> (r: JavaImport)
        ensures
            spec_files_of_route(*java_file_cache, scoped_identifier.spec_content()).len() == 1
                ==> r@ == spec_import_of_file(
                spec_files_of_route(*java_file_cache, scoped_identifier.spec_content())[0],
            ),
            spec_files_of_route(*java_file_cache, scoped_identifier.spec_content()).len() != 1
                ==> r@ == spec_route_import(scoped_identifier.spec_content()),
    {
        let route = scoped_identifier.get_content_from_cache(java_file_cache);
        Self::from_file_import_decl(route, java_file_cache)
    }

    /// An error when the import is not explicit.
    fn check_if_explicit_import(import: &JavaImport) -> (r: Result<(), String>)
        ensures
            r is Ok <==> import@.spec_is_explicit(),
            r matches Err(e) ==> e@ == spec_invalid_route_import(import@.route),
    {
        if !import.is_explicit_import() {
            let mut e = "Invalid attempt to create an explicit java import:\n\t\"".to_owned();
            e.append(import.fake_non_checked_route.as_str());
            e.append("\"");
            return Err(e);
        }
        Ok(())
    }

    /// The Java file that an explicit import of a file refers to; an error for any other import.
    pub fn get_specific_file(&self) -> (r: Result<String, String>)
        ensures
            r is Ok <==> self@.spec_is_explicit() && self@.folder is Some,
            r matches Ok(f) ==> f@ == spec_path_join(
                self@.folder->0,
                self@.nodes[0] + ".java"@,
            ),
            !self@.spec_is_explicit() ==> (r matches Err(e) && e@ == "Java import \""@
                + self@.spec_to_string() + "\" must be explicit to the its specific file."@),
            self@.spec_is_explicit() && self@.folder is None ==> (r matches Err(e) && e@
                == "Specific file not found for import \""@ + self@.spec_to_string() + "\""@),
    {
        if !self.is_explicit_import() {
            let mut e = "Java import \"".to_owned();
            let s = self.to_string();
            e.append(s.as_str());
            e.append("\" must be explicit to the its specific file.");
            return Err(e);
        }
        if let Some(folder) = &self.folder_path {
            if self.nodes.len() > 0 {
                let mut file_name = self.nodes[0].clone();
                file_name.append(".java");
                assert(views(self.nodes@)[0] == self.nodes@[0]@);
                return Ok(path_join(folder.as_str(), file_name.as_str()));
            }
        }
        let mut e = "Specific file not found for import \"".to_owned();
        let s = self.to_string();
        e.append(s.as_str());
        e.append("\"");
        Err(e)
    }

    /// Whether the import names one type.
    pub fn is_explicit_import(&self) -> (r: bool)
        ensures
            r == self@.spec_is_explicit(),
    {
        if self.folder_path.is_some() {
            return self.nodes.len() > 0;
        }
        let nodes = self.get_nodes();
        proof {
            use_type_invariant(self);
            self.lemma_has_nodes();
        }
        !str_eq(nodes[nodes.len() - 1].as_str(), "*")
    }

    /// Whether the import names every type of a package.
    pub fn is_wildcard_import(&self) -> (r: bool)
        ensures
            r == self@.spec_is_wildcard(),
    {
        if self.folder_path.is_some() {
            return self.nodes.len() == 0;
        }
        let nodes = self.get_nodes();
        proof {
            use_type_invariant(self);
            self.lemma_has_nodes();
        }
        str_eq(nodes[nodes.len() - 1].as_str(), "*")
    }

    fn get_all_nodes(&self) -> (r: Vec<String>)
        ensures
            views(r@) == self@.spec_all_nodes(),
    {
        if self.folder_path.is_some() {
            let mut all_nodes = clone_strings(&self.package_nodes);
            let mut i: usize = 0;
            while i < self.nodes.len()
                invariant
                    i <= self.nodes.len(),
                    views(all_nodes@) == views(self.package_nodes@) + views(self.nodes@).take(
                        i as int,
                    ),
                decreases self.nodes.len() - i,
            {
                let ghost prev = all_nodes@;
                all_nodes.push(self.nodes[i].clone());
                assert(views(all_nodes@) =~= views(prev).push(self.nodes@[i as int]@));
                assert(views(self.nodes@).take(i + 1) =~= views(self.nodes@).take(i as int).push(
                    self.nodes@[i as int]@,
                ));
                i = i + 1;
            }
            assert(views(self.nodes@).take(self.nodes.len() as int) =~= views(self.nodes@));
            return all_nodes;
        }
        self.get_all_fake_nodes()
    }

    fn get_nodes(&self) -> (r: Vec<String>)
        ensures
            views(r@) == self@.spec_nodes(),
    {
        if self.folder_path.is_some() {
            return clone_strings(&self.nodes);
        }
        self.get_all_fake_nodes()
    }

    /// The package of an import of a file.
    pub fn get_package_nodes_vec(&self) -> (r: Vec<String>)
        ensures
            views(r@) == self@.package_nodes,
    {
        clone_strings(&self.package_nodes)
    }

    /// Whether the last node of the import is `type_id`.
    pub fn match_type_id(&self, type_id: &str) -> (r: bool)
        ensures
            r == (self@.spec_last_node() == type_id@),
    {
        let all_nodes = self.get_all_nodes();
        proof {
            use_type_invariant(self);
            self.lemma_has_nodes();
        }
        str_eq(all_nodes[all_nodes.len() - 1].as_str(), type_id)
    }

    /// The last node of the import (the name of the imported type, or `*`).
    pub fn get_last_node(&self) -> (r: String)
        ensures
            r@ == self@.spec_last_node(),
    {
        let all_nodes = self.get_all_nodes();
        proof {
            use_type_invariant(self);
            self.lemma_has_nodes();
        }
        all_nodes[all_nodes.len() - 1].clone()
    }

    fn get_all_fake_nodes(&self) -> (r: Vec<String>)
        ensures
            views(r@) == spec_split(self@.route, '.'),
    {
        split_to_nodes(self.fake_non_checked_route.as_str())
    }

    /// The package of the import.
    pub fn get_package_route(&self) -> (r: String)
        ensures
            r@ == self@.spec_route_internal(true),
    {
        self.get_route_internal(true)
    }

    /// The route of the import.
    pub fn get_route(&self) -> (r: String)
        ensures
            r@ == self@.spec_route_internal(false),
    {
        self.get_route_internal(false)
    }

    /// The route of the import, or only its package when `just_package_route` holds.
    pub fn get_route_internal(&self, just_package_route: bool) -> (r: String)
        ensures
            r@ == self@.spec_route_internal(just_package_route),
    {
        if self.folder_path.is_none() {
            return self.fake_non_checked_route.clone();
        }
        let mut package_nodes_str = join(&self.package_nodes, ".");
        if !just_package_route {
            if self.nodes.len() > 0 {
                package_nodes_str.append(".");
                let rest = join(&self.nodes, ".");
                package_nodes_str.append(rest.as_str());
            } else {
                package_nodes_str.append(".*");
            }
        }
        package_nodes_str
    }

    /// The import as written in a Java file, such as `import org.test.Class;`.
    pub fn to_string(&self) -> (r: String)
        ensures
            r@ == self@.spec_to_string(),
    {
        let mut r = "import ".to_owned();
        let all = self.get_all_nodes();
        let joined = join(&all, ".");
        r.append(joined.as_str());
        if self.folder_path.is_some() && self.nodes.len() == 0 {
            r.append(".*");
        }
        r.append(";");
        r
    }
}

/// The package under `src/main/java` that the directory at `dir_path` stands for.
pub open spec fn spec_package_nodes_from_dir(dir_path: Seq<char>) -> Seq<Seq<char>> {
    let comps = spec_components(dir_path);
    comps.skip(spec_java_root(comps)->0)
}

/// The package (its components after `src/main/java`) that the directory at `dir_path`
/// stands for; the directory lies in the `src/main/java` folder of a project.
pub fn get_package_nodes_vec_from_dir(dir_path: &str) -> (r: Vec<String>)
    requires
        spec_java_root(spec_components(dir_path@)) is Some,
    ensures
        views(r@) == spec_package_nodes_from_dir(dir_path@),
{
    let comps = components(dir_path);
    let k = match java_root_index(&comps) {
        Some(k) => k,
        None => {
            return Vec::new();
        },
    };
    proof {
        crate::common::path::lemma_java_root_upto_bounds(views(comps@), comps.len() as int);
    }
    let mut res: Vec<String> = Vec::new();
    let mut i = k;
    while i < comps.len()
        invariant
            k <= i <= comps.len(),
            views(res@) == views(comps@).subrange(k as int, i as int),
        decreases comps.len() - i,
    {
        let ghost prev = res@;
        res.push(comps[i].clone());
        assert(views(res@) =~= views(prev).push(comps@[i as int]@));
        assert(views(comps@).subrange(k as int, i + 1) =~= views(comps@).subrange(
            k as int,
            i as int,
        ).push(comps@[i as int]@));
        i = i + 1;
    }
    assert(views(comps@).subrange(k as int, comps.len() as int) =~= views(comps@).skip(k as int));
    res
}

/// The nodes of a route, split at each `.`.
pub fn split_to_nodes(content: &str) -> (r: Vec<String>)
    ensures
        views(r@) == spec_split(content@, '.'),
{
    split_by_char(content, '.')
}

} // verus!
