//! A scanned Java file: its path, its imports and its main structure.
use vstd::prelude::*;

use crate::common::file_cache::FileCache;
use crate::java::dto::java_import::{
    spec_files_of_route, spec_import_of_file, spec_route_import, JavaImport, JavaImportView,
};
use crate::java::parser::java_node::{spec_import_decl_content, JavaNode};
use crate::java::parser::java_node_type::JavaNodeType;
use crate::java::scanner::file::java_file_imports::{JavaFileImports, JavaFileImportsView};
use crate::java::scanner::file::java_structure::{
    is_readable, spec_structure_error, spec_structure_of, spec_structure_readable, JavaStructure, JavaStructureView,
};
use crate::java::scanner::file::java_structure_type::JavaStructureType;
use crate::java::scanner::package::java_dependency_scanner::spec_file_import_route;
use crate::common::file_overwriting::{FileEditView, FileOverwriting};
use crate::common::path::{
    last_component, path_join, spec_components, spec_java_root, spec_last_component, spec_parent,
    spec_path_join,
};
use crate::java::dto::java_import::import_views;
use crate::java::indentation_config::JavaIndentation;
use crate::java::method::{JavaMethod, JavaMethodView};
use crate::java::scanner::file::java_file_imports::{seq_max, spec_imports_block, spec_sorted_imports};
use crate::java::scanner::file::java_structure::{spec_body, spec_skeleton, spec_structure_imports};
use crate::java::scanner::package::java_package_scanner::{
    find_package_start_end_bytes, get_package_route_from_file, get_package_route_opt_from_dir_no_check,
    spec_is_java_root_dir, spec_package_route_of_dir,
};

verus! {

/// What a scanned Java file holds.
pub struct JavaFileView {
    pub path: Seq<char>,
    pub imports: JavaFileImportsView,
    pub structure: JavaStructureView,
}

/// A scanned Java file.
pub struct JavaFile {
    file: String,
    imports: JavaFileImports,
    structure: JavaStructure,
}

impl View for JavaFile {
    type V = JavaFileView;

    closed spec fn view(&self) -> JavaFileView {
        JavaFileView { path: self.file@, imports: self.imports@, structure: self.structure@ }
    }
}

impl Clone for JavaFile {
    fn clone(&self) -> (r: Self)
        ensures
            r@ == self@,
    {
        proof {
            use_type_invariant(self);
        }
        JavaFile {
            file: self.file.clone(),
            imports: self.imports.clone(),
            structure: self.structure.clone(),
        }
    }
}

/// The views of the files of a sequence.
pub open spec fn file_views(v: Seq<JavaFile>) -> Seq<JavaFileView> {
    v.map_values(|f: JavaFile| f@)
}

/// The first file of `files` at the path `p`, if any.
pub open spec fn spec_first_with_path(files: Seq<JavaFileView>, p: Seq<char>) -> Option<JavaFileView>
    decreases files.len(),
{
    if files.len() == 0 {
        None
    } else if files[0].path == p {
        Some(files[0])
    } else {
        spec_first_with_path(files.drop_first(), p)
    }
}

/// The scanned file that an import refers to: for an explicit import of a project file, the
/// first of `files` at the path of that file.
pub open spec fn spec_file_of_import(files: Seq<JavaFileView>, i: JavaImportView) -> Option<JavaFileView> {
    if i.spec_is_explicit() && i.folder is Some && i.nodes.len() > 0 {
        spec_first_with_path(
            files,
            crate::common::path::spec_path_join(i.folder->0, i.nodes[0] + ".java"@),
        )
    } else {
        None
    }
}

/// The scanned file that `import` refers to among `files`, if any.
pub fn find_file_of_import<'a>(files: &'a Vec<JavaFile>, import: &JavaImport) -> (r: Option<&'a JavaFile>)
    ensures
        match (r, spec_file_of_import(file_views(files@), import@)) {
            (Some(f), Some(v)) => f@ == v,
            (None, None) => true,
            _ => false,
        },
{
    let path = match import.get_specific_file() {
        Ok(p) => p,
        Err(_) => {
            return None;
        },
    };
    let ghost views = file_views(files@);
    let mut i: usize = 0;
    proof {
        assert(views.skip(0) =~= views);
    }
    while i < files.len()
        invariant
            i <= files.len(),
            views == file_views(files@),
            import@.spec_is_explicit() && import@.folder is Some,
            path@ == crate::common::path::spec_path_join(import@.folder->0, import@.nodes[0] + ".java"@),
            spec_first_with_path(views, path@) == spec_first_with_path(views.skip(i as int), path@),
        decreases files.len() - i,
    {
        proof {
            assert(views.skip(i as int).drop_first() =~= views.skip(i + 1));
            assert(views.skip(i as int)[0] == files@[i as int]@);
        }
        if crate::common::text::str_eq(files[i].file.as_str(), path.as_str()) {
            proof {
                assert(views.skip(i as int).len() > 0);
                assert(spec_first_with_path(views.skip(i as int), path@) == Some(files@[i as int]@));
            }
            return Some(&files[i]);
        }
        i = i + 1;
    }
    proof {
        assert(views.skip(i as int) =~= Seq::<JavaFileView>::empty());
    }
    None
}

/// The import that a declaration `import <route>;` stands for in a file of the project: the
/// import of the one project file with that route, or else the route itself.
pub open spec fn spec_import_from_decl(route: Seq<char>, cache: FileCache) -> JavaImportView {
    let found = spec_files_of_route(cache, route);
    if found.len() == 1 {
        spec_import_of_file(found[0])
    } else {
        spec_route_import(route)
    }
}

/// Where the reading of the top-level declarations of a Java file stands: reading, with the
/// imports and the structure found so far; stopped at a structure declaration that is no valid
/// structure; or stopped at one that cannot be read (see `spec_structure_readable`).
pub enum JavaFileScanView {
    Reading(JavaFileImportsView, Option<JavaStructureView>),
    Failed(Seq<char>),
    Unreadable,
}

/// Whether the kind declares a class, an interface, an enum or a record.
pub open spec fn spec_is_structure_node(t: JavaNodeType) -> bool {
    t == JavaNodeType::ClassDecl || t == JavaNodeType::InterfaceDeclaration || t
        == JavaNodeType::EnumDeclaration || t == JavaNodeType::RecordDeclaration
}

/// One top-level declaration read: an import declaration is recorded, a structure declaration
/// is read with the imports recorded so far (the last one wins).
pub open spec fn spec_file_child_step(s: JavaFileScanView, c: JavaNode, cache: FileCache) -> JavaFileScanView {
    match s {
        JavaFileScanView::Reading(imports, structure) => match c.spec_node_type() {
            Some(t) => if t == JavaNodeType::ImportDecl {
                match spec_import_decl_content(c) {
                    Some(route) => JavaFileScanView::Reading(
                        imports.spec_insert(spec_import_from_decl(route, cache), c.spec_end_byte()),
                        structure,
                    ),
                    None => s,
                }
            } else if spec_is_structure_node(t) {
                if !spec_structure_readable(c, imports, cache) {
                    JavaFileScanView::Unreadable
                } else {
                    match spec_structure_of(c, imports, cache) {
                        Some(x) => JavaFileScanView::Reading(imports, Some(x)),
                        None => JavaFileScanView::Failed(spec_structure_error(c, imports, cache)),
                    }
                }
            } else {
                s
            },
            None => s,
        },
        _ => s,
    }
}

/// The top-level declarations of a Java file read in order, from no import and no structure.
pub open spec fn spec_file_scan(children: Seq<JavaNode>, cache: FileCache) -> JavaFileScanView
    decreases children.len(),
{
    if children.len() == 0 {
        JavaFileScanView::Reading(
            JavaFileImportsView { explicit: Seq::empty(), wildcards: Seq::empty() },
            None,
        )
    } else {
        spec_file_child_step(spec_file_scan(children.drop_last(), cache), children.last(), cache)
    }
}

impl JavaFile {
    /// Every scanned file is a `.java` file of a package of a project.
    #[verifier::type_invariant]
    closed spec fn inv(self) -> bool {
        spec_file_import_route(self.file@) is Some
    }

    /// The file at `java_file_path`, parsed into the tree rooted at `root_java_node`, whose text
    /// and project are in `file_cache`. `None` where a structure declaration cannot be read
    /// (see `spec_structure_readable`). Otherwise an error when the file is no `.java` file of a
    /// package of a project, or when it declares no valid structure.
    pub fn from_parsed(java_file_path: &str, root_java_node: &JavaNode, file_cache: &FileCache) -> (r: Option<
        Result<JavaFile, String>,
    >)
        ensures
            r is None <==> spec_file_import_route(java_file_path@) is Some && spec_file_scan(
                root_java_node.spec_children(),
                *file_cache,
            ) is Unreadable,
            r matches Some(res) ==> (res is Ok <==> spec_file_import_route(java_file_path@) is Some
                && spec_file_scan(root_java_node.spec_children(), *file_cache) matches JavaFileScanView::Reading(
                _,
                Some(_),
            )),
            r matches Some(Ok(f)) ==> f@.path == java_file_path@ && spec_file_scan(
                root_java_node.spec_children(),
                *file_cache,
            ) == JavaFileScanView::Reading(f@.imports, Some(f@.structure)),
            spec_file_import_route(java_file_path@) is None ==> (r matches Some(Err(e)) && e@
                == "Invalid java project file:\n\""@ + java_file_path@ + "\"\n"@),
            (spec_file_import_route(java_file_path@) is Some && spec_file_scan(
                root_java_node.spec_children(),
                *file_cache,
            ) matches JavaFileScanView::Reading(_, None)) ==> (r matches Some(Err(e)) && e@
                == "Java structure not found in file:\n\t\""@ + java_file_path@ + "\"\n"@),
            spec_file_import_route(java_file_path@) is Some ==> match spec_file_scan(
                root_java_node.spec_children(),
                *file_cache,
            ) {
                JavaFileScanView::Failed(message) => r matches Some(Err(e)) && e@ == message,
                _ => true,
            },
    {
        match crate::java::scanner::package::java_dependency_scanner::file_import_route(java_file_path) {
            Some(_) => {},
            None => {
                let mut e = "Invalid java project file:\n\"".to_owned();
                e.append(java_file_path);
                e.append("\"\n");
                return Some(Err(e));
            },
        }
        let children = root_java_node.get_children();
        let mut imports = JavaFileImports::new();
        let mut structure_opt: Option<JavaStructure> = None;
        proof {
            assert(imports@ == JavaFileImportsView { explicit: Seq::empty(), wildcards: Seq::empty() });
            assert(children@.take(0) =~= Seq::<JavaNode>::empty());
        }
        let mut i: usize = 0;
        while i < children.len()
            invariant
                i <= children.len(),
                children@ == root_java_node.spec_children(),
                spec_file_import_route(java_file_path@) is Some,
                spec_file_scan(children@.take(i as int), *file_cache) == JavaFileScanView::Reading(
                    imports@,
                    match structure_opt {
                        Some(x) => Some(x@),
                        None => None,
                    },
                ),
            decreases children.len() - i,
        {
            proof {
                assert(children@.take(i + 1).drop_last() == children@.take(i as int));
                assert(children@.take(i + 1).last() == children@[i as int]);
            }
            let child = &children[i];
            if let Some(node_type) = child.get_node_type() {
                if JavaNodeType::ImportDecl == node_type {
                    match JavaNode::get_import_decl_content(child) {
                        Ok(import_route) => {
                            let import = JavaImport::from_file_import_decl(import_route, file_cache);
                            imports.insert(import, child.get_end_byte());
                        },
                        Err(_) => {},
                    }
                } else if node_type.is_structure() {
                    if !is_readable(child, &imports, file_cache) {
                        proof {
                            lemma_scan_stops(children@, *file_cache, i + 1);
                        }
                        return None;
                    }
                    match JavaStructure::new(child, &imports, file_cache) {
                        Ok(structure) => {
                            structure_opt = Some(structure);
                        },
                        Err(e) => {
                            proof {
                                lemma_scan_stops(children@, *file_cache, i + 1);
                            }
                            return Some(Err(e));
                        },
                    }
                }
            }
            i = i + 1;
        }
        proof {
            assert(children@.take(children@.len() as int) == children@);
        }
        match structure_opt {
            Some(structure) => Some(Ok(JavaFile { file: java_file_path.to_owned(), imports, structure })),
            None => {
                let mut e = "Java structure not found in file:\n\t\"".to_owned();
                e.append(java_file_path);
                e.append("\"\n");
                Some(Err(e))
            },
        }
    }

    /// The path of the file.
    pub fn get_file_path(&self) -> (r: &str)
        ensures
            r@ == self@.path,
    {
        self.file.as_str()
    }

    /// The kind of the main structure of the file.
    pub fn get_main_structure_type(&self) -> (r: JavaStructureType)
        ensures
            r == self@.structure.structure_type,
    {
        self.structure.get_type()
    }

    /// The import by which other files import this one.
    pub fn get_self_import(&self) -> (r: JavaImport)
        ensures
            r@ == spec_import_of_file(self@.path),
    {
        proof {
            use_type_invariant(self);
        }
        match JavaImport::new_explicit_import_from_file(self.file.as_str()) {
            Ok(import) => import,
            Err(_) => {
                proof {
                    assert(false);
                }
                JavaImport::new_from_route("")
            },
        }
    }

    /// The main structure of the file.
    pub fn get_structure(&self) -> (r: &JavaStructure)
        ensures
            r@ == self@.structure,
    {
        &self.structure
    }

    /// The imports that the file declares.
    pub fn get_file_imports(&self) -> (r: &JavaFileImports)
        ensures
            r@ == self@.imports,
    {
        &self.imports
    }
}

/// The package declaration that starts a file written at `file_path`: the package of its
/// directory, or an empty one.
pub open spec fn spec_package_decl(file_path: Seq<char>) -> Seq<char> {
    "package "@ + match spec_package_route_of_dir(spec_parent(file_path)) {
        Some(route) => route,
        None => Seq::empty(),
    } + ";\n\n"@
}

/// The package that a file written at `file_path` declares is the package of the import by
/// which other files import it, for a file under `src/main/java`.
pub proof fn law_package_decl_matches_self_import(file_path: Seq<char>)
    requires
        spec_java_root(spec_components(spec_parent(file_path))) is Some,
    ensures
        spec_package_decl(file_path) == "package "@ + spec_import_of_file(file_path).spec_route_internal(
            true,
        ) + ";\n\n"@,
{
}

/// The edit that sets the package of a parsed Java file to `route`: the first scoped identifier
/// of its tree takes the route's place, or else a package declaration comes first.
pub open spec fn spec_package_edit(root: JavaNode, route: Seq<char>) -> FileEditView {
    match root.spec_dfs_first(JavaNodeType::ScopedIdentifier) {
        Some(n) => FileEditView::Replace { start: n.spec_start_byte(), end: n.spec_end_byte(), content: route },
        None => FileEditView::InsertAt { at: 0, content: "package "@ + route + ";\n\n"@ },
    }
}

/// The text of a Java file written at `file_path` for the structure `v`: its package, the
/// imports that the structure needs (with the class and interfaces found among `files`), the
/// declaration of the structure and its body.
pub open spec fn spec_file_content(file_path: Seq<char>, v: JavaStructureView, files: Seq<JavaFileView>) -> Seq<char> {
    spec_package_decl(file_path) + spec_imports_block(spec_sorted_imports(spec_structure_imports(v, files)))
        + spec_skeleton(v, files) + spec_body(v)
}

/// Where a first import declaration goes in a file whose top-level nodes are `children`: after
/// the first package declaration, or else before the first structure declaration, whichever
/// comes first.
pub open spec fn spec_first_import_position(children: Seq<JavaNode>) -> Option<usize>
    decreases children.len(),
{
    if children.len() == 0 {
        None
    } else if children[0].spec_node_type() == Some(JavaNodeType::PackageDecl) {
        Some(children[0].spec_end_byte())
    } else if children[0].spec_node_type() matches Some(t) && spec_is_structure_node(t) {
        Some(children[0].spec_start_byte())
    } else {
        spec_first_import_position(children.drop_first())
    }
}

/// In a file whose first package declaration comes before any structure declaration, the first
/// import goes right after the end of that package declaration.
pub proof fn law_first_import_after_package(children: Seq<JavaNode>, k: int)
    requires
        0 <= k < children.len(),
        children[k].spec_node_type() == Some(JavaNodeType::PackageDecl),
        forall|j: int|
            0 <= j < k ==> (#[trigger] children[j]).spec_node_type() != Some(JavaNodeType::PackageDecl) && !(
            children[j].spec_node_type() matches Some(t) && spec_is_structure_node(t)),
    ensures
        spec_first_import_position(children) == Some(children[k].spec_end_byte()),
    decreases k,
{
    if k > 0 {
        let rest = children.drop_first();
        assert(children[0].spec_node_type() != Some(JavaNodeType::PackageDecl));
        assert forall|j: int| 0 <= j < k - 1 implies (#[trigger] rest[j]).spec_node_type() != Some(
            JavaNodeType::PackageDecl,
        ) && !(rest[j].spec_node_type() matches Some(t) && spec_is_structure_node(t)) by {
            assert(rest[j] == children[j + 1]);
        }
        assert(rest[k - 1] == children[k]);
        law_first_import_after_package(rest, k - 1);
    }
}

/// The edits that insert `method` at the start of the body of the structure of `f`: the
/// method's imports (after the last import, or at `first_import` when the file has none), then
/// the method, one level deep, after an empty line.
pub open spec fn spec_method_insertion(f: JavaFileView, m: JavaMethodView, first_import: Option<usize>) -> Seq<
    FileEditView,
> {
    JavaFileImports::spec_import_edits(
        spec_sorted_imports(m.spec_imports()),
        if f.imports.spec_end_bytes().len() == 0 {
            None
        } else {
            Some(seq_max(f.imports.spec_end_bytes()))
        },
        first_import,
    ).push(
        FileEditView::InsertWithPreviousNewlineAt {
            at: f.structure.body_start_byte,
            content: "\n"@ + m.spec_str("    "@),
        },
    )
}

impl JavaFile {
    /// The text of a Java file written at `file_path` for `structure`: its package, the imports
    /// that the structure needs (with the class and interfaces found among `scanned_files`),
    /// the declaration of the structure and its body. The file does not lie directly in the
    /// `src/main/java` folder.
    pub fn file_content(file_path: &str, structure: &JavaStructure, scanned_files: &Vec<JavaFile>) -> (r: String)
        requires
            !spec_is_java_root_dir(spec_parent(file_path@)),
        ensures
            r@ == spec_file_content(file_path@, structure@, file_views(scanned_files@)),
    {
        let mut result = write_package(file_path);
        let imports = structure.get_imports_sorted_asc(scanned_files);
        let block = JavaFileImports::get_file_string_with_trailing_newline(&imports);
        result.append(block.as_str());
        let skeleton = structure.get_skeleton_without_imports(scanned_files);
        result.append(skeleton.as_str());
        structure.write_body(&mut result);
        proof {
            assert(result@ =~= spec_file_content(file_path@, structure@, file_views(scanned_files@)));
        }
        result
    }

    /// The copy of the file into `output_java_folder`: the path of the copy, and the edits that
    /// make it from the file, which set its package to the one of the folder (replacing the
    /// first scoped identifier of `input_root`, the parsed file, or else adding a package
    /// declaration first). An error when the folder lies outside `src/main/java`. The folder
    /// is not that folder itself.
    pub fn copy_to_output_folder(&self, output_java_folder: &str, input_root: &JavaNode) -> (r: Result<
        (String, FileOverwriting),
        String,
    >)
        requires
            !spec_is_java_root_dir(output_java_folder@),
        ensures
            r is Ok <==> spec_package_route_of_dir(output_java_folder@) is Some,
            r matches Ok((out, edits)) ==> {
                &&& out@ == spec_path_join(output_java_folder@, spec_last_component(self@.path))
                &&& edits.spec_input_file() == self@.path
                &&& edits.spec_edits() == seq![
                    spec_package_edit(*input_root, spec_package_route_of_dir(output_java_folder@)->0),
                ]
            },
            r matches Err(e) ==> e@ == "Invalid output folder outside of java project:\n\""@
                + output_java_folder@ + "\"\n"@,
    {
        let output_package_route = match get_package_route_opt_from_dir_no_check(output_java_folder) {
            Some(r) => r,
            None => {
                let mut e = "Invalid output folder outside of java project:\n\"".to_owned();
                e.append(output_java_folder);
                e.append("\"\n");
                return Err(e);
            },
        };
        let input_java_file = self.file.as_str();
        let file_name = last_component(input_java_file);
        let output_file = path_join(output_java_folder, file_name.as_str());
        let mut file_overwrite = FileOverwriting::from_unchecked_path(input_java_file);
        match find_package_start_end_bytes(input_root, input_java_file) {
            Ok((start, end)) => {
                let _ = file_overwrite.replace(start, end, output_package_route.as_str());
            },
            Err(_) => {
                let mut package_decl = "package ".to_owned();
                package_decl.append(output_package_route.as_str());
                package_decl.append(";\n\n");
                let _ = file_overwrite.insert_content_at(0, package_decl.as_str());
            },
        }
        proof {
            assert(file_overwrite.spec_edits().len() == 1);
        }
        Ok((output_file, file_overwrite))
    }

    /// The edits that insert `method` at the start of the body of the structure of the file:
    /// the method's imports (after the last import of the file or, when it has none, where
    /// `current_root`, the file as parsed now, gives), then the method, one level deep, after an
    /// empty line. An error when the file has no import and no place for one, or when the
    /// method needs imports that cannot be placed.
    pub fn insert_method(&self, method: &JavaMethod, current_root: &JavaNode) -> (r: Result<FileOverwriting, String>)
        ensures
            ({
                let first = if self@.imports.spec_end_bytes().len() == 0 {
                    spec_first_import_position(current_root.spec_children())
                } else {
                    None
                };
                &&& r is Ok <==> !(self@.imports.spec_end_bytes().len() == 0 && first is None)
                &&& r matches Ok(edits) ==> edits.spec_input_file() == self@.path
                    && edits.spec_edits() == spec_method_insertion(self@, method@, first)
                &&& r matches Err(e) ==> e@
                    == "It was not possible to determine the position of the new java import"@
            }),
    {
        let mut to_overwrite = FileOverwriting::new(self.file.as_str());
        let mut byte_to_insert_first_import_opt: Option<usize> = None;
        proof {
            assert(self.imports@.spec_end_bytes().len() == 0 <==> (self.imports@.explicit.len() == 0
                && self.imports@.wildcards.len() == 0));
        }
        if self.imports.is_empty() {
            match get_byte_to_insert_first_import(current_root) {
                Ok(b) => byte_to_insert_first_import_opt = Some(b),
                Err(e) => {
                    return Err(e);
                },
            }
        }
        let method_imports = method.get_imports();
        match self.imports.add_missing_imports(
            &mut to_overwrite,
            method_imports,
            byte_to_insert_first_import_opt,
        ) {
            Ok(()) => {},
            Err(e) => {
                return Err(e);
            },
        }
        let mut method_str = "\n".to_owned();
        let mut initial_method_indentation = JavaIndentation::default();
        initial_method_indentation.increase_level();
        proof {
            reveal_with_fuel(crate::common::text::spec_repeat, 2);
            assert(initial_method_indentation.spec_current() =~= "    "@);
        }
        method.write_to_string(&mut method_str, &initial_method_indentation);
        let _ = to_overwrite.insert_content_with_previous_newline_at(
            self.structure.get_start_byte(),
            method_str.as_str(),
        );
        proof {
            assert(to_overwrite.spec_edits() =~= spec_method_insertion(
                self@,
                method@,
                byte_to_insert_first_import_opt,
            ));
        }
        Ok(to_overwrite)
    }
}

/// The package declaration that starts a file written at `file_path`.
fn write_package(file_path: &str) -> (r: String)
    requires
        !spec_is_java_root_dir(spec_parent(file_path@)),
    ensures
        r@ == spec_package_decl(file_path@),
{
    let route = match get_package_route_from_file(file_path) {
        Some(r) => r,
        None => String::new(),
    };
    let mut result = "package ".to_owned();
    result.append(route.as_str());
    result.append(";\n\n");
    result
}

/// Where a first import declaration goes in the parsed file `root`: after its first package
/// declaration, or else before its first structure declaration; an error when it has neither.
pub fn get_byte_to_insert_first_import(root: &JavaNode) -> (r: Result<usize, String>)
    ensures
        match (r, spec_first_import_position(root.spec_children())) {
            (Ok(a), Some(b)) => a == b,
            (Err(e), None) => e@ == "It was not possible to determine the position of the new java import"@,
            _ => false,
        },
{
    let children = root.get_children();
    let mut i: usize = 0;
    proof {
        assert(children@.skip(0) =~= children@);
    }
    while i < children.len()
        invariant
            i <= children.len(),
            children@ == root.spec_children(),
            spec_first_import_position(children@) == spec_first_import_position(children@.skip(i as int)),
        decreases children.len() - i,
    {
        proof {
            assert(children@.skip(i as int).drop_first() =~= children@.skip(i + 1));
            assert(children@.skip(i as int)[0] == children@[i as int]);
        }
        if let Some(node_type) = children[i].get_node_type() {
            if JavaNodeType::PackageDecl == node_type {
                return Ok(children[i].get_end_byte());
            } else if node_type.is_structure() {
                return Ok(children[i].get_start_byte());
            }
        }
        i = i + 1;
    }
    proof {
        assert(children@.skip(i as int) =~= Seq::<JavaNode>::empty());
    }
    Err("It was not possible to determine the position of the new java import".to_owned())
}

proof fn lemma_scan_stops(children: Seq<JavaNode>, cache: FileCache, n: int)
    requires
        0 < n <= children.len(),
        !(spec_file_scan(children.take(n), cache) is Reading),
    ensures
        spec_file_scan(children, cache) == spec_file_scan(children.take(n), cache),
    decreases children.len() - n,
{
    if n < children.len() {
        assert(children.take(n + 1).drop_last() == children.take(n));
        lemma_scan_stops(children, cache, n + 1);
    } else {
        assert(children.take(n) == children);
    }
}

} // verus!
