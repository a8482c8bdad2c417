//! The imports declared in a Java file, found again by the name of the imported type.
use vstd::prelude::*;

use crate::common::file_cache::FileCache;
use crate::common::file_overwriting::{FileEditView, FileOverwriting};
use crate::common::text::{
    lemma_text_le_total, lemma_text_le_transitive, spec_text_le, str_eq, text_le,
};
use crate::java::dto::java_import::{
    clone_imports, import_views, spec_files_of_route, spec_import_of_file, spec_route_import,
    JavaImport, JavaImportView,
};
use crate::java::parser::java_node::JavaNode;
use crate::java::parser::java_node_type::JavaNodeType;

verus! {

/// An import of a file, with the byte just past its declaration.
pub struct JavaFileImport {
    import: JavaImport,
    file_end_byte: usize,
}

impl JavaFileImport {
    pub closed spec fn spec_import(&self) -> JavaImportView {
        self.import@
    }

    pub closed spec fn spec_file_end_byte(&self) -> usize {
        self.file_end_byte
    }

    fn new(import: JavaImport, file_end_byte: usize) -> (r: Self)
        ensures
            r.spec_import() == import@,
            r.spec_file_end_byte() == file_end_byte,
    {
        Self { import, file_end_byte }
    }
}

/// The import recorded for `key` among `entries`, if any.
pub open spec fn spec_lookup(entries: Seq<(Seq<char>, JavaImportView, usize)>, key: Seq<char>) -> Option<
    JavaImportView,
> {
    if exists|i: int| 0 <= i < entries.len() && #[trigger] entries[i].0 == key {
        Some(entries[choose|i: int| 0 <= i < entries.len() && #[trigger] entries[i].0 == key].1)
    } else {
        None
    }
}

/// Whether no two entries have the same key.
pub open spec fn keys_unique(entries: Seq<(Seq<char>, JavaImportView, usize)>) -> bool {
    forall|i: int, j: int|
        0 <= i < entries.len() && 0 <= j < entries.len() && i != j ==> #[trigger] entries[i].0
            != #[trigger] entries[j].0
}

pub proof fn lemma_lookup_at(entries: Seq<(Seq<char>, JavaImportView, usize)>, i: int)
    requires
        keys_unique(entries),
        0 <= i < entries.len(),
    ensures
        spec_lookup(entries, entries[i].0) == Some(entries[i].1),
{
}

/// What the entries of explicit imports hold.
pub closed spec fn spec_entries(v: Seq<(String, JavaFileImport)>) -> Seq<(Seq<char>, JavaImportView, usize)> {
    v.map_values(
        |e: (String, JavaFileImport)| (e.0@, e.1.spec_import(), e.1.spec_file_end_byte()),
    )
}

/// What the imports of a file hold: the explicit imports (the name of each imported type, the
/// import and the byte just past its declaration) and the wildcard imports.
pub struct JavaFileImportsView {
    pub explicit: Seq<(Seq<char>, JavaImportView, usize)>,
    pub wildcards: Seq<(JavaImportView, usize)>,
}

impl JavaFileImportsView {
    /// The import recorded for the type named `type_id`, if any.
    pub open spec fn spec_get(self, type_id: Seq<char>) -> Option<JavaImportView> {
        spec_lookup(self.explicit, type_id)
    }

    /// The import that a type identifier names: the declared import of an identifier, or the
    /// import of a scoped identifier.
    pub open spec fn spec_identifier_import(self, node: JavaNode, cache: FileCache) -> Option<
        JavaImportView,
    > {
        match node.spec_node_type() {
            Some(t) => if t == JavaNodeType::Id || t == JavaNodeType::TypeIdentifier {
                self.spec_get(node.spec_content())
            } else if t == JavaNodeType::ScopedIdentifier || t == JavaNodeType::ScopedTypeIdentifier {
                let found = spec_files_of_route(cache, node.spec_content());
                if found.len() == 1 {
                    Some(spec_import_of_file(found[0]))
                } else {
                    Some(spec_route_import(node.spec_content()))
                }
            } else {
                None
            },
            None => None,
        }
    }

    /// The bytes just past each import declaration, explicit ones first.
    pub open spec fn spec_end_bytes(self) -> Seq<usize> {
        self.explicit.map_values(|e: (Seq<char>, JavaImportView, usize)| e.2)
            + self.wildcards.map_values(|w: (JavaImportView, usize)| w.1)
    }

    /// The imports after recording `import`, declared up to the byte `end`: an explicit import
    /// takes the place of the entry of the same name, or else is added last; a wildcard import
    /// is added last to the wildcard imports; any other import is not recorded.
    pub open spec fn spec_insert(self, import: JavaImportView, end: usize) -> JavaFileImportsView {
        if import.spec_is_explicit() {
            let key = import.spec_last_node();
            if exists|i: int| 0 <= i < self.explicit.len() && #[trigger] self.explicit[i].0 == key {
                let i = choose|i: int| 0 <= i < self.explicit.len() && #[trigger] self.explicit[i].0 == key;
                JavaFileImportsView { explicit: self.explicit.update(i, (key, import, end)), ..self }
            } else {
                JavaFileImportsView { explicit: self.explicit.push((key, import, end)), ..self }
            }
        } else if import.spec_is_wildcard() {
            JavaFileImportsView { wildcards: self.wildcards.push((import, end)), ..self }
        } else {
            self
        }
    }
}

/// Reading after a write: once an explicit import is recorded, the type it names resolves to
/// it, and every other type name resolves as before. Wildcard imports leave every name as it
/// was. (Recorded imports name each type at most once.)
pub proof fn law_insert_then_get(
    imports: JavaFileImportsView,
    import: JavaImportView,
    end: usize,
    type_id: Seq<char>,
)
    requires
        keys_unique(imports.explicit),
    ensures
        imports.spec_insert(import, end).spec_get(type_id) == if import.spec_is_explicit()
            && type_id == import.spec_last_node() {
            Some(import)
        } else {
            imports.spec_get(type_id)
        },
        keys_unique(imports.spec_insert(import, end).explicit),
{
    let old_entries = imports.explicit;
    let e = imports.spec_insert(import, end).explicit;
    if import.spec_is_explicit() {
        let key = import.spec_last_node();
        if exists|i: int| 0 <= i < old_entries.len() && #[trigger] old_entries[i].0 == key {
            let i = choose|i: int| 0 <= i < old_entries.len() && #[trigger] old_entries[i].0 == key;
            assert(e == old_entries.update(i, (key, import, end)));
            assert forall|a: int, b: int|
                0 <= a < e.len() && 0 <= b < e.len() && a != b implies #[trigger] e[a].0
                != #[trigger] e[b].0 by {
                if a != i && b != i {
                    assert(old_entries[a].0 != old_entries[b].0);
                } else if a == i {
                    assert(old_entries[b].0 != old_entries[i].0);
                } else {
                    assert(old_entries[a].0 != old_entries[i].0);
                }
            }
            lemma_lookup_at(e, i);
            if type_id != key {
                if exists|j: int| 0 <= j < e.len() && #[trigger] e[j].0 == type_id {
                    let j = choose|j: int| 0 <= j < e.len() && #[trigger] e[j].0 == type_id;
                    lemma_lookup_at(e, j);
                    lemma_lookup_at(old_entries, j);
                } else {
                    assert forall|j: int| 0 <= j < old_entries.len() implies #[trigger] old_entries[j].0
                        != type_id by {
                        assert(e[j].0 == old_entries[j].0 || j == i);
                    }
                }
            }
        } else {
            let n = old_entries.len() as int;
            assert(e == old_entries.push((key, import, end)));
            assert forall|a: int, b: int|
                0 <= a < e.len() && 0 <= b < e.len() && a != b implies #[trigger] e[a].0
                != #[trigger] e[b].0 by {
                if a != n && b != n {
                    assert(old_entries[a].0 != old_entries[b].0);
                } else if a == n {
                    assert(e[b] == old_entries[b]);
                } else {
                    assert(e[a] == old_entries[a]);
                }
            }
            lemma_lookup_at(e, n);
            if type_id != key {
                if exists|j: int| 0 <= j < e.len() && #[trigger] e[j].0 == type_id {
                    let j = choose|j: int| 0 <= j < e.len() && #[trigger] e[j].0 == type_id;
                    lemma_lookup_at(e, j);
                    assert(e[j] == old_entries[j]);
                    lemma_lookup_at(old_entries, j);
                } else {
                    assert forall|j: int| 0 <= j < old_entries.len() implies #[trigger] old_entries[j].0
                        != type_id by {
                        assert(e[j] == old_entries[j]);
                    }
                }
            }
        }
    }
}

/// Why a node names no import: it has no known kind, it is an identifier whose name no
/// explicit import declares, or it is no identifier.
pub open spec fn spec_identifier_error(node: JavaNode) -> Seq<char> {
    match node.spec_node_type() {
        Some(t) => if t == JavaNodeType::Id || t == JavaNodeType::TypeIdentifier {
            "Import for \""@ + node.spec_content() + "\" not found."@
        } else {
            "Unexpected identifier getting explicit import from identifier"@
        },
        None => "Unexpected java node without node type"@,
    }
}

/// The imports declared in a Java file.
pub struct JavaFileImports {
    wildcard_imports: Vec<JavaFileImport>,
    last_node_to_import: Vec<(String, JavaFileImport)>,
}

impl Clone for JavaFileImports {
    fn clone(&self) -> (r: Self)
        ensures
            r@ == self@,
    {
        proof {
            use_type_invariant(self);
        }
        let mut explicit: Vec<(String, JavaFileImport)> = Vec::new();
        let mut i: usize = 0;
        while i < self.last_node_to_import.len()
            invariant
                i <= self.last_node_to_import.len(),
                spec_entries(explicit@) == spec_entries(self.last_node_to_import@.take(i as int)),
            decreases self.last_node_to_import.len() - i,
        {
            let e = &self.last_node_to_import[i];
            let c = (e.0.clone(), JavaFileImport::new(e.1.import.clone(), e.1.file_end_byte));
            let ghost old_e = explicit@;
            explicit.push(c);
            proof {
                assert(spec_entries(explicit@) =~= spec_entries(old_e).push(
                    (c.0@, c.1.spec_import(), c.1.spec_file_end_byte()),
                ));
                assert(spec_entries(self.last_node_to_import@.take(i + 1)) =~= spec_entries(
                    self.last_node_to_import@.take(i as int),
                ).push(
                    (
                        self.last_node_to_import@[i as int].0@,
                        self.last_node_to_import@[i as int].1.spec_import(),
                        self.last_node_to_import@[i as int].1.spec_file_end_byte(),
                    ),
                ));
            }
            i = i + 1;
        }
        let mut wildcards: Vec<JavaFileImport> = Vec::new();
        let mut j: usize = 0;
        while j < self.wildcard_imports.len()
            invariant
                j <= self.wildcard_imports.len(),
                wildcards@.map_values(|e: JavaFileImport| (e.spec_import(), e.spec_file_end_byte()))
                    == self.wildcard_imports@.take(j as int).map_values(
                    |e: JavaFileImport| (e.spec_import(), e.spec_file_end_byte()),
                ),
            decreases self.wildcard_imports.len() - j,
        {
            let e = &self.wildcard_imports[j];
            let c = JavaFileImport::new(e.import.clone(), e.file_end_byte);
            let ghost old_w = wildcards@;
            wildcards.push(c);
            proof {
                assert(wildcards@.map_values(|e: JavaFileImport| (e.spec_import(), e.spec_file_end_byte()))
                    =~= old_w.map_values(|e: JavaFileImport| (e.spec_import(), e.spec_file_end_byte())).push(
                    (c.spec_import(), c.spec_file_end_byte()),
                ));
                assert(self.wildcard_imports@.take(j + 1).map_values(
                    |e: JavaFileImport| (e.spec_import(), e.spec_file_end_byte()),
                ) =~= self.wildcard_imports@.take(j as int).map_values(
                    |e: JavaFileImport| (e.spec_import(), e.spec_file_end_byte()),
                ).push(
                    (self.wildcard_imports@[j as int].spec_import(), self.wildcard_imports@[j as int].spec_file_end_byte()),
                ));
            }
            j = j + 1;
        }
        proof {
            assert(self.last_node_to_import@.take(self.last_node_to_import@.len() as int) == self.last_node_to_import@);
            assert(self.wildcard_imports@.take(self.wildcard_imports@.len() as int) == self.wildcard_imports@);
        }
        JavaFileImports { wildcard_imports: wildcards, last_node_to_import: explicit }
    }
}

impl View for JavaFileImports {
    type V = JavaFileImportsView;

    closed spec fn view(&self) -> JavaFileImportsView {
        JavaFileImportsView {
            explicit: spec_entries(self.last_node_to_import@),
            wildcards: self.wildcard_imports@.map_values(
                |e: JavaFileImport| (e.spec_import(), e.spec_file_end_byte()),
            ),
        }
    }
}

impl JavaFileImports {
    /// The explicit imports: the name of each imported type, the import and the byte just past
    /// its declaration.
    pub open spec fn spec_explicit(&self) -> Seq<(Seq<char>, JavaImportView, usize)> {
        self@.explicit
    }

    /// The wildcard imports, with the byte just past each declaration.
    pub open spec fn spec_wildcards(&self) -> Seq<(JavaImportView, usize)> {
        self@.wildcards
    }

    /// The import recorded for the type named `type_id`, if any.
    pub open spec fn spec_get(&self, type_id: Seq<char>) -> Option<JavaImportView> {
        self@.spec_get(type_id)
    }

    #[verifier::type_invariant]
    closed spec fn inv(self) -> bool {
        keys_unique(self.spec_explicit())
    }

    /// No imports.
    pub fn new() -> (r: Self)
        ensures
            r.spec_explicit() == Seq::<(Seq<char>, JavaImportView, usize)>::empty(),
            r.spec_wildcards() == Seq::<(JavaImportView, usize)>::empty(),
    {
        let r = JavaFileImports { wildcard_imports: Vec::new(), last_node_to_import: Vec::new() };
        assert(r.spec_explicit() =~= Seq::empty());
        assert(r.spec_wildcards() =~= Seq::empty());
        r
    }

    /// Whether no import is recorded.
    pub fn is_empty(&self) -> (r: bool)
        ensures
            r == (self.spec_explicit().len() == 0 && self.spec_wildcards().len() == 0),
    {
        self.last_node_to_import.len() == 0 && self.wildcard_imports.len() == 0
    }

    /// The number of imports recorded.
    pub fn count(&self) -> (r: usize)
        requires
            self.spec_explicit().len() + self.spec_wildcards().len() <= usize::MAX,
        ensures
            r == self.spec_explicit().len() + self.spec_wildcards().len(),
    {
        self.last_node_to_import.len() + self.wildcard_imports.len()
    }

    /// The position of the entry for the type named `key`, if any.
    fn find_key(&self, key: &str) -> (r: Option<usize>)
        ensures
            r matches Some(i) ==> i < self.spec_explicit().len() && self.spec_explicit()[i as int].0
                == key@,
            r is None ==> forall|j: int|
                0 <= j < self.spec_explicit().len() ==> self.spec_explicit()[j].0 != key@,
    {
        let mut i: usize = 0;
        while i < self.last_node_to_import.len()
            invariant
                i <= self.last_node_to_import.len(),
                forall|j: int| 0 <= j < i ==> self.spec_explicit()[j].0 != key@,
            decreases self.last_node_to_import.len() - i,
        {
            assert(self.spec_explicit()[i as int].0 == self.last_node_to_import@[i as int].0@);
            if str_eq(self.last_node_to_import[i].0.as_str(), key) {
                return Some(i);
            }
            i = i + 1;
        }
        None
    }

    /// The import that the file declares for the type named `type_id`; an error when there is
    /// none.
    pub fn get_explicit_import(&self, type_id: &str) -> (r: Result<&JavaImport, String>)
        ensures
            r matches Ok(i) ==> self.spec_get(type_id@) == Some(i@),
            r is Err <==> self.spec_get(type_id@) is None,
            r matches Err(e) ==> e@ == "Import for \""@ + type_id@ + "\" not found."@,
    {
        proof {
            use_type_invariant(self);
        }
        if let Some(i) = self.find_key(type_id) {
            proof {
                lemma_lookup_at(self.spec_explicit(), i as int);
            }
            return Ok(&self.last_node_to_import[i].1.import);
        }
        let mut e = "Import for \"".to_owned();
        e.append(type_id);
        e.append("\" not found.");
        Err(e)
    }

    /// Records the import declared in the file, whose declaration ends at `import_end_byte`:
    /// an explicit import by the name of its type, a wildcard import in the list of wildcard
    /// imports; any other import is not recorded.
    pub fn insert(&mut self, import: JavaImport, import_end_byte: usize)
        ensures
            final(self)@ == old(self)@.spec_insert(import@, import_end_byte),
            import@.spec_is_explicit() ==> forall|k: Seq<char>|
                #[trigger] final(self).spec_get(k) == if k == import@.spec_last_node() {
                    Some(import@)
                } else {
                    old(self).spec_get(k)
                },
            import@.spec_is_explicit() ==> final(self).spec_wildcards() == old(self).spec_wildcards(),
            !import@.spec_is_explicit() && import@.spec_is_wildcard() ==> final(self).spec_explicit()
                == old(self).spec_explicit() && final(self).spec_wildcards() == old(
                self,
            ).spec_wildcards().push((import@, import_end_byte)),
            !import@.spec_is_explicit() && !import@.spec_is_wildcard() ==> final(self).spec_explicit()
                == old(self).spec_explicit() && final(self).spec_wildcards() == old(
                self,
            ).spec_wildcards(),
    {
        if import.is_explicit_import() {
            self.insert_explicit(import, import_end_byte);
        } else if import.is_wildcard_import() {
            proof {
                use_type_invariant(&*self);
            }
            let ghost old_w = self.spec_wildcards();
            let e = JavaFileImport::new(import, import_end_byte);
            let mut ws: Vec<JavaFileImport> = Vec::new();
            std::mem::swap(&mut ws, &mut self.wildcard_imports);
            ws.push(e);
            self.wildcard_imports = ws;
            proof {
                assert(self.spec_wildcards() =~= old_w.push((import@, import_end_byte)));
            }
        }
    }

    /// Records the explicit import declared in the file, whose declaration ends at
    /// `import_end_byte`; a later import of a type of the same name takes the place of the
    /// earlier one.
    pub fn insert_explicit(&mut self, import: JavaImport, import_end_byte: usize)
        requires
            import@.spec_is_explicit(),
        ensures
            final(self)@ == old(self)@.spec_insert(import@, import_end_byte),
            forall|k: Seq<char>|
                #[trigger] final(self).spec_get(k) == if k == import@.spec_last_node() {
                    Some(import@)
                } else {
                    old(self).spec_get(k)
                },
            final(self).spec_wildcards() == old(self).spec_wildcards(),
            exists|i: int|
                0 <= i < final(self).spec_explicit().len() && final(self).spec_explicit()[i] == (
                    import@.spec_last_node(),
                    import@,
                    import_end_byte,
                ),
            forall|i: int|
                0 <= i < old(self).spec_explicit().len() && old(self).spec_explicit()[i].0
                    != import@.spec_last_node() ==> final(self).spec_explicit().contains(
                    #[trigger] old(self).spec_explicit()[i],
                ),
            forall|i: int|
                #![trigger final(self).spec_explicit()[i]]
                0 <= i < final(self).spec_explicit().len() ==> final(self).spec_explicit()[i] == (
                    import@.spec_last_node(),
                    import@,
                    import_end_byte,
                ) || old(self).spec_explicit().contains(final(self).spec_explicit()[i]),
    {
        proof {
            use_type_invariant(&*self);
        }
        let last_node = import.get_last_node();
        let ghost key = last_node@;
        let ghost old_entries = self.spec_explicit();
        let java_file_import = JavaFileImport::new(import, import_end_byte);
        let found = self.find_key(last_node.as_str());
        let i: usize = match found {
            Some(i) => i,
            None => self.last_node_to_import.len(),
        };
        if i < self.last_node_to_import.len() {
            assert(old_entries[i as int].0 == key);
            proof {
                let c = choose|c: int| 0 <= c < old_entries.len() && #[trigger] old_entries[c].0 == key;
                assert(old_entries[c].0 == key);
                if c != i {
                    assert(old_entries[c].0 != old_entries[i as int].0);
                }
            }
            let mut entries: Vec<(String, JavaFileImport)> = Vec::new();
            std::mem::swap(&mut entries, &mut self.last_node_to_import);
            entries.set(i, (last_node, java_file_import));
            proof {
                let ne = old_entries.update(i as int, (key, import@, import_end_byte));
                assert(spec_entries(entries@) =~= ne);
                assert forall|a: int, b: int|
                    0 <= a < ne.len() && 0 <= b < ne.len() && a != b implies #[trigger] ne[a].0
                    != #[trigger] ne[b].0 by {
                    if a != i && b != i {
                        assert(old_entries[a].0 != old_entries[b].0);
                    } else if a == i {
                        assert(old_entries[b].0 != old_entries[i as int].0);
                    } else {
                        assert(old_entries[a].0 != old_entries[i as int].0);
                    }
                }
            }
            self.last_node_to_import = entries;
            assert(self.spec_explicit() =~= old_entries.update(i as int, (key, import@, import_end_byte)));
            proof {
                let e = self.spec_explicit();
                assert(keys_unique(e));
                lemma_lookup_at(e, i as int);
                assert forall|k: Seq<char>| #[trigger] self.spec_get(k) == if k == key {
                    Some(import@)
                } else {
                    spec_lookup(old_entries, k)
                } by {
                    if k != key {
                        if exists|j: int| 0 <= j < e.len() && #[trigger] e[j].0 == k {
                            let j = choose|j: int| 0 <= j < e.len() && #[trigger] e[j].0 == k;
                            lemma_lookup_at(e, j);
                            lemma_lookup_at(old_entries, j);
                        } else {
                            assert forall|j: int| 0 <= j < old_entries.len() implies #[trigger] old_entries[j].0 != k by {
                                assert(e[j].0 == old_entries[j].0 || j == i);
                            }
                        }
                    }
                }
                assert(e[i as int] == (key, import@, import_end_byte));
                assert forall|j: int| 0 <= j < old_entries.len() && old_entries[j].0 != key implies e.contains(#[trigger] old_entries[j]) by {
                    assert(e[j] == old_entries[j]);
                }
                assert forall|j: int| 0 <= j < e.len() implies #[trigger] e[j] == (key, import@, import_end_byte) || old_entries.contains(e[j]) by {
                    if j != i {
                        assert(e[j] == old_entries[j]);
                    }
                }
            }
        } else {
            let mut entries: Vec<(String, JavaFileImport)> = Vec::new();
            std::mem::swap(&mut entries, &mut self.last_node_to_import);
            entries.push((last_node, java_file_import));
            proof {
                let ne = old_entries.push((key, import@, import_end_byte));
                assert(spec_entries(entries@) =~= ne);
                let n = old_entries.len() as int;
                assert forall|a: int, b: int|
                    0 <= a < ne.len() && 0 <= b < ne.len() && a != b implies #[trigger] ne[a].0
                    != #[trigger] ne[b].0 by {
                    if a != n && b != n {
                        assert(old_entries[a].0 != old_entries[b].0);
                    }
                }
            }
            self.last_node_to_import = entries;
            assert(self.spec_explicit() =~= old_entries.push((key, import@, import_end_byte)));
            proof {
                let e = self.spec_explicit();
                let n = old_entries.len() as int;
                assert(keys_unique(e));
                lemma_lookup_at(e, n);
                assert forall|k: Seq<char>| #[trigger] self.spec_get(k) == if k == key {
                    Some(import@)
                } else {
                    spec_lookup(old_entries, k)
                } by {
                    if k != key {
                        if exists|j: int| 0 <= j < e.len() && #[trigger] e[j].0 == k {
                            let j = choose|j: int| 0 <= j < e.len() && #[trigger] e[j].0 == k;
                            lemma_lookup_at(e, j);
                            lemma_lookup_at(old_entries, j);
                        } else {
                            assert forall|j: int| 0 <= j < old_entries.len() implies #[trigger] old_entries[j].0 != k by {
                                assert(e[j] == old_entries[j]);
                            }
                        }
                    }
                }
                assert(e[n] == (key, import@, import_end_byte));
                assert forall|j: int| 0 <= j < old_entries.len() && old_entries[j].0 != key implies e.contains(#[trigger] old_entries[j]) by {
                    assert(e[j] == old_entries[j]);
                }
                assert forall|j: int| 0 <= j < e.len() implies #[trigger] e[j] == (key, import@, import_end_byte) || old_entries.contains(e[j]) by {
                    if j != n {
                        assert(e[j] == old_entries[j]);
                    }
                }
            }
        }
    }
}

impl JavaFileImports {
    /// The import that a type identifier names: the declared import of an identifier, or the
    /// import of a scoped identifier.
    pub open spec fn spec_identifier_import(&self, node: JavaNode, cache: FileCache) -> Option<
        JavaImportView,
    > {
        self@.spec_identifier_import(node, cache)
    }

    /// The bytes just past each import declaration, explicit ones first.
    pub open spec fn spec_end_bytes(&self) -> Seq<usize> {
        self@.spec_end_bytes()
    }

    /// The import that a type identifier names: the declared import of an identifier, or the
    /// import of a scoped identifier.
    pub fn get_explicit_import_from_identifier(&self, type_id_node: &JavaNode, java_file_cache: &FileCache) -> (r: Result<
        JavaImport,
        String,
    >)
        ensures
            r is Ok <==> self.spec_identifier_import(*type_id_node, *java_file_cache) is Some,
            r matches Ok(i) ==> self.spec_identifier_import(*type_id_node, *java_file_cache) == Some(
                i@,
            ),
            r matches Err(e) ==> e@ == spec_identifier_error(*type_id_node),
    {
        let node_type = match type_id_node.get_node_type() {
            Some(t) => t,
            None => {
                return Err("Unexpected java node without node type".to_owned());
            },
        };
        if node_type == JavaNodeType::Id || node_type == JavaNodeType::TypeIdentifier {
            let content = type_id_node.get_content_from_cache(java_file_cache);
            return match self.get_explicit_import(content.as_str()) {
                Ok(i) => Ok(i.clone()),
                Err(e) => Err(e),
            };
        } else if node_type == JavaNodeType::ScopedIdentifier || node_type
            == JavaNodeType::ScopedTypeIdentifier {
            return Ok(
                JavaImport::new_explicit_import_from_scoped_identifier(type_id_node, java_file_cache),
            );
        }
        Err("Unexpected identifier getting explicit import from identifier".to_owned())
    }

    /// The largest byte just past an import declaration, if the file declares any import.
    pub fn get_last_import_end_byte(&self) -> (r: Option<usize>)
        ensures
            r is None <==> self.spec_end_bytes().len() == 0,
            r matches Some(m) ==> self.spec_end_bytes().contains(m) && forall|j: int|
                0 <= j < self.spec_end_bytes().len() ==> self.spec_end_bytes()[j] <= m,
    {
        let ghost all = self.spec_end_bytes();
        let ghost ne = self.spec_explicit().len() as int;
        let mut result: Option<usize> = None;
        let mut i: usize = 0;
        while i < self.last_node_to_import.len()
            invariant
                all == self.spec_end_bytes(),
                ne == self.last_node_to_import.len(),
                ne == self.spec_explicit().len(),
                i <= ne,
                result is None <==> i == 0,
                result matches Some(m) ==> (exists|j: int| 0 <= j < i && all[j] == m) && forall|
                    j: int,
                | 0 <= j < i ==> all[j] <= m,
            decreases self.last_node_to_import.len() - i,
        {
            let b = self.last_node_to_import[i].1.file_end_byte;
            assert(all[i as int] == b);
            result = match result {
                Some(m) => if m < b { Some(b) } else { Some(m) },
                None => Some(b),
            };
            i = i + 1;
        }
        let mut k: usize = 0;
        while k < self.wildcard_imports.len()
            invariant
                all == self.spec_end_bytes(),
                ne == self.spec_explicit().len(),
                self.wildcard_imports.len() == self.spec_wildcards().len(),
                all.len() == ne + self.spec_wildcards().len(),
                k <= self.wildcard_imports.len(),
                result is None <==> ne + k == 0,
                result matches Some(m) ==> (exists|j: int| 0 <= j < ne + k && all[j] == m)
                    && forall|j: int| 0 <= j < ne + k ==> all[j] <= m,
            decreases self.wildcard_imports.len() - k,
        {
            let b = self.wildcard_imports[k].file_end_byte;
            assert(all[ne + k] == b);
            result = match result {
                Some(m) => if m < b { Some(b) } else { Some(m) },
                None => Some(b),
            };
            k = k + 1;
        }
        proof {
            if let Some(m) = result {
                let j = choose|j: int| 0 <= j < ne + self.spec_wildcards().len() && all[j] == m;
                assert(all.contains(m));
            }
        }
        result
    }

    /// The edits that declare `imports_to_add`, one after the other, after the last import of
    /// the file or, when it has none, at `byte_to_insert_first_import_opt` after an empty line.
    pub open spec fn spec_import_edits(
        imports_to_add: Seq<JavaImportView>,
        last_import_end_byte: Option<usize>,
        byte_to_insert_first_import_opt: Option<usize>,
    ) -> Seq<FileEditView>
        decreases imports_to_add.len(),
    {
        if imports_to_add.len() == 0 {
            Seq::empty()
        } else {
            let rest = Self::spec_import_edits(
                imports_to_add.drop_last(),
                last_import_end_byte,
                byte_to_insert_first_import_opt,
            );
            let line = imports_to_add.last().spec_to_string();
            match last_import_end_byte {
                Some(b) => rest.push(FileEditView::InsertWithPreviousNewlineAt { at: b, content: line }),
                None => match byte_to_insert_first_import_opt {
                    Some(b) => rest.push(
                        FileEditView::InsertWithPreviousNewlineAt { at: b, content: Seq::empty() },
                    ).push(FileEditView::InsertWithPreviousNewlineAt { at: b, content: line }),
                    None => rest,
                },
            }
        }
    }

    /// Records in `to_overwrite` the declarations of `imports_to_add`; an error, with nothing
    /// recorded, when there are imports to add but the file has no import and no position is
    /// given for the first one.
    pub fn add_missing_imports(
        &self,
        to_overwrite: &mut FileOverwriting,
        imports_to_add: Vec<JavaImport>,
        byte_to_insert_first_import_opt: Option<usize>,
    ) -> (r: Result<(), String>)
        ensures
            r is Err <==> import_views(imports_to_add@).len() > 0 && self.spec_end_bytes().len()
                == 0 && byte_to_insert_first_import_opt is None,
            r is Err ==> final(to_overwrite).spec_edits() == old(to_overwrite).spec_edits(),
            r matches Err(e) ==> e@ == "It was not possible to add import to file:\n"@
                + old(to_overwrite).spec_input_file() + "\n"@,
            r is Ok ==> final(to_overwrite).spec_edits() == old(to_overwrite).spec_edits()
                + Self::spec_import_edits(
                spec_sorted_imports(import_views(imports_to_add@)),
                if self.spec_end_bytes().len() == 0 {
                    None
                } else {
                    Some(seq_max(self.spec_end_bytes()))
                },
                byte_to_insert_first_import_opt,
            ),
            final(to_overwrite).spec_input_file() == old(to_overwrite).spec_input_file(),
    {
        let sorted_imports_to_add = get_sorted_asc(imports_to_add);
        let last_import_end_byte_opt = self.get_last_import_end_byte();
        proof {
            law_sorted_imports(import_views(imports_to_add@));
            assert(import_views(sorted_imports_to_add@).len() == import_views(imports_to_add@).len()) by {
                broadcast use vstd::seq_lib::group_to_multiset_ensures;
                assert(import_views(sorted_imports_to_add@).to_multiset().len() == import_views(
                    imports_to_add@,
                ).to_multiset().len());
            }
            if let Some(m) = last_import_end_byte_opt {
                lemma_seq_max(self.spec_end_bytes(), m);
            }
        }
        if sorted_imports_to_add.len() > 0 && last_import_end_byte_opt.is_none()
            && byte_to_insert_first_import_opt.is_none() {
            let mut e = "It was not possible to add import to file:\n".to_owned();
            e.append(to_overwrite.get_input_file());
            e.append("\n");
            return Err(e);
        }
        let ghost start = to_overwrite.spec_edits();
        let ghost all = import_views(sorted_imports_to_add@);
        let mut i: usize = 0;
        while i < sorted_imports_to_add.len()
            invariant
                i <= sorted_imports_to_add.len(),
                all == import_views(sorted_imports_to_add@),
                to_overwrite.spec_edits() == start + Self::spec_import_edits(
                    all.take(i as int),
                    last_import_end_byte_opt,
                    byte_to_insert_first_import_opt,
                ),
                to_overwrite.spec_input_file() == old(to_overwrite).spec_input_file(),
                sorted_imports_to_add.len() > 0 ==> last_import_end_byte_opt is Some
                    || byte_to_insert_first_import_opt is Some,
            decreases sorted_imports_to_add.len() - i,
        {
            let line = sorted_imports_to_add[i].to_string();
            let ghost prev_edits = to_overwrite.spec_edits();
            assert(all.take(i + 1).drop_last() =~= all.take(i as int));
            assert(all.take(i + 1).last() == sorted_imports_to_add@[i as int]@);
            let ghost rest = Self::spec_import_edits(all.take(i as int), last_import_end_byte_opt, byte_to_insert_first_import_opt);
            if let Some(last_import_end_byte) = last_import_end_byte_opt {
                let _ = to_overwrite.insert_content_with_previous_newline_at(
                    last_import_end_byte,
                    line.as_str(),
                );
            } else if let Some(byte_to_insert_first_import) = byte_to_insert_first_import_opt {
                let _ = to_overwrite.insert_content_with_previous_newline_at(
                    byte_to_insert_first_import,
                    "",
                );
                let _ = to_overwrite.insert_content_with_previous_newline_at(
                    byte_to_insert_first_import,
                    line.as_str(),
                );
            }
            proof {
                let nxt = Self::spec_import_edits(all.take(i + 1), last_import_end_byte_opt, byte_to_insert_first_import_opt);
                if let Some(b) = last_import_end_byte_opt {
                    let e = FileEditView::InsertWithPreviousNewlineAt { at: b, content: line@ };
                    assert(nxt == rest.push(e));
                    assert(to_overwrite.spec_edits() == prev_edits.push(e));
                    assert((start + rest).push(e) =~= start + rest.push(e));
                } else if let Some(b) = byte_to_insert_first_import_opt {
                    let e0 = FileEditView::InsertWithPreviousNewlineAt { at: b, content: Seq::empty() };
                    let e = FileEditView::InsertWithPreviousNewlineAt { at: b, content: line@ };
                    assert(""@ == Seq::<char>::empty()) by { reveal_strlit(""); }
                    assert(nxt == rest.push(e0).push(e));
                    assert(to_overwrite.spec_edits() == prev_edits.push(e0).push(e));
                    assert((start + rest).push(e0).push(e) =~= start + rest.push(e0).push(e));
                }
            }
            assert(to_overwrite.spec_edits() =~= start + Self::spec_import_edits(
                all.take(i + 1),
                last_import_end_byte_opt,
                byte_to_insert_first_import_opt,
            ));
            i = i + 1;
        }
        assert(all.take(all.len() as int) =~= all);
        Ok(())
    }

    /// The declarations of `imports`, one per line, followed by an empty line when there is any.
    pub fn get_file_string_with_trailing_newline(imports: &Vec<JavaImport>) -> (r: String)
        ensures
            r@ == spec_imports_block(import_views(imports@)),
    {
        let mut result = String::new();
        let ghost all = import_views(imports@);
        let mut i: usize = 0;
        while i < imports.len()
            invariant
                i <= imports.len(),
                all == import_views(imports@),
                result@ == spec_import_lines(all.take(i as int)),
            decreases imports.len() - i,
        {
            assert(all.take(i + 1).drop_last() =~= all.take(i as int));
            let line = imports[i].to_string();
            result.append(line.as_str());
            result.append("\n");
            i = i + 1;
        }
        assert(all.take(imports.len() as int) =~= all);
        if imports.len() > 0 {
            result.append("\n");
        }
        result
    }
}

/// The largest element of a nonempty sequence.
pub open spec fn seq_max(s: Seq<usize>) -> usize
    decreases s.len(),
{
    if s.len() <= 1 {
        s[0]
    } else if s.last() < seq_max(s.drop_last()) {
        seq_max(s.drop_last())
    } else {
        s.last()
    }
}

/// An element that is in the sequence and no smaller than any is its largest element.
pub proof fn lemma_seq_max(s: Seq<usize>, m: usize)
    requires
        s.contains(m),
        forall|j: int| 0 <= j < s.len() ==> s[j] <= m,
    ensures
        seq_max(s) == m,
    decreases s.len(),
{
    if s.len() > 1 {
        let p = s.drop_last();
        if s.last() == m {
            if p.contains(seq_max(p)) {
            }
            lemma_seq_max_le(p, m);
        } else {
            let k = choose|k: int| 0 <= k < s.len() && s[k] == m;
            assert(p[k] == m);
            lemma_seq_max(p, m);
        }
    }
}

/// No element is larger than the bound of every element.
pub proof fn lemma_seq_max_le(s: Seq<usize>, m: usize)
    requires
        s.len() > 0,
        forall|j: int| 0 <= j < s.len() ==> s[j] <= m,
    ensures
        seq_max(s) <= m,
    decreases s.len(),
{
    if s.len() > 1 {
        lemma_seq_max_le(s.drop_last(), m);
    }
}

/// The declarations of the imports, one per line.
pub open spec fn spec_import_lines(imports: Seq<JavaImportView>) -> Seq<char>
    decreases imports.len(),
{
    if imports.len() == 0 {
        Seq::empty()
    } else {
        spec_import_lines(imports.drop_last()) + imports.last().spec_to_string() + "\n"@
    }
}

/// The declarations of the imports, one per line, followed by an empty line when there is any.
pub open spec fn spec_imports_block(imports: Seq<JavaImportView>) -> Seq<char> {
    spec_import_lines(imports) + if imports.len() > 0 { "\n"@ } else { Seq::empty() }
}

/// The route by which an import is sorted.
pub open spec fn spec_import_route(i: JavaImportView) -> Seq<char> {
    i.spec_route_internal(false)
}

/// `sorted` with `x` added after every import whose route does not come after the route of
/// `x`, and before the rest (for a sorted `sorted`, its place in the order).
pub open spec fn spec_insert_sorted(sorted: Seq<JavaImportView>, x: JavaImportView) -> Seq<JavaImportView>
    decreases sorted.len(),
{
    if sorted.len() == 0 {
        seq![x]
    } else if spec_text_le(spec_import_route(sorted.last()), spec_import_route(x)) {
        sorted.push(x)
    } else {
        spec_insert_sorted(sorted.drop_last(), x).push(sorted.last())
    }
}

/// The imports sorted by route in ascending order; imports with the same route keep their
/// order.
pub open spec fn spec_sorted_imports(imports: Seq<JavaImportView>) -> Seq<JavaImportView>
    decreases imports.len(),
{
    if imports.len() == 0 {
        Seq::empty()
    } else {
        spec_insert_sorted(spec_sorted_imports(imports.drop_last()), imports.last())
    }
}

/// Whether the routes of the imports come in ascending order.
pub open spec fn spec_routes_ascending(imports: Seq<JavaImportView>) -> bool {
    forall|i: int, j: int|
        0 <= i < j < imports.len() ==> spec_text_le(
            spec_import_route(#[trigger] imports[i]),
            spec_import_route(#[trigger] imports[j]),
        )
}

/// Where `x` goes into `sorted` when no import from position `j` on may come before it and the
/// one before `j`, if any, may.
proof fn lemma_insert_sorted_at(sorted: Seq<JavaImportView>, x: JavaImportView, j: int)
    requires
        0 <= j <= sorted.len(),
        forall|k: int|
            j <= k < sorted.len() ==> !spec_text_le(spec_import_route(#[trigger] sorted[k]), spec_import_route(x)),
        j == 0 || spec_text_le(spec_import_route(sorted[j - 1]), spec_import_route(x)),
    ensures
        spec_insert_sorted(sorted, x) == sorted.take(j).push(x) + sorted.skip(j),
    decreases sorted.len(),
{
    if sorted.len() == 0 {
        assert(sorted.take(j).push(x) + sorted.skip(j) =~= seq![x]);
    } else if j == sorted.len() {
        assert(sorted.take(j) =~= sorted);
        assert(sorted.skip(j) =~= Seq::<JavaImportView>::empty());
        assert(sorted.take(j).push(x) + sorted.skip(j) =~= sorted.push(x));
    } else {
        let init = sorted.drop_last();
        assert(!spec_text_le(spec_import_route(sorted[sorted.len() - 1]), spec_import_route(x)));
        assert forall|k: int| j <= k < init.len() implies !spec_text_le(
            spec_import_route(#[trigger] init[k]),
            spec_import_route(x),
        ) by {
            assert(init[k] == sorted[k]);
        }
        if j > 0 {
            assert(init[j - 1] == sorted[j - 1]);
        }
        lemma_insert_sorted_at(init, x, j);
        assert(init.take(j) =~= sorted.take(j));
        assert((init.take(j).push(x) + init.skip(j)).push(sorted.last()) =~= sorted.take(j).push(x)
            + sorted.skip(j));
    }
}

/// Inserting into a sorted sequence keeps it sorted and adds exactly the new import.
proof fn lemma_insert_sorted(sorted: Seq<JavaImportView>, x: JavaImportView)
    requires
        spec_routes_ascending(sorted),
    ensures
        spec_routes_ascending(spec_insert_sorted(sorted, x)),
        spec_insert_sorted(sorted, x).to_multiset() == sorted.to_multiset().insert(x),
        forall|k: int|
            0 <= k < spec_insert_sorted(sorted, x).len() ==> #[trigger] spec_insert_sorted(sorted, x)[k]
                == x || sorted.contains(spec_insert_sorted(sorted, x)[k]),
    decreases sorted.len(),
{
    broadcast use vstd::seq_lib::group_to_multiset_ensures;

    let r = spec_insert_sorted(sorted, x);
    if sorted.len() == 0 {
        assert(r == seq![x]);
        assert(seq![x] =~= Seq::<JavaImportView>::empty().push(x));
    } else if spec_text_le(spec_import_route(sorted.last()), spec_import_route(x)) {
        assert forall|i: int, j: int| 0 <= i < j < r.len() implies spec_text_le(
            spec_import_route(#[trigger] r[i]),
            spec_import_route(#[trigger] r[j]),
        ) by {
            if j == r.len() - 1 && i < sorted.len() - 1 {
                lemma_text_le_transitive(
                    spec_import_route(sorted[i]),
                    spec_import_route(sorted.last()),
                    spec_import_route(x),
                );
            }
        }
        assert forall|k: int| 0 <= k < r.len() implies #[trigger] r[k] == x || sorted.contains(r[k]) by {
            if k < sorted.len() {
                assert(sorted[k] == r[k]);
            }
        }
    } else {
        let init = sorted.drop_last();
        let last = sorted.last();
        assert(spec_routes_ascending(init)) by {
            assert forall|i: int, j: int| 0 <= i < j < init.len() implies spec_text_le(
                spec_import_route(#[trigger] init[i]),
                spec_import_route(#[trigger] init[j]),
            ) by {
                assert(init[i] == sorted[i]);
                assert(init[j] == sorted[j]);
            }
        }
        lemma_insert_sorted(init, x);
        let mid = spec_insert_sorted(init, x);
        lemma_text_le_total(spec_import_route(last), spec_import_route(x));
        assert(r == mid.push(last));
        assert forall|i: int, j: int| 0 <= i < j < r.len() implies spec_text_le(
            spec_import_route(#[trigger] r[i]),
            spec_import_route(#[trigger] r[j]),
        ) by {
            if j == r.len() - 1 {
                assert(r[i] == mid[i]);
                if mid[i] != x {
                    assert(init.contains(mid[i]));
                    let k = choose|k: int| 0 <= k < init.len() && init[k] == mid[i];
                    assert(sorted[k] == init[k]);
                    assert(sorted[sorted.len() - 1] == last);
                }
            } else {
                assert(r[i] == mid[i]);
                assert(r[j] == mid[j]);
            }
        }
        assert forall|k: int| 0 <= k < r.len() implies #[trigger] r[k] == x || sorted.contains(r[k]) by {
            if k < mid.len() {
                assert(r[k] == mid[k]);
                if mid[k] != x {
                    let m = choose|m: int| 0 <= m < init.len() && init[m] == mid[k];
                    assert(sorted[m] == init[m]);
                }
            } else {
                assert(sorted[sorted.len() - 1] == r[k]);
            }
        }
        assert(sorted =~= init.push(last));
    }
}

/// Sorting imports gives a rearrangement of them whose routes come in ascending order.
pub proof fn law_sorted_imports(imports: Seq<JavaImportView>)
    ensures
        spec_routes_ascending(spec_sorted_imports(imports)),
        spec_sorted_imports(imports).to_multiset() == imports.to_multiset(),
    decreases imports.len(),
{
    broadcast use vstd::seq_lib::group_to_multiset_ensures;

    if imports.len() > 0 {
        law_sorted_imports(imports.drop_last());
        lemma_insert_sorted(spec_sorted_imports(imports.drop_last()), imports.last());
        assert(imports =~= imports.drop_last().push(imports.last()));
    }
}

/// The imports sorted by route in ascending order; imports with the same route keep their
/// order.
pub fn get_sorted_asc(result: Vec<JavaImport>) -> (r: Vec<JavaImport>)
    ensures
        import_views(r@) == spec_sorted_imports(import_views(result@)),
{
    let ghost all = import_views(result@);
    let mut sorted: Vec<JavaImport> = Vec::new();
    let mut i: usize = 0;
    proof {
        assert(import_views(sorted@) =~= spec_sorted_imports(all.take(0)));
    }
    while i < result.len()
        invariant
            i <= result.len(),
            all == import_views(result@),
            import_views(sorted@) == spec_sorted_imports(all.take(i as int)),
        decreases result.len() - i,
    {
        let x = result[i].clone();
        let key = x.get_route();
        let ghost before = import_views(sorted@);
        let mut j: usize = sorted.len();
        let mut found = false;
        while j > 0 && !found
            invariant
                j <= sorted.len(),
                before == import_views(sorted@),
                key@ == spec_import_route(x@),
                forall|k: int|
                    j <= k < before.len() ==> !spec_text_le(spec_import_route(#[trigger] before[k]), key@),
                found ==> j > 0 && spec_text_le(spec_import_route(before[j - 1]), key@),
            decreases j, if found { 0int } else { 1int },
        {
            let route = sorted[j - 1].get_route();
            assert(before[j - 1] == sorted@[j - 1]@);
            if text_le(route.as_str(), key.as_str()) {
                found = true;
            } else {
                j = j - 1;
            }
        }
        sorted.insert(j, x);
        proof {
            lemma_insert_sorted_at(before, x@, j as int);
            assert(import_views(sorted@) =~= before.take(j as int).push(x@) + before.skip(j as int));
            assert(all.take(i + 1).drop_last() =~= all.take(i as int));
            assert(all.take(i + 1).last() == result@[i as int]@);
        }
        i = i + 1;
    }
    proof {
        assert(all.take(result.len() as int) =~= all);
    }
    sorted
}

} // verus!
