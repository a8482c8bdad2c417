//! A node of a parsed Java source file, with its kind, its text and its children.
use vstd::prelude::*;

use crate::common::file_cache::FileCache;
use crate::java::parser::java_node_type::JavaNodeType;

verus! {

/// A node of a parsed Java source file.
pub struct JavaNode {
    file_path: String,
    start_byte: usize,
    end_byte: usize,
    children: Vec<JavaNode>,
    node_type: Option<JavaNodeType>,
    content: String,
}

impl Clone for JavaNode {
    fn clone(&self) -> (r: Self)
        ensures
            r.spec_same(*self),
    {
        self.deep_clone()
    }
}

impl JavaNode {
    /// Whether two trees have the same file, bytes, kinds and texts, node for node.
    pub closed spec fn spec_same(self, other: JavaNode) -> bool
        decreases self, 1int,
    {
        &&& self.file_path@ == other.file_path@
        &&& self.start_byte == other.start_byte
        &&& self.end_byte == other.end_byte
        &&& self.node_type == other.node_type
        &&& self.content@ == other.content@
        &&& self.children@.len() == other.children@.len()
        &&& all_same(self.children@, other.children@)
    }

    /// Trees that are the same have the same file, bytes, kind and text at their roots, and
    /// the same trees below.
    pub proof fn lemma_same(&self, other: JavaNode)
        requires
            self.spec_same(other),
        ensures
            self.spec_file_path() == other.spec_file_path(),
            self.spec_start_byte() == other.spec_start_byte(),
            self.spec_end_byte() == other.spec_end_byte(),
            self.spec_node_type() == other.spec_node_type(),
            self.spec_content() == other.spec_content(),
            self.spec_children().len() == other.spec_children().len(),
            forall|j: int|
                0 <= j < self.spec_children().len() ==> #[trigger] self.spec_children()[j].spec_same(
                    other.spec_children()[j],
                ),
    {
        lemma_all_same(self.children@, other.children@);
    }

    pub closed spec fn spec_file_path(&self) -> Seq<char> {
        self.file_path@
    }

    pub closed spec fn spec_start_byte(&self) -> usize {
        self.start_byte
    }

    pub closed spec fn spec_end_byte(&self) -> usize {
        self.end_byte
    }

    pub closed spec fn spec_children(&self) -> Seq<JavaNode> {
        self.children@
    }

    pub closed spec fn spec_node_type(&self) -> Option<JavaNodeType> {
        self.node_type
    }

    pub closed spec fn spec_content(&self) -> Seq<char> {
        self.content@
    }

    /// Whether every annotation node of the tree rooted here has a child after the `@` (the
    /// one that names the annotation type), as every annotation that the Java grammar parses
    /// has.
    pub closed spec fn spec_annotations_named(&self) -> bool
        decreases self, 1int,
    {
        &&& (self.node_type == Some(JavaNodeType::Annotation) || self.node_type == Some(
            JavaNodeType::MarkerAnnotation,
        )) ==> self.children@.len() > 1
        &&& all_annotations_named(self.children@)
    }

    /// A node whose annotations are named has named annotations below it, and a name child
    /// when it is an annotation itself.
    pub proof fn lemma_annotations_named(&self)
        requires
            self.spec_annotations_named(),
        ensures
            (self.spec_node_type() == Some(JavaNodeType::Annotation) || self.spec_node_type() == Some(
                JavaNodeType::MarkerAnnotation,
            )) ==> self.spec_children().len() > 1,
            forall|i: int|
                0 <= i < self.spec_children().len() ==> #[trigger] self.spec_children()[i].spec_annotations_named(),
    {
        lemma_all_named(self.children@);
    }

    /// The number of nodes on the longest path from this node down to a leaf.
    pub closed spec fn spec_height(&self) -> nat
        decreases self, 1int,
    {
        1 + max_height(self.children@)
    }

    /// The first node of kind `t` in a depth-first walk of the tree rooted here, the root
    /// first, then the trees of its children in order.
    pub closed spec fn spec_dfs_first(&self, t: JavaNodeType) -> Option<JavaNode>
        decreases self, 1int,
    {
        if self.node_type == Some(t) {
            Some(*self)
        } else {
            dfs_first_seq(self.children@, t)
        }
    }

    /// The first node of kind `t` in a depth-first walk of the tree rooted here, the root
    /// first, then the trees of its children in order.
    pub fn depth_first_search_first_with_type(&self, t: JavaNodeType) -> (r: Option<&JavaNode>)
        ensures
            match (r, self.spec_dfs_first(t)) {
                (Some(n), Some(m)) => *n == m,
                (None, None) => true,
                _ => false,
            },
        decreases self.spec_height(),
    {
        if self.node_type == Some(t) {
            return Some(self);
        }
        let mut i: usize = 0;
        proof {
            assert(self.children@.subrange(0, 0) =~= Seq::<JavaNode>::empty());
        }
        while i < self.children.len()
            invariant
                i <= self.children.len(),
                self.node_type != Some(t),
                dfs_first_seq(self.children@.subrange(0, i as int), t) is None,
            decreases self.children.len() - i,
        {
            proof {
                self.lemma_child_height(i as int);
                assert(self.children@.subrange(0, i + 1).subrange(0, i as int) =~= self.children@.subrange(0, i as int));
                assert(self.children@.subrange(0, i + 1)[i as int] == self.children@[i as int]);
            }
            let found = self.children[i].depth_first_search_first_with_type(t);
            if found.is_some() {
                proof {
                    lemma_dfs_prefix(self.children@, i + 1, t);
                }
                return found;
            }
            i = i + 1;
        }
        proof {
            assert(self.children@.subrange(0, i as int) =~= self.children@);
        }
        None
    }

    /// A copy of the tree rooted here.
    pub fn deep_clone(&self) -> (r: JavaNode)
        ensures
            r.spec_same(*self),
        decreases self.spec_height(),
    {
        let mut children: Vec<JavaNode> = Vec::new();
        let mut i: usize = 0;
        while i < self.children.len()
            invariant
                i <= self.children.len(),
                children@.len() == i,
                forall|j: int| 0 <= j < i ==> (#[trigger] children@[j]).spec_same(self.children@[j]),
            decreases self.children.len() - i,
        {
            proof {
                self.lemma_child_height(i as int);
            }
            let c = self.children[i].deep_clone();
            children.push(c);
            i = i + 1;
        }
        proof {
            lemma_all_same_from_each(children@, self.children@);
        }
        JavaNode {
            file_path: self.file_path.clone(),
            start_byte: self.start_byte,
            end_byte: self.end_byte,
            children,
            node_type: self.node_type,
            content: self.content.clone(),
        }
    }

    /// Whether the node is printed with its text when the tree is shown: identifiers, keywords
    /// and punctuation.
    pub fn is_printable(&self) -> (r: bool)
        ensures
            r == (self.spec_node_type() matches Some(t) && spec_is_printable(t)),
    {
        match self.node_type {
            Some(t) => is_printable_kind(t),
            None => false,
        }
    }

    /// Every child of a node is lower than the node.
    pub proof fn lemma_child_height(&self, i: int)
        requires
            0 <= i < self.spec_children().len(),
        ensures
            self.spec_children()[i].spec_height() < self.spec_height(),
    {
        lemma_max_height(self.children@, i);
    }

    /// A node of the file at `file_path` spanning the bytes from `start_byte` to `end_byte`,
    /// whose text is `content`.
    pub fn from_parts(
        file_path: &str,
        start_byte: usize,
        end_byte: usize,
        children: Vec<JavaNode>,
        node_type: Option<JavaNodeType>,
        content: &str,
    ) -> (r: JavaNode)
        ensures
            r.spec_file_path() == file_path@,
            r.spec_start_byte() == start_byte,
            r.spec_end_byte() == end_byte,
            r.spec_children() == children@,
            r.spec_node_type() == node_type,
            r.spec_content() == content@,
    {
        JavaNode {
            file_path: file_path.to_owned(),
            start_byte,
            end_byte,
            children,
            node_type,
            content: content.to_owned(),
        }
    }

    /// The children of the node, in order.
    pub fn get_children(&self) -> (r: &Vec<JavaNode>)
        ensures
            r@ == self.spec_children(),
    {
        &self.children
    }

    /// The kind of the node, when the grammar's name for it is known.
    pub fn get_node_type(&self) -> (r: Option<JavaNodeType>)
        ensures
            r == self.spec_node_type(),
    {
        self.node_type
    }

    /// The kind of the node, when the grammar's name for it is known.
    pub fn get_node_type_opt(&self) -> (r: Option<JavaNodeType>)
        ensures
            r == self.spec_node_type(),
    {
        self.node_type
    }

    /// The text of the node.
    pub fn get_content(&self) -> (r: String)
        ensures
            r@ == self.spec_content(),
    {
        self.content.clone()
    }

    /// The text of the node, as it stands in the cached file.
    pub fn get_content_from_cache(&self, _java_file_cache: &FileCache) -> (r: String)
        ensures
            r@ == self.spec_content(),
    {
        self.content.clone()
    }

    /// The first byte of the node in its file.
    pub fn get_start_byte(&self) -> (r: usize)
        ensures
            r == self.spec_start_byte(),
    {
        self.start_byte
    }

    /// The byte just past the node in its file.
    pub fn get_end_byte(&self) -> (r: usize)
        ensures
            r == self.spec_end_byte(),
    {
        self.end_byte
    }

    /// The path of the file of the node.
    pub fn get_file_path(&self) -> (r: &str)
        ensures
            r@ == self.spec_file_path(),
    {
        self.file_path.as_str()
    }

    /// The text of the scoped identifier that an import declaration names.
    pub fn get_import_decl_content(import_decl_node: &JavaNode) -> (r: Result<String, String>)
        ensures
            r is Ok <==> spec_import_decl_content(*import_decl_node) is Some,
            r matches Ok(s) ==> spec_import_decl_content(*import_decl_node) == Some(s@),
            import_decl_node.spec_node_type() != Some(JavaNodeType::ImportDecl) ==> (r matches Err(e)
                && e@ == "Java import declaration node required"@),
            import_decl_node.spec_node_type() == Some(JavaNodeType::ImportDecl) && r is Err ==> (r matches Err(
                e,
            ) && e@ == "Import scoped identifier not found"@),
    {
        if import_decl_node.node_type != Some(JavaNodeType::ImportDecl) {
            return Err("Java import declaration node required".to_owned());
        }
        let children = &import_decl_node.children;
        let mut i: usize = 0;
        proof {
            assert(children@.skip(0) =~= children@);
        }
        while i < children.len()
            invariant
                children@ == import_decl_node.spec_children(),
                import_decl_node.spec_node_type() == Some(JavaNodeType::ImportDecl),
                i <= children.len(),
                spec_first_content_of_type(children@, JavaNodeType::ScopedIdentifier)
                    == spec_first_content_of_type(children@.skip(i as int), JavaNodeType::ScopedIdentifier),
            decreases children.len() - i,
        {
            proof {
                assert(children@.skip(i as int).drop_first() =~= children@.skip(i + 1));
                assert(children@.skip(i as int)[0] == children@[i as int]);
            }
            if children[i].node_type == Some(JavaNodeType::ScopedIdentifier) {
                proof {
                    assert(children@.skip(i as int).len() > 0);
                    assert(spec_first_content_of_type(children@.skip(i as int), JavaNodeType::ScopedIdentifier)
                        == Some(children@[i as int].spec_content()));
                }
                return Ok(children[i].content.clone());
            }
            i = i + 1;
        }
        proof {
            assert(children@.skip(i as int) =~= Seq::<JavaNode>::empty());
        }
        Err("Import scoped identifier not found".to_owned())
    }

    /// Whether the annotations of the tree rooted here are named.
    pub fn has_named_annotations(&self) -> (r: bool)
        ensures
            r == self.spec_annotations_named(),
        decreases self.spec_height(),
    {
        if (self.node_type == Some(JavaNodeType::Annotation) || self.node_type == Some(
            JavaNodeType::MarkerAnnotation,
        )) && self.children.len() <= 1 {
            return false;
        }
        let mut i: usize = 0;
        while i < self.children.len()
            invariant
                i <= self.children.len(),
                forall|j: int| 0 <= j < i ==> #[trigger] self.children@[j].spec_annotations_named(),
            decreases self.children.len() - i,
        {
            proof {
                self.lemma_child_height(i as int);
            }
            if !self.children[i].has_named_annotations() {
                proof {
                    if all_annotations_named(self.children@) {
                        lemma_all_named(self.children@);
                    }
                }
                return false;
            }
            i = i + 1;
        }
        proof {
            lemma_all_named_from_each(self.children@);
        }
        true
    }

    /// Whether the node names a data type: a type identifier, an integral or floating point
    /// type, or `boolean`.
    pub fn is_data_type_identifier(&self) -> (r: bool)
        ensures
            r == (self.spec_node_type() matches Some(t) && spec_is_data_type_node(t)),
    {
        if let Some(node_type) = self.node_type {
            return node_type.is_data_type_id_identifier() || JavaNodeType::IntegralType
                == node_type || JavaNodeType::FloatingPointType == node_type
                || JavaNodeType::Boolean == node_type;
        }
        false
    }
}

/// The text of the first node of `children` of the kind `t`, if any.
pub open spec fn spec_first_content_of_type(children: Seq<JavaNode>, t: JavaNodeType) -> Option<Seq<char>>
    decreases children.len(),
{
    if children.len() == 0 {
        None
    } else if children[0].spec_node_type() == Some(t) {
        Some(children[0].spec_content())
    } else {
        spec_first_content_of_type(children.drop_first(), t)
    }
}

/// The text of the scoped identifier that an import declaration node names, if it is one and
/// names one.
pub open spec fn spec_import_decl_content(node: JavaNode) -> Option<Seq<char>> {
    if node.spec_node_type() == Some(JavaNodeType::ImportDecl) {
        spec_first_content_of_type(node.spec_children(), JavaNodeType::ScopedIdentifier)
    } else {
        None
    }
}

proof fn lemma_all_named_from_each(nodes: Seq<JavaNode>)
    requires
        forall|i: int| 0 <= i < nodes.len() ==> #[trigger] nodes[i].spec_annotations_named(),
    ensures
        all_annotations_named(nodes),
    decreases nodes.len(),
{
    if nodes.len() > 0 {
        let init = nodes.subrange(0, nodes.len() - 1);
        assert forall|i: int| 0 <= i < init.len() implies #[trigger] init[i].spec_annotations_named() by {
            assert(init[i] == nodes[i]);
        }
        lemma_all_named_from_each(init);
        assert(nodes[nodes.len() - 1].spec_annotations_named());
    }
}

/// Whether nodes of the kind are printed with their text when a tree is shown.
pub open spec fn spec_is_printable(t: JavaNodeType) -> bool {
    t == JavaNodeType::Id || t == JavaNodeType::Package || t == JavaNodeType::Import || t == JavaNodeType::Public || t == JavaNodeType::Protected || t == JavaNodeType::Private || t == JavaNodeType::Static || t == JavaNodeType::Final || t == JavaNodeType::Class || t == JavaNodeType::Interface || t == JavaNodeType::EnumConstant || t == JavaNodeType::Extends || t == JavaNodeType::Implements || t == JavaNodeType::TypeIdentifier || t == JavaNodeType::Dot || t == JavaNodeType::Semicolon || t == JavaNodeType::LParentheses || t == JavaNodeType::RParentheses || t == JavaNodeType::LBrace || t == JavaNodeType::RBrace || t == JavaNodeType::LBracket || t == JavaNodeType::RBracket || t == JavaNodeType::Comma || t == JavaNodeType::Equals || t == JavaNodeType::StringLiteral || t == JavaNodeType::At || t == JavaNodeType::Void || t == JavaNodeType::Int || t == JavaNodeType::Boolean
}

fn is_printable_kind(t: JavaNodeType) -> (r: bool)
    ensures
        r == spec_is_printable(t),
{
    t == JavaNodeType::Id || t == JavaNodeType::Package || t == JavaNodeType::Import || t == JavaNodeType::Public || t == JavaNodeType::Protected || t == JavaNodeType::Private || t == JavaNodeType::Static || t == JavaNodeType::Final || t == JavaNodeType::Class || t == JavaNodeType::Interface || t == JavaNodeType::EnumConstant || t == JavaNodeType::Extends || t == JavaNodeType::Implements || t == JavaNodeType::TypeIdentifier || t == JavaNodeType::Dot || t == JavaNodeType::Semicolon || t == JavaNodeType::LParentheses || t == JavaNodeType::RParentheses || t == JavaNodeType::LBrace || t == JavaNodeType::RBrace || t == JavaNodeType::LBracket || t == JavaNodeType::RBracket || t == JavaNodeType::Comma || t == JavaNodeType::Equals || t == JavaNodeType::StringLiteral || t == JavaNodeType::At || t == JavaNodeType::Void || t == JavaNodeType::Int || t == JavaNodeType::Boolean
}

/// The first node of kind `t` in depth-first walks of the trees of `nodes`, in order.
spec fn dfs_first_seq(nodes: Seq<JavaNode>, t: JavaNodeType) -> Option<JavaNode>
    decreases nodes, 0int,
{
    if nodes.len() == 0 {
        None
    } else {
        match dfs_first_seq(nodes.subrange(0, nodes.len() - 1), t) {
            Some(x) => Some(x),
            None => nodes[nodes.len() - 1].spec_dfs_first(t),
        }
    }
}

proof fn lemma_dfs_prefix(nodes: Seq<JavaNode>, n: int, t: JavaNodeType)
    requires
        0 < n <= nodes.len(),
        dfs_first_seq(nodes.subrange(0, n), t) is Some,
    ensures
        dfs_first_seq(nodes, t) == dfs_first_seq(nodes.subrange(0, n), t),
    decreases nodes.len() - n,
{
    if n < nodes.len() {
        assert(nodes.subrange(0, n + 1).subrange(0, n) =~= nodes.subrange(0, n));
        lemma_dfs_prefix(nodes, n + 1, t);
    } else {
        assert(nodes.subrange(0, n) =~= nodes);
    }
}

/// The largest height of the nodes of `nodes`; 0 when there is none.
spec fn max_height(nodes: Seq<JavaNode>) -> nat
    decreases nodes, 0int,
{
    if nodes.len() == 0 {
        0
    } else {
        let a = max_height(nodes.subrange(0, nodes.len() - 1));
        let b = nodes[nodes.len() - 1].spec_height();
        if a < b {
            b
        } else {
            a
        }
    }
}

proof fn lemma_max_height(nodes: Seq<JavaNode>, i: int)
    requires
        0 <= i < nodes.len(),
    ensures
        nodes[i].spec_height() <= max_height(nodes),
    decreases nodes.len(),
{
    if i < nodes.len() - 1 {
        let init = nodes.subrange(0, nodes.len() - 1);
        lemma_max_height(init, i);
        assert(init[i] == nodes[i]);
    }
}

/// Whether the trees of `a` and of `b` are the same, tree for tree.
spec fn all_same(a: Seq<JavaNode>, b: Seq<JavaNode>) -> bool
    decreases a, 0int,
{
    if a.len() == 0 {
        true
    } else {
        b.len() == a.len() && all_same(a.subrange(0, a.len() - 1), b.subrange(0, a.len() - 1))
            && a[a.len() - 1].spec_same(b[a.len() - 1])
    }
}

proof fn lemma_all_same(a: Seq<JavaNode>, b: Seq<JavaNode>)
    requires
        a.len() == b.len(),
        all_same(a, b),
    ensures
        forall|j: int| 0 <= j < a.len() ==> #[trigger] a[j].spec_same(b[j]),
    decreases a.len(),
{
    if a.len() > 0 {
        let ia = a.subrange(0, a.len() - 1);
        let ib = b.subrange(0, a.len() - 1);
        lemma_all_same(ia, ib);
        assert forall|j: int| 0 <= j < a.len() implies #[trigger] a[j].spec_same(b[j]) by {
            if j < a.len() - 1 {
                assert(ia[j] == a[j]);
                assert(ib[j] == b[j]);
            }
        }
    }
}

proof fn lemma_all_same_from_each(a: Seq<JavaNode>, b: Seq<JavaNode>)
    requires
        a.len() == b.len(),
        forall|j: int| 0 <= j < a.len() ==> #[trigger] a[j].spec_same(b[j]),
    ensures
        all_same(a, b),
    decreases a.len(),
{
    if a.len() > 0 {
        let ia = a.subrange(0, a.len() - 1);
        let ib = b.subrange(0, a.len() - 1);
        assert forall|j: int| 0 <= j < ia.len() implies #[trigger] ia[j].spec_same(ib[j]) by {
            assert(ia[j] == a[j]);
            assert(ib[j] == b[j]);
        }
        lemma_all_same_from_each(ia, ib);
        assert(a[a.len() - 1].spec_same(b[a.len() - 1]));
    }
}

/// Whether every node of `nodes` has named annotations.
spec fn all_annotations_named(nodes: Seq<JavaNode>) -> bool
    decreases nodes, 0int,
{
    if nodes.len() == 0 {
        true
    } else {
        all_annotations_named(nodes.subrange(0, nodes.len() - 1)) && nodes[nodes.len() - 1].spec_annotations_named()
    }
}

proof fn lemma_all_named(nodes: Seq<JavaNode>)
    requires
        all_annotations_named(nodes),
    ensures
        forall|i: int| 0 <= i < nodes.len() ==> #[trigger] nodes[i].spec_annotations_named(),
    decreases nodes.len(),
{
    if nodes.len() > 0 {
        let init = nodes.subrange(0, nodes.len() - 1);
        lemma_all_named(init);
        assert forall|i: int| 0 <= i < nodes.len() implies #[trigger] nodes[i].spec_annotations_named() by {
            if i < nodes.len() - 1 {
                assert(init[i] == nodes[i]);
            }
        }
    }
}

/// Whether the kind names a data type.
pub open spec fn spec_is_data_type_node(t: JavaNodeType) -> bool {
    t == JavaNodeType::TypeIdentifier || t == JavaNodeType::ScopedTypeIdentifier || t
        == JavaNodeType::IntegralType || t == JavaNodeType::FloatingPointType || t
        == JavaNodeType::Boolean
}

} // verus!
