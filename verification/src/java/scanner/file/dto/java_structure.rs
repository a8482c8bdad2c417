//! A structure of a Java file as the file scan reads it: its kind, its annotations, the
//! declarations of its fields and methods, and the structures declared directly in it.
use vstd::prelude::*;

use crate::java::parser::dto::java_annotation::{spec_annotation_nodes, JavaAnnotation};
use crate::java::parser::java_node::JavaNode;
use crate::java::parser::java_node_type::JavaNodeType;
use crate::java::scanner::file::java_structure_type::JavaStructureType;

verus! {

/// The kind of structure that the file scan reads from a declaration node kind: class,
/// interface or enum.
pub open spec fn spec_scanned_type_of(t: Option<JavaNodeType>) -> Option<JavaStructureType> {
    if t == Some(JavaNodeType::ClassDecl) {
        Some(JavaStructureType::Class)
    } else if t == Some(JavaNodeType::InterfaceDeclaration) {
        Some(JavaStructureType::Interface)
    } else if t == Some(JavaNodeType::EnumDeclaration) {
        Some(JavaStructureType::Enum)
    } else {
        None
    }
}

/// The nodes of kind `t` among `nodes`, in order.
pub open spec fn spec_of_kind(nodes: Seq<JavaNode>, t: JavaNodeType) -> Seq<JavaNode>
    decreases nodes.len(),
{
    if nodes.len() == 0 {
        Seq::empty()
    } else {
        spec_of_kind(nodes.drop_last(), t) + if nodes.last().spec_node_type() == Some(t) {
            seq![nodes.last()]
        } else {
            Seq::empty()
        }
    }
}

/// The annotations of the `modifiers` nodes among `children`, in order.
pub open spec fn spec_modifier_annotations(children: Seq<JavaNode>) -> Seq<JavaNode>
    decreases children.len(),
{
    if children.len() == 0 {
        Seq::empty()
    } else {
        spec_modifier_annotations(children.drop_last()) + if children.last().spec_node_type() == Some(
            JavaNodeType::Modifiers,
        ) {
            spec_annotation_nodes(children.last().spec_children())
        } else {
            Seq::empty()
        }
    }
}

/// The declarations of kind `t` in the class bodies among `children`, in order.
pub open spec fn spec_body_declarations(children: Seq<JavaNode>, t: JavaNodeType) -> Seq<JavaNode>
    decreases children.len(),
{
    if children.len() == 0 {
        Seq::empty()
    } else {
        spec_body_declarations(children.drop_last(), t) + if children.last().spec_node_type() == Some(
            JavaNodeType::ClassBody,
        ) {
            spec_of_kind(children.last().spec_children(), t)
        } else {
            Seq::empty()
        }
    }
}

/// The class, interface and enum declarations among `children`, in order.
pub open spec fn spec_nested_declarations(children: Seq<JavaNode>) -> Seq<JavaNode>
    decreases children.len(),
{
    if children.len() == 0 {
        Seq::empty()
    } else {
        spec_nested_declarations(children.drop_last()) + if spec_scanned_type_of(
            children.last().spec_node_type(),
        ) is Some {
            seq![children.last()]
        } else {
            Seq::empty()
        }
    }
}

/// Whether `a` and `b` hold the same trees, one for one.
pub open spec fn spec_same_nodes(a: Seq<JavaNode>, b: Seq<JavaNode>) -> bool {
    a.len() == b.len() && forall|i: int| 0 <= i < a.len() ==> (#[trigger] a[i]).spec_same(b[i])
}

/// A structure declared in a Java file, as the file scan reads it.
pub struct JavaStructure {
    structure_type: JavaStructureType,
    annotations: Vec<JavaAnnotation>,
    fields: Vec<JavaNode>,
    methods: Vec<JavaNode>,
    substructures: Vec<JavaStructure>,
}

impl JavaStructure {
    /// The kind of the structure.
    pub closed spec fn spec_type(&self) -> JavaStructureType {
        self.structure_type
    }

    /// The annotation nodes of the structure, in order.
    pub closed spec fn spec_annotation_nodes(&self) -> Seq<JavaNode> {
        self.annotations@.map_values(|a: JavaAnnotation| a.spec_node())
    }

    /// The field declaration nodes of the structure, in order.
    pub closed spec fn spec_fields(&self) -> Seq<JavaNode> {
        self.fields@
    }

    /// The method declaration nodes of the structure, in order.
    pub closed spec fn spec_methods(&self) -> Seq<JavaNode> {
        self.methods@
    }

    /// The structures declared directly in the structure, in order.
    pub closed spec fn spec_substructures(&self) -> Seq<JavaStructure> {
        self.substructures@
    }

    /// Whether the structure is what the file scan reads from the declaration `node`: the kind
    /// that the node declares, the annotations of its `modifiers` children, the field and method
    /// declarations of its class bodies, and, for each class, interface or enum declaration
    /// among its children, the structure read from it.
    pub closed spec fn spec_scans(self, node: JavaNode) -> bool
        decreases self, 1int,
    {
        let children = node.spec_children();
        &&& spec_scanned_type_of(node.spec_node_type()) == Some(self.structure_type)
        &&& spec_same_nodes(
            self.annotations@.map_values(|a: JavaAnnotation| a.spec_node()),
            spec_modifier_annotations(children),
        )
        &&& spec_same_nodes(self.fields@, spec_body_declarations(children, JavaNodeType::FieldDeclaration))
        &&& spec_same_nodes(self.methods@, spec_body_declarations(children, JavaNodeType::MethodDecl))
        &&& all_scan(self.substructures@, spec_nested_declarations(children))
    }

    /// What a structure that the file scan read from the declaration `node` holds (see
    /// `spec_scans`).
    pub proof fn lemma_scans(self, node: JavaNode)
        requires
            self.spec_scans(node),
        ensures
            spec_scanned_type_of(node.spec_node_type()) == Some(self.spec_type()),
            spec_same_nodes(self.spec_annotation_nodes(), spec_modifier_annotations(node.spec_children())),
            spec_same_nodes(
                self.spec_fields(),
                spec_body_declarations(node.spec_children(), JavaNodeType::FieldDeclaration),
            ),
            spec_same_nodes(self.spec_methods(), spec_body_declarations(node.spec_children(), JavaNodeType::MethodDecl)),
            self.spec_substructures().len() == spec_nested_declarations(node.spec_children()).len(),
            forall|i: int|
                0 <= i < self.spec_substructures().len() ==> (#[trigger] self.spec_substructures()[i]).spec_scans(
                    spec_nested_declarations(node.spec_children())[i],
                ),
    {
        lemma_all_scan(self.substructures@, spec_nested_declarations(node.spec_children()));
    }

    /// The structure that the file scan reads from the class, interface or enum declaration
    /// `root_node`.
    pub fn new(root_node: &JavaNode) -> (r: JavaStructure)
        requires
            spec_scanned_type_of(root_node.spec_node_type()) is Some,
        ensures
            r.spec_scans(*root_node),
        decreases root_node.spec_height(),
    {
        let structure_type = match root_node.get_node_type() {
            Some(JavaNodeType::ClassDecl) => JavaStructureType::Class,
            Some(JavaNodeType::InterfaceDeclaration) => JavaStructureType::Interface,
            _ => JavaStructureType::Enum,
        };
        let children = root_node.get_children();
        let mut annotations: Vec<JavaAnnotation> = Vec::new();
        let mut fields: Vec<JavaNode> = Vec::new();
        let mut methods: Vec<JavaNode> = Vec::new();
        let mut substructures: Vec<JavaStructure> = Vec::new();
        let mut i: usize = 0;
        proof {
            assert forall|k: int| 0 <= k < children@.len() implies (#[trigger] children@[k]).spec_height()
                < root_node.spec_height() by {
                root_node.lemma_child_height(k);
            }
            assert(annotations@.map_values(|a: JavaAnnotation| a.spec_node()) =~= Seq::<JavaNode>::empty());
        }
        while i < children.len()
            invariant
                i <= children.len(),
                children@ == root_node.spec_children(),
                forall|k: int| 0 <= k < children@.len() ==> (#[trigger] children@[k]).spec_height() < root_node.spec_height(),
                spec_same_nodes(
                    annotations@.map_values(|a: JavaAnnotation| a.spec_node()),
                    spec_modifier_annotations(children@.take(i as int)),
                ),
                spec_same_nodes(fields@, spec_body_declarations(children@.take(i as int), JavaNodeType::FieldDeclaration)),
                spec_same_nodes(methods@, spec_body_declarations(children@.take(i as int), JavaNodeType::MethodDecl)),
                all_scan(substructures@, spec_nested_declarations(children@.take(i as int))),
            decreases children.len() - i,
        {
            proof {
                assert(children@.take(i + 1).drop_last() =~= children@.take(i as int));
                assert(children@.take(i + 1).last() == children@[i as int]);
            }
            let child = &children[i];
            let node_type = child.get_node_type();
            if node_type == Some(JavaNodeType::Modifiers) {
                let mut found = JavaAnnotation::new_from_modifiers(child);
                let ghost before = annotations@;
                let ghost found_nodes = found@.map_values(|a: JavaAnnotation| a.spec_node());
                proof {
                    assert forall|k: int| 0 <= k < found_nodes.len() implies (#[trigger] found_nodes[k]).spec_same(
                        spec_annotation_nodes(child.spec_children())[k],
                    ) by {
                        assert(found_nodes[k] == found@[k].spec_node());
                    }
                    lemma_same_nodes_concat(
                        before.map_values(|a: JavaAnnotation| a.spec_node()),
                        spec_modifier_annotations(children@.take(i as int)),
                        found_nodes,
                        spec_annotation_nodes(child.spec_children()),
                    );
                }
                annotations.append(&mut found);
                proof {
                    assert(annotations@.map_values(|a: JavaAnnotation| a.spec_node()) =~= before.map_values(
                        |a: JavaAnnotation| a.spec_node(),
                    ) + found_nodes);
                }
            } else if node_type == Some(JavaNodeType::ClassBody) {
                push_of_kind(
                    &mut fields,
                    child.get_children(),
                    JavaNodeType::FieldDeclaration,
                    Ghost(spec_body_declarations(children@.take(i as int), JavaNodeType::FieldDeclaration)),
                );
                push_of_kind(
                    &mut methods,
                    child.get_children(),
                    JavaNodeType::MethodDecl,
                    Ghost(spec_body_declarations(children@.take(i as int), JavaNodeType::MethodDecl)),
                );
            } else if node_type == Some(JavaNodeType::ClassDecl) || node_type == Some(
                JavaNodeType::InterfaceDeclaration,
            ) || node_type == Some(JavaNodeType::EnumDeclaration) {
                let sub = JavaStructure::new(child);
                let ghost before = substructures@;
                substructures.push(sub);
                proof {
                    lemma_all_scan_push(before, spec_nested_declarations(children@.take(i as int)), sub, *child);
                    assert(spec_nested_declarations(children@.take(i + 1)) =~= spec_nested_declarations(
                        children@.take(i as int),
                    ).push(*child));
                }
            }
            proof {
                let prefix = children@.take(i as int);
                let next = children@.take(i + 1);
                if node_type != Some(JavaNodeType::Modifiers) {
                    assert(spec_modifier_annotations(next) =~= spec_modifier_annotations(prefix));
                }
                if node_type != Some(JavaNodeType::ClassBody) {
                    assert(spec_body_declarations(next, JavaNodeType::FieldDeclaration) =~= spec_body_declarations(
                        prefix,
                        JavaNodeType::FieldDeclaration,
                    ));
                    assert(spec_body_declarations(next, JavaNodeType::MethodDecl) =~= spec_body_declarations(
                        prefix,
                        JavaNodeType::MethodDecl,
                    ));
                }
                if spec_scanned_type_of(node_type) is None {
                    assert(spec_nested_declarations(next) =~= spec_nested_declarations(prefix));
                }
            }
            i = i + 1;
        }
        proof {
            assert(children@.take(children@.len() as int) =~= children@);
        }
        JavaStructure { structure_type, annotations, fields, methods, substructures }
    }

    /// Adds an annotation to the structure.
    pub fn add_annotation(&mut self, annotation: JavaAnnotation)
        ensures
            final(self).spec_annotation_nodes() == old(self).spec_annotation_nodes().push(annotation.spec_node()),
            final(self).spec_type() == old(self).spec_type(),
            final(self).spec_fields() == old(self).spec_fields(),
            final(self).spec_methods() == old(self).spec_methods(),
            final(self).spec_substructures() == old(self).spec_substructures(),
    {
        let ghost before = self.annotations@;
        self.annotations.push(annotation);
        proof {
            assert(self.annotations@.map_values(|a: JavaAnnotation| a.spec_node()) =~= before.map_values(
                |a: JavaAnnotation| a.spec_node(),
            ).push(annotation.spec_node()));
        }
    }
}

/// Whether each structure of `structs` is what the file scan reads from the declaration at
/// the same place in `nodes`.
pub open spec fn all_scan(structs: Seq<JavaStructure>, nodes: Seq<JavaNode>) -> bool
    decreases structs, 0int,
{
    if structs.len() == 0 {
        nodes.len() == 0
    } else {
        &&& nodes.len() > 0
        &&& structs.last().spec_scans(nodes.last())
        &&& all_scan(structs.drop_last(), nodes.drop_last())
    }
}

/// Structures read one for one from `nodes`.
proof fn lemma_all_scan(structs: Seq<JavaStructure>, nodes: Seq<JavaNode>)
    requires
        all_scan(structs, nodes),
    ensures
        structs.len() == nodes.len(),
        forall|i: int| 0 <= i < structs.len() ==> (#[trigger] structs[i]).spec_scans(nodes[i]),
    decreases structs.len(),
{
    if structs.len() > 0 {
        lemma_all_scan(structs.drop_last(), nodes.drop_last());
        assert forall|i: int| 0 <= i < structs.len() implies (#[trigger] structs[i]).spec_scans(nodes[i]) by {
            if i < structs.len() - 1 {
                assert(structs.drop_last()[i] == structs[i]);
                assert(nodes.drop_last()[i] == nodes[i]);
            }
        }
    }
}

proof fn lemma_all_scan_push(structs: Seq<JavaStructure>, nodes: Seq<JavaNode>, s: JavaStructure, n: JavaNode)
    requires
        all_scan(structs, nodes),
        s.spec_scans(n),
    ensures
        all_scan(structs.push(s), nodes.push(n)),
{
    assert(structs.push(s).drop_last() =~= structs);
    assert(nodes.push(n).drop_last() =~= nodes);
}

/// Same trees one for one, joined: same trees one for one.
proof fn lemma_same_nodes_concat(a1: Seq<JavaNode>, b1: Seq<JavaNode>, a2: Seq<JavaNode>, b2: Seq<JavaNode>)
    requires
        spec_same_nodes(a1, b1),
        spec_same_nodes(a2, b2),
    ensures
        spec_same_nodes(a1 + a2, b1 + b2),
{
    assert forall|i: int| 0 <= i < (a1 + a2).len() implies (#[trigger] (a1 + a2)[i]).spec_same((b1 + b2)[i]) by {
        if i < a1.len() {
            assert((a1 + a2)[i] == a1[i] && (b1 + b2)[i] == b1[i]);
        } else {
            assert((a1 + a2)[i] == a2[i - a1.len()] && (b1 + b2)[i] == b2[i - b1.len()]);
        }
    }
}

/// Appends to `out`, which holds copies of `prefix`, copies of the nodes of kind `t` among
/// `nodes`.
fn push_of_kind(out: &mut Vec<JavaNode>, nodes: &Vec<JavaNode>, t: JavaNodeType, Ghost(prefix): Ghost<Seq<JavaNode>>)
    requires
        spec_same_nodes(old(out)@, prefix),
    ensures
        spec_same_nodes(final(out)@, prefix + spec_of_kind(nodes@, t)),
{
    let mut i: usize = 0;
    proof {
        assert(prefix + spec_of_kind(nodes@.take(0), t) =~= prefix);
    }
    while i < nodes.len()
        invariant
            i <= nodes.len(),
            spec_same_nodes(out@, prefix + spec_of_kind(nodes@.take(i as int), t)),
        decreases nodes.len() - i,
    {
        proof {
            assert(nodes@.take(i + 1).drop_last() =~= nodes@.take(i as int));
            assert(nodes@.take(i + 1).last() == nodes@[i as int]);
        }
        let ghost before = out@;
        if nodes[i].get_node_type() == Some(t) {
            let c = nodes[i].deep_clone();
            out.push(c);
            proof {
                assert(before.push(c) =~= before + seq![c]);
                assert(spec_same_nodes(seq![c], seq![nodes@[i as int]]));
                lemma_same_nodes_concat(before, prefix + spec_of_kind(nodes@.take(i as int), t), seq![c], seq![nodes@[i as int]]);
                assert(prefix + spec_of_kind(nodes@.take(i + 1), t) =~= prefix + spec_of_kind(nodes@.take(i as int), t) + seq![nodes@[i as int]]);
            }
        } else {
            proof {
                assert(prefix + spec_of_kind(nodes@.take(i + 1), t) =~= prefix + spec_of_kind(nodes@.take(i as int), t));
            }
        }
        i = i + 1;
    }
    proof {
        assert(nodes@.take(nodes@.len() as int) =~= nodes@);
    }
}

} // verus!
