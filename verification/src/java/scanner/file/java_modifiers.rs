//! The modifiers of a Java declaration (annotations, visibility, `static`, `abstract`, `final`),
//! read from the children of its `modifiers` node.
use vstd::prelude::*;

use crate::common::file_cache::FileCache;
use crate::java::annotation_usage::{
    annotation_views, is_java_node_annotation, spec_is_annotation, JavaAnnotationUsage,
};
use crate::java::dto::java_import::JavaImportView;
use crate::java::dto::java_visibility::{self, is_visibility_node_type, spec_visibility_of, JavaVisibility};
use crate::java::parser::java_node::JavaNode;
use crate::java::parser::java_node_type::{spec_is_visibility_type, JavaNodeType};
use crate::java::scanner::file::java_file_imports::{JavaFileImports, JavaFileImportsView};

verus! {

/// What the modifiers read so far give.
pub struct ModifiersView {
    pub annotations: Seq<JavaImportView>,
    pub visibility: JavaVisibility,
    pub is_static: bool,
    pub is_abstract: bool,
    pub is_final: bool,
}

/// No modifier read: package visibility.
pub open spec fn spec_modifiers_start() -> ModifiersView {
    ModifiersView {
        annotations: Seq::empty(),
        visibility: JavaVisibility::Package,
        is_static: false,
        is_abstract: false,
        is_final: false,
    }
}

/// One modifier read: an annotation (kept when the file gives the import of its type), a
/// visibility keyword (the last one wins), `static`, `abstract` or `final`.
pub open spec fn spec_modifier_step(
    s: ModifiersView,
    m: JavaNode,
    file_imports: JavaFileImportsView,
    cache: FileCache,
) -> ModifiersView {
    match m.spec_node_type() {
        Some(t) => if spec_is_annotation(t) {
            match file_imports.spec_identifier_import(m.spec_children()[1], cache) {
                Some(i) => ModifiersView { annotations: s.annotations.push(i), ..s },
                None => s,
            }
        } else if spec_is_visibility_type(t) {
            ModifiersView { visibility: spec_visibility_of(t), ..s }
        } else if t == JavaNodeType::Static {
            ModifiersView { is_static: true, ..s }
        } else if t == JavaNodeType::Abstract {
            ModifiersView { is_abstract: true, ..s }
        } else if t == JavaNodeType::Final {
            ModifiersView { is_final: true, ..s }
        } else {
            s
        },
        None => s,
    }
}

/// The modifier nodes `mods` read in order.
pub open spec fn spec_modifiers_fold(
    s: ModifiersView,
    mods: Seq<JavaNode>,
    file_imports: JavaFileImportsView,
    cache: FileCache,
) -> ModifiersView
    decreases mods.len(),
{
    if mods.len() == 0 {
        s
    } else {
        spec_modifier_step(
            spec_modifiers_fold(s, mods.drop_last(), file_imports, cache),
            mods.last(),
            file_imports,
            cache,
        )
    }
}

/// The modifiers read so far.
pub struct ModifiersScan {
    pub annotations: Vec<JavaAnnotationUsage>,
    pub visibility: JavaVisibility,
    pub is_static: bool,
    pub is_abstract: bool,
    pub is_final: bool,
}

impl ModifiersScan {
    pub open spec fn view(&self) -> ModifiersView {
        ModifiersView {
            annotations: annotation_views(self.annotations@),
            visibility: self.visibility,
            is_static: self.is_static,
            is_abstract: self.is_abstract,
            is_final: self.is_final,
        }
    }

    /// No modifier read: package visibility.
    pub fn new() -> (r: Self)
        ensures
            r.view() == spec_modifiers_start(),
    {
        let r = ModifiersScan {
            annotations: Vec::new(),
            visibility: JavaVisibility::Package,
            is_static: false,
            is_abstract: false,
            is_final: false,
        };
        proof {
            assert(annotation_views(r.annotations@) =~= Seq::<JavaImportView>::empty());
        }
        r
    }

    fn read_modifier(&mut self, m: &JavaNode, file_imports: &JavaFileImports, cache: &FileCache)
        requires
            m.spec_annotations_named(),
        ensures
            final(self).view() == spec_modifier_step(old(self).view(), *m, file_imports@, *cache),
    {
        proof {
            m.lemma_annotations_named();
        }
        if let Some(node_type) = m.get_node_type() {
            if is_java_node_annotation(&node_type) {
                match JavaAnnotationUsage::new_from_java_node_unchecked(m, file_imports, cache) {
                    Ok(annotation) => {
                        let ghost old_a = self.annotations@;
                        self.annotations.push(annotation);
                        proof {
                            assert(annotation_views(self.annotations@) =~= annotation_views(
                                old_a,
                            ).push(annotation.spec_import()));
                        }
                    },
                    Err(_) => {},
                }
            } else if is_visibility_node_type(&node_type) {
                self.visibility = java_visibility::new(&node_type);
            } else if JavaNodeType::Static == node_type {
                self.is_static = true;
            } else if JavaNodeType::Abstract == node_type {
                self.is_abstract = true;
            } else if JavaNodeType::Final == node_type {
                self.is_final = true;
            }
        }
    }

    /// Reads the children of a `modifiers` node in order.
    pub fn read_modifiers(&mut self, modifiers_node: &JavaNode, file_imports: &JavaFileImports, cache: &FileCache)
        requires
            modifiers_node.spec_annotations_named(),
        ensures
            final(self).view() == spec_modifiers_fold(
                old(self).view(),
                modifiers_node.spec_children(),
                file_imports@,
                *cache,
            ),
    {
        proof {
            modifiers_node.lemma_annotations_named();
        }
        let mods = modifiers_node.get_children();
        let ghost start = self.view();
        let mut i: usize = 0;
        while i < mods.len()
            invariant
                i <= mods.len(),
                mods@ == modifiers_node.spec_children(),
                forall|j: int| 0 <= j < mods@.len() ==> #[trigger] mods@[j].spec_annotations_named(),
                self.view() == spec_modifiers_fold(start, mods@.take(i as int), file_imports@, *cache),
            decreases mods.len() - i,
        {
            proof {
                assert(mods@.take(i + 1).drop_last() == mods@.take(i as int));
                assert(mods@.take(i + 1).last() == mods@[i as int]);
            }
            self.read_modifier(&mods[i], file_imports, cache);
            i = i + 1;
        }
        proof {
            assert(mods@.take(mods@.len() as int) == mods@);
        }
    }
}

} // verus!
