//! Annotations of a Java dependency.
use vstd::prelude::*;

use crate::common::text::{lemma_split_last_piece, spec_split};
use crate::java::annotation_usage::JavaAnnotationUsage;
use crate::java::dto::java_import::{spec_route_import, JavaImport};

verus! {

/// A use of `@Test`, JUnit Jupiter's test annotation (`org.junit.jupiter.api.Test`).
pub fn _create_test_annotation_usage() -> (r: JavaAnnotationUsage)
    ensures
        r.spec_import() == spec_route_import("org.junit.jupiter.api.Test"@),
{
    let route = "org.junit.jupiter.api.Test";
    proof {
        reveal_strlit("org.junit.jupiter.api.Test");
        reveal_strlit("*");
        lemma_split_last_piece(route@, '.');
        assert(spec_split(route@, '.').last() != "*"@);
    }
    let mut builder = JavaAnnotationUsage::builder();
    match builder.import(route).build() {
        Ok(annotation) => annotation,
        Err(_) => {
            proof {
                assert(false);
            }
            JavaAnnotationUsage::new(JavaImport::new_from_route(route))
        },
    }
}

} // verus!
