//! Data types of the `java.time` package.
use vstd::prelude::*;

use crate::common::text::{lemma_split_last_piece, spec_split};
use crate::java::data_type::{JavaDataType, JavaDataTypeView};
use crate::java::dto::java_import::{spec_route_import, JavaImport};

verus! {

/// The data type `java.time.OffsetDateTime`.
pub fn _create_offset_date_time() -> (r: JavaDataType)
    ensures
        r@ == JavaDataTypeView::from_import(spec_route_import("java.time.OffsetDateTime"@)),
{
    let route = "java.time.OffsetDateTime";
    proof {
        reveal_strlit("java.time.OffsetDateTime");
        reveal_strlit("*");
        lemma_split_last_piece(route@, '.');
        assert(spec_split(route@, '.').last() != "*"@);
    }
    match JavaImport::new_explicit_import_without_m2_repo_scan(route) {
        Ok(import) => JavaDataType::from_import(import),
        Err(_) => {
            proof {
                assert(false);
            }
            JavaDataType::from_import(JavaImport::new_from_route(route))
        },
    }
}

} // verus!
