//! The steps of a Java recipe.
use vstd::prelude::*;

use crate::common::recipe_step_scanner::{from_block_sequence_item, spec_step_of_item};
use crate::common::text::{str_eq, views};
use crate::yaml::parser::dto::yaml_node::YamlNode;
use crate::yaml::parser::dto::yaml_node_type::YamlNodeType;

verus! {

/// The settings of a step that replaces an import.
#[derive(PartialEq, Eq, Structural)]
pub struct JavaRecipeStepReplaceImport {}

/// The settings of a step that replaces a function call.
#[derive(PartialEq, Eq, Structural)]
pub struct JavaRecipeStepReplaceFunctionCall {}

/// A step of a Java recipe.
#[derive(PartialEq, Eq, Structural)]
pub enum JavaRecipeStep {
    ReplaceImport(JavaRecipeStepReplaceImport),
    ReplaceFunctionCall(JavaRecipeStepReplaceFunctionCall),
}

/// The names of the Java steps, in alphabetical order.
pub open spec fn spec_java_steps() -> Seq<Seq<char>> {
    seq!["replaceFunctionCall"@, "replaceImport"@]
}

/// The step that a sequence item holds, or the error that says why it holds none.
pub open spec fn spec_step(item: YamlNode) -> Result<JavaRecipeStep, Seq<char>> {
    match spec_step_of_item(item, spec_java_steps()) {
        Ok((key, _)) => if key == "replaceImport"@ {
            Ok(JavaRecipeStep::ReplaceImport(JavaRecipeStepReplaceImport {  }))
        } else {
            Ok(JavaRecipeStep::ReplaceFunctionCall(JavaRecipeStepReplaceFunctionCall {  }))
        },
        Err(e) => Err(e),
    }
}

/// The steps of the items `items` that hold one, in order.
pub open spec fn spec_steps_found(items: Seq<YamlNode>) -> Seq<JavaRecipeStep>
    decreases items.len(),
{
    if items.len() == 0 {
        Seq::empty()
    } else {
        spec_steps_found(items.drop_last()) + match spec_step(items.last()) {
            Ok(s) => seq![s],
            Err(_) => Seq::empty(),
        }
    }
}

/// The errors of the items `items` that hold no step, in order.
pub open spec fn spec_step_errors(items: Seq<YamlNode>) -> Seq<Seq<char>>
    decreases items.len(),
{
    if items.len() == 0 {
        Seq::empty()
    } else {
        spec_step_errors(items.drop_last()) + match spec_step(items.last()) {
            Ok(_) => Seq::empty(),
            Err(e) => seq![e],
        }
    }
}

/// Whether every node of `nodes` is a sequence item.
pub open spec fn spec_all_sequence_items(nodes: Seq<YamlNode>) -> bool {
    forall|i: int| 0 <= i < nodes.len() ==> #[trigger] nodes[i].spec_node_type() == Some(
        YamlNodeType::BlockSequenceItem,
    )
}

/// The steps that a steps block gives (its first child holds the sequence items), or the
/// errors: one when the block cannot be read or holds something other than sequence items,
/// else one for each item that holds no step.
pub open spec fn spec_steps(steps_block: YamlNode) -> Result<Seq<JavaRecipeStep>, Seq<Seq<char>>> {
    if steps_block.spec_children().len() == 0 {
        Err(seq!["Not possible to read java steps"@])
    } else {
        let items = steps_block.spec_children()[0].spec_children();
        if !spec_all_sequence_items(items) {
            Err(seq!["Invalid Java steps block"@])
        } else if spec_step_errors(items).len() > 0 {
            Err(spec_step_errors(items))
        } else {
            Ok(spec_steps_found(items))
        }
    }
}

/// An error when some node of `step_nodes` is not a sequence item.
fn sanity_check_all_children_are_sequence_items(step_nodes: &Vec<YamlNode>) -> (r: Result<
    (),
    Vec<String>,
>)
    ensures
        r is Ok <==> spec_all_sequence_items(step_nodes@),
        r matches Err(e) ==> e@.len() == 1 && e@[0]@ == "Invalid Java steps block"@,
{
    let mut number_of_sequence_items: usize = 0;
    let mut i: usize = 0;
    while i < step_nodes.len()
        invariant
            i <= step_nodes.len(),
            number_of_sequence_items <= i,
            number_of_sequence_items == i <==> spec_all_sequence_items(step_nodes@.take(i as int)),
        decreases step_nodes.len() - i,
    {
        let is_item = step_nodes[i].get_node_type() == Some(YamlNodeType::BlockSequenceItem);
        if is_item {
            number_of_sequence_items = number_of_sequence_items + 1;
        }
        proof {
            let t = step_nodes@.take(i + 1);
            assert(t[i as int] == step_nodes@[i as int]);
            if spec_all_sequence_items(t) {
                assert forall|j: int| 0 <= j < i implies #[trigger] step_nodes@.take(i as int)[j].spec_node_type()
                    == Some(YamlNodeType::BlockSequenceItem) by {
                    assert(t[j] == step_nodes@.take(i as int)[j]);
                }
            }
            if number_of_sequence_items == i + 1 {
                assert forall|j: int| 0 <= j < i + 1 implies #[trigger] t[j].spec_node_type() == Some(
                    YamlNodeType::BlockSequenceItem,
                ) by {
                    if j < i {
                        assert(t[j] == step_nodes@.take(i as int)[j]);
                    }
                }
            }
        }
        i = i + 1;
    }
    assert(step_nodes@.take(step_nodes.len() as int) =~= step_nodes@);
    if number_of_sequence_items < step_nodes.len() {
        return Err(vec!["Invalid Java steps block".to_owned()]);
    }
    Ok(())
}

impl JavaRecipeStep {
    /// The steps that a steps block gives; the errors when it holds something other than
    /// steps, one for each item that holds no step.
    pub fn from_block_sequence(steps_block: &YamlNode) -> (r: Result<Vec<Self>, Vec<String>>)
        ensures
            match spec_steps(*steps_block) {
                Ok(s) => r matches Ok(v) && v@ == s,
                Err(es) => r matches Err(errs) && views(errs@) == es,
            },
    {
        let children = steps_block.get_children();
        if children.len() == 0 {
            let errs = vec!["Not possible to read java steps".to_owned()];
            assert(views(errs@) =~= seq!["Not possible to read java steps"@]);
            return Err(errs);
        }
        let step_nodes = children[0].get_children();
        match sanity_check_all_children_are_sequence_items(step_nodes) {
            Ok(()) => {},
            Err(e) => {
                assert(views(e@) =~= seq!["Invalid Java steps block"@]);
                return Err(e);
            },
        }
        let mut errors: Vec<String> = Vec::new();
        let mut steps: Vec<JavaRecipeStep> = Vec::new();
        let mut i: usize = 0;
        while i < step_nodes.len()
            invariant
                i <= step_nodes.len(),
                steps@ == spec_steps_found(step_nodes@.take(i as int)),
                views(errors@) == spec_step_errors(step_nodes@.take(i as int)),
            decreases step_nodes.len() - i,
        {
            assert(step_nodes@.take(i + 1).drop_last() =~= step_nodes@.take(i as int));
            assert(step_nodes@.take(i + 1).last() == step_nodes@[i as int]);
            let ghost before = errors@;
            match Self::from_block_sequence_item(&step_nodes[i]) {
                Ok(new_step) => steps.push(new_step),
                Err(err) => {
                    errors.push(err);
                    assert(views(errors@) =~= views(before).push(errors@.last()@));
                },
            }
            i = i + 1;
        }
        assert(step_nodes@.take(step_nodes.len() as int) =~= step_nodes@);
        if errors.len() > 0 {
            return Err(errors);
        }
        Ok(steps)
    }

    /// The step that a sequence item holds, or the error that says why it holds none.
    fn from_block_sequence_item(sequence_item: &YamlNode) -> (r: Result<Self, String>)
        ensures
            match spec_step(*sequence_item) {
                Ok(s) => r == Ok::<Self, String>(s),
                Err(e) => r matches Err(err) && err@ == e,
            },
    {
        let java_steps = vec!["replaceFunctionCall".to_owned(), "replaceImport".to_owned()];
        proof {
            reveal_strlit("replaceFunctionCall");
            reveal_strlit("replaceImport");
            assert(views(java_steps@) =~= spec_java_steps());
        }
        let (key, _block_mapping) = match from_block_sequence_item(sequence_item, &java_steps) {
            Ok(found) => found,
            Err(e) => {
                return Err(e);
            },
        };
        if str_eq(key.as_str(), "replaceImport") {
            Ok(JavaRecipeStep::ReplaceImport(JavaRecipeStepReplaceImport {  }))
        } else {
            Ok(JavaRecipeStep::ReplaceFunctionCall(JavaRecipeStepReplaceFunctionCall {  }))
        }
    }

    /// Whether the step replaces an import.
    pub fn is_replace_import(&self) -> (r: bool)
        ensures
            r == (self is ReplaceImport),
    {
        match self {
            JavaRecipeStep::ReplaceImport(_) => true,
            JavaRecipeStep::ReplaceFunctionCall(_) => false,
        }
    }
}

} // verus!
