//! A Java recipe: its preconditions and its steps.
use vstd::prelude::*;

use crate::java::recipe::precondition::{spec_precondition, JavaRecipePrecondition, JavaRecipePreconditionView};
use crate::java::recipe::step::{spec_steps, JavaRecipeStep};
use crate::yaml::parser::dto::yaml_node::YamlNode;

verus! {

/// The recipe that a precondition block, where given, and a steps block give: its
/// precondition and its steps; otherwise the errors of the first part that cannot be read.
pub open spec fn spec_recipe(precondition_node: Option<YamlNode>, steps_block: YamlNode) -> Result<
    (Option<JavaRecipePreconditionView>, Seq<JavaRecipeStep>),
    Seq<Seq<char>>,
> {
    let precondition: Result<Option<JavaRecipePreconditionView>, Seq<Seq<char>>> =
        match precondition_node {
        Some(n) => match spec_precondition(n) {
            Ok(p) => Ok(Some(p)),
            Err(e) => Err(e),
        },
        None => Ok(None),
    };
    match precondition {
        Ok(p) => match spec_steps(steps_block) {
            Ok(s) => Ok((p, s)),
            Err(e) => Err(e),
        },
        Err(e) => Err(e),
    }
}

/// A Java recipe.
pub struct JavaRecipe {
    precondition: Option<JavaRecipePrecondition>,
    steps: Vec<JavaRecipeStep>,
}

impl JavaRecipe {
    /// The precondition of the recipe, where it has one.
    pub closed spec fn spec_precondition(&self) -> Option<JavaRecipePreconditionView> {
        match self.precondition {
            Some(p) => Some(p@),
            None => None,
        }
    }

    /// The steps of the recipe, in order.
    pub closed spec fn spec_steps(&self) -> Seq<JavaRecipeStep> {
        self.steps@
    }

    /// The recipe that a precondition block, where given, and a steps block give; the errors
    /// of the first part that cannot be read.
    pub fn new(precondition_node_opt: Option<&YamlNode>, steps_block: &YamlNode) -> (r: Result<
        Self,
        Vec<String>,
    >)
        ensures
            match spec_recipe(
                match precondition_node_opt {
                    Some(n) => Some(*n),
                    None => None,
                },
                *steps_block,
            ) {
                Ok((p, s)) => r matches Ok(recipe) && recipe.spec_precondition() == p
                    && recipe.spec_steps() == s,
                Err(es) => r matches Err(errs) && errs@.len() == es.len() && forall|i: int|
                    0 <= i < es.len() ==> #[trigger] errs@[i]@ == es[i],
            },
    {
        let mut precondition: Option<JavaRecipePrecondition> = None;
        if let Some(precondition_node) = precondition_node_opt {
            match JavaRecipePrecondition::new(precondition_node) {
                Ok(p) => {
                    precondition = Some(p);
                },
                Err(e) => {
                    return Err(e);
                },
            }
        }
        let steps = match JavaRecipeStep::from_block_sequence(steps_block) {
            Ok(s) => s,
            Err(e) => {
                proof {
                    assert forall|i: int| 0 <= i < e@.len() implies #[trigger] e@[i]@
                        == crate::common::text::views(e@)[i] by {}
                }
                return Err(e);
            },
        };
        Ok(JavaRecipe { precondition, steps })
    }

    /// The precondition of the recipe, where it has one.
    pub fn get_precondition(&self) -> (r: &Option<JavaRecipePrecondition>)
        ensures
            match *r {
                Some(p) => self.spec_precondition() == Some(p@),
                None => self.spec_precondition() is None,
            },
    {
        &self.precondition
    }

    /// The steps of the recipe, in order.
    pub fn get_steps(&self) -> (r: &Vec<JavaRecipeStep>)
        ensures
            r@ == self.spec_steps(),
    {
        &self.steps
    }
}

} // verus!
