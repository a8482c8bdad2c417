//! The preconditions of a Java recipe: the Java version and the dependency it applies to.
use vstd::prelude::*;

use crate::common::recipe_step_scanner::spec_pair_key_value;
use crate::common::text::str_eq;
use crate::yaml::parser::dto::yaml_node::YamlNode;

verus! {

/// What a precondition holds: the Java version and the dependency, where given.
pub struct JavaRecipePreconditionView {
    pub language: Option<Seq<char>>,
    pub dependency: Option<Seq<char>>,
}

/// The error for a first precondition key that is neither the version nor the dependency.
pub open spec fn spec_unexpected_first_key(key: Seq<char>) -> Seq<char> {
    "Unexpected java precondition key \""@ + key + "\", expected one of {java,dependency}"@
}

/// The error for a second precondition key other than the dependency.
pub open spec fn spec_unexpected_second_key(key: Seq<char>) -> Seq<char> {
    "Unexpected java precondition key \""@ + key + "\", expected \"dependency\" or none"@
}

/// The precondition that the mapping pairs `pairs` give, read from the first two of them;
/// otherwise the error that says why not.
pub open spec fn spec_precondition_of_pairs(pairs: Seq<YamlNode>) -> Result<
    JavaRecipePreconditionView,
    Seq<char>,
> {
    if pairs.len() == 0 {
        Err("Expected java precondition(s), found nothing"@)
    } else {
        let first: Result<JavaRecipePreconditionView, Seq<char>> = match spec_pair_key_value(
            pairs[0],
        ) {
            Some((key, value)) => if key == "java"@ {
                Ok(JavaRecipePreconditionView { language: Some(value.spec_content()), dependency: None })
            } else if key == "dependency"@ {
                Ok(JavaRecipePreconditionView { language: None, dependency: Some(value.spec_content()) })
            } else {
                Err(spec_unexpected_first_key(key))
            },
            None => Err("Unexpected java precondition block"@),
        };
        match first {
            Ok(p) => if pairs.len() > 1 {
                match spec_pair_key_value(pairs[1]) {
                    Some((key, value)) => if key == "dependency"@ {
                        Ok(JavaRecipePreconditionView { language: p.language, dependency: Some(value.spec_content()) })
                    } else {
                        Err(spec_unexpected_second_key(key))
                    },
                    None => Ok(p),
                }
            } else {
                Ok(p)
            },
            Err(e) => Err(e),
        }
    }
}

/// The precondition that a precondition block gives (its first child holds the mapping
/// pairs); otherwise the errors that say why not.
pub open spec fn spec_precondition(node: YamlNode) -> Result<JavaRecipePreconditionView, Seq<Seq<char>>> {
    if node.spec_children().len() == 0 {
        Err(seq!["Not possible to read java precondition"@])
    } else {
        match spec_precondition_of_pairs(node.spec_children()[0].spec_children()) {
            Ok(p) => Ok(p),
            Err(e) => Err(seq![e]),
        }
    }
}

/// The preconditions of a Java recipe.
pub struct JavaRecipePrecondition {
    language: Option<String>,
    dependency: Option<String>,
}

impl View for JavaRecipePrecondition {
    type V = JavaRecipePreconditionView;

    closed spec fn view(&self) -> JavaRecipePreconditionView {
        JavaRecipePreconditionView {
            language: match self.language {
                Some(s) => Some(s@),
                None => None,
            },
            dependency: match self.dependency {
                Some(s) => Some(s@),
                None => None,
            },
        }
    }
}

/// The text of the dependency that a node names.
fn get_java_dependency(node: &YamlNode) -> (r: String)
    ensures
        r@ == node.spec_content(),
{
    node.get_content()
}

/// The message for a precondition key that is not expected, around the key.
fn key_error(before: &str, key: &str, after: &str) -> (r: String)
    ensures
        r@ == before@ + key@ + after@,
{
    let mut err = before.to_owned();
    err.append(key);
    err.append(after);
    err
}

impl JavaRecipePrecondition {
    /// The precondition that a precondition block gives; the errors when it cannot be read.
    pub fn new(nodes: &YamlNode) -> (r: Result<Self, Vec<String>>)
        ensures
            match spec_precondition(*nodes) {
                Ok(p) => r matches Ok(q) && q@ == p,
                Err(es) => r matches Err(errs) && errs@.len() == es.len() && forall|i: int|
                    0 <= i < es.len() ==> #[trigger] errs@[i]@ == es[i],
            },
    {
        Self::new_internal(nodes)
    }

    /// The Java version that the recipe needs, where given.
    pub fn get_language(&self) -> (r: &Option<String>)
        ensures
            match *r {
                Some(s) => self@.language == Some(s@),
                None => self@.language is None,
            },
    {
        &self.language
    }

    /// The dependency that the recipe applies to, where given.
    pub fn get_dependency(&self) -> (r: &Option<String>)
        ensures
            match *r {
                Some(s) => self@.dependency == Some(s@),
                None => self@.dependency is None,
            },
    {
        &self.dependency
    }

    fn new_internal(nodes: &YamlNode) -> (r: Result<Self, Vec<String>>)
        ensures
            match spec_precondition(*nodes) {
                Ok(p) => r matches Ok(q) && q@ == p,
                Err(es) => r matches Err(errs) && errs@.len() == es.len() && forall|i: int|
                    0 <= i < es.len() ==> #[trigger] errs@[i]@ == es[i],
            },
    {
        let children = nodes.get_children();
        if children.len() == 0 {
            return Err(vec!["Not possible to read java precondition".to_owned()]);
        }
        let block_mapping_pairs = children[0].get_children();
        if block_mapping_pairs.len() == 0 {
            return Err(vec!["Expected java precondition(s), found nothing".to_owned()]);
        }
        let mut java_version: Option<String> = None;
        let mut java_dependency: Option<String> = None;
        proof {
            reveal_strlit("java");
            reveal_strlit("dependency");
        }
        match block_mapping_pairs[0].get_block_mapping_pair_string_to_block() {
            Some((key, value)) => {
                if str_eq(key.as_str(), "java") {
                    java_version = Some(value.get_content());
                } else if str_eq(key.as_str(), "dependency") {
                    java_dependency = Some(get_java_dependency(value));
                } else {
                    let e = key_error(
                        "Unexpected java precondition key \"",
                        key.as_str(),
                        "\", expected one of {java,dependency}",
                    );
                    return Err(vec![e]);
                }
            },
            None => {
                return Err(vec!["Unexpected java precondition block".to_owned()]);
            },
        }
        if block_mapping_pairs.len() > 1 {
            match block_mapping_pairs[1].get_block_mapping_pair_string_to_block() {
                Some((key, value)) => {
                    if str_eq(key.as_str(), "dependency") {
                        java_dependency = Some(get_java_dependency(value));
                    } else {
                        let e = key_error(
                            "Unexpected java precondition key \"",
                            key.as_str(),
                            "\", expected \"dependency\" or none",
                        );
                        return Err(vec![e]);
                    }
                },
                None => {},
            }
        }
        Ok(JavaRecipePrecondition { language: java_version, dependency: java_dependency })
    }
}

} // verus!
