use genco::java::recipe::recipe::JavaRecipe;
use genco::java::recipe::step::JavaRecipeStep;
use genco::yaml::parser::dto::yaml_node::YamlNode;
use genco::yaml::parser::yaml_parser::parse;

fn find_value<'a>(node: &'a YamlNode, key: &str) -> Option<&'a YamlNode> {
    if let Some((k, value)) = node.get_block_mapping_pair_string_to_block() {
        if k == key {
            return Some(value);
        }
    }
    for child in node.get_children() {
        if let Some(found) = find_value(child, key) {
            return Some(found);
        }
    }
    None
}

fn recipe_of(source: &str) -> Result<JavaRecipe, Vec<String>> {
    let root = parse(source, "recipe.yaml").expect("The recipe parses");
    let precondition = find_value(&root, "precondition");
    let steps = find_value(&root, "steps").expect("The recipe has steps");
    JavaRecipe::new(precondition, steps)
}

const JAVA_DEPENDENCY_UPGRADE_ALL: &str = "language: java
precondition:
  java: 17
  dependency: org.springframework:spring-core
steps:
  - replaceImport:
      from: org.old.Type
      to: org.new.Type
  - replaceFunctionCall:
      from: oldCall
      to: newCall
";

const JAVA_INVALID_STEP: &str = "language: java
steps:
  - invalidStep:
      from: a
      to: b
";

#[test]
fn new_java_recipe() {
    match recipe_of(JAVA_DEPENDENCY_UPGRADE_ALL) {
        Ok(java_recipe) => {
            assert!(java_recipe.get_precondition().is_some());
            assert_eq!(2, java_recipe.get_steps().len());
            if let Some(step) = java_recipe.get_steps().get(0) {
                if let JavaRecipeStep::ReplaceImport(_replace_import) = step {
                } else {
                    panic!("Expected step is ReplaceImport");
                }
            }
            if let Some(step) = java_recipe.get_steps().get(1) {
                if let JavaRecipeStep::ReplaceFunctionCall(_replace_import) = step {
                } else {
                    panic!("Expected step is ReplaceFunctionCall");
                }
            }
        }
        Err(errors) => panic!("Number of errors: {}", errors.len()),
    };
}

#[test]
fn new_java_recipe_invalid_step() {
    match recipe_of(JAVA_INVALID_STEP) {
        Ok(_recipe) => panic!("Unexpected java recipe"),
        Err(errors) => {
            assert_eq!(1, errors.len());

            if let Some(err) = errors.get(0) {
                assert_eq!(
                    "Unexpected step \"invalidStep\", the available steps are [replaceFunctionCall, replaceImport]",
                    err
                )
            }
        }
    };
}

#[test]
fn recipe_precondition_values() {
    let recipe = recipe_of(JAVA_DEPENDENCY_UPGRADE_ALL).expect("The recipe is valid");
    let precondition = recipe.get_precondition().as_ref().expect("The recipe has a precondition");

    assert_eq!(&Some("17".to_string()), precondition.get_language());
    assert_eq!(&Some("org.springframework:spring-core".to_string()), precondition.get_dependency());
}

#[test]
fn recipe_without_precondition() {
    let source = "steps:\n  - replaceImport:\n      from: a\n";
    let recipe = recipe_of(source).expect("The recipe is valid");

    assert!(recipe.get_precondition().is_none());
    assert!(recipe.get_steps()[0].is_replace_import());
}

#[test]
fn recipe_with_unexpected_precondition_key() {
    let source = "precondition:\n  kotlin: 2\nsteps:\n  - replaceImport:\n      from: a\n";

    match recipe_of(source) {
        Ok(_) => panic!("Unexpected java recipe"),
        Err(errors) => assert_eq!(
            vec!["Unexpected java precondition key \"kotlin\", expected one of {java,dependency}".to_string()],
            errors
        ),
    }
}

#[test]
fn recipe_with_unexpected_second_precondition_key() {
    let source = "precondition:\n  java: 17\n  java: 21\nsteps:\n  - replaceImport:\n      from: a\n";

    match recipe_of(source) {
        Ok(_) => panic!("Unexpected java recipe"),
        Err(errors) => assert_eq!(
            vec!["Unexpected java precondition key \"java\", expected \"dependency\" or none".to_string()],
            errors
        ),
    }
}

#[test]
fn recipe_with_steps_that_are_no_sequence() {
    let source = "steps:\n  replaceImport: a\n";

    match recipe_of(source) {
        Ok(_) => panic!("Unexpected java recipe"),
        Err(errors) => assert_eq!(vec!["Invalid Java steps block".to_string()], errors),
    }
}

#[test]
fn every_invalid_step_is_reported() {
    let source = "steps:\n  - first:\n      a: 1\n  - replaceImport:\n      a: 2\n  - second:\n      a: 3\n";

    match recipe_of(source) {
        Ok(_) => panic!("Unexpected java recipe"),
        Err(errors) => assert_eq!(2, errors.len()),
    }
}
