pub mod text;
pub mod path;
pub mod file_cache;
pub mod file_overwriting;
pub mod syntax_tree;
pub mod recipe_step_scanner;
pub mod edited_text;
