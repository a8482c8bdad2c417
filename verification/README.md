# genco

A library that reads, generates and edits Java sources and YAML files, verified with Verus.

- `src/java`: the Java side. Parsed trees (`parser`), the scan of a Java file into its
  imports and its main structure (`scanner`), the classes, interfaces, records, methods,
  fields and data types read from a scan or built by hand (`dto`, `interface`, `record`,
  `method`, ...), the text written for them, and recipes of Java steps (`recipe`).
- `src/yaml`: parsed YAML trees and the merge of one YAML document into another, as a list
  of edits of the original file.
- `src/common`: paths, texts, the recorded edits of a file, and the calls into tree-sitter.
- `app/`: the program around the library: reading files, walking project folders, and
  writing the edits and the generated files to disk.

Edits and generated files are values: the library states exactly which edits or which text
it produces, and `app/` writes them.

A parsed tree is stated over the syntax tree that the tree-sitter grammar gives the text
(`spec_java_tree`, `spec_yaml_tree`): each node keeps the kind, the bytes and the children of
its syntax node, and the characters between its bytes in the UTF-8 text.
