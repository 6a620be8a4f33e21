# ansible-forge

Generates Ansible collections from a platform-independent description of
resources, data sources and actions: a Python module for each of them, a test
playbook for each resource, and the metadata of the collection. What is
generated is stated in contracts and proved with Verus.

- `src/ir.rs` — the description: attributes, resources, data sources, actions,
  providers, and the generated files
- `src/text.rs`, `src/naming.rs`, `src/config.rs` — text building blocks, name
  transformations, TOML configuration
- `src/sdk_names.rs`, `src/type_names.rs` — names of the Python SDK and of
  Ansible types
- `src/fragments.rs`, `src/module_gen.rs` — fragments of modules, and modules
  and playbooks put together from them
- `src/backend.rs` — the files of a collection
- `src/laws.rs`, `src/input_laws.rs` — what holds of all generated modules and
  playbooks
- `app/` — the backend as `iac-forge` plugs it in
