//! Ansible collection code generator.
//!
//! Produces Python Ansible modules from a platform-independent description of
//! resources, data sources and actions. Each resource gives a module with
//! `DOCUMENTATION`, `EXAMPLES` and `RETURN` docstrings, an `argument_spec` and a
//! `main()` function, and a test playbook. Data sources give modules whose
//! names end in `_info`. The collection as a whole gets its metadata.
pub mod backend;
pub mod collection_laws;
pub mod config;
pub mod fragments;
pub mod input_laws;
pub mod ir;
pub mod laws;
pub mod module_gen;
pub mod module_laws;
pub mod naming;
pub mod sdk_names;
pub mod text;
pub mod text_laws;
pub mod type_names;

pub use backend::AnsibleBackend;
pub use type_names::AnsibleTypeExt;
