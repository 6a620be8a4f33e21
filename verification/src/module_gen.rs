//! Python modules and test playbooks.
//!
//! Each generated module follows the standard Ansible module layout with
//! `DOCUMENTATION`, `EXAMPLES` and `RETURN` docstrings, an `argument_spec` and
//! a `main()` function that hands over to one of the lifecycle helpers of
//! `akeyless_client`.
use vstd::prelude::*;

use crate::fragments;
use crate::fragments::{build_params_block, compose_argspec_inner, state_spec_entry, ModuleFragments};
use crate::ir;
use crate::ir::{IacAction, IacAttribute, IacDataSource, IacResource};
use crate::naming;
use crate::sdk_names;
use crate::sdk_names::{python_sdk_method_name, python_sdk_model_class_name};
use crate::text;
use crate::text::{append_wrapped, debug_quoted, join, replace_char, same_text};

pub use crate::type_names::{iac_type_to_ansible, list_elements_type, AnsibleTypeExt};

verus! {

/// Python file header of generated modules.
///
/// Modules are loaded into the ansible-core process at runtime and are
/// conventionally licensed GPL-3.0-or-later for that reason, whatever the
/// license of the collection.
pub const PYTHON_HEADER: &'static str =
    "#!/usr/bin/python
# -*- coding: utf-8 -*-

# Copyright: (c) 2026, pleme-io
# GNU General Public License v3.0+ (see LICENSES/GPL-3.0-or-later.txt or https://www.gnu.org/licenses/gpl-3.0.txt)

from __future__ import absolute_import, division, print_function
__metaclass__ = type";

// ---------------------------------------------------------------------------
// SDK calls
// ---------------------------------------------------------------------------

/// The pair of a model class and a method, both as Python literals.
pub open spec fn sdk_pair(class: Seq<char>, method: Seq<char>) -> Seq<char> {
    "("@ + class + ", "@ + method + ")"@
}

/// The pair that a schema name stands for.
pub open spec fn schema_pair(schema: Seq<char>) -> Seq<char> {
    sdk_pair(
        text::str_debug(sdk_names::model_class_name(schema)),
        text::str_debug(sdk_names::method_name(schema)),
    )
}

/// A text between double quotes.
pub open spec fn quoted(text: Seq<char>) -> Seq<char> {
    seq!['"'] + text + seq!['"']
}

/// The pair that a schema name without special characters stands for.
pub open spec fn plain_pair(schema: Seq<char>) -> Seq<char> {
    sdk_pair(
        quoted(sdk_names::ascii_model_class_name(schema)),
        quoted(sdk_names::ascii_method_name(schema)),
    )
}

/// Formats the pair of two Python literals.
pub fn format_sdk_pair(class: &str, method: &str) -> (res: String)
    ensures
        res@ == sdk_pair(class@, method@),
{
    let mut out: String = "(".to_owned();
    out.append(class);
    out.append(", ");
    out.append(method);
    out.append(")");
    out
}

/// Formats the pair that a schema name stands for.
pub fn format_schema_pair(schema_name: &str) -> (res: String)
    ensures
        res@ == schema_pair(schema_name@),
        text::plain_text(schema_name@) ==> res@ == plain_pair(schema_name@),
{
    proof {
        if text::plain_text(schema_name@) {
            sdk_names::lemma_plain_names(schema_name@);
        }
    }
    let class: String = debug_quoted(python_sdk_model_class_name(schema_name).as_str());
    let method: String = debug_quoted(python_sdk_method_name(schema_name).as_str());
    format_sdk_pair(class.as_str(), method.as_str())
}

// ---------------------------------------------------------------------------
// Updates
// ---------------------------------------------------------------------------

/// The comment line for one immutable field.
pub open spec fn immutable_line(name: Seq<char>) -> Seq<char> {
    "        #   - "@ + name
}

/// The comment that lists the immutable fields, nothing where there are none.
pub open spec fn immutable_comment(names: Seq<Seq<char>>) -> Seq<char> {
    if names.len() == 0 {
        Seq::empty()
    } else {
        "        # WARNING: The following fields are immutable after creation.\n"@ + text::joined(
            names.map_values(|n: Seq<char>| immutable_line(n)),
            "\n"@,
        ) + "\n        # Changing them requires destroy + recreate."@
    }
}

/// The keyword arguments about updates: the SDK call that updates a resource,
/// or, where there is none, that drift is an error.
pub open spec fn update_kwargs(pair: Option<Seq<char>>, comment: Seq<char>) -> Seq<char> {
    match pair {
        Some(pair) => "        sdk_update="@ + pair + ","@,
        None => if comment.len() == 0 {
            "        sdk_update=None,\n        immutable=True,"@
        } else {
            comment + "\n        sdk_update=None,\n        immutable=True,"@
        },
    }
}

/// The schema that a resource is updated with: an update takes both an
/// endpoint and a schema.
pub open spec fn update_schema(resource: IacResource) -> Option<Seq<char>> {
    match (resource.crud.update_endpoint, resource.crud.update_schema) {
        (Some(_), Some(schema)) => Some(schema@),
        _ => None,
    }
}

/// The keyword arguments about updates of a resource, `pair` giving the SDK
/// call of a schema.
pub open spec fn update_kwargs_with(
    resource: IacResource,
    pair: spec_fn(Seq<char>) -> Seq<char>,
) -> Seq<char> {
    update_kwargs(
        match update_schema(resource) {
            Some(schema) => Some(pair(schema)),
            None => None,
        },
        immutable_comment(ir::immutable_names(resource.attributes@)),
    )
}

/// The keyword arguments about updates of a resource.
pub open spec fn sdk_update_kwargs(resource: IacResource) -> Seq<char> {
    update_kwargs_with(resource, |s: Seq<char>| schema_pair(s))
}

/// The schema that a resource is updated with, if any, holds no special
/// characters.
pub open spec fn has_plain_update(resource: IacResource) -> bool {
    match update_schema(resource) {
        Some(schema) => text::plain_text(schema),
        None => true,
    }
}

/// Builds a Python comment block that lists the immutable fields, eight spaces
/// deep as the keyword arguments it stands among. Empty when no field is
/// immutable.
pub fn immutable_fields_comment(resource: &IacResource) -> (res: String)
    ensures
        res@ == immutable_comment(ir::immutable_names(resource.attributes@)),
{
    let names: Vec<&str> = resource.immutable_attribute_names();
    let ghost model = names@.map_values(|n: &str| n@);
    if names.len() == 0 {
        return String::new();
    }
    let ghost line = |n: Seq<char>| immutable_line(n);
    let mut lines: Vec<String> = Vec::new();
    let mut i: usize = 0;
    while i < names.len()
        invariant
            i <= names@.len(),
            model == names@.map_values(|n: &str| n@),
            line == (|n: Seq<char>| immutable_line(n)),
            text::texts(lines@) == model.take(i as int).map_values(line),
        decreases names@.len() - i,
    {
        let mut one: String = "        #   - ".to_owned();
        one.append(names[i]);
        proof {
            text::lemma_texts_push(lines@, one);
        }
        lines.push(one);
        i += 1;
        assert(text::texts(lines@) =~= model.take(i as int).map_values(line));
    }
    assert(model.take(i as int) =~= model);
    let list: String = join(&lines, "\n");
    let mut out: String =
        "        # WARNING: The following fields are immutable after creation.\n".to_owned();
    out.append(list.as_str());
    out.append("\n        # Changing them requires destroy + recreate.");
    out
}

/// Formats the keyword arguments about updates, `pair` being the SDK call.
pub fn format_update_kwargs(pair: Option<&str>, comment: &str) -> (res: String)
    ensures
        res@ == update_kwargs(
            match pair {
                Some(pair) => Some(pair@),
                None => None,
            },
            comment@,
        ),
{
    match pair {
        Some(pair) => {
            let mut out: String = "        sdk_update=".to_owned();
            out.append(pair);
            out.append(",");
            out
        },
        None => {
            if comment.is_empty() {
                return "        sdk_update=None,\n        immutable=True,".to_owned();
            }
            let mut out: String = comment.to_owned();
            out.append("\n        sdk_update=None,\n        immutable=True,");
            out
        },
    }
}

/// Renders the `sdk_update=` keyword argument of the `run_standard_crud` call.
///
/// Without an update endpoint it is `sdk_update=None, immutable=True`, so that
/// the helper fails on drift in place of doing nothing; a comment before it
/// lists the immutable fields.
pub fn render_sdk_update_kwargs(resource: &IacResource) -> (res: String)
    ensures
        res@ == sdk_update_kwargs(*resource),
        has_plain_update(*resource) ==> res@ == update_kwargs_with(
            *resource,
            |s: Seq<char>| plain_pair(s),
        ),
{
    let comment: String = immutable_fields_comment(resource);
    match (&resource.crud.update_endpoint, &resource.crud.update_schema) {
        (Some(_), Some(schema)) => {
            let pair: String = format_schema_pair(schema.as_str());
            format_update_kwargs(Some(pair.as_str()), comment.as_str())
        },
        _ => format_update_kwargs(None, comment.as_str()),
    }
}

// ---------------------------------------------------------------------------
// Sections of a module
// ---------------------------------------------------------------------------

/// What a module is generated for.
pub ghost struct ModuleModel {
    /// Name of the module.
    pub module: Seq<char>,
    /// Description, fit to stand between double quotes.
    pub description: Seq<char>,
    pub namespace: Seq<char>,
    pub provider: Seq<char>,
    pub author: Seq<char>,
}

/// What a module is generated for.
pub struct ModuleInfo<'a> {
    /// Name of the module.
    pub module: &'a str,
    /// Description, fit to stand between double quotes.
    pub description: &'a str,
    pub namespace: &'a str,
    pub provider: &'a str,
    pub author: &'a str,
}

impl<'a> View for ModuleInfo<'a> {
    type V = ModuleModel;

    open spec fn view(&self) -> ModuleModel {
        ModuleModel {
            module: self.module@,
            description: self.description@,
            namespace: self.namespace@,
            provider: self.provider@,
            author: self.author@,
        }
    }
}

/// The file header and the documentation up to the long description.
pub open spec fn module_head(m: ModuleModel) -> Seq<char> {
    PYTHON_HEADER@ + "\n\nDOCUMENTATION = r'''\n---\nmodule: "@ + m.module
        + "\nshort_description: "@ + m.description + "\nauthor:\n  - \""@ + m.author
        + "\"\nextends_documentation_fragment:\n  - "@ + m.namespace + "."@ + m.provider
        + ".auth\ndescription:\n"@
}

/// The documented options and the end of the documentation.
pub open spec fn options_tail(options: Seq<char>) -> Seq<char> {
    options + "\n'''\n\n"@
}

/// The documentation of returned values.
pub open spec fn return_section(values: Seq<char>) -> Seq<char> {
    "RETURN = r'''\n"@ + values + "\n'''\n\n"@
}

/// The import of a lifecycle helper from the module utilities of the
/// collection.
pub open spec fn import_section(m: ModuleModel, helper: Seq<char>) -> Seq<char> {
    "from ansible_collections."@ + m.namespace + "."@ + m.provider
        + ".plugins.module_utils.akeyless_client import (\n    "@ + helper + ",\n)\n\n"@
}

/// The declaration of the arguments.
pub open spec fn argspec_section(inner: Seq<char>) -> Seq<char> {
    "argument_spec = {\n"@ + inner + "\n}\n\n\n"@
}

/// The entry point, which hands over to a lifecycle helper.
pub open spec fn main_section(helper: Seq<char>, kwargs: Seq<char>) -> Seq<char> {
    "def main():\n    "@ + helper + "(\n        argument_spec=argument_spec,\n"@ + kwargs
        + "\n    )\n\n\nif __name__ == '__main__':\n    main()\n"@
}

/// Formats the file header and the documentation up to the long description.
fn format_module_head(info: &ModuleInfo) -> (res: String)
    ensures
        res@ == module_head(info@),
{
    let mut out: String = PYTHON_HEADER.to_owned();
    out.append("\n\nDOCUMENTATION = r'''\n---\nmodule: ");
    out.append(info.module);
    out.append("\nshort_description: ");
    out.append(info.description);
    out.append("\nauthor:\n  - \"");
    out.append(info.author);
    out.append("\"\nextends_documentation_fragment:\n  - ");
    out.append(info.namespace);
    out.append(".");
    out.append(info.provider);
    out.append(".auth\ndescription:\n");
    out
}

/// Formats the documented options and the end of the documentation.
fn format_options_tail(options: &str) -> (res: String)
    ensures
        res@ == options_tail(options@),
{
    let mut out: String = options.to_owned();
    out.append("\n'''\n\n");
    out
}

/// Formats the documentation of returned values.
fn format_return_section(values: &str) -> (res: String)
    ensures
        res@ == return_section(values@),
{
    let mut out: String = "RETURN = r'''\n".to_owned();
    out.append(values);
    out.append("\n'''\n\n");
    out
}

/// Formats the import of a lifecycle helper.
fn format_import_section(info: &ModuleInfo, helper: &str) -> (res: String)
    ensures
        res@ == import_section(info@, helper@),
{
    let mut out: String = "from ansible_collections.".to_owned();
    out.append(info.namespace);
    out.append(".");
    out.append(info.provider);
    out.append(".plugins.module_utils.akeyless_client import (\n    ");
    out.append(helper);
    out.append(",\n)\n\n");
    out
}

/// Formats the declaration of the arguments.
fn format_argspec_section(inner: &str) -> (res: String)
    ensures
        res@ == argspec_section(inner@),
{
    let mut out: String = "argument_spec = {\n".to_owned();
    out.append(inner);
    out.append("\n}\n\n\n");
    out
}

/// Formats the entry point.
fn format_main_section(helper: &str, kwargs: &str) -> (res: String)
    ensures
        res@ == main_section(helper@, kwargs@),
{
    let mut out: String = "def main():\n    ".to_owned();
    out.append(helper);
    out.append("(\n        argument_spec=argument_spec,\n");
    out.append(kwargs);
    out.append("\n    )\n\n\nif __name__ == '__main__':\n    main()\n");
    out
}

// ---------------------------------------------------------------------------
// Resources
// ---------------------------------------------------------------------------

/// The long description of a resource module and its first option, the state.
pub open spec fn resource_options_head(module: Seq<char>) -> Seq<char> {
    "  - Manage "@ + module
        + " resources.\noptions:\n    state:\n      description: Whether the resource should be present or absent.\n      type: str\n      choices: [\"present\", \"absent\"]\n      default: present\n"@
}

/// The examples of a resource module.
pub open spec fn resource_examples(module: Seq<char>) -> Seq<char> {
    "EXAMPLES = r'''\n- name: Create "@ + module + "\n  "@ + module
        + ":\n    state: present\n\n- name: Delete "@ + module + "\n  "@ + module
        + ":\n    state: absent\n'''\n\n"@
}

/// The lifecycle of a resource: the Python literals of the SDK calls and of
/// the names that `run_standard_crud` is given.
pub ghost struct LifecycleModel {
    pub label: Seq<char>,
    pub create: Seq<char>,
    /// The keyword arguments about updates.
    pub update: Seq<char>,
    pub delete: Seq<char>,
    pub read: Seq<char>,
    /// The parameter that identifies the resource, where it is not `name`.
    pub read_key: Option<Seq<char>>,
}

/// The lifecycle of a resource: the Python literals of the SDK calls and of
/// the names that `run_standard_crud` is given.
pub struct Lifecycle {
    pub label: String,
    pub create: String,
    /// The keyword arguments about updates.
    pub update: String,
    pub delete: String,
    pub read: String,
    /// The parameter that identifies the resource, where it is not `name`.
    pub read_key: Option<String>,
}

impl View for Lifecycle {
    type V = LifecycleModel;

    open spec fn view(&self) -> LifecycleModel {
        LifecycleModel {
            label: self.label@,
            create: self.create@,
            update: self.update@,
            delete: self.delete@,
            read: self.read@,
            read_key: match self.read_key {
                Some(key) => Some(key@),
                None => None,
            },
        }
    }
}

/// The keyword arguments of `run_standard_crud`.
pub open spec fn lifecycle_kwargs(l: LifecycleModel) -> Seq<char> {
    "        resource_label="@ + l.label + ",\n        sdk_create="@ + l.create + ",\n"@ + l.update
        + "\n        sdk_delete="@ + l.delete + ",\n        sdk_read="@ + l.read + ","@
        + text::wrapped("\n        read_key="@, l.read_key, ","@)
}

/// The module of a resource with these attributes and this lifecycle.
pub open spec fn resource_python(
    m: ModuleModel,
    attrs: Seq<IacAttribute>,
    l: LifecycleModel,
) -> Seq<char> {
    module_head(m) + resource_options_head(m.module) + options_tail(fragments::options_yaml(attrs))
        + resource_examples(m.module) + return_section(fragments::return_yaml(attrs))
        + import_section(m, "run_standard_crud"@) + argspec_section(
        fragments::argspec_inner(
            Some(fragments::STATE_SPEC_ENTRY@),
            fragments::argument_spec(attrs),
        ),
    ) + main_section("run_standard_crud"@, lifecycle_kwargs(l))
}

/// The lifecycle of a resource, `quote` giving the literal of a name and
/// `pair` the SDK call of a schema.
pub open spec fn lifecycle_with(
    resource: IacResource,
    module: Seq<char>,
    quote: spec_fn(Seq<char>) -> Seq<char>,
    pair: spec_fn(Seq<char>) -> Seq<char>,
) -> LifecycleModel {
    let key = naming::snake_cased(resource.identity.id_field@);
    LifecycleModel {
        label: quote(module),
        create: pair(resource.crud.create_schema@),
        update: update_kwargs_with(resource, pair),
        delete: pair(resource.crud.delete_schema@),
        read: pair(resource.crud.read_schema@),
        read_key: if key == "name"@ {
            None
        } else {
            Some(quote(key))
        },
    }
}

/// The lifecycle of a resource.
pub open spec fn lifecycle_of(resource: IacResource, module: Seq<char>) -> LifecycleModel {
    lifecycle_with(
        resource,
        module,
        |t: Seq<char>| text::str_debug(t),
        |s: Seq<char>| schema_pair(s),
    )
}

/// The lifecycle of a resource whose names hold no special characters.
pub open spec fn plain_lifecycle(resource: IacResource, module: Seq<char>) -> LifecycleModel {
    lifecycle_with(resource, module, |t: Seq<char>| quoted(t), |s: Seq<char>| plain_pair(s))
}

/// The names that the lifecycle is made from hold no special characters.
pub open spec fn has_plain_names(resource: IacResource, module: Seq<char>) -> bool {
    &&& text::plain_text(module)
    &&& text::plain_text(resource.crud.create_schema@)
    &&& text::plain_text(resource.crud.read_schema@)
    &&& text::plain_text(resource.crud.delete_schema@)
    &&& text::plain_text(naming::snake_cased(resource.identity.id_field@))
    &&& has_plain_update(resource)
}

/// What the module of a resource is generated for.
pub open spec fn resource_info(
    resource: IacResource,
    provider: Seq<char>,
    namespace: Seq<char>,
    author: Seq<char>,
) -> ModuleModel {
    ModuleModel {
        module: naming::snake_cased(naming::unprefixed(resource.name@, provider)),
        description: fragments::escaped(resource.description@),
        namespace,
        provider,
        author,
    }
}

/// The module of a resource.
pub open spec fn resource_module(
    resource: IacResource,
    provider: Seq<char>,
    namespace: Seq<char>,
    author: Seq<char>,
) -> Seq<char> {
    let info = resource_info(resource, provider, namespace, author);
    resource_python(info, resource.attributes@, lifecycle_of(resource, info.module))
}

/// The names that the module of a resource passes on to the SDK hold no special
/// characters.
pub open spec fn has_plain_resource(resource: IacResource, provider: Seq<char>) -> bool {
    has_plain_names(resource, naming::snake_cased(naming::unprefixed(resource.name@, provider)))
}

/// The module of a resource whose names hold no special characters.
pub open spec fn plain_resource_module(
    resource: IacResource,
    provider: Seq<char>,
    namespace: Seq<char>,
    author: Seq<char>,
) -> Seq<char> {
    let info = resource_info(resource, provider, namespace, author);
    resource_python(info, resource.attributes@, plain_lifecycle(resource, info.module))
}

/// Formats the long description of a resource module and its first option.
fn format_resource_options_head(module: &str) -> (res: String)
    ensures
        res@ == resource_options_head(module@),
{
    let mut out: String = "  - Manage ".to_owned();
    out.append(module);
    out.append(
        " resources.\noptions:\n    state:\n      description: Whether the resource should be present or absent.\n      type: str\n      choices: [\"present\", \"absent\"]\n      default: present\n",
    );
    out
}

/// Formats the examples of a resource module.
fn format_resource_examples(module: &str) -> (res: String)
    ensures
        res@ == resource_examples(module@),
{
    let mut out: String = "EXAMPLES = r'''\n- name: Create ".to_owned();
    out.append(module);
    out.append("\n  ");
    out.append(module);
    out.append(":\n    state: present\n\n- name: Delete ");
    out.append(module);
    out.append("\n  ");
    out.append(module);
    out.append(":\n    state: absent\n'''\n\n");
    out
}

/// Formats the keyword arguments of `run_standard_crud`.
pub fn format_lifecycle_kwargs(lifecycle: &Lifecycle) -> (res: String)
    ensures
        res@ == lifecycle_kwargs(lifecycle@),
{
    let mut out: String = "        resource_label=".to_owned();
    out.append(lifecycle.label.as_str());
    out.append(",\n        sdk_create=");
    out.append(lifecycle.create.as_str());
    out.append(",\n");
    out.append(lifecycle.update.as_str());
    out.append("\n        sdk_delete=");
    out.append(lifecycle.delete.as_str());
    out.append(",\n        sdk_read=");
    out.append(lifecycle.read.as_str());
    out.append(",");
    let key: Option<&str> = match &lifecycle.read_key {
        Some(key) => Some(key.as_str()),
        None => None,
    };
    append_wrapped(&mut out, "\n        read_key=", key, ",");
    out
}

/// Formats the Python source of a resource module from its attributes and its
/// lifecycle.
pub fn format_resource_python(
    info: &ModuleInfo,
    attrs: &[IacAttribute],
    lifecycle: &Lifecycle,
) -> (res: String)
    ensures
        res@ == resource_python(info@, attrs@, lifecycle@),
{
    let frags: ModuleFragments = ModuleFragments::from_attributes(attrs);
    let inner: String = compose_argspec_inner(
        Some(state_spec_entry()),
        frags.argument_spec.as_str(),
    );
    let kwargs: String = format_lifecycle_kwargs(lifecycle);
    let mut out: String = format_module_head(info);
    out.append(format_resource_options_head(info.module).as_str());
    out.append(format_options_tail(frags.options_yaml.as_str()).as_str());
    out.append(format_resource_examples(info.module).as_str());
    out.append(format_return_section(frags.return_yaml.as_str()).as_str());
    out.append(format_import_section(info, "run_standard_crud").as_str());
    out.append(format_argspec_section(inner.as_str()).as_str());
    out.append(format_main_section("run_standard_crud", kwargs.as_str()).as_str());
    out
}

/// Renders the lifecycle of a resource.
///
/// Parameters are keyed by snake_case names, so the identifier is normalized
/// before it is given as `read_key`; the helper assumes `name` where it is not
/// told otherwise.
pub fn render_lifecycle(resource: &IacResource, module: &str) -> (res: Lifecycle)
    ensures
        res@ == lifecycle_of(*resource, module@),
        has_plain_names(*resource, module@) ==> res@ == plain_lifecycle(*resource, module@),
{
    let id_field: String = iac_forge::to_snake_case(resource.identity.id_field.as_str());
    let key: Option<String> = if same_text(id_field.as_str(), "name") {
        None
    } else {
        Some(debug_quoted(id_field.as_str()))
    };
    Lifecycle {
        label: debug_quoted(module),
        create: format_schema_pair(resource.crud.create_schema.as_str()),
        update: render_sdk_update_kwargs(resource),
        delete: format_schema_pair(resource.crud.delete_schema.as_str()),
        read: format_schema_pair(resource.crud.read_schema.as_str()),
        read_key: key,
    }
}

/// Generates a complete Python module for a resource.
///
/// `namespace` is the Ansible Galaxy namespace used in the import path
/// `ansible_collections.<namespace>.<provider_name>...`.
#[must_use]
pub fn generate_resource_module(
    resource: &IacResource,
    provider_name: &str,
    namespace: &str,
    author: &str,
) -> (res: String)
    ensures
        res@ == resource_module(*resource, provider_name@, namespace@, author@),
        has_plain_resource(*resource, provider_name@) ==> res@ == plain_resource_module(
            *resource,
            provider_name@,
            namespace@,
            author@,
        ),
{
    let module: String = iac_forge::to_snake_case(
        iac_forge::strip_provider_prefix(resource.name.as_str(), provider_name),
    );
    let description: String = replace_char(resource.description.as_str(), '"', '\'');
    let lifecycle: Lifecycle = render_lifecycle(resource, module.as_str());
    let info: ModuleInfo = ModuleInfo {
        module: module.as_str(),
        description: description.as_str(),
        namespace,
        provider: provider_name,
        author,
    };
    format_resource_python(&info, resource.attributes.as_slice(), &lifecycle)
}

// ---------------------------------------------------------------------------
// Actions
// ---------------------------------------------------------------------------

/// The examples of an action module.
pub open spec fn action_examples(module: Seq<char>) -> Seq<char> {
    "EXAMPLES = r'''\n- name: Run "@ + module + "\n  "@ + module + ":\n  register: result\n'''\n\n"@
}

/// The documentation of what an action returns.
pub const ACTION_RETURN: &'static str =
    "result:\n  description: \"Raw result of the action call\"\n  type: dict\n  returned: success";

/// The keyword argument that names the SDK call of a module with a single one.
pub open spec fn call_kwarg(pair: Seq<char>) -> Seq<char> {
    "        sdk_call="@ + pair + ","@
}

/// The module of an action with these attributes and this SDK call.
pub open spec fn action_python(
    m: ModuleModel,
    attrs: Seq<IacAttribute>,
    pair: Seq<char>,
) -> Seq<char> {
    module_head(m) + "  - "@ + m.description + "\noptions:\n"@ + options_tail(
        fragments::options_yaml(attrs),
    ) + action_examples(m.module) + return_section(ACTION_RETURN@) + import_section(
        m,
        "run_action_module"@,
    ) + argspec_section(fragments::argspec_inner(None, fragments::argument_spec(attrs)))
        + main_section("run_action_module"@, call_kwarg(pair))
}

/// The SDK call of an action.
pub open spec fn action_pair(action: IacAction) -> Seq<char> {
    sdk_pair(
        text::str_debug(sdk_names::model_class_name(action.schema@)),
        match action.sdk_method {
            Some(method) => text::str_debug(method@),
            None => text::str_debug(sdk_names::method_name(action.schema@)),
        },
    )
}

/// The SDK call of an action whose names hold no special characters.
pub open spec fn plain_action_pair(action: IacAction) -> Seq<char> {
    sdk_pair(
        quoted(sdk_names::ascii_model_class_name(action.schema@)),
        match action.sdk_method {
            Some(method) => quoted(method@),
            None => quoted(sdk_names::ascii_method_name(action.schema@)),
        },
    )
}

/// The names that the SDK call of an action is made from hold no special
/// characters.
pub open spec fn has_plain_call(action: IacAction) -> bool {
    &&& text::plain_text(action.schema@)
    &&& action.sdk_method is Some ==> text::plain_text(action.sdk_method->0@)
}

/// What the module of an action is generated for.
pub open spec fn action_info(
    action: IacAction,
    provider: Seq<char>,
    namespace: Seq<char>,
    author: Seq<char>,
) -> ModuleModel {
    ModuleModel {
        module: naming::snake_cased(naming::unprefixed(action.name@, provider)),
        description: fragments::escaped(action.description@),
        namespace,
        provider,
        author,
    }
}

/// The module of an action.
pub open spec fn action_module(
    action: IacAction,
    provider: Seq<char>,
    namespace: Seq<char>,
    author: Seq<char>,
) -> Seq<char> {
    action_python(
        action_info(action, provider, namespace, author),
        action.attributes@,
        action_pair(action),
    )
}

/// The module of an action whose names hold no special characters.
pub open spec fn plain_action_module(
    action: IacAction,
    provider: Seq<char>,
    namespace: Seq<char>,
    author: Seq<char>,
) -> Seq<char> {
    action_python(
        action_info(action, provider, namespace, author),
        action.attributes@,
        plain_action_pair(action),
    )
}

/// Formats the examples of an action module.
fn format_action_examples(module: &str) -> (res: String)
    ensures
        res@ == action_examples(module@),
{
    let mut out: String = "EXAMPLES = r'''\n- name: Run ".to_owned();
    out.append(module);
    out.append("\n  ");
    out.append(module);
    out.append(":\n  register: result\n'''\n\n");
    out
}

/// Formats the keyword argument that names a single SDK call.
fn format_call_kwarg(pair: &str) -> (res: String)
    ensures
        res@ == call_kwarg(pair@),
{
    let mut out: String = "        sdk_call=".to_owned();
    out.append(pair);
    out.append(",");
    out
}

/// Formats the Python source of an action module from its attributes and its
/// SDK call.
pub fn format_action_python(info: &ModuleInfo, attrs: &[IacAttribute], pair: &str) -> (res: String)
    ensures
        res@ == action_python(info@, attrs@, pair@),
{
    let frags: ModuleFragments = ModuleFragments::from_attributes(attrs);
    let inner: String = compose_argspec_inner(None, frags.argument_spec.as_str());
    let kwarg: String = format_call_kwarg(pair);
    let mut out: String = format_module_head(info);
    out.append("  - ");
    out.append(info.description);
    out.append("\noptions:\n");
    out.append(format_options_tail(frags.options_yaml.as_str()).as_str());
    out.append(format_action_examples(info.module).as_str());
    out.append(format_return_section(ACTION_RETURN).as_str());
    out.append(format_import_section(info, "run_action_module").as_str());
    out.append(format_argspec_section(inner.as_str()).as_str());
    out.append(format_main_section("run_action_module", kwarg.as_str()).as_str());
    out
}

/// Renders the SDK call of an action: the method that the action names itself,
/// or else the one that its schema stands for.
pub fn render_action_pair(action: &IacAction) -> (res: String)
    ensures
        res@ == action_pair(*action),
        has_plain_call(*action) ==> res@ == plain_action_pair(*action),
{
    proof {
        if text::plain_text(action.schema@) {
            sdk_names::lemma_plain_names(action.schema@);
        }
    }
    let class: String = debug_quoted(python_sdk_model_class_name(action.schema.as_str()).as_str());
    let method: String = match &action.sdk_method {
        Some(method) => debug_quoted(method.as_str()),
        None => debug_quoted(python_sdk_method_name(action.schema.as_str()).as_str()),
    };
    format_sdk_pair(class.as_str(), method.as_str())
}

/// Generates a complete Python module for an action.
///
/// Actions are one-shot calls: there is no `state` parameter and no read step.
/// The module declares its `argument_spec` and leaves the SDK call to
/// `run_action_module`, which reports every call as a change. Response fields
/// are not masked here: playbooks redact output with `no_log: true`, and tasks
/// may go on to use a token that an action returned.
///
/// `namespace` is the Ansible Galaxy namespace used in the import path
/// `ansible_collections.<namespace>.<provider_name>...`.
#[must_use]
pub fn generate_action_module(
    action: &IacAction,
    provider_name: &str,
    namespace: &str,
    author: &str,
) -> (res: String)
    ensures
        res@ == action_module(*action, provider_name@, namespace@, author@),
        has_plain_call(*action) ==> res@ == plain_action_module(
            *action,
            provider_name@,
            namespace@,
            author@,
        ),
{
    let module: String = iac_forge::to_snake_case(
        iac_forge::strip_provider_prefix(action.name.as_str(), provider_name),
    );
    let description: String = replace_char(action.description.as_str(), '"', '\'');
    let pair: String = render_action_pair(action);
    let info: ModuleInfo = ModuleInfo {
        module: module.as_str(),
        description: description.as_str(),
        namespace,
        provider: provider_name,
        author,
    };
    format_action_python(&info, action.attributes.as_slice(), pair.as_str())
}

// ---------------------------------------------------------------------------
// Data sources
// ---------------------------------------------------------------------------

/// The examples of a data source module.
pub open spec fn data_source_examples(module: Seq<char>) -> Seq<char> {
    "EXAMPLES = r'''\n- name: Get "@ + module + "\n  "@ + module
        + ":\n    register: result\n'''\n\n"@
}

/// The module of a data source with these attributes and this SDK call.
pub open spec fn data_source_python(
    m: ModuleModel,
    attrs: Seq<IacAttribute>,
    pair: Seq<char>,
) -> Seq<char> {
    module_head(m) + "  - Retrieve information about "@ + m.module + ".\noptions:\n"@
        + options_tail(fragments::options_yaml(attrs)) + data_source_examples(m.module)
        + return_section(fragments::return_yaml(attrs)) + import_section(m, "run_info_module"@)
        + argspec_section(fragments::argspec_inner(None, fragments::argument_spec(attrs)))
        + main_section("run_info_module"@, call_kwarg(pair))
}

/// What the module of a data source is generated for.
pub open spec fn data_source_info(
    ds: IacDataSource,
    provider: Seq<char>,
    namespace: Seq<char>,
    author: Seq<char>,
) -> ModuleModel {
    ModuleModel {
        module: naming::snake_cased(naming::unprefixed(ds.name@, provider)) + "_info"@,
        description: fragments::escaped(ds.description@),
        namespace,
        provider,
        author,
    }
}

/// The module of a data source.
pub open spec fn data_source_module(
    ds: IacDataSource,
    provider: Seq<char>,
    namespace: Seq<char>,
    author: Seq<char>,
) -> Seq<char> {
    data_source_python(
        data_source_info(ds, provider, namespace, author),
        ds.attributes@,
        schema_pair(ds.read_schema@),
    )
}

/// The name of the schema that a data source is read with holds no special
/// characters.
pub open spec fn has_plain_data_source(ds: IacDataSource) -> bool {
    text::plain_text(ds.read_schema@)
}

/// The module of a data source whose schema name holds no special characters.
pub open spec fn plain_data_source_module(
    ds: IacDataSource,
    provider: Seq<char>,
    namespace: Seq<char>,
    author: Seq<char>,
) -> Seq<char> {
    data_source_python(
        data_source_info(ds, provider, namespace, author),
        ds.attributes@,
        plain_pair(ds.read_schema@),
    )
}

/// Formats the examples of a data source module.
fn format_data_source_examples(module: &str) -> (res: String)
    ensures
        res@ == data_source_examples(module@),
{
    let mut out: String = "EXAMPLES = r'''\n- name: Get ".to_owned();
    out.append(module);
    out.append("\n  ");
    out.append(module);
    out.append(":\n    register: result\n'''\n\n");
    out
}

/// Formats the Python source of a data source module from its attributes and
/// its SDK call.
pub fn format_data_source_python(
    info: &ModuleInfo,
    attrs: &[IacAttribute],
    pair: &str,
) -> (res: String)
    ensures
        res@ == data_source_python(info@, attrs@, pair@),
{
    let frags: ModuleFragments = ModuleFragments::from_attributes(attrs);
    let inner: String = compose_argspec_inner(None, frags.argument_spec.as_str());
    let kwarg: String = format_call_kwarg(pair);
    let mut out: String = format_module_head(info);
    out.append("  - Retrieve information about ");
    out.append(info.module);
    out.append(".\noptions:\n");
    out.append(format_options_tail(frags.options_yaml.as_str()).as_str());
    out.append(format_data_source_examples(info.module).as_str());
    out.append(format_return_section(frags.return_yaml.as_str()).as_str());
    out.append(format_import_section(info, "run_info_module").as_str());
    out.append(format_argspec_section(inner.as_str()).as_str());
    out.append(format_main_section("run_info_module", kwarg.as_str()).as_str());
    out
}

/// Generates a complete Python module for a data source (read-only).
///
/// `namespace` is the Ansible Galaxy namespace used in the import path
/// `ansible_collections.<namespace>.<provider_name>...`.
#[must_use]
pub fn generate_data_source_module(
    ds: &IacDataSource,
    provider_name: &str,
    namespace: &str,
    author: &str,
) -> (res: String)
    ensures
        res@ == data_source_module(*ds, provider_name@, namespace@, author@),
        has_plain_data_source(*ds) ==> res@ == plain_data_source_module(
            *ds,
            provider_name@,
            namespace@,
            author@,
        ),
{
    let mut module: String = iac_forge::to_snake_case(
        iac_forge::strip_provider_prefix(ds.name.as_str(), provider_name),
    );
    module.append("_info");
    let description: String = replace_char(ds.description.as_str(), '"', '\'');
    let pair: String = format_schema_pair(ds.read_schema.as_str());
    let info: ModuleInfo = ModuleInfo {
        module: module.as_str(),
        description: description.as_str(),
        namespace,
        provider: provider_name,
        author,
    };
    format_data_source_python(&info, ds.attributes.as_slice(), pair.as_str())
}

// ---------------------------------------------------------------------------
// Test playbooks
// ---------------------------------------------------------------------------

/// The play that a test playbook consists of, up to its tasks.
pub open spec fn play_head(module: Seq<char>) -> Seq<char> {
    "---\n# Integration test for "@ + module + "\n\n- name: Test "@ + module
        + " module\n  hosts: localhost\n  connection: local\n  gather_facts: false\n\n  tasks:\n"@
}

/// A task that runs a module.
pub open spec fn play_task(
    title: Seq<char>,
    module: Seq<char>,
    state: Seq<char>,
    params: Seq<char>,
    register: Seq<char>,
) -> Seq<char> {
    "    - name: "@ + title + "\n      "@ + module + ":\n        state: "@ + state + params
        + "\n      register: "@ + register + "\n"@
}

/// A task that asserts that an earlier one changed something.
pub open spec fn play_check(title: Seq<char>, register: Seq<char>) -> Seq<char> {
    "    - name: "@ + title + "\n      ansible.builtin.assert:\n        that:\n          - "@ + register
        + ".changed\n"@
}

/// The test playbook for a module and the parameters of its tasks: create,
/// check, create again, delete, check.
pub open spec fn playbook(module: Seq<char>, params: Seq<char>) -> Seq<char> {
    play_head(module) + play_task(
        "Create "@ + module,
        module,
        "present"@,
        params,
        "create_result"@,
    ) + "\n"@ + play_check("Verify creation"@, "create_result"@) + "\n"@ + play_task(
        "Create "@ + module + " (idempotent)"@,
        module,
        "present"@,
        params,
        "idempotent_result"@,
    ) + "\n"@ + play_task("Delete "@ + module, module, "absent"@, params, "delete_result"@) + "\n"@
        + play_check("Verify deletion"@, "delete_result"@)
}

/// The test playbook for a resource.
pub open spec fn test_playbook(resource: IacResource, provider: Seq<char>) -> Seq<char> {
    playbook(
        naming::snake_cased(naming::unprefixed(resource.name@, provider)),
        fragments::params_block(resource.attributes@),
    )
}

/// Formats the play up to its tasks.
fn format_play_head(module: &str) -> (res: String)
    ensures
        res@ == play_head(module@),
{
    let mut out: String = "---\n# Integration test for ".to_owned();
    out.append(module);
    out.append("\n\n- name: Test ");
    out.append(module);
    out.append(
        " module\n  hosts: localhost\n  connection: local\n  gather_facts: false\n\n  tasks:\n",
    );
    out
}

/// Formats a task that runs a module.
fn format_play_task(
    title: &str,
    module: &str,
    state: &str,
    params: &str,
    register: &str,
) -> (res: String)
    ensures
        res@ == play_task(title@, module@, state@, params@, register@),
{
    let mut out: String = "    - name: ".to_owned();
    out.append(title);
    out.append("\n      ");
    out.append(module);
    out.append(":\n        state: ");
    out.append(state);
    out.append(params);
    out.append("\n      register: ");
    out.append(register);
    out.append("\n");
    out
}

/// Formats a task that asserts that an earlier one changed something.
fn format_play_check(title: &str, register: &str) -> (res: String)
    ensures
        res@ == play_check(title@, register@),
{
    let mut out: String = "    - name: ".to_owned();
    out.append(title);
    out.append("\n      ansible.builtin.assert:\n        that:\n          - ");
    out.append(register);
    out.append(".changed\n");
    out
}

/// Generates a YAML integration test for a resource.
#[must_use]
pub fn generate_test_playbook(resource: &IacResource, provider_name: &str) -> (res: String)
    ensures
        res@ == test_playbook(*resource, provider_name@),
{
    let name: String = iac_forge::to_snake_case(
        iac_forge::strip_provider_prefix(resource.name.as_str(), provider_name),
    );
    let module: &str = name.as_str();
    let params: String = build_params_block(resource.attributes.as_slice());
    let mut create: String = "Create ".to_owned();
    create.append(module);
    let mut again: String = create.clone();
    again.append(" (idempotent)");
    let mut delete: String = "Delete ".to_owned();
    delete.append(module);
    let mut out: String = format_play_head(module);
    out.append(
        format_play_task(
            create.as_str(),
            module,
            "present",
            params.as_str(),
            "create_result",
        ).as_str(),
    );
    out.append("\n");
    out.append(format_play_check("Verify creation", "create_result").as_str());
    out.append("\n");
    out.append(
        format_play_task(
            again.as_str(),
            module,
            "present",
            params.as_str(),
            "idempotent_result",
        ).as_str(),
    );
    out.append("\n");
    out.append(
        format_play_task(
            delete.as_str(),
            module,
            "absent",
            params.as_str(),
            "delete_result",
        ).as_str(),
    );
    out.append("\n");
    out.append(format_play_check("Verify deletion", "delete_result").as_str());
    out
}

} // verus!
