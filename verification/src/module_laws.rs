//! Modules and playbooks in terms of the resources, data sources and actions
//! that they are generated for.
use vstd::prelude::*;

use crate::fragments;
use crate::ir;
use crate::ir::{IacAction, IacAttribute, IacDataSource, IacResource};
use crate::module_gen;
use crate::module_gen::{Lifecycle, ModuleInfo};
use crate::naming;
use crate::sdk_names;
use crate::text;
use crate::text_laws;
use crate::type_names;

verus! {

broadcast use {text::lemma_contains_concat, text::lemma_contains_self};

// ---------------------------------------------------------------------------
// What modules are made from
// ---------------------------------------------------------------------------

/// The model of what a module is generated for, and that of a lifecycle, hold
/// the text of each field.
pub proof fn law_models_hold_the_fields(info: ModuleInfo, lifecycle: Lifecycle)
    ensures
        info@.module == info.module@,
        info@.description == info.description@,
        info@.namespace == info.namespace@,
        info@.provider == info.provider@,
        info@.author == info.author@,
        lifecycle@.label == lifecycle.label@,
        lifecycle@.create == lifecycle.create@,
        lifecycle@.update == lifecycle.update@,
        lifecycle@.delete == lifecycle.delete@,
        lifecycle@.read == lifecycle.read@,
        lifecycle.read_key is None ==> lifecycle@.read_key is None,
        lifecycle.read_key is Some ==> lifecycle@.read_key == Some(lifecycle.read_key->0@),
{
}

/// The module of a resource is generated for its name in snake case without the
/// provider, its description without double quotes, and what the caller gives,
/// and runs the lifecycle of the resource.
pub proof fn law_resource_module_is_for_the_resource(
    resource: IacResource,
    provider: Seq<char>,
    namespace: Seq<char>,
    author: Seq<char>,
)
    ensures
        ({
            let module = naming::snake_cased(naming::unprefixed(resource.name@, provider));
            let m = module_gen::ModuleModel {
                module,
                description: fragments::escaped(resource.description@),
                namespace,
                provider,
                author,
            };
            let attrs = resource.attributes@;
            &&& module_gen::resource_module(resource, provider, namespace, author)
                == module_gen::resource_python(
                m,
                attrs,
                module_gen::lifecycle_of(resource, module),
            )
            &&& module_gen::plain_resource_module(resource, provider, namespace, author)
                == module_gen::resource_python(
                m,
                attrs,
                module_gen::plain_lifecycle(resource, module),
            )
        }),
{
}

/// The module of an action is generated for its name in snake case without the
/// provider, its description without double quotes, and what the caller gives,
/// and makes the call of the action.
pub proof fn law_action_module_is_for_the_action(
    action: IacAction,
    provider: Seq<char>,
    namespace: Seq<char>,
    author: Seq<char>,
)
    ensures
        ({
            let m = module_gen::ModuleModel {
                module: naming::snake_cased(naming::unprefixed(action.name@, provider)),
                description: fragments::escaped(action.description@),
                namespace,
                provider,
                author,
            };
            let attrs = action.attributes@;
            &&& module_gen::action_module(action, provider, namespace, author)
                == module_gen::action_python(m, attrs, module_gen::action_pair(action))
            &&& module_gen::plain_action_module(action, provider, namespace, author)
                == module_gen::action_python(m, attrs, module_gen::plain_action_pair(action))
        }),
{
}

/// The module of a data source is generated for its name in snake case without
/// the provider and with `_info` behind, its description without double quotes,
/// and what the caller gives, and makes the call that reads.
pub proof fn law_data_source_module_is_for_the_data_source(
    ds: IacDataSource,
    provider: Seq<char>,
    namespace: Seq<char>,
    author: Seq<char>,
)
    ensures
        ({
            let m = module_gen::ModuleModel {
                module: naming::snake_cased(naming::unprefixed(ds.name@, provider)) + "_info"@,
                description: fragments::escaped(ds.description@),
                namespace,
                provider,
                author,
            };
            let attrs = ds.attributes@;
            let read = ds.read_schema@;
            &&& module_gen::data_source_module(ds, provider, namespace, author)
                == module_gen::data_source_python(m, attrs, module_gen::schema_pair(read))
            &&& module_gen::plain_data_source_module(ds, provider, namespace, author)
                == module_gen::data_source_python(m, attrs, module_gen::plain_pair(read))
        }),
{
}

// ---------------------------------------------------------------------------
// SDK calls
// ---------------------------------------------------------------------------

/// An SDK call is the pair of the literals of the model class and the method, in
/// this order. A schema gives both; an action may name the method itself.
pub proof fn law_sdk_calls_pair_class_and_method(
    class: Seq<char>,
    method: Seq<char>,
    schema: Seq<char>,
    action: IacAction,
)
    ensures
        module_gen::sdk_pair(class, method) == "("@ + class + ", "@ + method + ")"@,
        module_gen::quoted(class) == seq!['"'] + class + seq!['"'],
        module_gen::call_kwarg(class) == "        sdk_call="@ + class + ","@,
        module_gen::schema_pair(schema) == module_gen::sdk_pair(
            text::str_debug(sdk_names::model_class_name(schema)),
            text::str_debug(sdk_names::method_name(schema)),
        ),
        module_gen::plain_pair(schema) == module_gen::sdk_pair(
            module_gen::quoted(sdk_names::ascii_model_class_name(schema)),
            module_gen::quoted(sdk_names::ascii_method_name(schema)),
        ),
        action.sdk_method is None ==> {
            &&& module_gen::action_pair(action) == module_gen::schema_pair(action.schema@)
            &&& module_gen::plain_action_pair(action) == module_gen::plain_pair(action.schema@)
        },
        action.sdk_method is Some ==> {
            &&& module_gen::action_pair(action) == module_gen::sdk_pair(
                text::str_debug(sdk_names::model_class_name(action.schema@)),
                text::str_debug(action.sdk_method->0@),
            )
            &&& module_gen::plain_action_pair(action) == module_gen::sdk_pair(
                module_gen::quoted(sdk_names::ascii_model_class_name(action.schema@)),
                module_gen::quoted(action.sdk_method->0@),
            )
        },
{
}

/// A resource is created, read and deleted with the calls of the schemas for
/// that, goes by the name of its module, and is found by its identifier in snake
/// case, which is given unless it is `name`.
pub proof fn law_lifecycle_is_that_of_the_resource(resource: IacResource, module: Seq<char>)
    ensures
        ({
            let l = module_gen::lifecycle_of(resource, module);
            let p = module_gen::plain_lifecycle(resource, module);
            let key = naming::snake_cased(resource.identity.id_field@);
            &&& l.label == text::str_debug(module)
            &&& l.create == module_gen::schema_pair(resource.crud.create_schema@)
            &&& l.update == module_gen::sdk_update_kwargs(resource)
            &&& l.delete == module_gen::schema_pair(resource.crud.delete_schema@)
            &&& l.read == module_gen::schema_pair(resource.crud.read_schema@)
            &&& key == "name"@ ==> l.read_key is None && p.read_key is None
            &&& key != "name"@ ==> l.read_key == Some(text::str_debug(key))
            &&& key != "name"@ ==> p.read_key == Some(module_gen::quoted(key))
            &&& p.label == module_gen::quoted(module)
            &&& p.create == module_gen::plain_pair(resource.crud.create_schema@)
            &&& p.delete == module_gen::plain_pair(resource.crud.delete_schema@)
            &&& p.read == module_gen::plain_pair(resource.crud.read_schema@)
        }),
{
}

/// A resource is updated with the call of its update schema where it has one and
/// an endpoint; otherwise it is marked as immutable, after a comment that lists
/// its immutable attributes where it has any.
pub proof fn law_updates_take_an_endpoint_and_a_schema(resource: IacResource)
    ensures
        ({
            let names = ir::immutable_names(resource.attributes@);
            let listed = text::joined(
                names.map_values(|n: Seq<char>| "        #   - "@ + n),
                "\n"@,
            );
            let plain = module_gen::update_kwargs_with(
                resource,
                |s: Seq<char>| module_gen::plain_pair(s),
            );
            let frozen = if names.len() == 0 {
                "        sdk_update=None,\n        immutable=True,"@
            } else {
                "        # WARNING: The following fields are immutable after creation.\n"@ + listed
                    + "\n        # Changing them requires destroy + recreate."@
                    + "\n        sdk_update=None,\n        immutable=True,"@
            };
            match (resource.crud.update_endpoint, resource.crud.update_schema) {
                (Some(_), Some(schema)) => {
                    &&& module_gen::sdk_update_kwargs(resource) == "        sdk_update="@
                        + module_gen::schema_pair(schema@) + ","@
                    &&& plain == "        sdk_update="@ + module_gen::plain_pair(schema@) + ","@
                },
                _ => {
                    &&& module_gen::sdk_update_kwargs(resource) == frozen
                    &&& plain == frozen
                },
            }
        }),
{
    let names = ir::immutable_names(resource.attributes@);
    assert(names.map_values(|n: Seq<char>| module_gen::immutable_line(n)) =~= names.map_values(
        |n: Seq<char>| "        #   - "@ + n,
    ));
    if names.len() > 0 {
        reveal_strlit("        # WARNING: The following fields are immutable after creation.\n");
        assert(module_gen::immutable_comment(names).len() > 0);
    }
}

/// The keyword arguments about updates, for any call and any comment.
pub proof fn law_update_kwargs_text(pair: Seq<char>, comment: Seq<char>, names: Seq<Seq<char>>)
    ensures
        module_gen::update_kwargs(Some(pair), comment) == "        sdk_update="@ + pair + ","@,
        comment.len() == 0 ==> module_gen::update_kwargs(None, comment)
            == "        sdk_update=None,\n        immutable=True,"@,
        comment.len() > 0 ==> module_gen::update_kwargs(None, comment) == comment
            + "\n        sdk_update=None,\n        immutable=True,"@,
        names.len() == 0 ==> module_gen::immutable_comment(names) == Seq::<char>::empty(),
        names.len() > 0 ==> module_gen::immutable_comment(names)
            == "        # WARNING: The following fields are immutable after creation.\n"@
            + text::joined(names.map_values(|n: Seq<char>| "        #   - "@ + n), "\n"@)
            + "\n        # Changing them requires destroy + recreate."@,
{
    assert(names.map_values(|n: Seq<char>| module_gen::immutable_line(n)) =~= names.map_values(
        |n: Seq<char>| "        #   - "@ + n,
    ));
}

/// The keyword arguments of a resource, for any lifecycle.
pub proof fn law_lifecycle_kwargs_text(l: module_gen::LifecycleModel)
    ensures
        module_gen::lifecycle_kwargs(l) == "        resource_label="@ + l.label
            + ",\n        sdk_create="@ + l.create + ",\n"@ + l.update + "\n        sdk_delete="@
            + l.delete + ",\n        sdk_read="@ + l.read + ","@ + (match l.read_key {
            Some(key) => "\n        read_key="@ + key + ","@,
            None => Seq::empty(),
        }),
{
}

// ---------------------------------------------------------------------------
// Texts of modules
// ---------------------------------------------------------------------------

/// What every module starts with: the file header and the documentation with the
/// name, the short description, the author and the documentation fragment of the
/// collection, which is named by namespace, provider and `auth`.
pub proof fn law_module_head_text(m: module_gen::ModuleModel)
    ensures
        module_gen::module_head(m)
            == "#!/usr/bin/python
# -*- coding: utf-8 -*-

# Copyright: (c) 2026, pleme-io
# GNU General Public License v3.0+ (see LICENSES/GPL-3.0-or-later.txt or https://www.gnu.org/licenses/gpl-3.0.txt)

from __future__ import absolute_import, division, print_function
__metaclass__ = type"@
            + "\n\nDOCUMENTATION = r'''\n---\nmodule: "@ + m.module + "\nshort_description: "@
            + m.description + "\nauthor:\n  - \""@ + m.author
            + "\"\nextends_documentation_fragment:\n  - "@ + m.namespace + "."@ + m.provider
            + ".auth\ndescription:\n"@,
{
}

/// A resource module: the head, the description and the state option, the
/// documented options, two examples, the returned values, the import of
/// `run_standard_crud`, the arguments after the state, and the call of the helper.
pub proof fn law_resource_module_text(
    m: module_gen::ModuleModel,
    attrs: Seq<IacAttribute>,
    l: module_gen::LifecycleModel,
)
    ensures
        ({
            let documentation = module_gen::module_head(m) + ("  - Manage "@ + m.module
                + " resources.\noptions:\n    state:\n      description: Whether the resource should be present or absent.\n      type: str\n      choices: [\"present\", \"absent\"]\n      default: present\n"@)
                + (fragments::options_yaml(attrs) + "\n'''\n\n"@);
            let examples = "EXAMPLES = r'''\n- name: Create "@ + m.module + "\n  "@ + m.module
                + ":\n    state: present\n\n- name: Delete "@ + m.module + "\n  "@ + m.module
                + ":\n    state: absent\n'''\n\n"@;
            let returned = "RETURN = r'''\n"@ + fragments::return_yaml(attrs) + "\n'''\n\n"@;
            let imports = "from ansible_collections."@ + m.namespace + "."@ + m.provider
                + ".plugins.module_utils.akeyless_client import (\n    "@ + "run_standard_crud"@
                + ",\n)\n\n"@;
            let arguments = "argument_spec = {\n"@ + fragments::argspec_inner(
                Some(
                    "    'state': {'type': 'str', 'choices': ['present', 'absent'], 'default': 'present'},"@,
                ),
                fragments::argument_spec(attrs),
            ) + "\n}\n\n\n"@;
            let entry = "def main():\n    "@ + "run_standard_crud"@
                + "(\n        argument_spec=argument_spec,\n"@ + module_gen::lifecycle_kwargs(l)
                + "\n    )\n\n\nif __name__ == '__main__':\n    main()\n"@;
            module_gen::resource_python(m, attrs, l) == documentation + examples + returned
                + imports + arguments + entry
        }),
{
}

/// An action module: the head, the description, the documented options, an
/// example, the raw result, the import of `run_action_module`, the arguments
/// without a state, and the call of the helper.
pub proof fn law_action_module_text(
    m: module_gen::ModuleModel,
    attrs: Seq<IacAttribute>,
    pair: Seq<char>,
)
    ensures
        ({
            let documentation = module_gen::module_head(m) + "  - "@ + m.description
                + "\noptions:\n"@ + (fragments::options_yaml(attrs) + "\n'''\n\n"@);
            let examples = "EXAMPLES = r'''\n- name: Run "@ + m.module + "\n  "@ + m.module
                + ":\n  register: result\n'''\n\n"@;
            let returned = "RETURN = r'''\n"@
                + "result:\n  description: \"Raw result of the action call\"\n  type: dict\n  returned: success"@
                + "\n'''\n\n"@;
            let imports = "from ansible_collections."@ + m.namespace + "."@ + m.provider
                + ".plugins.module_utils.akeyless_client import (\n    "@ + "run_action_module"@
                + ",\n)\n\n"@;
            let arguments = "argument_spec = {\n"@ + fragments::argspec_inner(
                None,
                fragments::argument_spec(attrs),
            ) + "\n}\n\n\n"@;
            let entry = "def main():\n    "@ + "run_action_module"@
                + "(\n        argument_spec=argument_spec,\n"@ + ("        sdk_call="@ + pair
                + ","@) + "\n    )\n\n\nif __name__ == '__main__':\n    main()\n"@;
            module_gen::action_python(m, attrs, pair) == documentation + examples + returned
                + imports + arguments + entry
        }),
{
}

/// A data source module: the head, the description, the documented options, an
/// example, the returned values, the import of `run_info_module`, the arguments
/// without a state, and the call of the helper.
pub proof fn law_data_source_module_text(
    m: module_gen::ModuleModel,
    attrs: Seq<IacAttribute>,
    pair: Seq<char>,
)
    ensures
        ({
            let documentation = module_gen::module_head(m) + "  - Retrieve information about "@
                + m.module + ".\noptions:\n"@ + (fragments::options_yaml(attrs) + "\n'''\n\n"@);
            let examples = "EXAMPLES = r'''\n- name: Get "@ + m.module + "\n  "@ + m.module
                + ":\n    register: result\n'''\n\n"@;
            let returned = "RETURN = r'''\n"@ + fragments::return_yaml(attrs) + "\n'''\n\n"@;
            let imports = "from ansible_collections."@ + m.namespace + "."@ + m.provider
                + ".plugins.module_utils.akeyless_client import (\n    "@ + "run_info_module"@
                + ",\n)\n\n"@;
            let arguments = "argument_spec = {\n"@ + fragments::argspec_inner(
                None,
                fragments::argument_spec(attrs),
            ) + "\n}\n\n\n"@;
            let entry = "def main():\n    "@ + "run_info_module"@
                + "(\n        argument_spec=argument_spec,\n"@ + ("        sdk_call="@ + pair
                + ","@) + "\n    )\n\n\nif __name__ == '__main__':\n    main()\n"@;
            module_gen::data_source_python(m, attrs, pair) == documentation + examples + returned
                + imports + arguments + entry
        }),
{
}

/// Every module extends the documentation fragment `auth` of the collection that
/// it belongs to, named in full, whether or not the namespace and the provider
/// have the same name.
pub proof fn law_modules_extend_the_fragment_of_the_collection(
    m: module_gen::ModuleModel,
    attrs: Seq<IacAttribute>,
    l: module_gen::LifecycleModel,
    pair: Seq<char>,
)
    ensures
        ({
            let fragment = "\nextends_documentation_fragment:\n  - "@ + m.namespace + "."@
                + m.provider + ".auth\n"@;
            &&& text::contains(module_gen::resource_python(m, attrs, l), fragment)
            &&& text::contains(module_gen::action_python(m, attrs, pair), fragment)
            &&& text::contains(module_gen::data_source_python(m, attrs, pair), fragment)
        }),
{
    let fragment = "\nextends_documentation_fragment:\n  - "@ + m.namespace + "."@ + m.provider
        + ".auth\n"@;
    let head = module_gen::module_head(m);
    assert(text::contains(head, fragment)) by {
        reveal_strlit("\"\nextends_documentation_fragment:\n  - ");
        reveal_strlit("\nextends_documentation_fragment:\n  - ");
        reveal_strlit(".auth\ndescription:\n");
        reveal_strlit(".auth\n");
        let tail = ".auth\ndescription:\n"@;
        let before = head.take(
            head.len() - tail.len() - m.provider.len() - "."@.len() - m.namespace.len()
                - "\nextends_documentation_fragment:\n  - "@.len(),
        );
        let after = tail.skip(".auth\n"@.len() as int);
        assert(head =~= before + fragment + after);
    }
}

// ---------------------------------------------------------------------------
// Playbooks
// ---------------------------------------------------------------------------

/// The playbook of a resource: a play for the module on the local host, with
/// tasks that create the resource, check that something changed, create it once
/// more, delete it, and check that something changed.
pub proof fn law_playbook_text(resource: IacResource, provider: Seq<char>)
    ensures
        ({
            let module = naming::snake_cased(naming::unprefixed(resource.name@, provider));
            let params = fragments::params_block(resource.attributes@);
            let head = "---\n# Integration test for "@ + module + "\n\n- name: Test "@ + module
                + " module\n  hosts: localhost\n  connection: local\n  gather_facts: false\n\n  tasks:\n"@;
            let create = "    - name: "@ + ("Create "@ + module) + "\n      "@ + module
                + ":\n        state: "@ + "present"@ + params + "\n      register: "@
                + "create_result"@ + "\n"@;
            let created = "    - name: "@ + "Verify creation"@
                + "\n      ansible.builtin.assert:\n        that:\n          - "@ + "create_result"@
                + ".changed\n"@;
            let again = "    - name: "@ + ("Create "@ + module + " (idempotent)"@) + "\n      "@
                + module + ":\n        state: "@ + "present"@ + params + "\n      register: "@
                + "idempotent_result"@ + "\n"@;
            let delete = "    - name: "@ + ("Delete "@ + module) + "\n      "@ + module
                + ":\n        state: "@ + "absent"@ + params + "\n      register: "@
                + "delete_result"@ + "\n"@;
            let deleted = "    - name: "@ + "Verify deletion"@
                + "\n      ansible.builtin.assert:\n        that:\n          - "@ + "delete_result"@
                + ".changed\n"@;
            module_gen::test_playbook(resource, provider) == head + create + "\n"@ + created
                + "\n"@ + again + "\n"@ + delete + "\n"@ + deleted
        }),
{
}

/// Every required attribute is set in each of the three tasks that run the
/// module, on a line of its own, under the canonical name, which is the name that
/// the module declares it by.
pub proof fn law_playbook_sets_declared_parameters(
    resource: IacResource,
    provider: Seq<char>,
    i: int,
)
    requires
        0 <= i < resource.attributes@.len(),
        resource.attributes@[i].required,
    ensures
        ({
            let attr = resource.attributes@[i];
            let module = naming::snake_cased(naming::unprefixed(resource.name@, provider));
            let params = fragments::params_block(resource.attributes@);
            let book = module_gen::test_playbook(resource, provider);
            let create = "    - name: "@ + ("Create "@ + module) + "\n      "@ + module
                + ":\n        state: "@ + "present"@ + params + "\n      register: "@
                + "create_result"@ + "\n"@;
            let again = "    - name: "@ + ("Create "@ + module + " (idempotent)"@) + "\n      "@
                + module + ":\n        state: "@ + "present"@ + params + "\n      register: "@
                + "idempotent_result"@ + "\n"@;
            let delete = "    - name: "@ + ("Delete "@ + module) + "\n      "@ + module
                + ":\n        state: "@ + "absent"@ + params + "\n      register: "@
                + "delete_result"@ + "\n"@;
            let line = "\n        "@ + attr.canonical_name@ + ": "@ + type_names::test_value_of(
                attr.iac_type,
            );
            &&& text::contains(book, create) && text::contains(create, line)
            &&& text::contains(book, again) && text::contains(again, line)
            &&& text::contains(book, delete) && text::contains(delete, line)
            &&& text::contains(
                fragments::argument_spec(resource.attributes@),
                "    '"@ + attr.canonical_name@ + "': {'type': '"@,
            )
        }),
{
    let attrs = resource.attributes@;
    let at = ir::lemma_attribute_texts_contain(attrs, ir::required(), fragments::param_lines(), i);
    text::lemma_joined_contains(
        ir::attribute_texts(attrs, ir::required(), fragments::param_lines()),
        Seq::empty(),
        at,
    );
    text_laws::law_param_text(attrs[i]);
    let k = ir::lemma_attribute_texts_contain(attrs, ir::inputs(), fragments::argspec_entries(), i);
    text::lemma_joined_contains(
        ir::attribute_texts(attrs, ir::inputs(), fragments::argspec_entries()),
        "\n"@,
        k,
    );
    let entry = fragments::argspec_entry(attrs[i]);
    let start = "    '"@ + attrs[i].canonical_name@ + "': {'type': '"@;
    assert(text::contains(entry, start));
    text::lemma_contains_transitive(fragments::argument_spec(attrs), entry, start);
}

// ---------------------------------------------------------------------------
// What does not show
// ---------------------------------------------------------------------------

/// Two resources that differ in the API names of their attributes only, or in
/// what else is not generated from, have the same module and the same playbook.
pub proof fn law_resources_do_not_show_api_names(
    a: IacResource,
    b: IacResource,
    provider: Seq<char>,
    namespace: Seq<char>,
    author: Seq<char>,
)
    requires
        a.name@ == b.name@,
        a.description@ == b.description@,
        a.crud == b.crud,
        a.identity == b.identity,
        text_laws::all_look_alike(a.attributes@, b.attributes@),
    ensures
        module_gen::resource_module(a, provider, namespace, author) == module_gen::resource_module(
            b,
            provider,
            namespace,
            author,
        ),
        module_gen::test_playbook(a, provider) == module_gen::test_playbook(b, provider),
{
    text_laws::law_api_names_do_not_show(a.attributes@, b.attributes@);
}

/// Two data sources, or two actions, that differ in the API names of their
/// attributes only have the same module.
pub proof fn law_single_calls_do_not_show_api_names(
    m: module_gen::ModuleModel,
    a: Seq<IacAttribute>,
    b: Seq<IacAttribute>,
    pair: Seq<char>,
)
    requires
        text_laws::all_look_alike(a, b),
    ensures
        module_gen::data_source_python(m, a, pair) == module_gen::data_source_python(m, b, pair),
        module_gen::action_python(m, a, pair) == module_gen::action_python(m, b, pair),
{
    text_laws::law_api_names_do_not_show(a, b);
}

} // verus!
