use ansible_forge::backend::{galaxy_yml, readme_md, AnsibleBackend, AnsibleNaming};
use ansible_forge::config::{find_entry, read_table_text};
use ansible_forge::fragments::{
    auth_argspec_lines, build_argument_spec, build_options_yaml, build_params_block,
    build_return_yaml, compose_argspec_inner, is_input_attr, ModuleFragments,
};
use ansible_forge::ir::{
    ArtifactKind, AuthInfo, CrudInfo, IacAction, IacAttribute, IacDataSource, IacProvider,
    IacResource, IacType, IdentityInfo,
};
use ansible_forge::module_gen::{
    format_lifecycle_kwargs, format_schema_pair, format_sdk_pair, format_update_kwargs,
    generate_action_module, generate_data_source_module, generate_resource_module,
    generate_test_playbook, immutable_fields_comment, render_action_pair, render_sdk_update_kwargs,
    Lifecycle,
};
use ansible_forge::sdk_names::{
    assemble_method_name, python_sdk_method_name, python_sdk_model_class_name, replace_head,
    starts_word,
};
use ansible_forge::text::{chars_of, join, lowercase_each, replace_char, same_text};

const HELPER: &str = "# shared helper\n";
const AUTHOR: &str = "Ann (@ann)";

fn attr(name: &str, iac_type: IacType) -> IacAttribute {
    IacAttribute {
        api_name: name.to_string(),
        canonical_name: name.replace('-', "_"),
        description: format!("The {name}"),
        iac_type,
        required: false,
        optional: false,
        computed: false,
        sensitive: false,
        json_encoded: false,
        immutable: false,
        default_value: None,
        enum_values: None,
        read_path: None,
        update_only: false,
    }
}

fn sample_attributes() -> Vec<IacAttribute> {
    let mut name = attr("name", IacType::String);
    name.required = true;
    let mut key = attr("api-key", IacType::String);
    key.sensitive = true;
    key.description = "The \"key\"".to_string();
    let mut tags = attr("tags", IacType::SetOf(Box::new(IacType::Integer)));
    tags.immutable = true;
    let mut size = attr(
        "size",
        IacType::Enum {
            values: vec!["small".to_string(), "large".to_string()],
            underlying: Box::new(IacType::String),
        },
    );
    size.required = true;
    size.enum_values = Some(vec!["ignored".to_string()]);
    let mut id = attr("id", IacType::Integer);
    id.computed = true;
    vec![name, key, tags, size, id]
}

fn sample_resource() -> IacResource {
    IacResource {
        name: "cloud_disk".to_string(),
        description: "A \"fast\" disk".to_string(),
        category: "storage".to_string(),
        crud: CrudInfo {
            create_endpoint: "/create".to_string(),
            create_schema: "createDisk".to_string(),
            update_endpoint: None,
            update_schema: Some("UpdateDisk".to_string()),
            read_endpoint: "/read".to_string(),
            read_schema: "GetHTTPDisk".to_string(),
            read_response_schema: None,
            delete_endpoint: "/delete".to_string(),
            delete_schema: "delete-disk2Fast".to_string(),
        },
        attributes: sample_attributes(),
        identity: IdentityInfo {
            id_field: "disk-id".to_string(),
            import_field: "name".to_string(),
            force_replace_fields: vec![],
        },
        read_mapping: vec![],
    }
}

fn sample_action() -> IacAction {
    IacAction {
        name: "cloud_rotate".to_string(),
        description: "Rotate keys".to_string(),
        category: "keys".to_string(),
        endpoint: "/rotate".to_string(),
        schema: "rotateKeys".to_string(),
        response_schema: None,
        mutating: true,
        sensitive_response_fields: vec!["token".to_string()],
        attributes: vec![attr("force", IacType::Boolean)],
        sdk_method: None,
    }
}

fn sample_data_source() -> IacDataSource {
    let mut id = attr("id", IacType::Float);
    id.computed = true;
    IacDataSource {
        name: "cloud_disk".to_string(),
        description: "Read a disk".to_string(),
        read_endpoint: "/read".to_string(),
        read_schema: "GetDisk".to_string(),
        read_response_schema: None,
        attributes: vec![id],
        read_mapping: vec![],
    }
}

fn sample_provider() -> IacProvider {
    IacProvider {
        name: "cloud".to_string(),
        description: "Cloud".to_string(),
        version: "1.0.0".to_string(),
        auth: AuthInfo::default(),
        skip_fields: vec![],
        platform_config: vec![],
    }
}

fn namespaced_provider(value: toml::Value) -> IacProvider {
    let mut table = toml::value::Table::new();
    table.insert("galaxy_namespace".to_string(), value);
    let mut provider = sample_provider();
    provider
        .platform_config
        .push(("terraform".to_string(), toml::Value::Integer(1)));
    provider
        .platform_config
        .push(("ansible".to_string(), toml::Value::Table(table)));
    provider
}

#[test]
fn resource_module_in_full() {
    let expected = r#"#!/usr/bin/python
# -*- coding: utf-8 -*-

# Copyright: (c) 2026, pleme-io
# GNU General Public License v3.0+ (see LICENSES/GPL-3.0-or-later.txt or https://www.gnu.org/licenses/gpl-3.0.txt)

from __future__ import absolute_import, division, print_function
__metaclass__ = type

DOCUMENTATION = r'''
---
module: disk
short_description: A 'fast' disk
author:
  - "Ann (@ann)"
extends_documentation_fragment:
  - acme.cloud.auth
description:
  - Manage disk resources.
options:
    state:
      description: Whether the resource should be present or absent.
      type: str
      choices: ["present", "absent"]
      default: present
    name:
      description: "The name"
      type: str
      required: true
    api_key:
      description: "The 'key'"
      type: str
      no_log: true
    tags:
      description: "The tags"
      type: list
      elements: int
    size:
      description: "The size"
      type: str
      required: true
      choices: ["small", "large"]
'''

EXAMPLES = r'''
- name: Create disk
  disk:
    state: present

- name: Delete disk
  disk:
    state: absent
'''

RETURN = r'''
id:
  description: "The id"
  type: int
  returned: success
'''

from ansible_collections.acme.cloud.plugins.module_utils.akeyless_client import (
    run_standard_crud,
)

argument_spec = {
    'state': {'type': 'str', 'choices': ['present', 'absent'], 'default': 'present'},
    'name': {'type': 'str', 'required': True},
    'api_key': {'type': 'str', 'no_log': True},
    'tags': {'type': 'list', 'elements': 'int'},
    'size': {'type': 'str', 'required': True, 'choices': ['small', 'large']},
    'gateway_url': {'type': 'str'},
    'access_id': {'type': 'str'},
    'access_key': {'type': 'str', 'no_log': True},
    'access_type': {'type': 'str', 'default': 'access_key'},
}


def main():
    run_standard_crud(
        argument_spec=argument_spec,
        resource_label="disk",
        sdk_create=("CreateDisk", "create_disk"),
        # WARNING: The following fields are immutable after creation.
        #   - tags
        # Changing them requires destroy + recreate.
        sdk_update=None,
        immutable=True,
        sdk_delete=("Delete-disk2Fast", "delete_disk2_fast"),
        sdk_read=("GetHTTPDisk", "get_http_disk"),
        read_key="disk_id",
    )


if __name__ == '__main__':
    main()
"#;
    assert_eq!(
        generate_resource_module(&sample_resource(), "cloud", "acme", AUTHOR),
        expected
    );
}

#[test]
fn action_module_in_full() {
    let expected = r#"#!/usr/bin/python
# -*- coding: utf-8 -*-

# Copyright: (c) 2026, pleme-io
# GNU General Public License v3.0+ (see LICENSES/GPL-3.0-or-later.txt or https://www.gnu.org/licenses/gpl-3.0.txt)

from __future__ import absolute_import, division, print_function
__metaclass__ = type

DOCUMENTATION = r'''
---
module: rotate
short_description: Rotate keys
author:
  - "Ann (@ann)"
extends_documentation_fragment:
  - acme.cloud.auth
description:
  - Rotate keys
options:
    force:
      description: "The force"
      type: bool
'''

EXAMPLES = r'''
- name: Run rotate
  rotate:
  register: result
'''

RETURN = r'''
result:
  description: "Raw result of the action call"
  type: dict
  returned: success
'''

from ansible_collections.acme.cloud.plugins.module_utils.akeyless_client import (
    run_action_module,
)

argument_spec = {
    'force': {'type': 'bool'},
    'gateway_url': {'type': 'str'},
    'access_id': {'type': 'str'},
    'access_key': {'type': 'str', 'no_log': True},
    'access_type': {'type': 'str', 'default': 'access_key'},
}


def main():
    run_action_module(
        argument_spec=argument_spec,
        sdk_call=("RotateKeys", "rotate_keys"),
    )


if __name__ == '__main__':
    main()
"#;
    assert_eq!(
        generate_action_module(&sample_action(), "cloud", "acme", AUTHOR),
        expected
    );
}

#[test]
fn data_source_module_in_full() {
    let expected = r#"#!/usr/bin/python
# -*- coding: utf-8 -*-

# Copyright: (c) 2026, pleme-io
# GNU General Public License v3.0+ (see LICENSES/GPL-3.0-or-later.txt or https://www.gnu.org/licenses/gpl-3.0.txt)

from __future__ import absolute_import, division, print_function
__metaclass__ = type

DOCUMENTATION = r'''
---
module: disk_info
short_description: Read a disk
author:
  - "Ann (@ann)"
extends_documentation_fragment:
  - acme.cloud.auth
description:
  - Retrieve information about disk_info.
options:

'''

EXAMPLES = r'''
- name: Get disk_info
  disk_info:
    register: result
'''

RETURN = r'''
id:
  description: "The id"
  type: float
  returned: success
'''

from ansible_collections.acme.cloud.plugins.module_utils.akeyless_client import (
    run_info_module,
)

argument_spec = {
    'gateway_url': {'type': 'str'},
    'access_id': {'type': 'str'},
    'access_key': {'type': 'str', 'no_log': True},
    'access_type': {'type': 'str', 'default': 'access_key'},
}


def main():
    run_info_module(
        argument_spec=argument_spec,
        sdk_call=("GetDisk", "get_disk"),
    )


if __name__ == '__main__':
    main()
"#;
    assert_eq!(
        generate_data_source_module(&sample_data_source(), "cloud", "acme", AUTHOR),
        expected
    );
}

#[test]
fn playbook_in_full() {
    let expected = r#"---
# Integration test for disk

- name: Test disk module
  hosts: localhost
  connection: local
  gather_facts: false

  tasks:
    - name: Create disk
      disk:
        state: present
        name: "test_value"
        size: "small"
      register: create_result

    - name: Verify creation
      ansible.builtin.assert:
        that:
          - create_result.changed

    - name: Create disk (idempotent)
      disk:
        state: present
        name: "test_value"
        size: "small"
      register: idempotent_result

    - name: Delete disk
      disk:
        state: absent
        name: "test_value"
        size: "small"
      register: delete_result

    - name: Verify deletion
      ansible.builtin.assert:
        that:
          - delete_result.changed
"#;
    assert_eq!(generate_test_playbook(&sample_resource(), "cloud"), expected);
}

#[test]
fn galaxy_manifest_in_full() {
    assert_eq!(
        galaxy_yml("acme", "cloud"),
        "namespace: acme\n\
         name: cloud\n\
         version: 0.1.0\n\
         readme: README.md\n\
         authors: [pleme-io]\n\
         description: \"Auto-generated Ansible modules for Akeyless Vault — managed by iac-forge.\"\n\
         license: [MIT]\n\
         repository: https://github.com/pleme-io/ansible-cloud\n\
         documentation: https://github.com/pleme-io/ansible-cloud\n\
         homepage: https://github.com/pleme-io/ansible-cloud\n\
         issues: https://github.com/pleme-io/ansible-cloud/issues\n\
         dependencies: {}\n\
         tags: [security, secrets, akeyless]\n"
    );
}

#[test]
fn readme_in_full() {
    assert_eq!(
        readme_md("acme", "cloud"),
        "# acme.cloud\n\n\
         Auto-generated Ansible collection wrapping the Akeyless Python SDK.\n\
         Each module proxies one Akeyless V2 API endpoint with create/read/update/delete\n\
         semantics derived from the upstream OpenAPI specification.\n\
         Do not edit generated modules — they will be overwritten.\n\n\
         Regenerate with: `iac-forge-cli generate --backend ansible`.\n"
    );
}

#[test]
fn collection_files_in_order() {
    let backend = AnsibleBackend::new();
    let files = backend
        .generate_all(
            &sample_provider(),
            &[sample_resource()],
            &[sample_data_source()],
            HELPER,
        )
        .unwrap();
    let listed: Vec<(&str, ArtifactKind)> =
        files.iter().map(|f| (f.path.as_str(), f.kind)).collect();
    assert_eq!(
        listed,
        vec![
            ("plugins/modules/disk.py", ArtifactKind::Resource),
            ("plugins/modules/disk_info.py", ArtifactKind::DataSource),
            ("plugins/module_utils/akeyless_client.py", ArtifactKind::Metadata),
            ("galaxy.yml", ArtifactKind::Metadata),
            ("meta/runtime.yml", ArtifactKind::Metadata),
            ("requirements.txt", ArtifactKind::Metadata),
            ("README.md", ArtifactKind::Metadata),
            ("tests/integration/targets/disk/tasks/main.yml", ArtifactKind::Test),
        ]
    );
    assert_eq!(
        files[0].content,
        generate_resource_module(&sample_resource(), "cloud", "cloud", "pleme-io (@pleme-io)")
    );
    assert_eq!(
        files[1].content,
        generate_data_source_module(&sample_data_source(), "cloud", "cloud", "pleme-io (@pleme-io)")
    );
    assert_eq!(files[2].content, HELPER);
    assert_eq!(files[3].content, galaxy_yml("cloud", "cloud"));
    assert_eq!(files[4].content, "requires_ansible: '>=2.14.0'\n");
    assert_eq!(files[5].content, "akeyless>=5.0.22\n");
    assert_eq!(files[6].content, readme_md("cloud", "cloud"));
    assert_eq!(files[7].content, generate_test_playbook(&sample_resource(), "cloud"));
}

#[test]
fn empty_collection_is_metadata_only() {
    let files = AnsibleBackend::new()
        .generate_all(&sample_provider(), &[], &[], HELPER)
        .unwrap();
    assert_eq!(files.len(), 5);
    assert!(files.iter().all(|f| f.kind == ArtifactKind::Metadata));
}

#[test]
fn collection_counts_follow_the_inputs() {
    let files = AnsibleBackend::new()
        .generate_all(
            &sample_provider(),
            &[sample_resource(), sample_resource(), sample_resource()],
            &[sample_data_source(), sample_data_source()],
            HELPER,
        )
        .unwrap();
    assert_eq!(files.len(), 2 * 3 + 2 + 5);
}

#[test]
fn action_file_is_a_module() {
    let files = AnsibleBackend::new()
        .generate_action(&sample_action(), &sample_provider())
        .unwrap();
    assert_eq!(files.len(), 1);
    assert_eq!(files[0].path, "plugins/modules/rotate.py");
    assert_eq!(files[0].kind, ArtifactKind::Module);
    assert_eq!(
        files[0].content,
        generate_action_module(&sample_action(), "cloud", "cloud", "pleme-io (@pleme-io)")
    );
}

#[test]
fn module_files_follow_the_naming_convention() {
    let backend = AnsibleBackend::default();
    let mut resource = sample_resource();
    resource.name = "cloud_fast-disk".to_string();
    let files = backend.generate_resource(&resource, &sample_provider()).unwrap();
    let expected = backend.naming().file_name("fast-disk", &ArtifactKind::Resource);
    assert_eq!(files[0].path, format!("plugins/modules/{expected}"));
    let files = backend
        .generate_data_source(&sample_data_source(), &sample_provider())
        .unwrap();
    let expected = backend.naming().file_name("disk", &ArtifactKind::DataSource);
    assert_eq!(files[0].path, format!("plugins/modules/{expected}"));
}

#[test]
fn hyphenated_names_give_snake_case_modules() {
    let mut resource = sample_resource();
    resource.name = "cloud_my-fast-disk".to_string();
    let module = generate_resource_module(&resource, "cloud", "acme", AUTHOR);
    assert!(module.contains("\nmodule: my_fast_disk\n"));
    assert!(module.contains("  - Manage my_fast_disk resources.\n"));
    assert!(module.contains("- name: Create my_fast_disk\n  my_fast_disk:\n"));
    assert!(module.contains("resource_label=\"my_fast_disk\","));
    assert!(!module.contains("my-fast-disk"));
    let playbook = generate_test_playbook(&resource, "cloud");
    assert!(playbook.contains("    - name: Create my_fast_disk\n      my_fast_disk:\n"));
    assert!(!playbook.contains("my-fast-disk"));

    let mut action = sample_action();
    action.name = "cloud_rotate-all".to_string();
    let module = generate_action_module(&action, "cloud", "acme", AUTHOR);
    assert!(module.contains("\nmodule: rotate_all\n"));
    assert!(module.contains("- name: Run rotate_all\n  rotate_all:\n"));
    assert!(!module.contains("rotate-all"));

    let mut ds = sample_data_source();
    ds.name = "cloud_my-disk".to_string();
    let module = generate_data_source_module(&ds, "cloud", "acme", AUTHOR);
    assert!(module.contains("\nmodule: my_disk_info\n"));
    assert!(module.contains("- name: Get my_disk_info\n  my_disk_info:\n"));
    assert!(!module.contains("my-disk"));
}

#[test]
fn modules_stand_under_their_names() {
    let backend = AnsibleBackend::new();
    let mut resource = sample_resource();
    resource.name = "cloud_my-disk".to_string();
    let mut ds = sample_data_source();
    ds.name = "cloud_my-disk".to_string();
    let files = backend
        .generate_all(&sample_provider(), &[resource], &[ds], HELPER)
        .unwrap();
    assert_eq!(files[0].path, "plugins/modules/my_disk.py");
    assert!(files[0].content.contains("\nmodule: my_disk\n"));
    assert_eq!(files[1].path, "plugins/modules/my_disk_info.py");
    assert!(files[1].content.contains("\nmodule: my_disk_info\n"));
    assert_eq!(files[7].path, "tests/integration/targets/my_disk/tasks/main.yml");
    assert!(files[7].content.contains("\n      my_disk:\n"));
}

#[test]
fn modules_have_their_parts_in_order() {
    let modules = [
        generate_resource_module(&sample_resource(), "cloud", "acme", AUTHOR),
        generate_action_module(&sample_action(), "cloud", "acme", AUTHOR),
        generate_data_source_module(&sample_data_source(), "cloud", "acme", AUTHOR),
    ];
    for module in modules {
        assert!(module.starts_with("#!/usr/bin/python\n"));
        let positions: Vec<usize> = [
            "\nDOCUMENTATION = r'''\n",
            "\nEXAMPLES = r'''\n",
            "\nRETURN = r'''\n",
            "\nfrom ansible_collections.acme.cloud.plugins.module_utils.akeyless_client import (\n",
            "\nargument_spec = {\n",
            "\ndef main():\n",
        ]
        .iter()
        .map(|part| module.find(part).unwrap())
        .collect();
        assert!(positions.windows(2).all(|pair| pair[0] < pair[1]));
    }
}

#[test]
fn arguments_and_options_agree() {
    let attrs = sample_attributes();
    let arguments = build_argument_spec(&attrs);
    let options = build_options_yaml(&attrs);
    for attr in &attrs {
        let name = &attr.canonical_name;
        let start = format!("    '{name}': {{");
        let entry = arguments.lines().find(|line| line.starts_with(&start));
        assert_eq!(entry.is_some(), is_input_attr(attr));
        let header = format!("    {name}:");
        assert_eq!(options.lines().any(|line| line == header), is_input_attr(attr));
        let block: Vec<&str> = options
            .lines()
            .skip_while(|line| *line != header)
            .skip(1)
            .take_while(|line| line.starts_with("      "))
            .collect();
        if let Some(entry) = entry {
            assert_eq!(entry.contains(", 'no_log': True"), attr.sensitive);
            assert_eq!(entry.contains(", 'required': True"), attr.required);
            assert_eq!(block.contains(&"      no_log: true"), attr.sensitive);
            assert_eq!(block.contains(&"      required: true"), attr.required);
        }
    }
}

#[test]
fn flag_names_as_choices_are_no_flags() {
    let mut choice = attr("choice", IacType::String);
    choice.enum_values = Some(vec!["no_log".to_string(), "required".to_string()]);
    assert_eq!(
        build_argument_spec(&[choice]),
        "    'choice': {'type': 'str', 'choices': ['no_log', 'required']},"
    );
    let no_log = attr("no_log", IacType::Boolean);
    assert_eq!(build_argument_spec(&[no_log]), "    'no_log': {'type': 'bool'},");
}

#[test]
fn file_names_are_normalized() {
    let naming = AnsibleNaming;
    for kind in [
        ArtifactKind::Resource,
        ArtifactKind::DataSource,
        ArtifactKind::Test,
        ArtifactKind::HelmChart,
    ] {
        assert_eq!(naming.file_name("a-b_c", &kind), naming.file_name("a_b_c", &kind));
    }
    for kind in [
        ArtifactKind::Signature,
        ArtifactKind::Controller,
        ArtifactKind::ProviderConfig,
        ArtifactKind::HelmChart,
    ] {
        assert_eq!(naming.file_name("a-b", &kind), "a_b.py");
    }
}

#[test]
fn provider_prefix_is_stripped_once() {
    let naming = AnsibleNaming;
    assert_eq!(naming.resource_type_name("cloud_cloud_x", "cloud"), "cloud_x");
    assert_eq!(naming.resource_type_name("cloud", "cloud"), "cloud");
    assert_eq!(naming.resource_type_name("cloud_", "cloud"), "");
    assert_eq!(naming.resource_type_name("cloudy_x", "cloud"), "cloudy_x");
    assert_eq!(naming.resource_type_name("_x", ""), "x");
    assert_eq!(
        naming.resource_type_name("cloud_disk", "cloud"),
        naming.resource_type_name("disk", "cloud")
    );
}

#[test]
fn namespace_comes_from_the_ansible_table() {
    use_namespace(namespaced_provider(toml::Value::String("acme".to_string())), "acme");
    use_namespace(namespaced_provider(toml::Value::String(String::new())), "");
}

#[test]
fn namespace_falls_back_on_other_values() {
    use_namespace(sample_provider(), "cloud");
    use_namespace(namespaced_provider(toml::Value::Integer(7)), "cloud");
    use_namespace(namespaced_provider(toml::Value::Array(vec![])), "cloud");
    let mut provider = sample_provider();
    provider
        .platform_config
        .push(("ansible".to_string(), toml::Value::Table(toml::value::Table::new())));
    use_namespace(provider, "cloud");
    let mut provider = sample_provider();
    provider
        .platform_config
        .push(("ansible".to_string(), toml::Value::Boolean(true)));
    use_namespace(provider, "cloud");
}

fn use_namespace(provider: IacProvider, expected: &str) {
    assert_eq!(ansible_forge::backend::galaxy_namespace(&provider), expected);
    let backend = AnsibleBackend::new();
    let files = backend.generate_provider(&provider, &[], &[], HELPER).unwrap();
    assert_eq!(files[1].content, galaxy_yml(expected, "cloud"));
    let import = format!(
        "from ansible_collections.{expected}.cloud.plugins.module_utils.akeyless_client import"
    );
    let resource = backend.generate_resource(&sample_resource(), &provider).unwrap();
    assert!(resource[0].content.contains(&import));
    let data_source = backend
        .generate_data_source(&sample_data_source(), &provider)
        .unwrap();
    assert!(data_source[0].content.contains(&import));
    let action = backend.generate_action(&sample_action(), &provider).unwrap();
    assert!(action[0].content.contains(&import));
}

#[test]
fn config_entries_are_found_by_name() {
    let config = vec![
        ("a".to_string(), toml::Value::Integer(1)),
        ("b".to_string(), toml::Value::Integer(2)),
        ("b".to_string(), toml::Value::Integer(3)),
    ];
    assert_eq!(find_entry(&config, "b"), Some(&toml::Value::Integer(2)));
    assert_eq!(find_entry(&config, "c"), None);
}

#[test]
fn table_texts_are_read() {
    let mut table = toml::value::Table::new();
    table.insert("text".to_string(), toml::Value::String("x".to_string()));
    table.insert("number".to_string(), toml::Value::Integer(1));
    let value = toml::Value::Table(table);
    assert_eq!(read_table_text(&value, "text"), Some("x"));
    assert_eq!(read_table_text(&value, "number"), None);
    assert_eq!(read_table_text(&value, "missing"), None);
    assert_eq!(read_table_text(&toml::Value::String("text".to_string()), "text"), None);
}

#[test]
fn updates_need_an_endpoint_and_a_schema() {
    let mut resource = sample_resource();
    resource.attributes = vec![];
    assert_eq!(
        render_sdk_update_kwargs(&resource),
        "        sdk_update=None,\n        immutable=True,"
    );
    resource.crud.update_endpoint = Some("/update".to_string());
    assert_eq!(
        render_sdk_update_kwargs(&resource),
        "        sdk_update=(\"UpdateDisk\", \"update_disk\"),"
    );
    resource.crud.update_schema = None;
    assert_eq!(
        render_sdk_update_kwargs(&resource),
        "        sdk_update=None,\n        immutable=True,"
    );
}

#[test]
fn update_kwargs_take_any_call() {
    assert_eq!(format_update_kwargs(Some("(A, b)"), "# c"), "        sdk_update=(A, b),");
    assert_eq!(
        format_update_kwargs(None, "# c"),
        "# c\n        sdk_update=None,\n        immutable=True,"
    );
}

#[test]
fn immutable_comment_lists_all_names_in_order() {
    let mut resource = sample_resource();
    let mut region = attr("region-code", IacType::String);
    region.immutable = true;
    resource.attributes.push(region);
    assert_eq!(
        immutable_fields_comment(&resource),
        "        # WARNING: The following fields are immutable after creation.\n        \
         #   - tags\n        #   - region_code\n        \
         # Changing them requires destroy + recreate."
    );
    assert_eq!(resource.immutable_attribute_names(), vec!["tags", "region_code"]);
    resource.attributes = vec![];
    assert_eq!(immutable_fields_comment(&resource), "");
}

#[test]
fn read_key_is_given_unless_it_is_name() {
    let mut resource = sample_resource();
    resource.identity.id_field = "name".to_string();
    let module = generate_resource_module(&resource, "cloud", "acme", AUTHOR);
    assert!(!module.contains("read_key"));
    resource.identity.id_field = "role-name".to_string();
    let hyphens = generate_resource_module(&resource, "cloud", "acme", AUTHOR);
    resource.identity.id_field = "role_name".to_string();
    let underscores = generate_resource_module(&resource, "cloud", "acme", AUTHOR);
    assert_eq!(hyphens, underscores);
    assert!(hyphens.contains(",\n        read_key=\"role_name\",\n    )"));
}

#[test]
fn lifecycle_kwargs_in_full() {
    let mut lifecycle = Lifecycle {
        label: "L".to_string(),
        create: "C".to_string(),
        update: "U".to_string(),
        delete: "D".to_string(),
        read: "R".to_string(),
        read_key: None,
    };
    assert_eq!(
        format_lifecycle_kwargs(&lifecycle),
        "        resource_label=L,\n        sdk_create=C,\nU\n        sdk_delete=D,\n        sdk_read=R,"
    );
    lifecycle.read_key = Some("K".to_string());
    assert!(format_lifecycle_kwargs(&lifecycle).ends_with("sdk_read=R,\n        read_key=K,"));
}

#[test]
fn literals_are_escaped() {
    assert_eq!(format_sdk_pair("a", "b"), "(a, b)");
    assert_eq!(format_schema_pair("get\"It\""), "(\"Get\\\"It\\\"\", \"get\\\"it\\\"\")");
    assert_eq!(format_schema_pair("a\\b"), "(\"A\\\\b\", \"a\\\\b\")");
    assert_eq!(format_schema_pair("a\nb"), "(\"A\\nb\", \"a\\nb\")");
    assert_eq!(format_schema_pair(""), "(\"\", \"\")");
    assert_eq!(format_schema_pair("it's"), "(\"It's\", \"it's\")");
    let mut resource = sample_resource();
    resource.name = "a\"b".to_string();
    let module = generate_resource_module(&resource, "cloud", "acme", AUTHOR);
    assert!(module.contains("resource_label=\"a\\\"b\","));
}

#[test]
fn named_method_replaces_the_derived_one() {
    let mut action = sample_action();
    assert_eq!(render_action_pair(&action), "(\"RotateKeys\", \"rotate_keys\")");
    action.sdk_method = Some("batchRotate".to_string());
    assert_eq!(render_action_pair(&action), "(\"RotateKeys\", \"batchRotate\")");
}

#[test]
fn action_module_ignores_what_it_does_not_read() {
    let reference = generate_action_module(&sample_action(), "cloud", "acme", AUTHOR);
    let mut action = sample_action();
    action.mutating = false;
    action.sensitive_response_fields = vec![];
    action.category = "other".to_string();
    action.endpoint = "/other".to_string();
    action.response_schema = Some("Other".to_string());
    assert_eq!(generate_action_module(&action, "cloud", "acme", AUTHOR), reference);
}

#[test]
fn resource_module_ignores_what_it_does_not_read() {
    let reference = generate_resource_module(&sample_resource(), "cloud", "acme", AUTHOR);
    let mut resource = sample_resource();
    resource.category = "other".to_string();
    resource.read_mapping = vec![("$.a".to_string(), "a".to_string())];
    resource.crud.create_endpoint = "/other".to_string();
    resource.identity.force_replace_fields = vec!["name".to_string()];
    assert_eq!(generate_resource_module(&resource, "cloud", "acme", AUTHOR), reference);
}

#[test]
fn data_source_module_ignores_what_it_does_not_read() {
    let reference = generate_data_source_module(&sample_data_source(), "cloud", "acme", AUTHOR);
    let mut ds = sample_data_source();
    ds.read_endpoint = "/other".to_string();
    ds.read_response_schema = Some("Other".to_string());
    ds.read_mapping = vec![("$.a".to_string(), "a".to_string())];
    assert_eq!(generate_data_source_module(&ds, "cloud", "acme", AUTHOR), reference);
}

#[test]
fn computed_only_attributes_are_no_inputs() {
    let with_id = sample_attributes();
    let mut without_id = sample_attributes();
    without_id.pop();
    assert_eq!(build_argument_spec(&with_id), build_argument_spec(&without_id));
    assert_eq!(build_options_yaml(&with_id), build_options_yaml(&without_id));
    assert_eq!(build_return_yaml(&without_id), "# No computed fields");
    assert!(!is_input_attr(&with_id[4]));
}

#[test]
fn required_computed_attributes_are_inputs_and_returned() {
    let mut both = attr("both", IacType::String);
    both.required = true;
    both.computed = true;
    assert!(is_input_attr(&both));
    let attrs = vec![both];
    assert_eq!(build_argument_spec(&attrs), "    'both': {'type': 'str', 'required': True},");
    assert_eq!(
        build_return_yaml(&attrs),
        "both:\n  description: \"The both\"\n  type: str\n  returned: success"
    );
    assert_eq!(build_params_block(&attrs), "\n        both: \"test_value\"");
}

#[test]
fn fragments_come_from_the_same_attributes() {
    let attrs = sample_attributes();
    let fragments = ModuleFragments::from_attributes(&attrs);
    assert_eq!(fragments.options_yaml, build_options_yaml(&attrs));
    assert_eq!(fragments.return_yaml, build_return_yaml(&attrs));
    assert_eq!(fragments.argument_spec, build_argument_spec(&attrs));
}

#[test]
fn params_block_is_empty_without_required_attributes() {
    assert_eq!(build_params_block(&[]), "");
    assert_eq!(build_params_block(&[attr("a", IacType::String)]), "");
}

#[test]
fn empty_sections_leave_no_blank_line() {
    let auth = auth_argspec_lines();
    assert_eq!(compose_argspec_inner(None, ""), auth);
    assert_eq!(compose_argspec_inner(Some("S"), ""), format!("S\n{auth}"));
    assert_eq!(compose_argspec_inner(None, "A"), format!("A\n{auth}"));
    assert_eq!(compose_argspec_inner(Some("S"), "A"), format!("S\nA\n{auth}"));
    assert_eq!(compose_argspec_inner(Some(""), ""), auth);
    assert_eq!(compose_argspec_inner(Some(""), "A"), format!("A\n{auth}"));
    for inner in [compose_argspec_inner(None, ""), compose_argspec_inner(Some("S"), "A")] {
        assert!(inner.lines().all(|line| !line.is_empty()));
    }
}

#[test]
fn empty_enum_has_an_empty_list_of_choices() {
    let empty = attr(
        "e",
        IacType::Enum { values: vec![], underlying: Box::new(IacType::Numeric) },
    );
    assert_eq!(build_argument_spec(&[empty]), "    'e': {'type': 'float', 'choices': []},");
}

#[test]
fn descriptions_hold_no_double_quote() {
    assert_eq!(replace_char("a \"b\" c", '"', '\''), "a 'b' c");
    assert_eq!(replace_char("plain", '"', '\''), "plain");
    assert_eq!(replace_char("\"é\"", '"', '\''), "'é'");
}

#[test]
fn method_names_keep_all_letters_and_digits() {
    for (schema, method) in [
        ("", ""),
        ("A", "a"),
        ("AB", "ab"),
        ("ABc", "a_bc"),
        ("aB", "a_b"),
        ("a1B", "a1_b"),
        ("A1b", "a1b"),
        ("get-HTTP-status", "get_http_status"),
        ("already_snake", "already_snake"),
        ("Mixed_Case", "mixed_case"),
        ("XMLHttpRequest2Go", "xml_http_request2_go"),
    ] {
        assert_eq!(python_sdk_method_name(schema), method);
        assert_eq!(python_sdk_method_name(method), method);
    }
}

#[test]
fn names_beyond_ascii_use_unicode_mappings() {
    assert_eq!(python_sdk_method_name("ÄpfelÜber"), "äpfelüber");
    assert_eq!(python_sdk_method_name("İx"), "i\u{307}x");
    assert_eq!(python_sdk_model_class_name("äpfel"), "Äpfel");
    assert_eq!(python_sdk_model_class_name("ßeta"), "SSeta");
}

#[test]
fn model_class_names_keep_the_tail() {
    for (schema, class) in [("", ""), ("a", "A"), ("aBC-d", "ABC-d"), ("1a", "1a"), ("_a", "_a")] {
        assert_eq!(python_sdk_model_class_name(schema), class);
        assert_eq!(python_sdk_model_class_name(class), class);
    }
}

#[test]
fn method_names_are_put_together_from_mappings() {
    let chars = chars_of("aB-C");
    assert_eq!(chars, vec!['a', 'B', '-', 'C']);
    let mappings = lowercase_each(&chars);
    assert_eq!(mappings, vec!["a", "b", "-", "c"]);
    assert_eq!(assemble_method_name(&chars, &mappings), "a_b_c");
    let other = vec!["w".to_string(), "xy".to_string(), "ignored".to_string(), "z".to_string()];
    assert_eq!(assemble_method_name(&chars, &other), "w_xy_z");
    assert!(starts_word(&chars, 1));
    assert!(!starts_word(&chars, 0));
    assert!(!starts_word(&chars, 3));
    assert_eq!(replace_head("abc", "XY"), "XYbc");
}

#[test]
fn texts_are_joined_and_compared() {
    let parts = vec!["a".to_string(), "b".to_string(), String::new()];
    assert_eq!(join(&parts, ", "), "a, b, ");
    assert_eq!(join(&parts, ""), "ab");
    assert_eq!(join(&vec![], ", "), "");
    assert!(same_text("name", "name"));
    assert!(!same_text("name", "names"));
}
