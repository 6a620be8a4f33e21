use ansible_forge::backend::{galaxy_namespace, AnsibleBackend, AnsibleNaming};
use ansible_forge::ir::{
    ArtifactKind, AuthInfo, CrudInfo, IacAction, IacAttribute, IacDataSource, IacProvider,
    IacResource, IacType, IdentityInfo,
};

const CLIENT_HELPER: &str = "# helper\n";

struct AttributeBuilder {
    attr: IacAttribute,
}

impl AttributeBuilder {
    fn new(name: &str, iac_type: IacType) -> Self {
        AttributeBuilder {
            attr: IacAttribute {
                api_name: name.to_string(),
                canonical_name: name.replace('-', "_"),
                description: String::new(),
                iac_type,
                required: false,
                optional: false,
                computed: false,
                sensitive: false,
                json_encoded: false,
                immutable: false,
                default_value: None,
                enum_values: None,
                read_path: None,
                update_only: false,
            },
        }
    }

    fn required(mut self) -> Self {
        self.attr.required = true;
        self
    }

    fn computed(mut self) -> Self {
        self.attr.computed = true;
        self
    }

    fn description(mut self, text: &str) -> Self {
        self.attr.description = text.to_string();
        self
    }

    fn build(self) -> IacAttribute {
        self.attr
    }
}


fn sample_provider() -> IacProvider {
    IacProvider {
        name: "mycloud".to_string(),
        description: "MyCloud provider".to_string(),
        version: "0.1.0".to_string(),
        auth: AuthInfo::default(),
        skip_fields: vec![],
        platform_config: vec![],
    }
}

fn sample_resource() -> IacResource {
    IacResource {
        name: "mycloud_instance".to_string(),
        description: "Manage a compute instance".to_string(),
        category: "compute".to_string(),
        crud: CrudInfo {
            create_endpoint: "/instances".to_string(),
            create_schema: "CreateInstance".to_string(),
            update_endpoint: Some("/instances".to_string()),
            update_schema: Some("UpdateInstance".to_string()),
            read_endpoint: "/instances".to_string(),
            read_schema: "ReadInstance".to_string(),
            read_response_schema: None,
            delete_endpoint: "/instances".to_string(),
            delete_schema: "DeleteInstance".to_string(),
        },
        attributes: vec![
            AttributeBuilder::new("instance-name", IacType::String)
                .required()
                .description("Name of the instance")
                .build(),
            AttributeBuilder::new("instance-id", IacType::String)
                .computed()
                .description("ID of the instance")
                .build(),
        ],
        identity: IdentityInfo {
            id_field: "instance_id".to_string(),
            import_field: "instance_name".to_string(),
            force_replace_fields: vec![],
        },
    read_mapping: vec![],
    }
}

#[test]
fn platform_name() {
    let backend = AnsibleBackend::new();
    assert_eq!(backend.platform(), "ansible");
}

#[test]
fn generate_resource_produces_python() {
    let backend = AnsibleBackend::new();
    let provider = sample_provider();
    let resource = sample_resource();
    let artifacts = backend.generate_resource(&resource, &provider).unwrap();
    assert_eq!(artifacts.len(), 1);
    assert_eq!(artifacts[0].path, "plugins/modules/instance.py");
    assert_eq!(artifacts[0].kind, ArtifactKind::Resource);
    assert!(
        artifacts[0].content.contains("run_standard_crud("),
        "generated resource module must dispatch via run_standard_crud"
    );
}

#[test]
fn generate_data_source_produces_info_module() {
    let backend = AnsibleBackend::new();
    let provider = sample_provider();
    let ds = IacDataSource {
        name: "mycloud_instance".to_string(),
        description: "Get instance info".to_string(),
        read_endpoint: "/instances".to_string(),
        read_schema: "ReadInstance".to_string(),
        read_response_schema: None,
        attributes: vec![],
        read_mapping: vec![],
    };
    let artifacts = backend.generate_data_source(&ds, &provider).unwrap();
    assert_eq!(artifacts.len(), 1);
    assert_eq!(artifacts[0].path, "plugins/modules/instance_info.py");
    assert_eq!(artifacts[0].kind, ArtifactKind::DataSource);
}

#[test]
fn generate_provider_emits_collection_metadata() {
    let backend = AnsibleBackend::new();
    let provider = sample_provider();
    let artifacts = backend.generate_provider(&provider, &[], &[], CLIENT_HELPER).unwrap();
    assert_eq!(artifacts.len(), 5);
    let paths: Vec<&str> = artifacts.iter().map(|a| a.path.as_str()).collect();
    assert!(paths.contains(&"plugins/module_utils/akeyless_client.py"));
    assert!(paths.contains(&"galaxy.yml"));
    assert!(paths.contains(&"meta/runtime.yml"));
    assert!(paths.contains(&"requirements.txt"));
    assert!(paths.contains(&"README.md"));
}

#[test]
fn generate_test_produces_yaml() {
    let backend = AnsibleBackend::new();
    let provider = sample_provider();
    let resource = sample_resource();
    let artifacts = backend.generate_test(&resource, &provider).unwrap();
    assert_eq!(artifacts.len(), 1);
    assert_eq!(
        artifacts[0].path,
        "tests/integration/targets/instance/tasks/main.yml"
    );
    assert_eq!(artifacts[0].kind, ArtifactKind::Test);
    assert!(artifacts[0].content.contains("state: present"));
}

#[test]
fn naming_convention_resource_type() {
    let naming = AnsibleNaming;
    assert_eq!(
        naming.resource_type_name("mycloud_instance", "mycloud"),
        "instance"
    );
}

#[test]
fn naming_convention_file_name() {
    let naming = AnsibleNaming;
    assert_eq!(
        naming.file_name("instance", &ArtifactKind::Resource),
        "instance.py"
    );
    assert_eq!(
        naming.file_name("instance", &ArtifactKind::DataSource),
        "instance_info.py"
    );
    assert_eq!(
        naming.file_name("instance", &ArtifactKind::Test),
        "test_instance.yml"
    );
}

#[test]
fn naming_convention_field_name() {
    let naming = AnsibleNaming;
    assert_eq!(naming.field_name("bound-aws-account-id"), "bound_aws_account_id");
}

#[test]
fn file_name_module_kind_matches_resource() {
    let naming = AnsibleNaming;
    assert_eq!(
        naming.file_name("instance", &ArtifactKind::Module),
        "instance.py"
    );
    assert_eq!(
        naming.file_name("instance", &ArtifactKind::Module),
        naming.file_name("instance", &ArtifactKind::Resource),
    );
}

#[test]
fn file_name_wildcard_arms_produce_py() {
    let naming = AnsibleNaming;
    assert_eq!(
        naming.file_name("instance", &ArtifactKind::Schema),
        "instance.py"
    );
    assert_eq!(
        naming.file_name("instance", &ArtifactKind::Provider),
        "instance.py"
    );
    assert_eq!(
        naming.file_name("instance", &ArtifactKind::Metadata),
        "instance.py"
    );
}

#[test]
fn file_name_normalizes_hyphens_to_underscores() {
    let naming = AnsibleNaming;
    assert_eq!(
        naming.file_name("my-resource", &ArtifactKind::Resource),
        "my_resource.py"
    );
    assert_eq!(
        naming.file_name("my-resource", &ArtifactKind::DataSource),
        "my_resource_info.py"
    );
    assert_eq!(
        naming.file_name("my-resource", &ArtifactKind::Test),
        "test_my_resource.yml"
    );
}

#[test]
fn naming_returns_usable_convention() {
    let backend = AnsibleBackend::new();
    let naming = backend.naming();
    assert_eq!(
        naming.resource_type_name("mycloud_instance", "mycloud"),
        "instance"
    );
    assert_eq!(naming.field_name("some-field"), "some_field");
    assert_eq!(
        naming.file_name("instance", &ArtifactKind::Resource),
        "instance.py"
    );
}

#[test]
fn data_source_type_name_default_delegates() {
    let naming = AnsibleNaming;
    assert_eq!(
        naming.data_source_type_name("mycloud_secret", "mycloud"),
        naming.resource_type_name("mycloud_secret", "mycloud"),
    );
}

#[test]
fn validate_resource_default_is_empty() {
    let backend = AnsibleBackend::new();
    let provider = sample_provider();
    let resource = sample_resource();
    let errors = backend.validate_resource(&resource, &provider);
    assert!(errors.is_empty());
}

#[test]
fn generate_resource_strips_provider_prefix_from_path() {
    let backend = AnsibleBackend::new();
    let provider = sample_provider();
    let resource = sample_resource();
    let artifacts = backend.generate_resource(&resource, &provider).unwrap();
    assert_eq!(artifacts[0].path, "plugins/modules/instance.py");
    assert!(artifacts[0].content.contains("module: instance"));
}

#[test]
fn generate_test_path_uses_snake_case() {
    let backend = AnsibleBackend::new();
    let provider = sample_provider();
    let mut resource = sample_resource();
    resource.name = "mycloud_complex-name".to_string();
    let artifacts = backend.generate_test(&resource, &provider).unwrap();
    assert_eq!(
        artifacts[0].path,
        "tests/integration/targets/complex_name/tasks/main.yml"
    );
}

#[test]
fn generate_data_source_strips_prefix_and_appends_info() {
    let backend = AnsibleBackend::new();
    let provider = sample_provider();
    let ds = IacDataSource {
        name: "mycloud_volume".to_string(),
        description: "Get volume info".to_string(),
        read_endpoint: "/volumes".to_string(),
        read_schema: "ReadVolume".to_string(),
        read_response_schema: None,
        attributes: vec![],
        read_mapping: vec![],
    };
    let artifacts = backend.generate_data_source(&ds, &provider).unwrap();
    assert_eq!(artifacts[0].path, "plugins/modules/volume_info.py");
    assert_eq!(artifacts[0].kind, ArtifactKind::DataSource);
    assert!(artifacts[0].content.contains("module: volume_info"));
}

#[test]
fn generate_resource_no_matching_prefix_keeps_full_name() {
    let backend = AnsibleBackend::new();
    let provider = sample_provider();
    let mut resource = sample_resource();
    resource.name = "other_instance".to_string();
    let artifacts = backend.generate_resource(&resource, &provider).unwrap();
    assert_eq!(artifacts[0].path, "plugins/modules/other_instance.py");
}

#[test]
fn backend_default_matches_new() {
    let from_default = AnsibleBackend::default();
    let from_new = AnsibleBackend::new();
    assert_eq!(from_default.platform(), from_new.platform());
}

#[test]
fn backend_display() {
    let backend = AnsibleBackend::new();
    assert_eq!(backend.to_string(), "AnsibleBackend(ansible)");
}

#[test]
fn naming_convention_hyphenated_resource_type() {
    let naming = AnsibleNaming;
    assert_eq!(
        naming.resource_type_name("mycloud_my-resource", "mycloud"),
        "my_resource"
    );
}

#[test]
fn naming_convention_empty_field_name() {
    let naming = AnsibleNaming;
    assert_eq!(naming.field_name(""), "");
}

#[test]
fn naming_convention_field_name_already_snake_case() {
    let naming = AnsibleNaming;
    assert_eq!(naming.field_name("already_snake"), "already_snake");
}

#[test]
fn generate_resource_content_has_module_name() {
    let backend = AnsibleBackend::new();
    let provider = sample_provider();
    let resource = sample_resource();
    let artifacts = backend.generate_resource(&resource, &provider).unwrap();
    let content = &artifacts[0].content;
    assert!(content.contains("module: instance"));
    assert!(content.contains("DOCUMENTATION"));
    assert!(content.contains("EXAMPLES"));
    assert!(content.contains("RETURN"));
    assert!(content.contains("def main():"));
}

#[test]
fn generate_data_source_content_has_info_module() {
    let backend = AnsibleBackend::new();
    let provider = sample_provider();
    let ds = IacDataSource {
        name: "mycloud_secret".to_string(),
        description: "Get secret info".to_string(),
        read_endpoint: "/secrets".to_string(),
        read_schema: "ReadSecret".to_string(),
        read_response_schema: None,
        attributes: vec![],
        read_mapping: vec![],
    };
    let artifacts = backend.generate_data_source(&ds, &provider).unwrap();
    let content = &artifacts[0].content;
    assert!(content.contains("module: secret_info"));
    assert!(!content.contains("state"));
}

#[test]
fn generate_test_content_has_playbook_structure() {
    let backend = AnsibleBackend::new();
    let provider = sample_provider();
    let resource = sample_resource();
    let artifacts = backend.generate_test(&resource, &provider).unwrap();
    let content = &artifacts[0].content;
    assert!(content.starts_with("---"));
    assert!(content.contains("hosts: localhost"));
    assert!(content.contains("tasks:"));
}

#[test]
fn file_name_data_source_normalizes() {
    let naming = AnsibleNaming;
    assert_eq!(
        naming.file_name("my-data", &ArtifactKind::DataSource),
        "my_data_info.py"
    );
}

#[test]
fn generate_resource_with_hyphenated_name() {
    let backend = AnsibleBackend::new();
    let provider = sample_provider();
    let mut resource = sample_resource();
    resource.name = "mycloud_my-resource".to_string();
    let artifacts = backend.generate_resource(&resource, &provider).unwrap();
    assert_eq!(artifacts[0].path, "plugins/modules/my_resource.py");
}

fn sample_action() -> IacAction {
    IacAction {
        name: "mycloud_uid_generate_token".to_string(),
        description: "Generate a UID token".to_string(),
        category: "uid".to_string(),
        endpoint: "/uid-generate-token".to_string(),
        schema: "uidGenerateToken".to_string(),
        response_schema: Some("uidGenerateTokenOutput".to_string()),
        mutating: true,
        sensitive_response_fields: vec!["token".to_string()],
        attributes: vec![
            AttributeBuilder::new("auth-method-name", IacType::String)
                .required()
                .description("Auth method name")
                .build(),
        ],
        sdk_method: None,
    }
}

#[test]
fn generate_action_writes_to_plugins_modules_path() {
    let backend = AnsibleBackend::new();
    let provider = sample_provider();
    let action = sample_action();
    let artifacts = backend.generate_action(&action, &provider).unwrap();
    assert_eq!(artifacts.len(), 1);
    assert_eq!(artifacts[0].path, "plugins/modules/uid_generate_token.py");
    assert_eq!(artifacts[0].kind, ArtifactKind::Module);
}

#[test]
fn generate_action_content_has_run_action_helper() {
    let backend = AnsibleBackend::new();
    let provider = sample_provider();
    let action = sample_action();
    let artifacts = backend.generate_action(&action, &provider).unwrap();
    let content = &artifacts[0].content;
    assert!(
        content.contains("run_action_module("),
        "action module must dispatch via the shared run_action_module helper"
    );
    assert!(
        content.contains("sdk_call=(\"UidGenerateToken\", \"uid_generate_token\")"),
        "action module must wire its SDK call via sdk_call=(Model, method) tuple, got:\n{content}"
    );
    assert!(
        !content.contains("supports_check_mode=True"),
        "actions must not enable check_mode"
    );
}

fn provider_with_namespace(ns: &str) -> IacProvider {
    let mut p = sample_provider();
    let mut ansible_table = toml::value::Table::new();
    ansible_table.insert(
        "galaxy_namespace".to_string(),
        toml::Value::String(ns.to_string()),
    );
    p.platform_config
        .push(("ansible".to_string(), toml::Value::Table(ansible_table)));
    p
}

#[test]
fn galaxy_namespace_falls_back_to_provider_name() {
    let provider = sample_provider();
    assert_eq!(galaxy_namespace(&provider), "mycloud");
}

#[test]
fn galaxy_namespace_honors_platform_config_override() {
    let provider = provider_with_namespace("drzln0");
    assert_eq!(galaxy_namespace(&provider), "drzln0");
}

#[test]
fn galaxy_namespace_ignores_non_table_value() {
    let mut provider = sample_provider();
    provider.platform_config.push((
        "ansible".to_string(),
        toml::Value::String("not-a-table".to_string()),
    ));
    assert_eq!(galaxy_namespace(&provider), "mycloud");
}

#[test]
fn galaxy_yml_uses_resolved_namespace() {
    let backend = AnsibleBackend::new();
    let provider = provider_with_namespace("drzln0");
    let artifacts = backend.generate_provider(&provider, &[], &[], CLIENT_HELPER).unwrap();
    let galaxy = artifacts
        .iter()
        .find(|a| a.path == "galaxy.yml")
        .expect("galaxy.yml must be generated");
    assert!(
        galaxy.content.starts_with("namespace: drzln0\n"),
        "galaxy.yml must declare the overridden namespace: {}",
        galaxy.content
    );
    assert!(galaxy.content.contains("name: mycloud\n"));
}

#[test]
fn galaxy_yml_defaults_to_provider_name_when_unset() {
    let backend = AnsibleBackend::new();
    let provider = sample_provider();
    let artifacts = backend.generate_provider(&provider, &[], &[], CLIENT_HELPER).unwrap();
    let galaxy = artifacts
        .iter()
        .find(|a| a.path == "galaxy.yml")
        .expect("galaxy.yml must be generated");
    assert!(galaxy.content.starts_with("namespace: mycloud\n"));
}

#[test]
fn readme_uses_resolved_namespace() {
    let backend = AnsibleBackend::new();
    let provider = provider_with_namespace("drzln0");
    let artifacts = backend.generate_provider(&provider, &[], &[], CLIENT_HELPER).unwrap();
    let readme = artifacts
        .iter()
        .find(|a| a.path == "README.md")
        .expect("README.md must be generated");
    assert!(
        readme.content.starts_with("# drzln0.mycloud\n"),
        "README.md must reference the namespaced collection: {}",
        readme.content
    );
}

#[test]
fn generate_resource_uses_resolved_namespace_in_import_path() {
    let backend = AnsibleBackend::new();
    let provider = provider_with_namespace("drzln0");
    let resource = sample_resource();
    let artifacts = backend.generate_resource(&resource, &provider).unwrap();
    assert!(artifacts[0].content.contains(
        "from ansible_collections.drzln0.mycloud.plugins.module_utils.akeyless_client import"
    ));
    assert!(
        !artifacts[0]
            .content
            .contains("ansible_collections.akeyless.akeyless"),
        "no other namespace may leak"
    );
}

#[test]
fn generate_data_source_uses_resolved_namespace_in_import_path() {
    let backend = AnsibleBackend::new();
    let provider = provider_with_namespace("drzln0");
    let ds = IacDataSource {
        name: "mycloud_volume".to_string(),
        description: "Get volume info".to_string(),
        read_endpoint: "/volumes".to_string(),
        read_schema: "ReadVolume".to_string(),
        read_response_schema: None,
        attributes: vec![],
        read_mapping: vec![],
    };
    let artifacts = backend.generate_data_source(&ds, &provider).unwrap();
    assert!(artifacts[0].content.contains(
        "from ansible_collections.drzln0.mycloud.plugins.module_utils.akeyless_client import"
    ));
}

#[test]
fn generate_action_uses_resolved_namespace_in_import_path() {
    let backend = AnsibleBackend::new();
    let provider = provider_with_namespace("drzln0");
    let action = sample_action();
    let artifacts = backend.generate_action(&action, &provider).unwrap();
    assert!(artifacts[0].content.contains(
        "from ansible_collections.drzln0.mycloud.plugins.module_utils.akeyless_client import"
    ));
}
