//! The Ansible backend: which files a collection consists of, where they stand
//! and what they hold.
use vstd::prelude::*;

use crate::config;
use crate::config::{find_entry, read_table_text};
use crate::fragments;
use crate::ir;
use crate::ir::{
    ArtifactKind, GeneratedArtifact, IacAction, IacDataSource, IacProvider, IacResource,
};
use crate::laws;
use crate::module_gen;
use crate::module_gen::{
    generate_action_module, generate_data_source_module, generate_resource_module,
    generate_test_playbook,
};
use crate::naming;
use crate::text;

verus! {

/// `iac_forge::IacForgeError`, the error type of all `iac-forge` backends.
#[verifier::external_type_specification]
#[verifier::external_body]
pub struct ExIacForgeError(iac_forge::IacForgeError);

// ---------------------------------------------------------------------------
// Galaxy metadata
// ---------------------------------------------------------------------------

/// The Galaxy namespace of a provider: `galaxy_namespace` in the `ansible`
/// table of its platform configuration, where that is a string, and the name of
/// the provider otherwise.
pub open spec fn namespace_of(provider: IacProvider) -> Seq<char> {
    match config::config_entry(provider.platform_config@, "ansible"@) {
        Some(value) => match config::table_text(
            config::toml_value(value),
            "galaxy_namespace"@,
        ) {
            Some(namespace) => namespace,
            None => provider.name@,
        },
        None => provider.name@,
    }
}

/// Resolves the Galaxy namespace from the provider configuration, falling back
/// to the provider name when no override is set.
///
/// Reads `[platforms.ansible] galaxy_namespace = "..."`.
pub fn galaxy_namespace(provider: &IacProvider) -> (res: &str)
    ensures
        res@ == namespace_of(*provider),
{
    let found: Option<&str> = match find_entry(&provider.platform_config, "ansible") {
        Some(value) => read_table_text(value, "galaxy_namespace"),
        None => None,
    };
    match found {
        Some(namespace) => namespace,
        None => provider.name.as_str(),
    }
}

/// The `galaxy.yml` of a collection.
pub open spec fn galaxy_manifest(namespace: Seq<char>, name: Seq<char>) -> Seq<char> {
    "namespace: "@ + namespace + "\nname: "@ + name
        + "\nversion: 0.1.0\nreadme: README.md\nauthors: [pleme-io]\ndescription: \"Auto-generated Ansible modules for Akeyless Vault — managed by iac-forge.\"\nlicense: [MIT]\nrepository: https://github.com/pleme-io/ansible-"@
        + name + "\ndocumentation: https://github.com/pleme-io/ansible-"@ + name
        + "\nhomepage: https://github.com/pleme-io/ansible-"@ + name
        + "\nissues: https://github.com/pleme-io/ansible-"@ + name
        + "/issues\ndependencies: {}\ntags: [security, secrets, akeyless]\n"@
}

/// Builds the `galaxy.yml` collection manifest for a `<namespace>/<name>`
/// publishing target.
///
/// Galaxy rejects a manifest without repository, documentation, homepage and
/// issues, so they point at the GitHub repository `ansible-<name>`.
pub fn galaxy_yml(namespace: &str, name: &str) -> (res: String)
    ensures
        res@ == galaxy_manifest(namespace@, name@),
{
    let mut out: String = "namespace: ".to_owned();
    out.append(namespace);
    out.append("\nname: ");
    out.append(name);
    out.append(
        "\nversion: 0.1.0\nreadme: README.md\nauthors: [pleme-io]\ndescription: \"Auto-generated Ansible modules for Akeyless Vault — managed by iac-forge.\"\nlicense: [MIT]\nrepository: https://github.com/pleme-io/ansible-",
    );
    out.append(name);
    out.append("\ndocumentation: https://github.com/pleme-io/ansible-");
    out.append(name);
    out.append("\nhomepage: https://github.com/pleme-io/ansible-");
    out.append(name);
    out.append("\nissues: https://github.com/pleme-io/ansible-");
    out.append(name);
    out.append("/issues\ndependencies: {}\ntags: [security, secrets, akeyless]\n");
    out
}

/// `meta/runtime.yml`, which requires a recent Ansible.
pub const RUNTIME_YML: &'static str = "requires_ansible: '>=2.14.0'\n";

/// `requirements.txt`, which lists the Akeyless Python SDK.
pub const REQUIREMENTS_TXT: &'static str = "akeyless>=5.0.22\n";

/// Author in the documentation of every generated module.
pub const MODULE_AUTHOR: &'static str = "pleme-io (@pleme-io)";

/// The `README.md` of a collection.
pub open spec fn readme(namespace: Seq<char>, name: Seq<char>) -> Seq<char> {
    "# "@ + namespace + "."@ + name
        + "\n\nAuto-generated Ansible collection wrapping the Akeyless Python SDK.\nEach module proxies one Akeyless V2 API endpoint with create/read/update/delete\nsemantics derived from the upstream OpenAPI specification.\nDo not edit generated modules — they will be overwritten.\n\nRegenerate with: `iac-forge-cli generate --backend ansible`.\n"@
}

/// Builds the `README.md` stub for a `<namespace>/<name>` collection.
pub fn readme_md(namespace: &str, name: &str) -> (res: String)
    ensures
        res@ == readme(namespace@, name@),
{
    let mut out: String = "# ".to_owned();
    out.append(namespace);
    out.append(".");
    out.append(name);
    out.append(
        "\n\nAuto-generated Ansible collection wrapping the Akeyless Python SDK.\nEach module proxies one Akeyless V2 API endpoint with create/read/update/delete\nsemantics derived from the upstream OpenAPI specification.\nDo not edit generated modules — they will be overwritten.\n\nRegenerate with: `iac-forge-cli generate --backend ansible`.\n",
    );
    out
}

// ---------------------------------------------------------------------------
// Naming convention
// ---------------------------------------------------------------------------

/// The type name of a resource.
pub open spec fn resource_type(name: Seq<char>, provider: Seq<char>) -> Seq<char> {
    naming::snake_cased(naming::unprefixed(name, provider))
}

/// The file name for an artifact.
pub open spec fn artifact_file_name(name: Seq<char>, kind: ArtifactKind) -> Seq<char> {
    match kind {
        ArtifactKind::DataSource => naming::snake_cased(name) + "_info.py"@,
        ArtifactKind::Test => "test_"@ + naming::snake_cased(name) + ".yml"@,
        _ => naming::snake_cased(name) + ".py"@,
    }
}

/// Naming convention for Ansible modules.
///
/// Uses `snake_case` for type names, field names, and file names. Strips the
/// provider prefix from resource names.
#[derive(Debug)]
pub struct AnsibleNaming;

impl AnsibleNaming {
    /// The type name of a resource.
    #[must_use]
    pub fn resource_type_name(&self, resource_name: &str, provider_name: &str) -> (res: String)
        ensures
            res@ == resource_type(resource_name@, provider_name@),
    {
        iac_forge::to_snake_case(iac_forge::strip_provider_prefix(resource_name, provider_name))
    }

    /// The type name of a data source, the same as that of a resource.
    #[must_use]
    pub fn data_source_type_name(&self, ds_name: &str, provider_name: &str) -> (res: String)
        ensures
            res@ == resource_type(ds_name@, provider_name@),
    {
        self.resource_type_name(ds_name, provider_name)
    }

    /// The file name for an artifact.
    #[must_use]
    pub fn file_name(&self, resource_name: &str, kind: &ArtifactKind) -> (res: String)
        ensures
            res@ == artifact_file_name(resource_name@, *kind),
    {
        let mut base: String = iac_forge::to_snake_case(resource_name);
        match kind {
            ArtifactKind::DataSource => {
                base.append("_info.py");
                base
            },
            ArtifactKind::Test => {
                let mut out: String = "test_".to_owned();
                out.append(base.as_str());
                out.append(".yml");
                out
            },
            _ => {
                base.append(".py");
                base
            },
        }
    }

    /// The name of an argument for an API field.
    #[must_use]
    pub fn field_name(&self, api_name: &str) -> (res: String)
        ensures
            res@ == naming::snake_cased(api_name@),
    {
        iac_forge::to_snake_case(api_name)
    }
}

// ---------------------------------------------------------------------------
// Artifacts
// ---------------------------------------------------------------------------

/// The file of a module with this name.
pub open spec fn plugin_path(name: Seq<char>, provider: Seq<char>, suffix: Seq<char>) -> Seq<char> {
    "plugins/modules/"@ + resource_type(name, provider) + suffix
}

/// The module file of a resource.
pub open spec fn resource_artifact(
    resource: IacResource,
    provider: IacProvider,
) -> ir::ArtifactModel {
    ir::ArtifactModel {
        path: plugin_path(resource.name@, provider.name@, ".py"@),
        content: module_gen::resource_module(
            resource,
            provider.name@,
            namespace_of(provider),
            MODULE_AUTHOR@,
        ),
        kind: ArtifactKind::Resource,
    }
}

/// The module file of a data source.
pub open spec fn data_source_artifact(
    ds: IacDataSource,
    provider: IacProvider,
) -> ir::ArtifactModel {
    ir::ArtifactModel {
        path: plugin_path(ds.name@, provider.name@, "_info.py"@),
        content: module_gen::data_source_module(
            ds,
            provider.name@,
            namespace_of(provider),
            MODULE_AUTHOR@,
        ),
        kind: ArtifactKind::DataSource,
    }
}

/// The module file of an action.
pub open spec fn action_artifact(action: IacAction, provider: IacProvider) -> ir::ArtifactModel {
    ir::ArtifactModel {
        path: plugin_path(action.name@, provider.name@, ".py"@),
        content: module_gen::action_module(
            action,
            provider.name@,
            namespace_of(provider),
            MODULE_AUTHOR@,
        ),
        kind: ArtifactKind::Module,
    }
}

/// The test playbook file of a resource.
pub open spec fn test_artifact(resource: IacResource, provider: IacProvider) -> ir::ArtifactModel {
    ir::ArtifactModel {
        path: "tests/integration/targets/"@ + resource_type(resource.name@, provider.name@)
            + "/tasks/main.yml"@,
        content: module_gen::test_playbook(resource, provider.name@),
        kind: ArtifactKind::Test,
    }
}

/// A file with metadata of the collection.
pub open spec fn metadata(path: Seq<char>, content: Seq<char>) -> ir::ArtifactModel {
    ir::ArtifactModel { path, content, kind: ArtifactKind::Metadata }
}

/// The files of the collection as a whole, `client_helper` being the Python
/// helper that all modules import.
pub open spec fn provider_artifacts(provider: IacProvider, client_helper: Seq<char>) -> Seq<
    ir::ArtifactModel,
> {
    let namespace = namespace_of(provider);
    seq![
        metadata("plugins/module_utils/akeyless_client.py"@, client_helper),
        metadata("galaxy.yml"@, galaxy_manifest(namespace, provider.name@)),
        metadata("meta/runtime.yml"@, RUNTIME_YML@),
        metadata("requirements.txt"@, REQUIREMENTS_TXT@),
        metadata("README.md"@, readme(namespace, provider.name@)),
    ]
}

/// The module files of resources.
pub open spec fn resource_artifacts(resources: Seq<IacResource>, provider: IacProvider) -> Seq<
    ir::ArtifactModel,
> {
    resources.map_values(|r: IacResource| resource_artifact(r, provider))
}

/// The module files of data sources.
pub open spec fn data_source_artifacts(
    data_sources: Seq<IacDataSource>,
    provider: IacProvider,
) -> Seq<ir::ArtifactModel> {
    data_sources.map_values(|ds: IacDataSource| data_source_artifact(ds, provider))
}

/// The test playbook files of resources.
pub open spec fn test_artifacts(resources: Seq<IacResource>, provider: IacProvider) -> Seq<
    ir::ArtifactModel,
> {
    resources.map_values(|r: IacResource| test_artifact(r, provider))
}

/// All files of a collection: the modules of the resources and of the data
/// sources, the metadata, the test playbooks.
pub open spec fn all_artifacts(
    provider: IacProvider,
    resources: Seq<IacResource>,
    data_sources: Seq<IacDataSource>,
    client_helper: Seq<char>,
) -> Seq<ir::ArtifactModel> {
    resource_artifacts(resources, provider) + data_source_artifacts(data_sources, provider)
        + provider_artifacts(provider, client_helper) + test_artifacts(resources, provider)
}

/// Names the file of a module.
fn format_plugin_path(name: &str, provider_name: &str, suffix: &str) -> (res: String)
    ensures
        res@ == plugin_path(name@, provider_name@, suffix@),
{
    let module: String = iac_forge::to_snake_case(
        iac_forge::strip_provider_prefix(name, provider_name),
    );
    let mut path: String = "plugins/modules/".to_owned();
    path.append(module.as_str());
    path.append(suffix);
    path
}

/// Makes a file with metadata of the collection.
fn metadata_file(path: &str, content: &str) -> (res: GeneratedArtifact)
    ensures
        res@ == metadata(path@, content@),
{
    GeneratedArtifact {
        path: path.to_owned(),
        content: content.to_owned(),
        kind: ArtifactKind::Metadata,
    }
}

/// Generates the module file of a resource.
fn resource_file(resource: &IacResource, provider: &IacProvider) -> (res: GeneratedArtifact)
    ensures
        res@ == resource_artifact(*resource, *provider),
        module_gen::has_plain_resource(*resource, provider.name@) ==> res.content@
            == module_gen::plain_resource_module(
            *resource,
            provider.name@,
            namespace_of(*provider),
            MODULE_AUTHOR@,
        ),
{
    let content: String = generate_resource_module(
        resource,
        provider.name.as_str(),
        galaxy_namespace(provider),
        MODULE_AUTHOR,
    );
    let path: String = format_plugin_path(resource.name.as_str(), provider.name.as_str(), ".py");
    GeneratedArtifact { path, content, kind: ArtifactKind::Resource }
}

/// Generates the module file of a data source.
fn data_source_file(ds: &IacDataSource, provider: &IacProvider) -> (res: GeneratedArtifact)
    ensures
        res@ == data_source_artifact(*ds, *provider),
        module_gen::has_plain_data_source(*ds) ==> res.content@
            == module_gen::plain_data_source_module(
            *ds,
            provider.name@,
            namespace_of(*provider),
            MODULE_AUTHOR@,
        ),
{
    let content: String = generate_data_source_module(
        ds,
        provider.name.as_str(),
        galaxy_namespace(provider),
        MODULE_AUTHOR,
    );
    let path: String = format_plugin_path(ds.name.as_str(), provider.name.as_str(), "_info.py");
    GeneratedArtifact { path, content, kind: ArtifactKind::DataSource }
}

/// Generates the test playbook file of a resource.
fn test_file(resource: &IacResource, provider: &IacProvider) -> (res: GeneratedArtifact)
    ensures
        res@ == test_artifact(*resource, *provider),
{
    let content: String = generate_test_playbook(resource, provider.name.as_str());
    let module: String = iac_forge::to_snake_case(
        iac_forge::strip_provider_prefix(resource.name.as_str(), provider.name.as_str()),
    );
    let mut path: String = "tests/integration/targets/".to_owned();
    path.append(module.as_str());
    path.append("/tasks/main.yml");
    GeneratedArtifact { path, content, kind: ArtifactKind::Test }
}

/// Generates the files of the collection as a whole.
fn provider_files(provider: &IacProvider, client_helper: &str) -> (res: Vec<GeneratedArtifact>)
    ensures
        ir::artifact_models(res@) == provider_artifacts(*provider, client_helper@),
{
    let namespace: &str = galaxy_namespace(provider);
    let name: &str = provider.name.as_str();
    let galaxy: String = galaxy_yml(namespace, name);
    let readme: String = readme_md(namespace, name);
    let mut files: Vec<GeneratedArtifact> = Vec::new();
    files.push(metadata_file("plugins/module_utils/akeyless_client.py", client_helper));
    files.push(metadata_file("galaxy.yml", galaxy.as_str()));
    files.push(metadata_file("meta/runtime.yml", RUNTIME_YML));
    files.push(metadata_file("requirements.txt", REQUIREMENTS_TXT));
    files.push(metadata_file("README.md", readme.as_str()));
    assert(ir::artifact_models(files@) =~= provider_artifacts(*provider, client_helper@));
    files
}

/// A list of one file.
fn single(file: GeneratedArtifact) -> (res: Vec<GeneratedArtifact>)
    ensures
        res@ == seq![file],
{
    let mut files: Vec<GeneratedArtifact> = Vec::new();
    files.push(file);
    files
}

/// The results hold exactly these files.
pub open spec fn succeeds_with(
    result: Result<Vec<GeneratedArtifact>, iac_forge::IacForgeError>,
    files: Seq<ir::ArtifactModel>,
) -> bool {
    result is Ok && ir::artifact_models(result->Ok_0@) == files
}

/// Where the names of a resource hold no special characters, the file at its
/// position has the text that is stated for such a resource.
pub open spec fn has_plain_resource_modules(
    files: Seq<GeneratedArtifact>,
    resources: Seq<IacResource>,
    provider: IacProvider,
) -> bool {
    forall|i: int|
        #![trigger files[i]]
        0 <= i < resources.len() && module_gen::has_plain_resource(resources[i], provider.name@)
            ==> files[i].content@ == module_gen::plain_resource_module(
            resources[i],
            provider.name@,
            namespace_of(provider),
            MODULE_AUTHOR@,
        )
}

/// Where the schema name of a data source holds no special characters, the file
/// at its position, counted from `start`, has the text that is stated for such a
/// data source.
pub open spec fn has_plain_data_source_modules(
    files: Seq<GeneratedArtifact>,
    start: int,
    data_sources: Seq<IacDataSource>,
    provider: IacProvider,
) -> bool {
    forall|i: int|
        #![trigger files[i]]
        start <= i < start + data_sources.len() && module_gen::has_plain_data_source(
            data_sources[i - start],
        ) ==> files[i].content@ == module_gen::plain_data_source_module(
            data_sources[i - start],
            provider.name@,
            namespace_of(provider),
            MODULE_AUTHOR@,
        )
}

/// More files after the modules change nothing about them.
proof fn lemma_plain_modules_stay(
    files: Seq<GeneratedArtifact>,
    more: Seq<GeneratedArtifact>,
    resources: Seq<IacResource>,
    data_sources: Seq<IacDataSource>,
    provider: IacProvider,
)
    requires
        files.len() >= resources.len() + data_sources.len(),
        has_plain_resource_modules(files, resources, provider),
        has_plain_data_source_modules(files, resources.len() as int, data_sources, provider),
    ensures
        has_plain_resource_modules(files + more, resources, provider),
        has_plain_data_source_modules(files + more, resources.len() as int, data_sources, provider),
{
    let all = files + more;
    let count = resources.len() + data_sources.len();
    assert forall|i: int| 0 <= i < count implies #[trigger] all[i] == files[i] by {}
}

/// Ansible backend for `iac-forge`.
///
/// Generates Python Ansible module files from a description of resources, data
/// sources and actions.
#[derive(Debug)]
pub struct AnsibleBackend {
    naming: AnsibleNaming,
}

impl Default for AnsibleBackend {
    fn default() -> (res: Self)
        ensures
            res.convention() == AnsibleNaming,
    {
        AnsibleBackend { naming: AnsibleNaming }
    }
}

impl AnsibleBackend {
    /// The naming convention in use.
    pub closed spec fn convention(&self) -> AnsibleNaming {
        self.naming
    }

    /// Creates a new `AnsibleBackend`.
    #[must_use]
    pub fn new() -> (res: Self)
        ensures
            res.convention() == AnsibleNaming,
    {
        AnsibleBackend { naming: AnsibleNaming }
    }

    /// Platform identifier.
    #[must_use]
    pub fn platform(&self) -> (res: &str)
        ensures
            res@ == "ansible"@,
    {
        "ansible"
    }

    /// The backend with its platform, for display.
    #[must_use]
    pub fn to_string(&self) -> (res: String)
        ensures
            res@ == "AnsibleBackend("@ + "ansible"@ + ")"@,
    {
        let mut out: String = "AnsibleBackend(".to_owned();
        out.append(self.platform());
        out.append(")");
        out
    }

    /// The naming convention in use.
    #[must_use]
    pub fn naming(&self) -> (res: &AnsibleNaming)
        ensures
            *res == self.convention(),
    {
        &self.naming
    }

    /// Validation messages for a resource. Every resource is accepted.
    pub fn validate_resource(&self, _resource: &IacResource, _provider: &IacProvider) -> (res: Vec<
        String,
    >)
        ensures
            res@ == Seq::<String>::empty(),
    {
        Vec::new()
    }

    /// Generates the module of a resource.
    pub fn generate_resource(&self, resource: &IacResource, provider: &IacProvider) -> (res: Result<
        Vec<GeneratedArtifact>,
        iac_forge::IacForgeError,
    >)
        ensures
            succeeds_with(res, seq![resource_artifact(*resource, *provider)]),
            module_gen::has_plain_resource(*resource, provider.name@) ==> res->Ok_0@[0].content@
                == module_gen::plain_resource_module(
                *resource,
                provider.name@,
                namespace_of(*provider),
                MODULE_AUTHOR@,
            ),
    {
        let files: Vec<GeneratedArtifact> = single(resource_file(resource, provider));
        assert(ir::artifact_models(files@) =~= seq![resource_artifact(*resource, *provider)]);
        Ok(files)
    }

    /// Generates the module of a data source.
    pub fn generate_data_source(&self, ds: &IacDataSource, provider: &IacProvider) -> (res: Result<
        Vec<GeneratedArtifact>,
        iac_forge::IacForgeError,
    >)
        ensures
            succeeds_with(res, seq![data_source_artifact(*ds, *provider)]),
            module_gen::has_plain_data_source(*ds) ==> res->Ok_0@[0].content@
                == module_gen::plain_data_source_module(
                *ds,
                provider.name@,
                namespace_of(*provider),
                MODULE_AUTHOR@,
            ),
    {
        let files: Vec<GeneratedArtifact> = single(data_source_file(ds, provider));
        assert(ir::artifact_models(files@) =~= seq![data_source_artifact(*ds, *provider)]);
        Ok(files)
    }

    /// Generates the files of the collection as a whole: the bundled Python
    /// helper, the Galaxy manifest, the runtime manifest, the requirements and
    /// a stub README.
    pub fn generate_provider(
        &self,
        provider: &IacProvider,
        _resources: &[IacResource],
        _data_sources: &[IacDataSource],
        client_helper: &str,
    ) -> (res: Result<Vec<GeneratedArtifact>, iac_forge::IacForgeError>)
        ensures
            succeeds_with(res, provider_artifacts(*provider, client_helper@)),
    {
        Ok(provider_files(provider, client_helper))
    }

    /// Generates the test playbook of a resource.
    pub fn generate_test(&self, resource: &IacResource, provider: &IacProvider) -> (res: Result<
        Vec<GeneratedArtifact>,
        iac_forge::IacForgeError,
    >)
        ensures
            succeeds_with(res, seq![test_artifact(*resource, *provider)]),
    {
        let files: Vec<GeneratedArtifact> = single(test_file(resource, provider));
        assert(ir::artifact_models(files@) =~= seq![test_artifact(*resource, *provider)]);
        Ok(files)
    }

    /// Generates the module of an action.
    pub fn generate_action(&self, action: &IacAction, provider: &IacProvider) -> (res: Result<
        Vec<GeneratedArtifact>,
        iac_forge::IacForgeError,
    >)
        ensures
            succeeds_with(res, seq![action_artifact(*action, *provider)]),
            module_gen::has_plain_call(*action) ==> res->Ok_0@[0].content@
                == module_gen::plain_action_module(
                *action,
                provider.name@,
                namespace_of(*provider),
                MODULE_AUTHOR@,
            ),
    {
        let content: String = generate_action_module(
            action,
            provider.name.as_str(),
            galaxy_namespace(provider),
            MODULE_AUTHOR,
        );
        let path: String = format_plugin_path(action.name.as_str(), provider.name.as_str(), ".py");
        let files: Vec<GeneratedArtifact> = single(
            GeneratedArtifact { path, content, kind: ArtifactKind::Module },
        );
        assert(ir::artifact_models(files@) =~= seq![action_artifact(*action, *provider)]);
        Ok(files)
    }

    /// Generates all files of a collection in one batch.
    pub fn generate_all(
        &self,
        provider: &IacProvider,
        resources: &[IacResource],
        data_sources: &[IacDataSource],
        client_helper: &str,
    ) -> (res: Result<Vec<GeneratedArtifact>, iac_forge::IacForgeError>)
        ensures
            succeeds_with(
                res,
                all_artifacts(*provider, resources@, data_sources@, client_helper@),
            ),
            has_plain_resource_modules(res->Ok_0@, resources@, *provider),
            has_plain_data_source_modules(
                res->Ok_0@,
                resources@.len() as int,
                data_sources@,
                *provider,
            ),
    {
        let mut files: Vec<GeneratedArtifact> = Vec::new();
        assert(ir::artifact_models(files@) =~= resource_artifacts(resources@.take(0), *provider));
        let mut i: usize = 0;
        while i < resources.len()
            invariant
                i <= resources@.len(),
                files@.len() == i,
                ir::artifact_models(files@) == resource_artifacts(
                    resources@.take(i as int),
                    *provider,
                ),
                has_plain_resource_modules(files@, resources@.take(i as int), *provider),
            decreases resources@.len() - i,
        {
            let ghost before = files@;
            files.push(resource_file(&resources[i], provider));
            i += 1;
            assert(ir::artifact_models(files@) =~= ir::artifact_models(before).push(
                resource_artifact(resources@[i - 1], *provider),
            ));
            assert(resource_artifacts(resources@.take(i as int), *provider) =~= resource_artifacts(
                resources@.take(i - 1),
                *provider,
            ).push(resource_artifact(resources@[i - 1], *provider)));
            assert forall|k: int| 0 <= k < i - 1 implies #[trigger] files@[k] == before[k]
                && resources@.take(i as int)[k] == resources@.take(i - 1)[k] by {}
        }
        assert(resources@.take(i as int) =~= resources@);
        let ghost modules = ir::artifact_models(files@);
        let ghost start = files@.len() as int;
        assert(modules =~= modules + data_source_artifacts(data_sources@.take(0), *provider));
        let mut j: usize = 0;
        while j < data_sources.len()
            invariant
                j <= data_sources@.len(),
                start == resources@.len(),
                files@.len() == start + j,
                ir::artifact_models(files@) == modules + data_source_artifacts(
                    data_sources@.take(j as int),
                    *provider,
                ),
                has_plain_resource_modules(files@, resources@, *provider),
                has_plain_data_source_modules(
                    files@,
                    start,
                    data_sources@.take(j as int),
                    *provider,
                ),
            decreases data_sources@.len() - j,
        {
            let ghost before = files@;
            files.push(data_source_file(&data_sources[j], provider));
            j += 1;
            assert(ir::artifact_models(files@) =~= ir::artifact_models(before).push(
                data_source_artifact(data_sources@[j - 1], *provider),
            ));
            assert(modules + data_source_artifacts(data_sources@.take(j as int), *provider) =~= (
            modules + data_source_artifacts(data_sources@.take(j - 1), *provider)).push(
                data_source_artifact(data_sources@[j - 1], *provider),
            ));
            assert forall|k: int| 0 <= k < start + j - 1 implies #[trigger] files@[k]
                == before[k] by {}
            assert forall|k: int| 0 <= k < j - 1 implies #[trigger] data_sources@.take(j as int)[k]
                == data_sources@.take(j - 1)[k] by {}
        }
        assert(data_sources@.take(j as int) =~= data_sources@);
        let mut metadata: Vec<GeneratedArtifact> = provider_files(provider, client_helper);
        let ghost before = files@;
        let ghost added = metadata@;
        files.append(&mut metadata);
        assert(ir::artifact_models(files@) =~= ir::artifact_models(before) + ir::artifact_models(
            added,
        ));
        proof {
            lemma_plain_modules_stay(before, added, resources@, data_sources@, *provider);
        }
        let ghost prior = ir::artifact_models(files@);
        assert(prior =~= prior + test_artifacts(resources@.take(0), *provider));
        let mut k: usize = 0;
        while k < resources.len()
            invariant
                k <= resources@.len(),
                files@.len() >= resources@.len() + data_sources@.len(),
                ir::artifact_models(files@) == prior + test_artifacts(
                    resources@.take(k as int),
                    *provider,
                ),
                has_plain_resource_modules(files@, resources@, *provider),
                has_plain_data_source_modules(
                    files@,
                    resources@.len() as int,
                    data_sources@,
                    *provider,
                ),
            decreases resources@.len() - k,
        {
            let ghost before = files@;
            let playbook: GeneratedArtifact = test_file(&resources[k], provider);
            proof {
                lemma_plain_modules_stay(
                    before,
                    seq![playbook],
                    resources@,
                    data_sources@,
                    *provider,
                );
                assert(before.push(playbook) =~= before + seq![playbook]);
            }
            files.push(playbook);
            k += 1;
            assert(ir::artifact_models(files@) =~= ir::artifact_models(before).push(
                test_artifact(resources@[k - 1], *provider),
            ));
            assert(prior + test_artifacts(resources@.take(k as int), *provider) =~= (prior
                + test_artifacts(resources@.take(k - 1), *provider)).push(
                test_artifact(resources@[k - 1], *provider),
            ));
        }
        assert(resources@.take(k as int) =~= resources@);
        Ok(files)
    }
}

// ---------------------------------------------------------------------------
// Laws
// ---------------------------------------------------------------------------

/// A provider without an `ansible` table that holds a string under
/// `galaxy_namespace` publishes under its own name.
pub proof fn law_namespace_falls_back_to_the_provider(provider: IacProvider)
    requires
        match config::config_entry(provider.platform_config@, "ansible"@) {
            Some(value) => config::table_text(
                config::toml_value(value),
                "galaxy_namespace"@,
            ) is None,
            None => true,
        },
    ensures
        namespace_of(provider) == provider.name@,
{
}

/// Where no platform is configured twice, the `galaxy_namespace` of the
/// `ansible` table is the namespace, whatever the other platforms are and
/// wherever the entry stands.
pub proof fn law_namespace_override_is_honored(
    provider: IacProvider,
    i: int,
    entries: Map<Seq<char>, config::TomlModel>,
    namespace: Seq<char>,
)
    requires
        0 <= i < provider.platform_config@.len(),
        config::distinct_names(provider.platform_config@),
        provider.platform_config@[i].0@ == "ansible"@,
        config::toml_value(provider.platform_config@[i].1) == config::TomlModel::Table(entries),
        entries.contains_key("galaxy_namespace"@),
        entries["galaxy_namespace"@] == config::TomlModel::Text(namespace),
    ensures
        namespace_of(provider) == namespace,
{
    config::law_entry_is_found_by_name(provider.platform_config@, i);
}

proof fn lemma_layout_imports(
    module: Seq<char>,
    m: module_gen::ModuleModel,
    helper: Seq<char>,
)
    requires
        laws::has_module_layout(module, m, helper),
    ensures
        text::contains(module, module_gen::import_section(m, helper)),
{
    broadcast use {text::lemma_contains_concat, text::lemma_contains_self};

    let parts = choose|parts: laws::ModuleParts|
        #[trigger] laws::consists_of(module, parts) && laws::has_standard_parts(parts, m, helper);
    assert(text::contains(module, parts.imports));
}

/// The modules of a provider import their helpers from the collection that the
/// resolved namespace stands for.
pub proof fn law_modules_import_from_the_resolved_namespace(
    resource: IacResource,
    ds: IacDataSource,
    action: IacAction,
    provider: IacProvider,
)
    ensures
        ({
            let source = "from ansible_collections."@ + namespace_of(provider) + "."@
                + provider.name@ + ".plugins.module_utils.akeyless_client import (\n    "@;
            &&& text::contains(
                resource_artifact(resource, provider).content,
                source + "run_standard_crud"@ + ",\n)\n\n"@,
            )
            &&& text::contains(
                data_source_artifact(ds, provider).content,
                source + "run_info_module"@ + ",\n)\n\n"@,
            )
            &&& text::contains(
                action_artifact(action, provider).content,
                source + "run_action_module"@ + ",\n)\n\n"@,
            )
        }),
{
    let namespace = namespace_of(provider);
    let resource_info = module_gen::resource_info(
        resource,
        provider.name@,
        namespace,
        MODULE_AUTHOR@,
    );
    laws::law_resource_module_layout(
        resource_info,
        resource.attributes@,
        module_gen::lifecycle_of(resource, resource_info.module),
    );
    lemma_layout_imports(
        resource_artifact(resource, provider).content,
        resource_info,
        "run_standard_crud"@,
    );
    let ds_info = module_gen::data_source_info(ds, provider.name@, namespace, MODULE_AUTHOR@);
    laws::law_data_source_module_layout(
        ds_info,
        ds.attributes@,
        module_gen::schema_pair(ds.read_schema@),
    );
    lemma_layout_imports(
        data_source_artifact(ds, provider).content,
        ds_info,
        "run_info_module"@,
    );
    let action_info = module_gen::action_info(action, provider.name@, namespace, MODULE_AUTHOR@);
    laws::law_action_module_layout(
        action_info,
        action.attributes@,
        module_gen::action_pair(action),
    );
    lemma_layout_imports(
        action_artifact(action, provider).content,
        action_info,
        "run_action_module"@,
    );
}

/// Module files are named by the naming convention, in the one directory that
/// Ansible looks for modules in.
pub proof fn law_module_files_follow_the_naming_convention(
    resource: IacResource,
    ds: IacDataSource,
    action: IacAction,
    provider: IacProvider,
)
    ensures
        resource_artifact(resource, provider).path == "plugins/modules/"@ + artifact_file_name(
            naming::unprefixed(resource.name@, provider.name@),
            ArtifactKind::Resource,
        ),
        data_source_artifact(ds, provider).path == "plugins/modules/"@ + artifact_file_name(
            naming::unprefixed(ds.name@, provider.name@),
            ArtifactKind::DataSource,
        ),
        action_artifact(action, provider).path == "plugins/modules/"@ + artifact_file_name(
            naming::unprefixed(action.name@, provider.name@),
            ArtifactKind::Module,
        ),
{
    assert(resource_artifact(resource, provider).path =~= "plugins/modules/"@ + artifact_file_name(
        naming::unprefixed(resource.name@, provider.name@),
        ArtifactKind::Resource,
    ));
    assert(data_source_artifact(ds, provider).path =~= "plugins/modules/"@ + artifact_file_name(
        naming::unprefixed(ds.name@, provider.name@),
        ArtifactKind::DataSource,
    ));
    assert(action_artifact(action, provider).path =~= "plugins/modules/"@ + artifact_file_name(
        naming::unprefixed(action.name@, provider.name@),
        ArtifactKind::Module,
    ));
}

/// Every module stands in the file that is named after it, so that Ansible finds
/// it under the name that its documentation, its examples and the test playbook
/// give.
pub proof fn law_modules_stand_under_their_names(
    resource: IacResource,
    ds: IacDataSource,
    action: IacAction,
    provider: IacProvider,
)
    ensures
        ({
            let namespace = namespace_of(provider);
            let name = provider.name@;
            let resource_module = module_gen::resource_info(
                resource,
                name,
                namespace,
                MODULE_AUTHOR@,
            ).module;
            let ds_module = module_gen::data_source_info(ds, name, namespace, MODULE_AUTHOR@).module;
            let action_module = module_gen::action_info(
                action,
                name,
                namespace,
                MODULE_AUTHOR@,
            ).module;
            &&& resource_artifact(resource, provider).path == "plugins/modules/"@ + resource_module
                + ".py"@
            &&& data_source_artifact(ds, provider).path == "plugins/modules/"@ + ds_module + ".py"@
            &&& action_artifact(action, provider).path == "plugins/modules/"@ + action_module
                + ".py"@
            &&& test_artifact(resource, provider).path == "tests/integration/targets/"@
                + resource_module + "/tasks/main.yml"@
            &&& test_artifact(resource, provider).content == module_gen::playbook(
                resource_module,
                fragments::params_block(resource.attributes@),
            )
        }),
{
    let ds_module = module_gen::data_source_info(
        ds,
        provider.name@,
        namespace_of(provider),
        MODULE_AUTHOR@,
    ).module;
    assert(data_source_artifact(ds, provider).path =~= "plugins/modules/"@ + ds_module + ".py"@) by {
        reveal_strlit("_info.py");
        reveal_strlit("_info");
        reveal_strlit(".py");
    }
}

/// File names tell data sources and tests apart and treat all other kinds
/// alike; hyphens in names make no difference.
pub proof fn law_file_names_are_normalized(name: Seq<char>, kind: ArtifactKind)
    ensures
        artifact_file_name(naming::snake_cased(name), kind) == artifact_file_name(name, kind),
        kind != ArtifactKind::DataSource && kind != ArtifactKind::Test ==> artifact_file_name(
            name,
            kind,
        ) == artifact_file_name(name, ArtifactKind::Resource),
{
    naming::law_snake_case_is_stable(name);
}

/// A resource that goes by its name with the provider in front gives the file
/// that the bare name gives, as long as the bare name does not start with the
/// provider itself.
pub proof fn law_provider_prefix_does_not_show(provider: Seq<char>, name: Seq<char>)
    requires
        !provider.push('_').is_prefix_of(name),
    ensures
        resource_type(provider.push('_') + name, provider) == resource_type(name, provider),
        resource_type(name, provider) == naming::snake_cased(name),
{
    naming::law_prefix_is_stripped(provider, name);
}

proof fn lemma_four_lists(
    a: Seq<ir::ArtifactModel>,
    b: Seq<ir::ArtifactModel>,
    c: Seq<ir::ArtifactModel>,
    d: Seq<ir::ArtifactModel>,
)
    ensures
        (a + b + c + d).len() == a.len() + b.len() + c.len() + d.len(),
        forall|i: int| 0 <= i < a.len() ==> #[trigger] (a + b + c + d)[i] == a[i],
        forall|i: int|
            a.len() <= i < a.len() + b.len() ==> #[trigger] (a + b + c + d)[i] == b[i - a.len()],
        (a + b + c + d).subrange(
            (a.len() + b.len()) as int,
            (a.len() + b.len() + c.len()) as int,
        ) == c,
        forall|i: int|
            a.len() + b.len() + c.len() <= i < (a + b + c + d).len() ==> #[trigger] (a + b + c
                + d)[i] == d[i - a.len() - b.len() - c.len()],
{
    assert((a + b + c + d).subrange(
        (a.len() + b.len()) as int,
        (a.len() + b.len() + c.len()) as int,
    ) =~= c);
}

/// A collection has a module and a test playbook for each resource, a module
/// for each data source and five files of metadata, in this order: resource
/// modules, data source modules, metadata, playbooks.
pub proof fn law_collection_is_complete(
    provider: IacProvider,
    resources: Seq<IacResource>,
    data_sources: Seq<IacDataSource>,
    client_helper: Seq<char>,
)
    ensures
        ({
            let all = all_artifacts(provider, resources, data_sources, client_helper);
            let modules = (resources.len() + data_sources.len()) as int;
            &&& all.len() == 2 * resources.len() + data_sources.len() + 5
            &&& forall|i: int|
                0 <= i < resources.len() ==> #[trigger] all[i] == resource_artifact(
                    resources[i],
                    provider,
                )
            &&& forall|i: int|
                resources.len() <= i < modules ==> #[trigger] all[i] == data_source_artifact(
                    data_sources[i - resources.len()],
                    provider,
                )
            &&& all.subrange(modules, modules + 5) == provider_artifacts(provider, client_helper)
            &&& forall|i: int|
                modules + 5 <= i < all.len() ==> #[trigger] all[i] == test_artifact(
                    resources[i - modules - 5],
                    provider,
                )
        }),
{
    lemma_four_lists(
        resource_artifacts(resources, provider),
        data_source_artifacts(data_sources, provider),
        provider_artifacts(provider, client_helper),
        test_artifacts(resources, provider),
    );
}

/// The Galaxy manifest starts with the namespace and the name, and has what
/// Galaxy insists on: the repository, its documentation, homepage and issues.
pub proof fn law_manifest_has_what_galaxy_requires(namespace: Seq<char>, name: Seq<char>)
    ensures
        text::occurs_at(
            galaxy_manifest(namespace, name),
            "namespace: "@ + namespace + "\nname: "@ + name,
            0,
        ),
        text::contains(
            galaxy_manifest(namespace, name),
            "\nrepository: https://github.com/pleme-io/ansible-"@ + name,
        ),
        text::contains(
            galaxy_manifest(namespace, name),
            "\ndocumentation: https://github.com/pleme-io/ansible-"@ + name,
        ),
        text::contains(
            galaxy_manifest(namespace, name),
            "\nhomepage: https://github.com/pleme-io/ansible-"@ + name,
        ),
        text::contains(
            galaxy_manifest(namespace, name),
            "\nissues: https://github.com/pleme-io/ansible-"@ + name,
        ),
{
    broadcast use {text::lemma_contains_concat, text::lemma_contains_self};

    let manifest = galaxy_manifest(namespace, name);
    let head = "namespace: "@ + namespace + "\nname: "@ + name;
    assert(manifest.subrange(0, head.len() as int) =~= head);
    let first =
        "\nversion: 0.1.0\nreadme: README.md\nauthors: [pleme-io]\ndescription: \"Auto-generated Ansible modules for Akeyless Vault — managed by iac-forge.\"\nlicense: [MIT]\nrepository: https://github.com/pleme-io/ansible-"@;
    let repository = "\nrepository: https://github.com/pleme-io/ansible-"@;
    assert(first =~= first.take(first.len() - repository.len()) + repository) by {
        reveal_strlit(
            "\nversion: 0.1.0\nreadme: README.md\nauthors: [pleme-io]\ndescription: \"Auto-generated Ansible modules for Akeyless Vault — managed by iac-forge.\"\nlicense: [MIT]\nrepository: https://github.com/pleme-io/ansible-",
        );
        reveal_strlit("\nrepository: https://github.com/pleme-io/ansible-");
    }
    let start = head + first.take(first.len() - repository.len());
    let with_repository = head + first + name;
    assert(with_repository =~= start + (repository + name));
    let documentation = "\ndocumentation: https://github.com/pleme-io/ansible-"@;
    let with_documentation = with_repository + documentation + name;
    assert(with_documentation =~= with_repository + (documentation + name));
    let homepage = "\nhomepage: https://github.com/pleme-io/ansible-"@;
    let with_homepage = with_documentation + homepage + name;
    assert(with_homepage =~= with_documentation + (homepage + name));
    let issues = "\nissues: https://github.com/pleme-io/ansible-"@;
    assert(with_homepage + issues + name =~= with_homepage + (issues + name));
}

} // verus!
