//! The files of a collection in terms of the provider, the resources, the data
//! sources and the actions.
use vstd::prelude::*;

use crate::backend;
use crate::config;
use crate::ir;
use crate::ir::{
    ArtifactKind, GeneratedArtifact, IacAction, IacDataSource, IacProvider, IacResource,
};
use crate::module_gen;
use crate::module_laws;
use crate::naming;
use crate::text;
use crate::text_laws;

verus! {

broadcast use {text::lemma_contains_concat, text::lemma_contains_self};

// ---------------------------------------------------------------------------
// Results
// ---------------------------------------------------------------------------

/// The model of a file holds its path, its content and its kind, and that of a
/// list holds those of its files in order.
pub proof fn law_file_models_hold_the_fields(files: Seq<GeneratedArtifact>, i: int)
    requires
        0 <= i < files.len(),
    ensures
        ir::artifact_models(files).len() == files.len(),
        ir::artifact_models(files)[i].path == files[i].path@,
        ir::artifact_models(files)[i].content == files[i].content@,
        ir::artifact_models(files)[i].kind == files[i].kind,
{
}

/// A result that succeeds with some files is no error and holds as many files,
/// with these paths, contents and kinds.
pub proof fn law_success_holds_the_files(
    result: Result<Vec<GeneratedArtifact>, iac_forge::IacForgeError>,
    files: Seq<ir::ArtifactModel>,
)
    requires
        backend::succeeds_with(result, files),
    ensures
        result is Ok,
        result->Ok_0@.len() == files.len(),
        forall|i: int|
            0 <= i < files.len() ==> {
                &&& (#[trigger] result->Ok_0@[i]).path@ == files[i].path
                &&& result->Ok_0@[i].content@ == files[i].content
                &&& result->Ok_0@[i].kind == files[i].kind
            },
{
    let held = result->Ok_0@;
    assert(ir::artifact_models(held).len() == held.len());
    assert forall|i: int| 0 <= i < files.len() implies {
        &&& (#[trigger] held[i]).path@ == files[i].path
        &&& held[i].content@ == files[i].content
        &&& held[i].kind == files[i].kind
    } by {
        assert(ir::artifact_models(held)[i] == held[i]@);
    }
}

// ---------------------------------------------------------------------------
// Namespace
// ---------------------------------------------------------------------------

/// Where no platform is configured twice, the namespace is decided by the entry
/// for `ansible`: a table with a string under `galaxy_namespace` gives that
/// string, and anything else gives the name of the provider, as does no entry.
pub proof fn law_namespace_is_decided_by_the_ansible_entry(provider: IacProvider, i: int)
    requires
        config::distinct_names(provider.platform_config@),
    ensures
        (forall|j: int|
            0 <= j < provider.platform_config@.len() ==> (
            #[trigger] provider.platform_config@[j]).0@ != "ansible"@) ==> backend::namespace_of(
            provider,
        ) == provider.name@,
        0 <= i < provider.platform_config@.len() && provider.platform_config@[i].0@ == "ansible"@
            ==> match config::toml_value(provider.platform_config@[i].1) {
            config::TomlModel::Table(entries) => if entries.contains_key("galaxy_namespace"@) {
                match entries["galaxy_namespace"@] {
                    config::TomlModel::Text(found) => backend::namespace_of(provider) == found,
                    _ => backend::namespace_of(provider) == provider.name@,
                }
            } else {
                backend::namespace_of(provider) == provider.name@
            },
            _ => backend::namespace_of(provider) == provider.name@,
        },
{
    text_laws::law_lookup_finds_the_first_entry(provider.platform_config@, "ansible"@, i);
    if 0 <= i < provider.platform_config@.len() && provider.platform_config@[i].0@ == "ansible"@ {
        config::law_entry_is_found_by_name(provider.platform_config@, i);
    }
}

// ---------------------------------------------------------------------------
// Names and paths
// ---------------------------------------------------------------------------

/// Type names are names in snake case without the provider. File names are names
/// in snake case with an ending, which tells data sources and tests from all
/// else.
pub proof fn law_names_of_types_and_files(
    name: Seq<char>,
    provider: Seq<char>,
    kind: ArtifactKind,
)
    ensures
        backend::resource_type(name, provider) == naming::snake_cased(
            naming::unprefixed(name, provider),
        ),
        match kind {
            ArtifactKind::DataSource => backend::artifact_file_name(name, kind)
                == naming::snake_cased(name) + "_info.py"@,
            ArtifactKind::Test => backend::artifact_file_name(name, kind) == "test_"@
                + naming::snake_cased(name) + ".yml"@,
            _ => backend::artifact_file_name(name, kind) == naming::snake_cased(name) + ".py"@,
        },
{
}

/// The file of a resource: its module, under the directory for modules, for the
/// provider, its namespace and the author of the collection.
pub proof fn law_resource_file(resource: IacResource, provider: IacProvider)
    ensures
        ({
            let file = backend::resource_artifact(resource, provider);
            let name = naming::snake_cased(naming::unprefixed(resource.name@, provider.name@));
            &&& file.path == "plugins/modules/"@ + name + ".py"@
            &&& file.content == module_gen::resource_module(
                resource,
                provider.name@,
                backend::namespace_of(provider),
                "pleme-io (@pleme-io)"@,
            )
            &&& file.kind == ArtifactKind::Resource
        }),
{
}

/// The file of a data source: its module, under the directory for modules, for
/// the provider, its namespace and the author of the collection.
pub proof fn law_data_source_file(ds: IacDataSource, provider: IacProvider)
    ensures
        ({
            let file = backend::data_source_artifact(ds, provider);
            let name = naming::snake_cased(naming::unprefixed(ds.name@, provider.name@));
            &&& file.path == "plugins/modules/"@ + name + "_info.py"@
            &&& file.content == module_gen::data_source_module(
                ds,
                provider.name@,
                backend::namespace_of(provider),
                "pleme-io (@pleme-io)"@,
            )
            &&& file.kind == ArtifactKind::DataSource
        }),
{
}

/// The file of an action: its module, under the directory for modules, for the
/// provider, its namespace and the author of the collection.
pub proof fn law_action_file(action: IacAction, provider: IacProvider)
    ensures
        ({
            let file = backend::action_artifact(action, provider);
            let name = naming::snake_cased(naming::unprefixed(action.name@, provider.name@));
            &&& file.path == "plugins/modules/"@ + name + ".py"@
            &&& file.content == module_gen::action_module(
                action,
                provider.name@,
                backend::namespace_of(provider),
                "pleme-io (@pleme-io)"@,
            )
            &&& file.kind == ArtifactKind::Module
        }),
{
}

/// The test file of a resource: its playbook, as the main tasks of a test target
/// with the name of the module.
pub proof fn law_test_file(resource: IacResource, provider: IacProvider)
    ensures
        ({
            let file = backend::test_artifact(resource, provider);
            let name = naming::snake_cased(naming::unprefixed(resource.name@, provider.name@));
            &&& file.path == "tests/integration/targets/"@ + name + "/tasks/main.yml"@
            &&& file.content == module_gen::test_playbook(resource, provider.name@)
            &&& file.kind == ArtifactKind::Test
        }),
{
}

// ---------------------------------------------------------------------------
// Metadata
// ---------------------------------------------------------------------------

/// The metadata of a collection: the helper as it is given, the manifest, the
/// runtime requirement, the Python requirement and the readme, at the places
/// where Ansible Galaxy looks for them.
pub proof fn law_metadata_files(provider: IacProvider, client_helper: Seq<char>)
    ensures
        ({
            let files = backend::provider_artifacts(provider, client_helper);
            let namespace = backend::namespace_of(provider);
            &&& files.len() == 5
            &&& forall|i: int|
                0 <= i < 5 ==> (#[trigger] files[i]).kind == ArtifactKind::Metadata
            &&& files[0].path == "plugins/module_utils/akeyless_client.py"@
            &&& files[0].content == client_helper
            &&& files[1].path == "galaxy.yml"@
            &&& files[1].content == backend::galaxy_manifest(namespace, provider.name@)
            &&& files[2].path == "meta/runtime.yml"@
            &&& files[2].content == "requires_ansible: '>=2.14.0'\n"@
            &&& files[3].path == "requirements.txt"@
            &&& files[3].content == "akeyless>=5.0.22\n"@
            &&& files[4].path == "README.md"@
            &&& files[4].content == backend::readme(namespace, provider.name@)
        }),
{
}

/// The manifest names the namespace and the collection, and points at the
/// repository of the collection, its documentation, homepage and issues.
pub proof fn law_manifest_text(namespace: Seq<char>, name: Seq<char>)
    ensures
        ({
            let repository = "https://github.com/pleme-io/ansible-"@ + name;
            backend::galaxy_manifest(namespace, name) == "namespace: "@ + namespace + "\nname: "@
                + name
                + "\nversion: 0.1.0\nreadme: README.md\nauthors: [pleme-io]\ndescription: \"Auto-generated Ansible modules for Akeyless Vault — managed by iac-forge.\"\nlicense: [MIT]\nrepository: "@
                + repository + "\ndocumentation: "@ + repository + "\nhomepage: "@ + repository
                + "\nissues: "@ + repository
                + "/issues\ndependencies: {}\ntags: [security, secrets, akeyless]\n"@
        }),
{
    let host = "https://github.com/pleme-io/ansible-"@;
    let first =
        "\nversion: 0.1.0\nreadme: README.md\nauthors: [pleme-io]\ndescription: \"Auto-generated Ansible modules for Akeyless Vault — managed by iac-forge.\"\nlicense: [MIT]\nrepository: "@;
    assert(
    "\nversion: 0.1.0\nreadme: README.md\nauthors: [pleme-io]\ndescription: \"Auto-generated Ansible modules for Akeyless Vault — managed by iac-forge.\"\nlicense: [MIT]\nrepository: https://github.com/pleme-io/ansible-"@
        =~= first + host) by {
        reveal_strlit(
            "\nversion: 0.1.0\nreadme: README.md\nauthors: [pleme-io]\ndescription: \"Auto-generated Ansible modules for Akeyless Vault — managed by iac-forge.\"\nlicense: [MIT]\nrepository: https://github.com/pleme-io/ansible-",
        );
        reveal_strlit(
            "\nversion: 0.1.0\nreadme: README.md\nauthors: [pleme-io]\ndescription: \"Auto-generated Ansible modules for Akeyless Vault — managed by iac-forge.\"\nlicense: [MIT]\nrepository: ",
        );
        reveal_strlit("https://github.com/pleme-io/ansible-");
    }
    assert("\ndocumentation: https://github.com/pleme-io/ansible-"@ =~= "\ndocumentation: "@ + host)
        by {
        reveal_strlit("\ndocumentation: https://github.com/pleme-io/ansible-");
        reveal_strlit("\ndocumentation: ");
        reveal_strlit("https://github.com/pleme-io/ansible-");
    }
    assert("\nhomepage: https://github.com/pleme-io/ansible-"@ =~= "\nhomepage: "@ + host) by {
        reveal_strlit("\nhomepage: https://github.com/pleme-io/ansible-");
        reveal_strlit("\nhomepage: ");
        reveal_strlit("https://github.com/pleme-io/ansible-");
    }
    assert("\nissues: https://github.com/pleme-io/ansible-"@ =~= "\nissues: "@ + host) by {
        reveal_strlit("\nissues: https://github.com/pleme-io/ansible-");
        reveal_strlit("\nissues: ");
        reveal_strlit("https://github.com/pleme-io/ansible-");
    }
    let start = "namespace: "@ + namespace + "\nname: "@ + name;
    lemma_regroup(start, first, host, name);
    let one = start + first + (host + name);
    lemma_regroup(one, "\ndocumentation: "@, host, name);
    let two = one + "\ndocumentation: "@ + (host + name);
    lemma_regroup(two, "\nhomepage: "@, host, name);
    let three = two + "\nhomepage: "@ + (host + name);
    lemma_regroup(three, "\nissues: "@, host, name);
}

proof fn lemma_regroup(a: Seq<char>, b: Seq<char>, c: Seq<char>, d: Seq<char>)
    ensures
        a + (b + c) + d == a + b + (c + d),
{
    assert(a + (b + c) + d =~= a + b + (c + d));
}

/// The readme is headed by the collection, and says what it is and how it is
/// generated.
pub proof fn law_readme_text(namespace: Seq<char>, name: Seq<char>)
    ensures
        backend::readme(namespace, name) == "# "@ + namespace + "."@ + name
            + "\n\nAuto-generated Ansible collection wrapping the Akeyless Python SDK.\nEach module proxies one Akeyless V2 API endpoint with create/read/update/delete\nsemantics derived from the upstream OpenAPI specification.\nDo not edit generated modules — they will be overwritten.\n\nRegenerate with: `iac-forge-cli generate --backend ansible`.\n"@,
{
}

// ---------------------------------------------------------------------------
// Collections
// ---------------------------------------------------------------------------

/// One more resource or data source adds its files and changes no other: a
/// resource a module and a playbook, each behind those of the resources before,
/// and a data source a module.
pub proof fn law_collections_grow(
    provider: IacProvider,
    resources: Seq<IacResource>,
    data_sources: Seq<IacDataSource>,
    resource: IacResource,
    ds: IacDataSource,
    client_helper: Seq<char>,
)
    ensures
        backend::all_artifacts(provider, Seq::empty(), Seq::empty(), client_helper)
            == backend::provider_artifacts(provider, client_helper),
        backend::all_artifacts(provider, resources.push(resource), data_sources, client_helper)
            == backend::all_artifacts(provider, resources, data_sources, client_helper).insert(
            resources.len() as int,
            backend::resource_artifact(resource, provider),
        ).push(backend::test_artifact(resource, provider)),
        backend::all_artifacts(provider, resources, data_sources.push(ds), client_helper)
            == backend::all_artifacts(provider, resources, data_sources, client_helper).insert(
            (resources.len() + data_sources.len()) as int,
            backend::data_source_artifact(ds, provider),
        ),
{
    let modules = backend::resource_artifacts(resources, provider);
    let infos = backend::data_source_artifacts(data_sources, provider);
    let metadata = backend::provider_artifacts(provider, client_helper);
    let tests = backend::test_artifacts(resources, provider);
    let module = backend::resource_artifact(resource, provider);
    let test = backend::test_artifact(resource, provider);
    let info = backend::data_source_artifact(ds, provider);
    assert(backend::resource_artifacts(resources.push(resource), provider) =~= modules.push(module));
    assert(backend::test_artifacts(resources.push(resource), provider) =~= tests.push(test));
    assert(backend::data_source_artifacts(data_sources.push(ds), provider) =~= infos.push(info));
    let none = Seq::<ir::ArtifactModel>::empty();
    assert(backend::resource_artifacts(Seq::empty(), provider) =~= none);
    assert(backend::data_source_artifacts(Seq::empty(), provider) =~= none);
    assert(backend::test_artifacts(Seq::empty(), provider) =~= none);
    assert(none + none + metadata + none =~= metadata);
    lemma_insert_in_order(modules, infos, metadata, tests, module, test, info);
}

proof fn lemma_insert_in_order(
    a: Seq<ir::ArtifactModel>,
    b: Seq<ir::ArtifactModel>,
    c: Seq<ir::ArtifactModel>,
    d: Seq<ir::ArtifactModel>,
    x: ir::ArtifactModel,
    y: ir::ArtifactModel,
    z: ir::ArtifactModel,
)
    ensures
        a.push(x) + b + c + d.push(y) == (a + b + c + d).insert(a.len() as int, x).push(y),
        a + b.push(z) + c + d == (a + b + c + d).insert((a.len() + b.len()) as int, z),
{
    assert(a.push(x) + b + c + d.push(y) =~= (a + b + c + d).insert(a.len() as int, x).push(y));
    assert(a + b.push(z) + c + d =~= (a + b + c + d).insert((a.len() + b.len()) as int, z));
}

/// In a collection the modules of all resources, data sources and actions extend
/// the documentation fragment `auth` of that collection, named in full.
pub proof fn law_collection_modules_extend_its_fragment(
    resource: IacResource,
    ds: IacDataSource,
    action: IacAction,
    provider: IacProvider,
)
    ensures
        ({
            let fragment = "\nextends_documentation_fragment:\n  - "@ + backend::namespace_of(
                provider,
            ) + "."@ + provider.name@ + ".auth\n"@;
            &&& text::contains(backend::resource_artifact(resource, provider).content, fragment)
            &&& text::contains(backend::data_source_artifact(ds, provider).content, fragment)
            &&& text::contains(backend::action_artifact(action, provider).content, fragment)
        }),
{
    let namespace = backend::namespace_of(provider);
    let name = provider.name@;
    let author = backend::MODULE_AUTHOR@;
    let pair = Seq::<char>::empty();
    let resource_info = module_gen::resource_info(resource, name, namespace, author);
    let l = module_gen::lifecycle_of(resource, resource_info.module);
    module_laws::law_modules_extend_the_fragment_of_the_collection(
        resource_info,
        resource.attributes@,
        l,
        pair,
    );
    module_laws::law_modules_extend_the_fragment_of_the_collection(
        module_gen::data_source_info(ds, name, namespace, author),
        ds.attributes@,
        l,
        module_gen::schema_pair(ds.read_schema@),
    );
    module_laws::law_modules_extend_the_fragment_of_the_collection(
        module_gen::action_info(action, name, namespace, author),
        action.attributes@,
        l,
        module_gen::action_pair(action),
    );
}

} // verus!
