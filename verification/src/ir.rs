//! The platform-independent description of what a collection offers:
//! resources, data sources, actions and the provider they belong to.
use vstd::prelude::*;

verus! {

/// Platform-independent type of an attribute.
#[derive(Debug)]
pub enum IacType {
    String,
    Integer,
    Float,
    /// Integers and floats alike.
    Numeric,
    Boolean,
    List(Box<IacType>),
    /// A set of values of one type.
    SetOf(Box<IacType>),
    /// A map from strings to values of one type.
    MapOf(Box<IacType>),
    Object { name: std::string::String, fields: Vec<IacAttribute> },
    /// `values` lists what is allowed, `underlying` is the base type.
    Enum { values: Vec<std::string::String>, underlying: Box<IacType> },
    Any,
}

/// An attribute of a resource, a data source or an action.
#[derive(Debug)]
pub struct IacAttribute {
    /// Field name in the API (e.g. `bound-aws-account-id`).
    pub api_name: String,
    /// The same name with underscores (e.g. `bound_aws_account_id`).
    pub canonical_name: String,
    pub description: String,
    pub iac_type: IacType,
    /// Must be given on create.
    pub required: bool,
    /// May be given.
    pub optional: bool,
    /// Generated by the server.
    pub computed: bool,
    /// Holds sensitive data.
    pub sensitive: bool,
    /// A string that carries JSON.
    pub json_encoded: bool,
    /// Changing it forces replacement.
    pub immutable: bool,
    /// Default value as JSON text, if any.
    pub default_value: Option<String>,
    /// Allowed values, if constrained.
    pub enum_values: Option<Vec<String>>,
    /// Path of the field in an API response.
    pub read_path: Option<String>,
    /// Known to the update schema only.
    pub update_only: bool,
}

/// Endpoints of a resource and the schema names of their request bodies.
#[derive(Debug)]
pub struct CrudInfo {
    pub create_endpoint: String,
    pub create_schema: String,
    pub update_endpoint: Option<String>,
    pub update_schema: Option<String>,
    pub read_endpoint: String,
    pub read_schema: String,
    pub read_response_schema: Option<String>,
    pub delete_endpoint: String,
    pub delete_schema: String,
}

/// How a resource is identified.
#[derive(Debug)]
pub struct IdentityInfo {
    pub id_field: String,
    pub import_field: String,
    pub force_replace_fields: Vec<String>,
}

/// A resource with create, read, update and delete operations.
#[derive(Debug)]
pub struct IacResource {
    pub name: String,
    pub description: String,
    pub category: String,
    pub crud: CrudInfo,
    pub attributes: Vec<IacAttribute>,
    pub identity: IdentityInfo,
    /// Response keys with the canonical names they map to.
    pub read_mapping: Vec<(String, String)>,
}

/// A one-shot call.
#[derive(Debug)]
pub struct IacAction {
    pub name: String,
    pub description: String,
    pub category: String,
    pub endpoint: String,
    pub schema: String,
    pub response_schema: Option<String>,
    /// Whether the call changes server state.
    pub mutating: bool,
    pub sensitive_response_fields: Vec<String>,
    pub attributes: Vec<IacAttribute>,
    /// SDK method to call in place of the one that `schema` stands for.
    pub sdk_method: Option<String>,
}

/// A read-only view of a resource.
#[derive(Debug)]
pub struct IacDataSource {
    pub name: String,
    pub description: String,
    pub read_endpoint: String,
    pub read_schema: String,
    pub read_response_schema: Option<String>,
    pub attributes: Vec<IacAttribute>,
    /// Response keys with the canonical names they map to.
    pub read_mapping: Vec<(String, String)>,
}

/// Authentication settings of a provider; an empty text means not configured.
#[derive(Debug, Default)]
pub struct AuthInfo {
    pub token_field: String,
    pub env_var: String,
    pub gateway_url_field: String,
    pub gateway_env_var: String,
}

/// The provider that resources, data sources and actions belong to.
#[derive(Debug)]
pub struct IacProvider {
    pub name: String,
    pub description: String,
    pub version: String,
    pub auth: AuthInfo,
    pub skip_fields: Vec<String>,
    /// Settings of the individual platforms, by platform name, each name once.
    pub platform_config: Vec<(String, toml::Value)>,
}

/// What a generated file is.
#[derive(Debug, Clone, Copy, PartialEq, Eq, Structural)]
pub enum ArtifactKind {
    Resource,
    DataSource,
    Provider,
    Test,
    Schema,
    Signature,
    Module,
    Metadata,
    Controller,
    ProviderConfig,
    HelmChart,
}

/// A generated file.
#[derive(Debug)]
pub struct GeneratedArtifact {
    /// Path within the collection.
    pub path: String,
    pub content: String,
    pub kind: ArtifactKind,
}

/// A generated file as texts.
pub ghost struct ArtifactModel {
    pub path: Seq<char>,
    pub content: Seq<char>,
    pub kind: ArtifactKind,
}

impl View for GeneratedArtifact {
    type V = ArtifactModel;

    open spec fn view(&self) -> ArtifactModel {
        ArtifactModel { path: self.path@, content: self.content@, kind: self.kind }
    }
}

/// The generated files of a list as texts.
pub open spec fn artifact_models(artifacts: Seq<GeneratedArtifact>) -> Seq<ArtifactModel> {
    artifacts.map_values(|a: GeneratedArtifact| a@)
}

/// Users set this attribute: it is not computed, or required all the same.
pub open spec fn is_input(attr: IacAttribute) -> bool {
    !attr.computed || attr.required
}

/// The attributes that `keep` holds for, in order, each turned into a text.
pub open spec fn attribute_texts(
    attrs: Seq<IacAttribute>,
    keep: spec_fn(IacAttribute) -> bool,
    text_of: spec_fn(IacAttribute) -> Seq<char>,
) -> Seq<Seq<char>> {
    attrs.filter(keep).map_values(text_of)
}

/// Selects the inputs.
pub open spec fn inputs() -> spec_fn(IacAttribute) -> bool {
    |a: IacAttribute| is_input(a)
}

/// Selects the computed attributes.
pub open spec fn computed() -> spec_fn(IacAttribute) -> bool {
    |a: IacAttribute| a.computed
}

/// Selects the required attributes.
pub open spec fn required() -> spec_fn(IacAttribute) -> bool {
    |a: IacAttribute| a.required
}

/// Selects the immutable attributes.
pub open spec fn immutable() -> spec_fn(IacAttribute) -> bool {
    |a: IacAttribute| a.immutable
}

/// Names an attribute.
pub open spec fn canonical_name() -> spec_fn(IacAttribute) -> Seq<char> {
    |a: IacAttribute| a.canonical_name@
}

/// The canonical names of the immutable attributes, in order.
pub open spec fn immutable_names(attrs: Seq<IacAttribute>) -> Seq<Seq<char>> {
    attribute_texts(attrs, immutable(), canonical_name())
}

/// One more attribute adds its text, if it is kept.
pub proof fn lemma_attribute_texts_step(
    attrs: Seq<IacAttribute>,
    keep: spec_fn(IacAttribute) -> bool,
    text_of: spec_fn(IacAttribute) -> Seq<char>,
    i: int,
)
    requires
        0 <= i < attrs.len(),
    ensures
        attribute_texts(attrs.take(i + 1), keep, text_of) == if keep(attrs[i]) {
            attribute_texts(attrs.take(i), keep, text_of).push(text_of(attrs[i]))
        } else {
            attribute_texts(attrs.take(i), keep, text_of)
        },
{
    let longer = attrs.take(i + 1);
    assert(longer.drop_last() =~= attrs.take(i));
    assert(longer.last() == attrs[i]);
    reveal(Seq::filter);
    assert(attribute_texts(longer, keep, text_of) =~= if keep(attrs[i]) {
        attribute_texts(attrs.take(i), keep, text_of).push(text_of(attrs[i]))
    } else {
        attribute_texts(attrs.take(i), keep, text_of)
    });
}

/// The text of each kept attribute is among the attribute texts.
pub proof fn lemma_attribute_texts_contain(
    attrs: Seq<IacAttribute>,
    keep: spec_fn(IacAttribute) -> bool,
    text_of: spec_fn(IacAttribute) -> Seq<char>,
    i: int,
) -> (at: int)
    requires
        0 <= i < attrs.len(),
        keep(attrs[i]),
    ensures
        0 <= at < attribute_texts(attrs, keep, text_of).len(),
        attribute_texts(attrs, keep, text_of)[at] == text_of(attrs[i]),
{
    attrs.lemma_filter_contains(keep, i);
    let kept = attrs.filter(keep);
    let at = choose|at: int| 0 <= at < kept.len() && kept[at] == attrs[i];
    at
}

impl IacResource {
    /// The canonical names of the immutable attributes.
    #[must_use]
    pub fn immutable_attribute_names(&self) -> (res: Vec<&str>)
        ensures
            res@.map_values(|n: &str| n@) == immutable_names(self.attributes@),
    {
        let mut names: Vec<&str> = Vec::new();
        let mut i: usize = 0;
        let ghost attrs = self.attributes@;
        while i < self.attributes.len()
            invariant
                attrs == self.attributes@,
                i <= attrs.len(),
                names@.map_values(|n: &str| n@) == immutable_names(attrs.take(i as int)),
            decreases attrs.len() - i,
        {
            proof {
                lemma_attribute_texts_step(attrs, immutable(), canonical_name(), i as int);
            }
            if self.attributes[i].immutable {
                let ghost before = names@;
                names.push(self.attributes[i].canonical_name.as_str());
                assert(names@.map_values(|n: &str| n@) =~= before.map_values(|n: &str| n@).push(
                    attrs[i as int].canonical_name@,
                ));
            }
            i += 1;
        }
        assert(attrs.take(attrs.len() as int) =~= attrs);
        names
    }
}

} // verus!
