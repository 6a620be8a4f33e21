//! YAML and Python fragments derived from attributes.
use vstd::prelude::*;

use crate::ir;
use crate::ir::{IacAttribute, IacType};
use crate::text;
use crate::text::{append_if, append_prefixed, append_wrapped, join, replace_char};
use crate::type_names;
use crate::type_names::{AnsibleTypeExt, test_value_for_type};

verus! {

// ---------------------------------------------------------------------------
// Choices
// ---------------------------------------------------------------------------

/// The values an attribute is restricted to: those of an enum type, else those
/// that the attribute lists itself.
pub open spec fn choices_of(attr: IacAttribute) -> Option<Seq<String>> {
    match attr.iac_type {
        IacType::Enum { values, .. } => Some(values@),
        _ => match attr.enum_values {
            Some(values) => Some(values@),
            None => None,
        },
    }
}

/// Values between quotes, separated by commas.
pub open spec fn choice_list(values: Seq<Seq<char>>, quote: char) -> Seq<char> {
    text::joined(values.map_values(|v: Seq<char>| seq![quote] + v + seq![quote]), ", "@)
}

/// The choices of an attribute as a list, where it has any.
pub open spec fn choices_text(attr: IacAttribute, quote: char) -> Option<Seq<char>> {
    match choices_of(attr) {
        Some(values) => Some(choice_list(text::texts(values), quote)),
        None => None,
    }
}

/// Formats the inside of a bracketed choices list.
///
/// `quote` is the quote character to wrap each value in (`"` for YAML, `'` for
/// Python).
pub fn format_choices(values: &[String], quote: char) -> (res: String)
    ensures
        res@ == choice_list(text::texts(values@), quote),
{
    let mut quoted: Vec<String> = Vec::new();
    let ghost wrap = |v: Seq<char>| seq![quote] + v + seq![quote];
    let mut i: usize = 0;
    while i < values.len()
        invariant
            i <= values@.len(),
            wrap == (|v: Seq<char>| seq![quote] + v + seq![quote]),
            text::texts(quoted@) == text::texts(values@).take(i as int).map_values(wrap),
        decreases values@.len() - i,
    {
        let mut one: String = String::new();
        one.push(quote);
        one.append(values[i].as_str());
        one.push(quote);
        assert(one@ =~= seq![quote] + values@[i as int]@ + seq![quote]);
        proof {
            text::lemma_texts_push(quoted@, one);
        }
        quoted.push(one);
        i += 1;
        assert(text::texts(quoted@) =~= text::texts(values@).take(i as int).map_values(wrap));
    }
    assert(text::texts(values@).take(i as int) =~= text::texts(values@));
    join(&quoted, ", ")
}

/// The effective choices of an attribute, if any.
///
/// Prefers the values of an enum type; falls back to `enum_values` when the
/// type is not an enum.
pub fn effective_choices(attr: &IacAttribute) -> (res: Option<&[String]>)
    ensures
        match res {
            Some(values) => choices_of(*attr) == Some(values@),
            None => choices_of(*attr) is None,
        },
{
    match &attr.iac_type {
        IacType::Enum { values, .. } => Some(values.as_slice()),
        _ => match &attr.enum_values {
            Some(values) => Some(values.as_slice()),
            None => None,
        },
    }
}

/// Formats the choices of an attribute, if any.
fn format_attr_choices(attr: &IacAttribute, quote: char) -> (res: Option<String>)
    ensures
        match res {
            Some(choices) => choices_text(*attr, quote) == Some(choices@),
            None => choices_text(*attr, quote) is None,
        },
{
    match effective_choices(attr) {
        Some(values) => Some(format_choices(values, quote)),
        None => None,
    }
}

/// Whether an attribute is a user-facing input (not purely computed).
pub fn is_input_attr(attr: &IacAttribute) -> (res: bool)
    ensures
        res == ir::is_input(*attr),
{
    !attr.computed || attr.required
}

// ---------------------------------------------------------------------------
// Documentation of the inputs
// ---------------------------------------------------------------------------

/// A description that can stand between double quotes.
pub open spec fn escaped(description: Seq<char>) -> Seq<char> {
    text::replaced(description, '"', '\'')
}

/// The documentation of one input.
pub open spec fn option_block(attr: IacAttribute) -> Seq<char> {
    "    "@ + attr.canonical_name@ + ":\n      description: \""@ + escaped(attr.description@)
        + "\"\n      type: "@ + type_names::ansible_type_of(attr.iac_type) + text::shown_if(
        attr.required,
        "\n      required: true"@,
    ) + text::shown_if(attr.sensitive, "\n      no_log: true"@) + text::prefixed(
        "\n      elements: "@,
        type_names::ansible_elements_of(attr.iac_type),
    ) + text::wrapped("\n      choices: ["@, choices_text(attr, '"'), "]"@)
}

/// Documents an input.
pub open spec fn option_blocks() -> spec_fn(IacAttribute) -> Seq<char> {
    |a: IacAttribute| option_block(a)
}

/// The documentation of all inputs.
pub open spec fn options_yaml(attrs: Seq<IacAttribute>) -> Seq<char> {
    text::joined(ir::attribute_texts(attrs, ir::inputs(), option_blocks()), "\n"@)
}

/// Builds the documentation of one input.
fn build_option_block(attr: &IacAttribute) -> (res: String)
    ensures
        res@ == option_block(*attr),
{
    let description: String = replace_char(attr.description.as_str(), '"', '\'');
    let choices: Option<String> = format_attr_choices(attr, '"');
    let mut out: String = "    ".to_owned();
    out.append(attr.canonical_name.as_str());
    out.append(":\n      description: \"");
    out.append(description.as_str());
    out.append("\"\n      type: ");
    out.append(attr.iac_type.ansible_type());
    append_if(&mut out, attr.required, "\n      required: true");
    append_if(&mut out, attr.sensitive, "\n      no_log: true");
    append_prefixed(&mut out, "\n      elements: ", attr.iac_type.ansible_elements());
    append_wrapped(&mut out, "\n      choices: [", as_text(&choices), "]");
    out
}

/// Borrows an optional string.
fn as_text(text: &Option<String>) -> (res: Option<&str>)
    ensures
        match res {
            Some(t) => *text is Some && text->0@ == t@,
            None => *text is None,
        },
{
    match text {
        Some(t) => Some(t.as_str()),
        None => None,
    }
}

/// Builds a YAML `options:` block from attributes.
pub fn build_options_yaml(attrs: &[IacAttribute]) -> (res: String)
    ensures
        res@ == options_yaml(attrs@),
{
    let mut blocks: Vec<String> = Vec::new();
    let mut i: usize = 0;
    while i < attrs.len()
        invariant
            i <= attrs@.len(),
            text::texts(blocks@) == ir::attribute_texts(
                attrs@.take(i as int),
                ir::inputs(),
                option_blocks(),
            ),
        decreases attrs@.len() - i,
    {
        proof {
            ir::lemma_attribute_texts_step(attrs@, ir::inputs(), option_blocks(), i as int);
        }
        if is_input_attr(&attrs[i]) {
            let block: String = build_option_block(&attrs[i]);
            proof {
                text::lemma_texts_push(blocks@, block);
            }
            blocks.push(block);
        }
        i += 1;
    }
    assert(attrs@.take(i as int) =~= attrs@);
    join(&blocks, "\n")
}

// ---------------------------------------------------------------------------
// Documentation of what is returned
// ---------------------------------------------------------------------------

/// The documentation of one computed attribute.
pub open spec fn return_block(attr: IacAttribute) -> Seq<char> {
    attr.canonical_name@ + ":\n  description: \""@ + escaped(attr.description@) + "\"\n  type: "@
        + type_names::ansible_type_of(attr.iac_type) + "\n  returned: success"@
}

/// Documents a computed attribute.
pub open spec fn return_blocks() -> spec_fn(IacAttribute) -> Seq<char> {
    |a: IacAttribute| return_block(a)
}

/// The documentation of all computed attributes, or a remark that there are
/// none.
pub open spec fn return_yaml(attrs: Seq<IacAttribute>) -> Seq<char> {
    let blocks = ir::attribute_texts(attrs, ir::computed(), return_blocks());
    if blocks.len() == 0 {
        "# No computed fields"@
    } else {
        text::joined(blocks, "\n"@)
    }
}

/// Builds the documentation of one computed attribute.
fn build_return_block(attr: &IacAttribute) -> (res: String)
    ensures
        res@ == return_block(*attr),
{
    let description: String = replace_char(attr.description.as_str(), '"', '\'');
    let mut out: String = attr.canonical_name.clone();
    out.append(":\n  description: \"");
    out.append(description.as_str());
    out.append("\"\n  type: ");
    out.append(attr.iac_type.ansible_type());
    out.append("\n  returned: success");
    out
}

/// Builds a YAML `RETURN` block from computed attributes.
pub fn build_return_yaml(attrs: &[IacAttribute]) -> (res: String)
    ensures
        res@ == return_yaml(attrs@),
{
    let mut blocks: Vec<String> = Vec::new();
    let mut i: usize = 0;
    while i < attrs.len()
        invariant
            i <= attrs@.len(),
            text::texts(blocks@) == ir::attribute_texts(
                attrs@.take(i as int),
                ir::computed(),
                return_blocks(),
            ),
        decreases attrs@.len() - i,
    {
        proof {
            ir::lemma_attribute_texts_step(attrs@, ir::computed(), return_blocks(), i as int);
        }
        if attrs[i].computed {
            let block: String = build_return_block(&attrs[i]);
            proof {
                text::lemma_texts_push(blocks@, block);
            }
            blocks.push(block);
        }
        i += 1;
    }
    assert(attrs@.take(i as int) =~= attrs@);
    if blocks.len() == 0 {
        "# No computed fields".to_owned()
    } else {
        join(&blocks, "\n")
    }
}

// ---------------------------------------------------------------------------
// Argument specification
// ---------------------------------------------------------------------------

/// The `argument_spec` entry of one input.
pub open spec fn argspec_entry(attr: IacAttribute) -> Seq<char> {
    "    '"@ + attr.canonical_name@ + "': {'type': '"@ + type_names::ansible_type_of(attr.iac_type)
        + "'"@ + text::shown_if(attr.required, ", 'required': True"@) + text::shown_if(
        attr.sensitive,
        ", 'no_log': True"@,
    ) + text::wrapped(
        ", 'elements': '"@,
        type_names::ansible_elements_of(attr.iac_type),
        "'"@,
    ) + text::wrapped(", 'choices': ["@, choices_text(attr, '\''), "]"@) + "},"@
}

/// Declares an input.
pub open spec fn argspec_entries() -> spec_fn(IacAttribute) -> Seq<char> {
    |a: IacAttribute| argspec_entry(a)
}

/// The `argument_spec` entries of all inputs.
pub open spec fn argument_spec(attrs: Seq<IacAttribute>) -> Seq<char> {
    text::joined(ir::attribute_texts(attrs, ir::inputs(), argspec_entries()), "\n"@)
}

/// Builds the `argument_spec` entry of one input.
fn build_argspec_entry(attr: &IacAttribute) -> (res: String)
    ensures
        res@ == argspec_entry(*attr),
{
    let choices: Option<String> = format_attr_choices(attr, '\'');
    let mut out: String = "    '".to_owned();
    out.append(attr.canonical_name.as_str());
    out.append("': {'type': '");
    out.append(attr.iac_type.ansible_type());
    out.append("'");
    append_if(&mut out, attr.required, ", 'required': True");
    append_if(&mut out, attr.sensitive, ", 'no_log': True");
    append_wrapped(&mut out, ", 'elements': '", attr.iac_type.ansible_elements(), "'");
    append_wrapped(&mut out, ", 'choices': [", as_text(&choices), "]");
    out.append("},");
    out
}

/// Builds the entries of the Python `argument_spec` dict from attributes, four
/// spaces deep: the dict is declared at module scope.
pub fn build_argument_spec(attrs: &[IacAttribute]) -> (res: String)
    ensures
        res@ == argument_spec(attrs@),
{
    let mut entries: Vec<String> = Vec::new();
    let mut i: usize = 0;
    while i < attrs.len()
        invariant
            i <= attrs@.len(),
            text::texts(entries@) == ir::attribute_texts(
                attrs@.take(i as int),
                ir::inputs(),
                argspec_entries(),
            ),
        decreases attrs@.len() - i,
    {
        proof {
            ir::lemma_attribute_texts_step(attrs@, ir::inputs(), argspec_entries(), i as int);
        }
        if is_input_attr(&attrs[i]) {
            let entry: String = build_argspec_entry(&attrs[i]);
            proof {
                text::lemma_texts_push(entries@, entry);
            }
            entries.push(entry);
        }
        i += 1;
    }
    assert(attrs@.take(i as int) =~= attrs@);
    join(&entries, "\n")
}

/// The `argument_spec` entry of the state parameter of a resource.
pub const STATE_SPEC_ENTRY: &'static str =
    "    'state': {'type': 'str', 'choices': ['present', 'absent'], 'default': 'present'},";

/// The `argument_spec` entries for authentication, which every module has.
pub const AUTH_ARGSPEC_LINES: &'static str =
    "    'gateway_url': {'type': 'str'},
    'access_id': {'type': 'str'},
    'access_key': {'type': 'str', 'no_log': True},
    'access_type': {'type': 'str', 'default': 'access_key'},";

/// The state parameter entry for resource modules (present/absent).
pub fn state_spec_entry() -> (res: &'static str)
    ensures
        res@ == STATE_SPEC_ENTRY@,
{
    STATE_SPEC_ENTRY
}

/// The authentication entries.
pub fn auth_argspec_lines() -> (res: &'static str)
    ensures
        res@ == AUTH_ARGSPEC_LINES@,
{
    AUTH_ARGSPEC_LINES
}

/// The sections of an `argument_spec` that are there: the state parameter, the
/// attribute entries, the authentication entries.
pub open spec fn argspec_sections(state: Option<Seq<char>>, attrs: Seq<char>) -> Seq<Seq<char>> {
    let first = match state {
        Some(entry) => if entry.len() == 0 {
            Seq::empty()
        } else {
            seq![entry]
        },
        None => Seq::empty(),
    };
    let second = if attrs.len() == 0 {
        Seq::empty()
    } else {
        seq![attrs]
    };
    first + second + seq![AUTH_ARGSPEC_LINES@]
}

/// The inside of the `argument_spec` dict.
pub open spec fn argspec_inner(state: Option<Seq<char>>, attrs: Seq<char>) -> Seq<char> {
    text::joined(argspec_sections(state, attrs), "\n"@)
}

/// Composes the inside of the `argument_spec = { ... }` dict by joining the
/// (optional) state entry, the attribute entries and the authentication
/// entries with single newlines, without stray blank lines where a section is
/// empty.
pub fn compose_argspec_inner(state: Option<&str>, attrs: &str) -> (res: String)
    ensures
        res@ == argspec_inner(
            match state {
                Some(entry) => Some(entry@),
                None => None,
            },
            attrs@,
        ),
{
    let mut sections: Vec<String> = Vec::new();
    if let Some(entry) = state {
        if !entry.is_empty() {
            sections.push(entry.to_owned());
        }
    }
    if !attrs.is_empty() {
        sections.push(attrs.to_owned());
    }
    sections.push(auth_argspec_lines().to_owned());
    assert(text::texts(sections@) =~= argspec_sections(
        match state {
            Some(entry) => Some(entry@),
            None => None,
        },
        attrs@,
    ));
    join(&sections, "\n")
}

/// Fragments that every module is put together from.
pub struct ModuleFragments {
    pub options_yaml: String,
    pub return_yaml: String,
    pub argument_spec: String,
}

impl ModuleFragments {
    /// Builds the fragments from attributes.
    pub fn from_attributes(attrs: &[IacAttribute]) -> (res: Self)
        ensures
            res.options_yaml@ == options_yaml(attrs@),
            res.return_yaml@ == return_yaml(attrs@),
            res.argument_spec@ == argument_spec(attrs@),
    {
        ModuleFragments {
            options_yaml: build_options_yaml(attrs),
            return_yaml: build_return_yaml(attrs),
            argument_spec: build_argument_spec(attrs),
        }
    }
}

// ---------------------------------------------------------------------------
// Test parameters
// ---------------------------------------------------------------------------

/// The line that sets one attribute in a test task.
pub open spec fn param_line(attr: IacAttribute) -> Seq<char> {
    "\n        "@ + attr.canonical_name@ + ": "@ + type_names::test_value_of(attr.iac_type)
}

/// Sets an attribute.
pub open spec fn param_lines() -> spec_fn(IacAttribute) -> Seq<char> {
    |a: IacAttribute| param_line(a)
}

/// The lines that set all required attributes in a test task, each on a line
/// of its own after what stands before.
pub open spec fn params_block(attrs: Seq<IacAttribute>) -> Seq<char> {
    text::joined(ir::attribute_texts(attrs, ir::required(), param_lines()), Seq::empty())
}

/// Builds the lines that set all required attributes in a test task.
pub fn build_params_block(attrs: &[IacAttribute]) -> (res: String)
    ensures
        res@ == params_block(attrs@),
{
    let mut lines: Vec<String> = Vec::new();
    let mut i: usize = 0;
    while i < attrs.len()
        invariant
            i <= attrs@.len(),
            text::texts(lines@) == ir::attribute_texts(
                attrs@.take(i as int),
                ir::required(),
                param_lines(),
            ),
        decreases attrs@.len() - i,
    {
        proof {
            ir::lemma_attribute_texts_step(attrs@, ir::required(), param_lines(), i as int);
        }
        if attrs[i].required {
            let value: String = test_value_for_type(&attrs[i].iac_type);
            let mut line: String = "\n        ".to_owned();
            line.append(attrs[i].canonical_name.as_str());
            line.append(": ");
            line.append(value.as_str());
            proof {
                text::lemma_texts_push(lines@, line);
            }
            lines.push(line);
        }
        i += 1;
    }
    assert(attrs@.take(i as int) =~= attrs@);
    let nothing: String = String::new();
    join(&lines, nothing.as_str())
}

} // verus!
