//! The generated texts in terms of what they are generated from: which text
//! every type, attribute, module, playbook and file gives, and how the texts
//! grow with one more attribute.
use vstd::prelude::*;

use crate::config;
use crate::fragments;
use crate::ir;
use crate::ir::{IacAttribute, IacType};
use crate::naming;
use crate::sdk_names;
use crate::text;
use crate::type_names;
use crate::type_names::AnsibleTypeExt;

verus! {

// ---------------------------------------------------------------------------
// Building blocks
// ---------------------------------------------------------------------------

/// A list joined with a separator is nothing for an empty list, its element for
/// a list of one, and otherwise grows by the separator and the new element.
pub proof fn law_joined_lists_grow(parts: Seq<Seq<char>>, more: Seq<char>, sep: Seq<char>)
    ensures
        text::joined(Seq::empty(), sep) == Seq::<char>::empty(),
        parts.len() == 0 ==> text::joined(parts.push(more), sep) == more,
        parts.len() > 0 ==> text::joined(parts.push(more), sep) == text::joined(parts, sep) + sep
            + more,
{
    assert(parts.push(more).drop_last() =~= parts);
}

/// The texts of strings are those of the strings, one by one.
pub proof fn law_texts_are_those_of_the_strings(strings: Seq<String>)
    ensures
        text::texts(strings).len() == strings.len(),
        forall|i: int| 0 <= i < strings.len() ==> #[trigger] text::texts(strings)[i] == strings[i]@,
{
}

/// Replacing a character changes each occurrence of it and nothing else.
pub proof fn law_replacing_changes_each_occurrence(t: Seq<char>, from: char, to: char)
    ensures
        text::replaced(t, from, to).len() == t.len(),
        forall|i: int|
            0 <= i < t.len() ==> #[trigger] text::replaced(t, from, to)[i] == if t[i] == from {
                to
            } else {
                t[i]
            },
{
}

/// An optional text stands between what goes around it, and leaves nothing where
/// it is absent.
pub proof fn law_optional_texts(shown: bool, before: Seq<char>, t: Seq<char>, after: Seq<char>)
    ensures
        text::shown_if(shown, t) == if shown {
            t
        } else {
            Seq::empty()
        },
        text::wrapped(before, Some(t), after) == before + t + after,
        text::wrapped(before, None, after) == Seq::<char>::empty(),
        text::prefixed(before, Some(t)) == before + t,
        text::prefixed(before, None) == Seq::<char>::empty(),
{
}

/// A name loses the provider and the underscore after it where it starts with
/// them, and stays as it is otherwise; hyphens become underscores.
pub proof fn law_names_lose_prefix_and_hyphens(name: Seq<char>, provider: Seq<char>)
    ensures
        provider.push('_').is_prefix_of(name) ==> naming::unprefixed(name, provider) == name.skip(
            provider.len() + 1int,
        ),
        !provider.push('_').is_prefix_of(name) ==> naming::unprefixed(name, provider) == name,
        naming::snake_cased(name).len() == name.len(),
        forall|i: int|
            0 <= i < name.len() ==> #[trigger] naming::snake_cased(name)[i] == if name[i] == '-' {
                '_'
            } else {
                name[i]
            },
{
}

// ---------------------------------------------------------------------------
// Types
// ---------------------------------------------------------------------------

/// Each type has its Ansible type; an enum has that of the type it is over.
pub proof fn law_ansible_type_of_each_type(ty: IacType)
    ensures
        match ty {
            IacType::String => type_names::ansible_type_of(ty) == "str"@,
            IacType::Integer => type_names::ansible_type_of(ty) == "int"@,
            IacType::Float => type_names::ansible_type_of(ty) == "float"@,
            IacType::Numeric => type_names::ansible_type_of(ty) == "float"@,
            IacType::Boolean => type_names::ansible_type_of(ty) == "bool"@,
            IacType::List(_) => type_names::ansible_type_of(ty) == "list"@,
            IacType::SetOf(_) => type_names::ansible_type_of(ty) == "list"@,
            IacType::MapOf(_) => type_names::ansible_type_of(ty) == "dict"@,
            IacType::Object { .. } => type_names::ansible_type_of(ty) == "dict"@,
            IacType::Enum { underlying, .. } => type_names::ansible_type_of(ty)
                == type_names::ansible_type_of(*underlying),
            IacType::Any => type_names::ansible_type_of(ty) == "str"@,
        },
{
}

/// The elements of a list or a set have the Ansible type of the element type,
/// whatever that is; no other type has elements.
pub proof fn law_elements_have_the_inner_type(ty: IacType)
    ensures
        match ty {
            IacType::List(inner) => type_names::ansible_elements_of(ty) == Some(
                type_names::ansible_type_of(*inner),
            ),
            IacType::SetOf(inner) => type_names::ansible_elements_of(ty) == Some(
                type_names::ansible_type_of(*inner),
            ),
            _ => type_names::ansible_elements_of(ty) is None,
        },
{
}

/// What the methods of a type return is its Ansible type and that of its
/// elements.
pub proof fn law_methods_return_the_ansible_types(ty: IacType)
    ensures
        ty.ansible_type_text() == type_names::ansible_type_of(ty),
        ty.ansible_elements_text() == type_names::ansible_elements_of(ty),
{
}

/// The Ansible types of elements, type by type.
pub proof fn law_element_types_by_name(inner: Box<IacType>)
    ensures
        ({
            let of_list = type_names::ansible_elements_of(IacType::List(inner));
            let of_set = type_names::ansible_elements_of(IacType::SetOf(inner));
            &&& of_list == of_set
            &&& match *inner {
                IacType::String => of_list == Some("str"@),
                IacType::Any => of_list == Some("str"@),
                IacType::Integer => of_list == Some("int"@),
                IacType::Float => of_list == Some("float"@),
                IacType::Numeric => of_list == Some("float"@),
                IacType::Boolean => of_list == Some("bool"@),
                IacType::List(_) => of_list == Some("list"@),
                IacType::SetOf(_) => of_list == Some("list"@),
                IacType::MapOf(_) => of_list == Some("dict"@),
                IacType::Object { .. } => of_list == Some("dict"@),
                IacType::Enum { underlying, .. } => of_list
                    == type_names::ansible_elements_of(IacType::List(underlying)),
            }
        }),
{
}

/// Each type has its test value: a number, a truth value, the first value of an
/// enum, and a string for all else.
pub proof fn law_test_value_of_each_type(ty: IacType)
    ensures
        match ty {
            IacType::Integer => type_names::test_value_of(ty) == "1"@,
            IacType::Float => type_names::test_value_of(ty) == "1.0"@,
            IacType::Boolean => type_names::test_value_of(ty) == "true"@,
            IacType::Enum { values, .. } => {
                &&& values@.len() == 0 ==> type_names::test_value_of(ty) == "\"\""@
                &&& values@.len() > 0 ==> type_names::test_value_of(ty) == "\""@ + values@[0]@
                    + "\""@
            },
            _ => type_names::test_value_of(ty) == "\"test_value\""@,
        },
{
}

// ---------------------------------------------------------------------------
// SDK names
// ---------------------------------------------------------------------------

/// A method name grows character by character. A hyphen gives an underscore.
/// Any other character gives its lower case mapping, after an underscore where
/// it is an upper case letter that follows a lower case letter or a digit, or
/// that follows an upper case letter and stands before a lower case one.
pub proof fn law_method_names_grow(name: Seq<char>, mappings: Seq<Seq<char>>, i: int)
    requires
        0 <= i < name.len(),
    ensures
        sdk_names::method_prefix(name, mappings, 0) == Seq::<char>::empty(),
        ({
            let upper = 'A' <= name[i] <= 'Z';
            let after_lower = i > 0 && ('a' <= name[i - 1] <= 'z' || '0' <= name[i - 1] <= '9');
            let ends_run = 0 < i < name.len() - 1 && 'A' <= name[i - 1] <= 'Z' && 'a' <= name[i + 1]
                <= 'z';
            let before = sdk_names::method_prefix(name, mappings, i);
            let after = sdk_names::method_prefix(name, mappings, i + 1);
            &&& sdk_names::word_starts(name, i) <==> upper && (after_lower || ends_run)
            &&& name[i] == '-' ==> after == before.push('_')
            &&& name[i] != '-' && upper && (after_lower || ends_run) ==> after == before.push('_')
                + mappings[i]
            &&& name[i] != '-' && !(upper && (after_lower || ends_run)) ==> after == before
                + mappings[i]
        }),
{
    let before = sdk_names::method_prefix(name, mappings, i);
    let after = sdk_names::method_prefix(name, mappings, i + 1);
    if name[i] == '-' {
        assert(after =~= before.push('_'));
    } else if sdk_names::word_starts(name, i) {
        assert(after =~= before.push('_') + mappings[i]);
    } else {
        assert(after =~= before + mappings[i]);
    }
}

/// A method name covers the whole schema name and uses the lower case mapping of
/// each character, which for ASCII maps `A` to `Z` to `a` to `z`.
pub proof fn law_method_names_cover_the_schema(schema: Seq<char>)
    ensures
        ({
            let n = schema.len() as int;
            let mappings = schema.map_values(|c: char| text::char_lowercase(c));
            let ascii = schema.map_values(
                |c: char|
                    seq![
                        if 'A' <= c <= 'Z' {
                            (c as u32 + 32) as char
                        } else {
                            c
                        },
                    ],
            );
            &&& sdk_names::method_name(schema) == sdk_names::method_prefix(schema, mappings, n)
            &&& sdk_names::ascii_method_name(schema) == sdk_names::method_prefix(schema, ascii, n)
        }),
{
    let mappings = schema.map_values(|c: char| text::char_lowercase(c));
    assert(sdk_names::lowered(schema) =~= mappings);
    let ascii = schema.map_values(
        |c: char|
            seq![
                if 'A' <= c <= 'Z' {
                    (c as u32 + 32) as char
                } else {
                    c
                },
            ],
    );
    assert(sdk_names::ascii_lowered(schema) =~= ascii);
}

/// A model class name is the schema name with the upper case mapping of its
/// first character in the place of that; an empty name stays empty.
pub proof fn law_model_class_names_change_the_head(schema: Seq<char>, head: Seq<char>)
    ensures
        sdk_names::with_head(schema, head) == head + schema.skip(1),
        schema.len() == 0 ==> sdk_names::model_class_name(schema) == Seq::<char>::empty(),
        schema.len() == 0 ==> sdk_names::ascii_model_class_name(schema) == Seq::<char>::empty(),
        schema.len() > 0 ==> sdk_names::model_class_name(schema) == text::char_uppercase(schema[0])
            + schema.skip(1),
        schema.len() > 0 && 'a' <= schema[0] <= 'z' ==> sdk_names::ascii_model_class_name(schema)
            == seq![(schema[0] as u32 - 32) as char] + schema.skip(1),
        schema.len() > 0 && !('a' <= schema[0] <= 'z') ==> sdk_names::ascii_model_class_name(schema)
            == schema,
{
    if schema.len() > 0 && !('a' <= schema[0] <= 'z') {
        assert(sdk_names::ascii_model_class_name(schema) =~= schema);
    }
}

// ---------------------------------------------------------------------------
// Configuration
// ---------------------------------------------------------------------------

/// Looking up a name finds the value that stands under it before all others of
/// that name, and nothing where no entry has the name.
pub proof fn law_lookup_finds_the_first_entry(
    settings: Seq<(String, toml::Value)>,
    key: Seq<char>,
    i: int,
)
    ensures
        (forall|j: int| 0 <= j < settings.len() ==> (#[trigger] settings[j]).0@ != key)
            ==> config::config_entry(settings, key) is None,
        0 <= i < settings.len() && settings[i].0@ == key && (forall|j: int|
            0 <= j < i ==> (#[trigger] settings[j]).0@ != key) ==> config::config_entry(
            settings,
            key,
        ) == Some(settings[i].1),
    decreases settings.len(),
{
    if settings.len() > 0 && settings[0].0@ != key {
        let rest = settings.drop_first();
        law_lookup_finds_the_first_entry(rest, key, i - 1);
        if forall|j: int| 0 <= j < settings.len() ==> (#[trigger] settings[j]).0@ != key {
            assert forall|j: int| 0 <= j < rest.len() implies (#[trigger] rest[j]).0@ != key by {
                assert(rest[j] == settings[j + 1]);
            }
        }
        if 0 < i < settings.len() && settings[i].0@ == key && (forall|j: int|
            0 <= j < i ==> (#[trigger] settings[j]).0@ != key) {
            assert(rest[i - 1] == settings[i]);
            assert forall|j: int| 0 <= j < i - 1 implies (#[trigger] rest[j]).0@ != key by {
                assert(rest[j] == settings[j + 1]);
            }
        }
    }
}

/// A text is read from a table that holds a string under the key, and from
/// nothing else.
pub proof fn law_only_tables_hold_texts(
    entries: Map<Seq<char>, config::TomlModel>,
    key: Seq<char>,
    t: Seq<char>,
)
    ensures
        config::table_text(config::TomlModel::Text(t), key) is None,
        config::table_text(config::TomlModel::Other, key) is None,
        !entries.contains_key(key) ==> config::table_text(
            config::TomlModel::Table(entries),
            key,
        ) is None,
        entries.contains_key(key) ==> match entries[key] {
            config::TomlModel::Text(found) => config::table_text(
                config::TomlModel::Table(entries),
                key,
            ) == Some(found),
            _ => config::table_text(config::TomlModel::Table(entries), key) is None,
        },
{
}

// ---------------------------------------------------------------------------
// Texts of attributes
// ---------------------------------------------------------------------------

/// Users set what is not computed, and what is required.
pub proof fn law_inputs_are_not_computed_or_required(attr: IacAttribute)
    ensures
        ir::is_input(attr) <==> !attr.computed || attr.required,
{
}

/// In a description each double quote becomes a single quote.
pub proof fn law_double_quotes_become_single(description: Seq<char>)
    ensures
        fragments::escaped(description).len() == description.len(),
        forall|i: int|
            0 <= i < description.len() ==> #[trigger] fragments::escaped(description)[i] == if description[i]
                == '"' {
                '\''
            } else {
                description[i]
            },
{
}

/// A list of choices is nothing without values, and grows by a comma, a space
/// and the new value between quotes.
pub proof fn law_choice_lists_grow(values: Seq<Seq<char>>, more: Seq<char>, quote: char)
    ensures
        fragments::choice_list(Seq::empty(), quote) == Seq::<char>::empty(),
        values.len() == 0 ==> fragments::choice_list(values.push(more), quote) == seq![quote] + more
            + seq![quote],
        values.len() > 0 ==> fragments::choice_list(values.push(more), quote)
            == fragments::choice_list(values, quote) + ", "@ + (seq![quote] + more + seq![quote]),
{
    let wrap = |v: Seq<char>| seq![quote] + v + seq![quote];
    assert(Seq::<Seq<char>>::empty().map_values(wrap) =~= Seq::empty());
    assert(values.push(more).map_values(wrap) =~= values.map_values(wrap).push(wrap(more)));
    law_joined_lists_grow(values.map_values(wrap), wrap(more), ", "@);
}

/// The documentation of an input: the canonical name, the description between
/// double quotes, the type, and where they apply that it is required, that it is
/// not logged, the type of the elements and the choices, each on a line.
pub proof fn law_option_text(attr: IacAttribute)
    ensures
        fragments::option_block(attr) == "    "@ + attr.canonical_name@
            + ":\n      description: \""@ + fragments::escaped(attr.description@)
            + "\"\n      type: "@ + type_names::ansible_type_of(attr.iac_type) + (if attr.required {
            "\n      required: true"@
        } else {
            Seq::empty()
        }) + (if attr.sensitive {
            "\n      no_log: true"@
        } else {
            Seq::empty()
        }) + (match attr.iac_type {
            IacType::List(inner) => "\n      elements: "@ + type_names::ansible_type_of(*inner),
            IacType::SetOf(inner) => "\n      elements: "@ + type_names::ansible_type_of(*inner),
            _ => Seq::empty(),
        }) + (match (attr.iac_type, attr.enum_values) {
            (IacType::Enum { values, .. }, _) => "\n      choices: ["@ + fragments::choice_list(
                text::texts(values@),
                '"',
            ) + "]"@,
            (_, Some(values)) => "\n      choices: ["@ + fragments::choice_list(
                text::texts(values@),
                '"',
            ) + "]"@,
            (_, None) => Seq::empty(),
        }),
{
}

/// The `argument_spec` entry of an input: the canonical name with a dict of the
/// type and, where they apply, that it is required, that it is not logged, the
/// type of the elements and the choices, whatever the type is.
pub proof fn law_entry_text(attr: IacAttribute)
    ensures
        fragments::argspec_entry(attr) == "    '"@ + attr.canonical_name@ + "': {'type': '"@
            + type_names::ansible_type_of(attr.iac_type) + "'"@ + (if attr.required {
            ", 'required': True"@
        } else {
            Seq::empty()
        }) + (if attr.sensitive {
            ", 'no_log': True"@
        } else {
            Seq::empty()
        }) + (match attr.iac_type {
            IacType::List(inner) => ", 'elements': '"@ + type_names::ansible_type_of(*inner) + "'"@,
            IacType::SetOf(inner) => ", 'elements': '"@ + type_names::ansible_type_of(*inner)
                + "'"@,
            _ => Seq::empty(),
        }) + (match (attr.iac_type, attr.enum_values) {
            (IacType::Enum { values, .. }, _) => ", 'choices': ["@ + fragments::choice_list(
                text::texts(values@),
                '\'',
            ) + "]"@,
            (_, Some(values)) => ", 'choices': ["@ + fragments::choice_list(
                text::texts(values@),
                '\'',
            ) + "]"@,
            (_, None) => Seq::empty(),
        }) + "},"@,
{
}

/// The documentation of a computed attribute: the canonical name, the
/// description, the type, and that it is returned on success.
pub proof fn law_return_text(attr: IacAttribute)
    ensures
        fragments::return_block(attr) == attr.canonical_name@ + ":\n  description: \""@
            + fragments::escaped(attr.description@) + "\"\n  type: "@ + type_names::ansible_type_of(
            attr.iac_type,
        ) + "\n  returned: success"@,
{
}

/// A test task sets an attribute on a line of its own, eight spaces deep, under
/// the canonical name.
pub proof fn law_param_text(attr: IacAttribute)
    ensures
        fragments::param_line(attr) == "\n        "@ + attr.canonical_name@ + ": "@
            + type_names::test_value_of(attr.iac_type),
{
}

/// Some attribute is of this sort.
pub open spec fn any_attribute(
    attrs: Seq<IacAttribute>,
    sort: spec_fn(IacAttribute) -> bool,
) -> bool {
    exists|i: int| 0 <= i < attrs.len() && sort(#[trigger] attrs[i])
}

proof fn lemma_attribute_texts_push(
    attrs: Seq<IacAttribute>,
    attr: IacAttribute,
    keep: spec_fn(IacAttribute) -> bool,
    text_of: spec_fn(IacAttribute) -> Seq<char>,
)
    ensures
        ir::attribute_texts(Seq::empty(), keep, text_of) == Seq::<Seq<char>>::empty(),
        ir::attribute_texts(attrs.push(attr), keep, text_of) == if keep(attr) {
            ir::attribute_texts(attrs, keep, text_of).push(text_of(attr))
        } else {
            ir::attribute_texts(attrs, keep, text_of)
        },
        ir::attribute_texts(attrs, keep, text_of).len() > 0 <==> any_attribute(attrs, keep),
{
    let none = Seq::<IacAttribute>::empty();
    none.lemma_all_neg_filter_empty(keep);
    assert(ir::attribute_texts(none, keep, text_of) =~= Seq::empty());
    let longer = attrs.push(attr);
    ir::lemma_attribute_texts_step(longer, keep, text_of, attrs.len() as int);
    assert(longer.take(attrs.len() as int) =~= attrs);
    assert(longer.take(attrs.len() + 1int) =~= longer);
    if any_attribute(attrs, keep) {
        let i = choose|i: int| 0 <= i < attrs.len() && keep(#[trigger] attrs[i]);
        let at = ir::lemma_attribute_texts_contain(attrs, keep, text_of, i);
    } else {
        assert forall|i: int| 0 <= i < attrs.len() implies !keep(#[trigger] attrs[i]) by {}
        attrs.lemma_all_neg_filter_empty(keep);
    }
}

proof fn lemma_joined_push(
    attrs: Seq<IacAttribute>,
    attr: IacAttribute,
    keep: spec_fn(IacAttribute) -> bool,
    text_of: spec_fn(IacAttribute) -> Seq<char>,
    sep: Seq<char>,
)
    ensures
        text::joined(ir::attribute_texts(Seq::empty(), keep, text_of), sep) == Seq::<char>::empty(),
        text::joined(ir::attribute_texts(attrs.push(attr), keep, text_of), sep) == if !keep(attr) {
            text::joined(ir::attribute_texts(attrs, keep, text_of), sep)
        } else if any_attribute(attrs, keep) {
            text::joined(ir::attribute_texts(attrs, keep, text_of), sep) + sep + text_of(attr)
        } else {
            text_of(attr)
        },
{
    lemma_attribute_texts_push(attrs, attr, keep, text_of);
    law_joined_lists_grow(ir::attribute_texts(attrs, keep, text_of), text_of(attr), sep);
}

/// The documented options grow by each attribute that is not computed or that is
/// required, after a newline where there is one before.
pub proof fn law_options_grow(attrs: Seq<IacAttribute>, attr: IacAttribute)
    ensures
        fragments::options_yaml(Seq::empty()) == Seq::<char>::empty(),
        attr.computed && !attr.required ==> fragments::options_yaml(attrs.push(attr))
            == fragments::options_yaml(attrs),
        !attr.computed || attr.required ==> fragments::options_yaml(attrs.push(attr)) == if any_attribute(
            attrs,
            |a: IacAttribute| !a.computed || a.required,
        ) {
            fragments::options_yaml(attrs) + "\n"@ + fragments::option_block(attr)
        } else {
            fragments::option_block(attr)
        },
{
    lemma_joined_push(attrs, attr, ir::inputs(), fragments::option_blocks(), "\n"@);
    assert(ir::inputs() =~= (|a: IacAttribute| !a.computed || a.required));
}

/// The arguments grow by each attribute that is not computed or that is
/// required, after a newline where there is one before.
pub proof fn law_arguments_grow(attrs: Seq<IacAttribute>, attr: IacAttribute)
    ensures
        fragments::argument_spec(Seq::empty()) == Seq::<char>::empty(),
        attr.computed && !attr.required ==> fragments::argument_spec(attrs.push(attr))
            == fragments::argument_spec(attrs),
        !attr.computed || attr.required ==> fragments::argument_spec(attrs.push(attr)) == if any_attribute(
            attrs,
            |a: IacAttribute| !a.computed || a.required,
        ) {
            fragments::argument_spec(attrs) + "\n"@ + fragments::argspec_entry(attr)
        } else {
            fragments::argspec_entry(attr)
        },
{
    lemma_joined_push(attrs, attr, ir::inputs(), fragments::argspec_entries(), "\n"@);
    assert(ir::inputs() =~= (|a: IacAttribute| !a.computed || a.required));
}

/// The returned values grow by each computed attribute, after a newline where
/// there is one before; without computed attributes a remark says so.
pub proof fn law_returned_values_grow(attrs: Seq<IacAttribute>, attr: IacAttribute)
    ensures
        !any_attribute(attrs, |a: IacAttribute| a.computed) ==> fragments::return_yaml(attrs)
            == "# No computed fields"@,
        !attr.computed ==> fragments::return_yaml(attrs.push(attr)) == fragments::return_yaml(
            attrs,
        ),
        attr.computed ==> fragments::return_yaml(attrs.push(attr)) == if any_attribute(
            attrs,
            |a: IacAttribute| a.computed,
        ) {
            fragments::return_yaml(attrs) + "\n"@ + fragments::return_block(attr)
        } else {
            fragments::return_block(attr)
        },
{
    lemma_attribute_texts_push(attrs, attr, ir::computed(), fragments::return_blocks());
    lemma_joined_push(attrs, attr, ir::computed(), fragments::return_blocks(), "\n"@);
    assert(ir::computed() =~= (|a: IacAttribute| a.computed));
}

/// The parameters of a test task grow by each required attribute.
pub proof fn law_params_grow(attrs: Seq<IacAttribute>, attr: IacAttribute)
    ensures
        fragments::params_block(Seq::empty()) == Seq::<char>::empty(),
        !attr.required ==> fragments::params_block(attrs.push(attr)) == fragments::params_block(
            attrs,
        ),
        attr.required ==> fragments::params_block(attrs.push(attr)) == fragments::params_block(
            attrs,
        ) + fragments::param_line(attr),
{
    let nothing = Seq::<char>::empty();
    lemma_joined_push(attrs, attr, ir::required(), fragments::param_lines(), nothing);
    lemma_attribute_texts_push(attrs, attr, ir::required(), fragments::param_lines());
    let before = fragments::params_block(attrs);
    assert(before + nothing + fragments::param_line(attr) =~= before + fragments::param_line(attr));
    if !any_attribute(attrs, ir::required()) {
        assert(before =~= nothing);
        assert(before + fragments::param_line(attr) =~= fragments::param_line(attr));
    }
}

/// The immutable names grow by the canonical name of each immutable attribute.
pub proof fn law_immutable_names_grow(attrs: Seq<IacAttribute>, attr: IacAttribute)
    ensures
        ir::immutable_names(Seq::empty()) == Seq::<Seq<char>>::empty(),
        ir::immutable_names(attrs.push(attr)) == if attr.immutable {
            ir::immutable_names(attrs).push(attr.canonical_name@)
        } else {
            ir::immutable_names(attrs)
        },
{
    lemma_attribute_texts_push(attrs, attr, ir::immutable(), ir::canonical_name());
}

/// The inside of the `argument_spec`: the state entry and the arguments, each
/// followed by a newline where they are there, and the authentication arguments.
pub proof fn law_argspec_text(state: Seq<char>, arguments: Seq<char>)
    requires
        state.len() > 0,
        arguments.len() > 0,
    ensures
        ({
            let auth =
                "    'gateway_url': {'type': 'str'},
    'access_id': {'type': 'str'},
    'access_key': {'type': 'str', 'no_log': True},
    'access_type': {'type': 'str', 'default': 'access_key'},"@;
            let nothing = Seq::<char>::empty();
            &&& fragments::argspec_inner(None, nothing) == auth
            &&& fragments::argspec_inner(Some(nothing), nothing) == auth
            &&& fragments::argspec_inner(None, arguments) == arguments + "\n"@ + auth
            &&& fragments::argspec_inner(Some(nothing), arguments) == arguments + "\n"@ + auth
            &&& fragments::argspec_inner(Some(state), nothing) == state + "\n"@ + auth
            &&& fragments::argspec_inner(Some(state), arguments) == state + "\n"@ + arguments
                + "\n"@ + auth
        }),
{
    let auth = fragments::AUTH_ARGSPEC_LINES@;
    let nothing = Seq::<char>::empty();
    let none = Seq::<Seq<char>>::empty();
    assert(fragments::argspec_sections(None, nothing) =~= none.push(auth));
    assert(fragments::argspec_sections(Some(nothing), nothing) =~= none.push(auth));
    assert(fragments::argspec_sections(None, arguments) =~= none.push(arguments).push(auth));
    assert(fragments::argspec_sections(Some(nothing), arguments) =~= none.push(arguments).push(
        auth,
    ));
    assert(fragments::argspec_sections(Some(state), nothing) =~= none.push(state).push(auth));
    assert(fragments::argspec_sections(Some(state), arguments) =~= none.push(state).push(
        arguments,
    ).push(auth));
    law_joined_lists_grow(none, auth, "\n"@);
    law_joined_lists_grow(none, arguments, "\n"@);
    law_joined_lists_grow(none, state, "\n"@);
    law_joined_lists_grow(none.push(arguments), auth, "\n"@);
    law_joined_lists_grow(none.push(state), auth, "\n"@);
    law_joined_lists_grow(none.push(state), arguments, "\n"@);
    law_joined_lists_grow(none.push(state).push(arguments), auth, "\n"@);
}

// ---------------------------------------------------------------------------
// What does not show
// ---------------------------------------------------------------------------

/// The attributes agree in everything that is generated from. They may differ in
/// the API name, the default value, the read path, and in being optional,
/// encoded as JSON or for updates only.
pub open spec fn look_alike(a: IacAttribute, b: IacAttribute) -> bool {
    &&& a.canonical_name@ == b.canonical_name@
    &&& a.description@ == b.description@
    &&& a.iac_type == b.iac_type
    &&& a.required == b.required
    &&& a.computed == b.computed
    &&& a.sensitive == b.sensitive
    &&& a.immutable == b.immutable
    &&& a.enum_values == b.enum_values
}

/// The attributes of two lists agree one by one.
pub open spec fn all_look_alike(a: Seq<IacAttribute>, b: Seq<IacAttribute>) -> bool {
    &&& a.len() == b.len()
    &&& forall|i: int| 0 <= i < a.len() ==> look_alike(#[trigger] a[i], b[i])
}

proof fn lemma_same_texts(
    a: Seq<IacAttribute>,
    b: Seq<IacAttribute>,
    keep: spec_fn(IacAttribute) -> bool,
    text_of: spec_fn(IacAttribute) -> Seq<char>,
)
    requires
        a.len() == b.len(),
        forall|i: int|
            0 <= i < a.len() ==> keep(#[trigger] a[i]) == keep(b[i]) && text_of(a[i]) == text_of(
                b[i],
            ),
    ensures
        ir::attribute_texts(a, keep, text_of) == ir::attribute_texts(b, keep, text_of),
    decreases a.len(),
{
    if a.len() == 0 {
        assert(a =~= b);
    } else {
        let shorter_a = a.drop_last();
        let shorter_b = b.drop_last();
        assert forall|i: int| 0 <= i < shorter_a.len() implies keep(#[trigger] shorter_a[i]) == keep(
            shorter_b[i],
        ) && text_of(shorter_a[i]) == text_of(shorter_b[i]) by {
            assert(shorter_a[i] == a[i]);
        }
        lemma_same_texts(shorter_a, shorter_b, keep, text_of);
        assert(keep(a[a.len() - 1]) == keep(b[a.len() - 1]));
        lemma_attribute_texts_push(shorter_a, a.last(), keep, text_of);
        lemma_attribute_texts_push(shorter_b, b.last(), keep, text_of);
        assert(shorter_a.push(a.last()) =~= a);
        assert(shorter_b.push(b.last()) =~= b);
    }
}

/// Nothing that is generated from attributes shows what they are called in the
/// API, nor their default values, read paths and encodings.
pub proof fn law_api_names_do_not_show(a: Seq<IacAttribute>, b: Seq<IacAttribute>)
    requires
        all_look_alike(a, b),
    ensures
        fragments::options_yaml(a) == fragments::options_yaml(b),
        fragments::argument_spec(a) == fragments::argument_spec(b),
        fragments::return_yaml(a) == fragments::return_yaml(b),
        fragments::params_block(a) == fragments::params_block(b),
        ir::immutable_names(a) == ir::immutable_names(b),
{
    assert forall|i: int| 0 <= i < a.len() implies {
        let x = #[trigger] a[i];
        let y = b[i];
        &&& fragments::option_block(x) == fragments::option_block(y)
        &&& fragments::argspec_entry(x) == fragments::argspec_entry(y)
        &&& fragments::return_block(x) == fragments::return_block(y)
        &&& fragments::param_line(x) == fragments::param_line(y)
        &&& ir::is_input(x) == ir::is_input(y)
    } by {
        assert(look_alike(a[i], b[i]));
    }
    lemma_same_texts(a, b, ir::inputs(), fragments::option_blocks());
    lemma_same_texts(a, b, ir::inputs(), fragments::argspec_entries());
    lemma_same_texts(a, b, ir::computed(), fragments::return_blocks());
    lemma_same_texts(a, b, ir::required(), fragments::param_lines());
    lemma_same_texts(a, b, ir::immutable(), ir::canonical_name());
}

} // verus!
