//! What holds of all generated modules and playbooks.
use vstd::prelude::*;

use crate::fragments;
use crate::ir;
use crate::ir::{IacAction, IacAttribute, IacDataSource, IacResource, IacType};
use crate::module_gen;
use crate::naming;
use crate::sdk_names;
use crate::text;
use crate::type_names;

verus! {

broadcast use {text::lemma_contains_concat, text::lemma_contains_self};

// ---------------------------------------------------------------------------
// Attributes in modules
// ---------------------------------------------------------------------------

proof fn lemma_argspec_inner_holds_attrs(state: Option<Seq<char>>, attrs: Seq<char>)
    requires
        attrs.len() > 0,
    ensures
        text::contains(fragments::argspec_inner(state, attrs), attrs),
{
    let sections = fragments::argspec_sections(state, attrs);
    let at: int = if state is Some && state->0.len() > 0 {
        1
    } else {
        0
    };
    assert(sections[at] == attrs);
    text::lemma_joined_contains(sections, "\n"@, at);
}

proof fn lemma_entry_in_argspec(
    state: Option<Seq<char>>,
    attrs: Seq<IacAttribute>,
    i: int,
)
    requires
        0 <= i < attrs.len(),
        ir::is_input(attrs[i]),
    ensures
        text::contains(
            fragments::argspec_inner(state, fragments::argument_spec(attrs)),
            fragments::argspec_entry(attrs[i]),
        ),
{
    let entries = ir::attribute_texts(attrs, ir::inputs(), fragments::argspec_entries());
    let at = ir::lemma_attribute_texts_contain(
        attrs,
        ir::inputs(),
        fragments::argspec_entries(),
        i,
    );
    text::lemma_joined_contains(entries, "\n"@, at);
    let spec = fragments::argument_spec(attrs);
    let entry = fragments::argspec_entry(attrs[i]);
    reveal_strlit("},");
    assert(entry.len() > 0);
    assert(spec.len() > 0) by {
        let pos = choose|pos: int| text::occurs_at(spec, entry, pos);
    }
    lemma_argspec_inner_holds_attrs(state, spec);
    text::lemma_contains_transitive(fragments::argspec_inner(state, spec), spec, entry);
}

proof fn lemma_block_in_options(attrs: Seq<IacAttribute>, i: int)
    requires
        0 <= i < attrs.len(),
        ir::is_input(attrs[i]),
    ensures
        text::contains(fragments::options_yaml(attrs), fragments::option_block(attrs[i])),
{
    let at = ir::lemma_attribute_texts_contain(attrs, ir::inputs(), fragments::option_blocks(), i);
    text::lemma_joined_contains(
        ir::attribute_texts(attrs, ir::inputs(), fragments::option_blocks()),
        "\n"@,
        at,
    );
}

/// Every input of a resource stands in its module: declared in the
/// `argument_spec` and documented among the options.
pub proof fn law_resource_inputs_are_declared_and_documented(
    m: module_gen::ModuleModel,
    attrs: Seq<IacAttribute>,
    l: module_gen::LifecycleModel,
    i: int,
)
    requires
        0 <= i < attrs.len(),
        ir::is_input(attrs[i]),
    ensures
        text::contains(
            module_gen::resource_python(m, attrs, l),
            fragments::argspec_entry(attrs[i]),
        ),
        text::contains(
            module_gen::resource_python(m, attrs, l),
            fragments::option_block(attrs[i]),
        ),
{
    lemma_entry_in_argspec(Some(fragments::STATE_SPEC_ENTRY@), attrs, i);
    lemma_block_in_options(attrs, i);
}

/// Every input of an action stands in its module: declared in the
/// `argument_spec` and documented among the options.
pub proof fn law_action_inputs_are_declared_and_documented(
    m: module_gen::ModuleModel,
    attrs: Seq<IacAttribute>,
    pair: Seq<char>,
    i: int,
)
    requires
        0 <= i < attrs.len(),
        ir::is_input(attrs[i]),
    ensures
        text::contains(
            module_gen::action_python(m, attrs, pair),
            fragments::argspec_entry(attrs[i]),
        ),
        text::contains(
            module_gen::action_python(m, attrs, pair),
            fragments::option_block(attrs[i]),
        ),
{
    lemma_entry_in_argspec(None, attrs, i);
    lemma_block_in_options(attrs, i);
}

/// Every input of a data source stands in its module: declared in the
/// `argument_spec` and documented among the options.
pub proof fn law_data_source_inputs_are_declared_and_documented(
    m: module_gen::ModuleModel,
    attrs: Seq<IacAttribute>,
    pair: Seq<char>,
    i: int,
)
    requires
        0 <= i < attrs.len(),
        ir::is_input(attrs[i]),
    ensures
        text::contains(
            module_gen::data_source_python(m, attrs, pair),
            fragments::argspec_entry(attrs[i]),
        ),
        text::contains(
            module_gen::data_source_python(m, attrs, pair),
            fragments::option_block(attrs[i]),
        ),
{
    lemma_entry_in_argspec(None, attrs, i);
    lemma_block_in_options(attrs, i);
}

proof fn lemma_block_in_return(attrs: Seq<IacAttribute>, i: int)
    requires
        0 <= i < attrs.len(),
        attrs[i].computed,
    ensures
        text::contains(fragments::return_yaml(attrs), fragments::return_block(attrs[i])),
{
    let at = ir::lemma_attribute_texts_contain(
        attrs,
        ir::computed(),
        fragments::return_blocks(),
        i,
    );
    text::lemma_joined_contains(
        ir::attribute_texts(attrs, ir::computed(), fragments::return_blocks()),
        "\n"@,
        at,
    );
}

/// Every computed attribute of a resource or a data source is documented among
/// the returned values of its module.
pub proof fn law_computed_attributes_are_returned(
    m: module_gen::ModuleModel,
    attrs: Seq<IacAttribute>,
    l: module_gen::LifecycleModel,
    pair: Seq<char>,
    i: int,
)
    requires
        0 <= i < attrs.len(),
        attrs[i].computed,
    ensures
        text::contains(
            module_gen::resource_python(m, attrs, l),
            fragments::return_block(attrs[i]),
        ),
        text::contains(
            module_gen::data_source_python(m, attrs, pair),
            fragments::return_block(attrs[i]),
        ),
{
    lemma_block_in_return(attrs, i);
}

/// No attribute of a resource or a data source gets lost: each one is declared
/// as an argument or documented as a returned value.
pub proof fn law_every_attribute_surfaces(
    m: module_gen::ModuleModel,
    attrs: Seq<IacAttribute>,
    l: module_gen::LifecycleModel,
    pair: Seq<char>,
    i: int,
)
    requires
        0 <= i < attrs.len(),
    ensures
        ({
            let module = module_gen::resource_python(m, attrs, l);
            ||| text::contains(module, fragments::argspec_entry(attrs[i]))
            ||| text::contains(module, fragments::return_block(attrs[i]))
        }),
        ({
            let module = module_gen::data_source_python(m, attrs, pair);
            ||| text::contains(module, fragments::argspec_entry(attrs[i]))
            ||| text::contains(module, fragments::return_block(attrs[i]))
        }),
{
    if ir::is_input(attrs[i]) {
        law_resource_inputs_are_declared_and_documented(m, attrs, l, i);
        law_data_source_inputs_are_declared_and_documented(m, attrs, pair, i);
    } else {
        law_computed_attributes_are_returned(m, attrs, l, pair, i);
    }
}

proof fn lemma_filter_skips(
    attrs: Seq<IacAttribute>,
    keep: spec_fn(IacAttribute) -> bool,
    i: int,
)
    requires
        0 <= i < attrs.len(),
        !keep(attrs[i]),
    ensures
        attrs.remove(i).filter(keep) == attrs.filter(keep),
{
    let left = attrs.take(i);
    let right = attrs.skip(i + 1);
    let one = seq![attrs[i]];
    assert(attrs =~= left + one + right);
    assert(attrs.remove(i) =~= left + right);
    Seq::filter_distributes_over_add(left + one, right, keep);
    Seq::filter_distributes_over_add(left, one, keep);
    Seq::filter_distributes_over_add(left, right, keep);
    one.lemma_all_neg_filter_empty(keep);
    assert(left.filter(keep) + one.filter(keep) =~= left.filter(keep));
}

/// An attribute that users cannot set adds nothing to the arguments and to the
/// documented options.
pub proof fn law_computed_only_attributes_are_no_inputs(attrs: Seq<IacAttribute>, i: int)
    requires
        0 <= i < attrs.len(),
        attrs[i].computed,
        !attrs[i].required,
    ensures
        fragments::argument_spec(attrs.remove(i)) == fragments::argument_spec(attrs),
        fragments::options_yaml(attrs.remove(i)) == fragments::options_yaml(attrs),
{
    lemma_filter_skips(attrs, ir::inputs(), i);
}

/// An attribute that is not computed adds nothing to the returned values, and
/// one that is not required nothing to the parameters of test tasks.
pub proof fn law_other_attributes_are_not_mentioned(attrs: Seq<IacAttribute>, i: int)
    requires
        0 <= i < attrs.len(),
    ensures
        !attrs[i].computed ==> fragments::return_yaml(attrs.remove(i)) == fragments::return_yaml(
            attrs,
        ),
        !attrs[i].required ==> fragments::params_block(attrs.remove(i))
            == fragments::params_block(attrs),
{
    if !attrs[i].computed {
        lemma_filter_skips(attrs, ir::computed(), i);
    }
    if !attrs[i].required {
        lemma_filter_skips(attrs, ir::required(), i);
    }
}

/// A sensitive input is kept out of logs: both its declaration and its
/// documentation say so.
pub proof fn law_sensitive_inputs_are_not_logged(attr: IacAttribute)
    requires
        attr.sensitive,
    ensures
        text::contains(fragments::argspec_entry(attr), ", 'no_log': True"@),
        text::contains(fragments::option_block(attr), "\n      no_log: true"@),
{
}

/// A required input is declared and documented as such.
pub proof fn law_required_inputs_are_marked(attr: IacAttribute)
    requires
        attr.required,
    ensures
        ir::is_input(attr),
        text::contains(fragments::argspec_entry(attr), ", 'required': True"@),
        text::contains(fragments::option_block(attr), "\n      required: true"@),
{
}

/// The values of an enum type are the choices, whatever the attribute lists
/// besides; an attribute of any other type has the choices that it lists.
pub proof fn law_enum_type_decides_the_choices(attr: IacAttribute, listed: Option<Vec<String>>)
    ensures
        match attr.iac_type {
            IacType::Enum { values, .. } => {
                &&& fragments::choices_of(attr) == Some(values@)
                &&& fragments::option_block(IacAttribute { enum_values: listed, ..attr })
                    == fragments::option_block(attr)
                &&& fragments::argspec_entry(IacAttribute { enum_values: listed, ..attr })
                    == fragments::argspec_entry(attr)
            },
            _ => match attr.enum_values {
                Some(values) => fragments::choices_of(attr) == Some(values@),
                None => fragments::choices_of(attr) is None,
            },
        },
{
}

/// A description never ends the quotes it stands between, and is otherwise kept
/// as it is.
pub proof fn law_descriptions_hold_no_double_quote(description: Seq<char>)
    ensures
        !fragments::escaped(description).contains('"'),
        fragments::escaped(description).len() == description.len(),
        forall|i: int|
            0 <= i < description.len() && description[i] != '"' ==> #[trigger] fragments::escaped(
                description,
            )[i] == description[i],
        !description.contains('"') ==> fragments::escaped(description) == description,
{
    if !description.contains('"') {
        assert(fragments::escaped(description) =~= description);
    }
}

// ---------------------------------------------------------------------------
// Blank lines
// ---------------------------------------------------------------------------

/// The text has lines, and none of them is empty.
pub open spec fn no_blank_line(text: Seq<char>) -> bool {
    &&& text.len() > 0
    &&& text[0] != '\n'
    &&& text.last() != '\n'
    &&& forall|i: int| 0 <= i < text.len() - 1 && text[i] == '\n' ==> #[trigger] text[i + 1] != '\n'
}

proof fn lemma_joined_no_blank_line(parts: Seq<Seq<char>>)
    requires
        parts.len() > 0,
        forall|i: int| 0 <= i < parts.len() ==> no_blank_line(#[trigger] parts[i]),
    ensures
        no_blank_line(text::joined(parts, "\n"@)),
    decreases parts.len(),
{
    reveal_strlit("\n");
    assert(no_blank_line(parts[parts.len() - 1]));
    if parts.len() > 1 {
        let init = parts.drop_last();
        assert forall|i: int| 0 <= i < init.len() implies no_blank_line(#[trigger] init[i]) by {
            assert(no_blank_line(parts[i]));
        }
        lemma_joined_no_blank_line(init);
        let left = text::joined(init, "\n"@);
        let right = parts.last();
        let all = left + "\n"@ + right;
        assert("\n"@.len() == 1 && "\n"@[0] == '\n');
        assert forall|i: int| 0 <= i < all.len() - 1 && all[i] == '\n' implies #[trigger] all[i + 1]
            != '\n' by {
            if i < left.len() - 1 {
                assert(left[i] == all[i] && left[i + 1] == all[i + 1]);
            } else if i == left.len() - 1 {
                assert(all[i] == left.last());
            } else if i == left.len() {
                assert(all[i + 1] == right[0]);
            } else {
                let j = i - left.len() - 1;
                assert(right[j] == all[i] && right[j + 1] == all[i + 1]);
            }
        }
        assert(all[0] == left[0]);
        assert(all.last() == right.last());
    }
}

proof fn lemma_auth_lines_no_blank_line()
    ensures
        no_blank_line(fragments::AUTH_ARGSPEC_LINES@),
{
    reveal_strlit(
        "    'gateway_url': {'type': 'str'},
    'access_id': {'type': 'str'},
    'access_key': {'type': 'str', 'no_log': True},
    'access_type': {'type': 'str', 'default': 'access_key'},",
    );
}

/// An empty section leaves no stray blank line in the `argument_spec`: where
/// the sections that are there have none, the whole has none.
pub proof fn law_empty_sections_leave_no_blank_line(state: Option<Seq<char>>, attrs: Seq<char>)
    requires
        state is Some && state->0.len() > 0 ==> no_blank_line(state->0),
        attrs.len() > 0 ==> no_blank_line(attrs),
    ensures
        no_blank_line(fragments::argspec_inner(state, attrs)),
{
    lemma_auth_lines_no_blank_line();
    lemma_joined_no_blank_line(fragments::argspec_sections(state, attrs));
}

/// Where each argument is declared on a line of its own, the `argument_spec` of
/// a resource, a data source or an action has no blank line.
pub proof fn law_argument_spec_has_no_blank_line(attrs: Seq<IacAttribute>)
    requires
        forall|i: int|
            0 <= i < attrs.len() ==> !(#[trigger] fragments::argspec_entry(attrs[i])).contains(
                '\n',
            ),
    ensures
        no_blank_line(
            fragments::argspec_inner(
                Some(fragments::STATE_SPEC_ENTRY@),
                fragments::argument_spec(attrs),
            ),
        ),
        no_blank_line(fragments::argspec_inner(None, fragments::argument_spec(attrs))),
{
    let entries = ir::attribute_texts(attrs, ir::inputs(), fragments::argspec_entries());
    let kept = attrs.filter(ir::inputs());
    assert forall|i: int| 0 <= i < entries.len() implies no_blank_line(#[trigger] entries[i]) by {
        assert(kept.contains(kept[i]));
        attrs.lemma_filter_contains_rev(ir::inputs(), kept[i]);
        let j = choose|j: int| 0 <= j < attrs.len() && attrs[j] == kept[i];
        let entry = fragments::argspec_entry(attrs[j]);
        assert(entries[i] == entry);
        reveal_strlit("},");
        assert(entry.len() > 0);
        assert forall|k: int| 0 <= k < entry.len() implies entry[k] != '\n' by {
            assert(entry.contains(entry[k]));
        }
    }
    if entries.len() > 0 {
        lemma_joined_no_blank_line(entries);
    }
    reveal_strlit(
        "    'state': {'type': 'str', 'choices': ['present', 'absent'], 'default': 'present'},",
    );
    law_empty_sections_leave_no_blank_line(
        Some(fragments::STATE_SPEC_ENTRY@),
        fragments::argument_spec(attrs),
    );
    law_empty_sections_leave_no_blank_line(None, fragments::argument_spec(attrs));
}

// ---------------------------------------------------------------------------
// Layout
// ---------------------------------------------------------------------------

/// The parts that a module consists of, in this order.
pub ghost struct ModuleParts {
    pub documentation: Seq<char>,
    pub examples: Seq<char>,
    pub returned: Seq<char>,
    pub imports: Seq<char>,
    pub arguments: Seq<char>,
    pub entry: Seq<char>,
}

/// `module` is these parts, one after the other.
pub open spec fn consists_of(module: Seq<char>, parts: ModuleParts) -> bool {
    module == parts.documentation + parts.examples + parts.returned + parts.imports
        + parts.arguments + parts.entry
}

/// Each part is what its name says: the documentation follows the file header
/// and names the module, `helper` is imported from the module utilities of the
/// collection, the arguments hold those for authentication, and the entry point
/// calls `helper`.
pub open spec fn has_standard_parts(
    parts: ModuleParts,
    m: module_gen::ModuleModel,
    helper: Seq<char>,
) -> bool {
    &&& text::occurs_at(parts.documentation, module_gen::PYTHON_HEADER@, 0)
    &&& text::contains(
        parts.documentation,
        "DOCUMENTATION = r'''\n---\nmodule: "@ + m.module + "\nshort_description: "@
            + m.description,
    )
    &&& text::occurs_at(parts.examples, "EXAMPLES = r'''"@, 0)
    &&& text::occurs_at(parts.returned, "RETURN = r'''"@, 0)
    &&& parts.imports == module_gen::import_section(m, helper)
    &&& text::occurs_at(parts.arguments, "argument_spec = {\n"@, 0)
    &&& text::contains(parts.arguments, fragments::AUTH_ARGSPEC_LINES@)
    &&& text::occurs_at(parts.entry, "def main():\n    "@ + helper + "("@, 0)
}

/// The module imports `helper` from the module utilities of the collection and
/// hands over to it, after the documentation, the examples, the returned values
/// and the declaration of the arguments.
pub open spec fn has_module_layout(
    module: Seq<char>,
    m: module_gen::ModuleModel,
    helper: Seq<char>,
) -> bool {
    exists|parts: ModuleParts|
        #[trigger] consists_of(module, parts) && has_standard_parts(parts, m, helper)
}

proof fn lemma_starts_with(text: Seq<char>, start: Seq<char>, rest: Seq<char>)
    requires
        text == start + rest,
    ensures
        text::occurs_at(text, start, 0),
{
    assert(text.subrange(0, start.len() as int) =~= start);
}

proof fn lemma_documentation_part(m: module_gen::ModuleModel, rest: Seq<char>)
    ensures
        text::occurs_at(module_gen::module_head(m) + rest, module_gen::PYTHON_HEADER@, 0),
        text::contains(
            module_gen::module_head(m) + rest,
            "DOCUMENTATION = r'''\n---\nmodule: "@ + m.module + "\nshort_description: "@
                + m.description,
        ),
{
    let header = module_gen::PYTHON_HEADER@;
    let head = module_gen::module_head(m);
    let needle = "DOCUMENTATION = r'''\n---\nmodule: "@ + m.module + "\nshort_description: "@
        + m.description;
    let before = header + "\n\nDOCUMENTATION = r'''\n---\nmodule: "@ + m.module
        + "\nshort_description: "@ + m.description;
    reveal_strlit("\n\nDOCUMENTATION = r'''\n---\nmodule: ");
    reveal_strlit("DOCUMENTATION = r'''\n---\nmodule: ");
    assert(before =~= (header + seq!['\n', '\n']) + needle);
    assert(text::contains(before, needle));
    assert(head =~= before + head.skip(before.len() as int));
    assert(text::contains(head, needle));
    assert((head + rest).subrange(0, header.len() as int) =~= header);
}

proof fn lemma_returned_part(values: Seq<char>)
    ensures
        text::occurs_at(module_gen::return_section(values), "RETURN = r'''"@, 0),
{
    reveal_strlit("RETURN = r'''\n");
    reveal_strlit("RETURN = r'''");
    let section = module_gen::return_section(values);
    assert(section.subrange(0, "RETURN = r'''"@.len() as int) =~= "RETURN = r'''"@);
}

proof fn lemma_arguments_part(state: Option<Seq<char>>, attrs: Seq<char>)
    ensures
        ({
            let section = module_gen::argspec_section(fragments::argspec_inner(state, attrs));
            &&& text::occurs_at(section, "argument_spec = {\n"@, 0)
            &&& text::contains(section, fragments::AUTH_ARGSPEC_LINES@)
            &&& state is Some && state->0.len() > 0 ==> text::contains(section, state->0)
        }),
{
    let inner = fragments::argspec_inner(state, attrs);
    let section = module_gen::argspec_section(inner);
    assert(section =~= "argument_spec = {\n"@ + (inner + "\n}\n\n\n"@));
    lemma_starts_with(section, "argument_spec = {\n"@, inner + "\n}\n\n\n"@);
    let sections = fragments::argspec_sections(state, attrs);
    let last = sections.len() - 1;
    assert(sections[last] == fragments::AUTH_ARGSPEC_LINES@);
    text::lemma_joined_contains(sections, "\n"@, last);
    if state is Some && state->0.len() > 0 {
        assert(sections[0] == state->0);
        text::lemma_joined_contains(sections, "\n"@, 0);
    }
}

proof fn lemma_entry_part(helper: Seq<char>, kwargs: Seq<char>)
    ensures
        text::occurs_at(
            module_gen::main_section(helper, kwargs),
            "def main():\n    "@ + helper + "("@,
            0,
        ),
{
    let section = module_gen::main_section(helper, kwargs);
    let needle = "def main():\n    "@ + helper + "("@;
    reveal_strlit("(\n        argument_spec=argument_spec,\n");
    reveal_strlit("(");
    assert(section.subrange(0, needle.len() as int) =~= needle);
}

/// A resource module has the standard layout, runs `run_standard_crud`, and has
/// the state parameter.
pub proof fn law_resource_module_layout(
    m: module_gen::ModuleModel,
    attrs: Seq<IacAttribute>,
    l: module_gen::LifecycleModel,
)
    ensures
        has_module_layout(module_gen::resource_python(m, attrs, l), m, "run_standard_crud"@),
        text::contains(
            module_gen::resource_python(m, attrs, l),
            fragments::STATE_SPEC_ENTRY@,
        ),
{
    let state = Some(fragments::STATE_SPEC_ENTRY@);
    let rest = module_gen::resource_options_head(m.module) + module_gen::options_tail(
        fragments::options_yaml(attrs),
    );
    let parts = ModuleParts {
        documentation: module_gen::module_head(m) + rest,
        examples: module_gen::resource_examples(m.module),
        returned: module_gen::return_section(fragments::return_yaml(attrs)),
        imports: module_gen::import_section(m, "run_standard_crud"@),
        arguments: module_gen::argspec_section(
            fragments::argspec_inner(state, fragments::argument_spec(attrs)),
        ),
        entry: module_gen::main_section("run_standard_crud"@, module_gen::lifecycle_kwargs(l)),
    };
    assert(parts.documentation =~= module_gen::module_head(m) + module_gen::resource_options_head(
        m.module,
    ) + module_gen::options_tail(fragments::options_yaml(attrs)));
    lemma_documentation_part(m, rest);
    assert(text::occurs_at(parts.examples, "EXAMPLES = r'''"@, 0)) by {
        reveal_strlit("EXAMPLES = r'''\n- name: Create ");
        reveal_strlit("EXAMPLES = r'''");
        assert(parts.examples.subrange(0, "EXAMPLES = r'''"@.len() as int) =~= "EXAMPLES = r'''"@);
    }
    lemma_returned_part(fragments::return_yaml(attrs));
    assert(fragments::STATE_SPEC_ENTRY@.len() > 0) by {
        reveal_strlit(
            "    'state': {'type': 'str', 'choices': ['present', 'absent'], 'default': 'present'},",
        );
    }
    lemma_arguments_part(state, fragments::argument_spec(attrs));
    lemma_entry_part("run_standard_crud"@, module_gen::lifecycle_kwargs(l));
    assert(consists_of(module_gen::resource_python(m, attrs, l), parts));
}

/// An action module has the standard layout, runs `run_action_module`, and
/// documents the raw result.
pub proof fn law_action_module_layout(
    m: module_gen::ModuleModel,
    attrs: Seq<IacAttribute>,
    pair: Seq<char>,
)
    ensures
        has_module_layout(module_gen::action_python(m, attrs, pair), m, "run_action_module"@),
        text::contains(module_gen::action_python(m, attrs, pair), module_gen::ACTION_RETURN@),
{
    let rest = "  - "@ + m.description + "\noptions:\n"@ + module_gen::options_tail(
        fragments::options_yaml(attrs),
    );
    let parts = ModuleParts {
        documentation: module_gen::module_head(m) + rest,
        examples: module_gen::action_examples(m.module),
        returned: module_gen::return_section(module_gen::ACTION_RETURN@),
        imports: module_gen::import_section(m, "run_action_module"@),
        arguments: module_gen::argspec_section(
            fragments::argspec_inner(None, fragments::argument_spec(attrs)),
        ),
        entry: module_gen::main_section("run_action_module"@, module_gen::call_kwarg(pair)),
    };
    assert(parts.documentation =~= module_gen::module_head(m) + "  - "@ + m.description
        + "\noptions:\n"@ + module_gen::options_tail(fragments::options_yaml(attrs)));
    lemma_documentation_part(m, rest);
    assert(text::occurs_at(parts.examples, "EXAMPLES = r'''"@, 0)) by {
        reveal_strlit("EXAMPLES = r'''\n- name: Run ");
        reveal_strlit("EXAMPLES = r'''");
        assert(parts.examples.subrange(0, "EXAMPLES = r'''"@.len() as int) =~= "EXAMPLES = r'''"@);
    }
    lemma_returned_part(module_gen::ACTION_RETURN@);
    lemma_arguments_part(None, fragments::argument_spec(attrs));
    lemma_entry_part("run_action_module"@, module_gen::call_kwarg(pair));
    assert(consists_of(module_gen::action_python(m, attrs, pair), parts));
}

/// A data source module has the standard layout and runs `run_info_module`.
pub proof fn law_data_source_module_layout(
    m: module_gen::ModuleModel,
    attrs: Seq<IacAttribute>,
    pair: Seq<char>,
)
    ensures
        has_module_layout(module_gen::data_source_python(m, attrs, pair), m, "run_info_module"@),
{
    let rest = "  - Retrieve information about "@ + m.module + ".\noptions:\n"@
        + module_gen::options_tail(fragments::options_yaml(attrs));
    let parts = ModuleParts {
        documentation: module_gen::module_head(m) + rest,
        examples: module_gen::data_source_examples(m.module),
        returned: module_gen::return_section(fragments::return_yaml(attrs)),
        imports: module_gen::import_section(m, "run_info_module"@),
        arguments: module_gen::argspec_section(
            fragments::argspec_inner(None, fragments::argument_spec(attrs)),
        ),
        entry: module_gen::main_section("run_info_module"@, module_gen::call_kwarg(pair)),
    };
    assert(parts.documentation =~= module_gen::module_head(m) + "  - Retrieve information about "@
        + m.module + ".\noptions:\n"@ + module_gen::options_tail(fragments::options_yaml(attrs)));
    lemma_documentation_part(m, rest);
    assert(text::occurs_at(parts.examples, "EXAMPLES = r'''"@, 0)) by {
        reveal_strlit("EXAMPLES = r'''\n- name: Get ");
        reveal_strlit("EXAMPLES = r'''");
        assert(parts.examples.subrange(0, "EXAMPLES = r'''"@.len() as int) =~= "EXAMPLES = r'''"@);
    }
    lemma_returned_part(fragments::return_yaml(attrs));
    lemma_arguments_part(None, fragments::argument_spec(attrs));
    lemma_entry_part("run_info_module"@, module_gen::call_kwarg(pair));
    assert(consists_of(module_gen::data_source_python(m, attrs, pair), parts));
}

/// Without inputs, a data source or an action takes the authentication
/// arguments and no others.
pub proof fn law_modules_without_inputs_take_only_authentication(attrs: Seq<IacAttribute>)
    requires
        forall|i: int| 0 <= i < attrs.len() ==> !ir::is_input(#[trigger] attrs[i]),
    ensures
        fragments::argspec_inner(None, fragments::argument_spec(attrs))
            == fragments::AUTH_ARGSPEC_LINES@,
        fragments::options_yaml(attrs) == Seq::<char>::empty(),
{
    attrs.lemma_all_neg_filter_empty(ir::inputs());
    let sections = fragments::argspec_sections(None, Seq::empty());
    assert(sections =~= seq![fragments::AUTH_ARGSPEC_LINES@]);
}

// ---------------------------------------------------------------------------
// SDK calls
// ---------------------------------------------------------------------------

/// The four operations of a resource stand in its module, with the name the
/// resource goes by and, where it is not `name`, the parameter it is found by.
pub proof fn law_resource_module_wires_all_operations(
    m: module_gen::ModuleModel,
    attrs: Seq<IacAttribute>,
    l: module_gen::LifecycleModel,
)
    ensures
        text::contains(module_gen::resource_python(m, attrs, l), module_gen::lifecycle_kwargs(l)),
        text::contains(module_gen::lifecycle_kwargs(l), "        resource_label="@ + l.label),
        text::contains(module_gen::lifecycle_kwargs(l), ",\n        sdk_create="@ + l.create),
        text::contains(module_gen::lifecycle_kwargs(l), l.update),
        text::contains(module_gen::lifecycle_kwargs(l), "\n        sdk_delete="@ + l.delete),
        text::contains(module_gen::lifecycle_kwargs(l), ",\n        sdk_read="@ + l.read),
        l.read_key is Some ==> text::contains(
            module_gen::lifecycle_kwargs(l),
            "\n        read_key="@ + l.read_key->0,
        ),
{
    let label = "        resource_label="@ + l.label;
    let create = label + ",\n        sdk_create="@ + l.create;
    assert(create =~= label + (",\n        sdk_create="@ + l.create));
    let update = create + ",\n"@ + l.update;
    let delete = update + "\n        sdk_delete="@ + l.delete;
    assert(delete =~= update + ("\n        sdk_delete="@ + l.delete));
    let read = delete + ",\n        sdk_read="@ + l.read;
    assert(read =~= delete + (",\n        sdk_read="@ + l.read));
}

/// The SDK call of an action or a data source stands in its module.
pub proof fn law_single_calls_are_wired(
    m: module_gen::ModuleModel,
    attrs: Seq<IacAttribute>,
    pair: Seq<char>,
)
    ensures
        text::contains(
            module_gen::action_python(m, attrs, pair),
            "        sdk_call="@ + pair + ","@,
        ),
        text::contains(
            module_gen::data_source_python(m, attrs, pair),
            "        sdk_call="@ + pair + ","@,
        ),
{
}

/// A resource with an update schema and endpoint is updated with the SDK call
/// of that schema, whatever its attributes are.
pub proof fn law_updatable_resources_call_the_sdk(resource: IacResource)
    requires
        resource.crud.update_endpoint is Some,
        resource.crud.update_schema is Some,
    ensures
        module_gen::sdk_update_kwargs(resource) == "        sdk_update="@
            + module_gen::schema_pair(resource.crud.update_schema->0@) + ","@,
{
}

/// A resource that cannot be updated is marked as immutable, and a comment
/// lists every immutable attribute.
pub proof fn law_immutable_resources_are_marked(resource: IacResource, i: int)
    requires
        resource.crud.update_endpoint is None || resource.crud.update_schema is None,
    ensures
        text::contains(
            module_gen::sdk_update_kwargs(resource),
            "        sdk_update=None,\n        immutable=True,"@,
        ),
        0 <= i < resource.attributes@.len() && resource.attributes@[i].immutable ==> text::contains(
            module_gen::sdk_update_kwargs(resource),
            module_gen::immutable_line(resource.attributes@[i].canonical_name@),
        ),
        (forall|j: int|
            0 <= j < resource.attributes@.len() ==> !(#[trigger] resource.attributes@[j]).immutable)
            ==> module_gen::sdk_update_kwargs(resource)
            == "        sdk_update=None,\n        immutable=True,"@,
{
    let attrs = resource.attributes@;
    let names = ir::immutable_names(attrs);
    let comment = module_gen::immutable_comment(names);
    let flags = "        sdk_update=None,\n        immutable=True,"@;
    assert("\n        sdk_update=None,\n        immutable=True,"@ =~= seq!['\n'] + flags) by {
        reveal_strlit("\n        sdk_update=None,\n        immutable=True,");
        reveal_strlit("        sdk_update=None,\n        immutable=True,");
    }
    if names.len() > 0 {
        reveal_strlit("        # WARNING: The following fields are immutable after creation.\n");
        assert(comment.len() > 0);
    }
    if 0 <= i < attrs.len() && attrs[i].immutable {
        let at = ir::lemma_attribute_texts_contain(attrs, ir::immutable(), ir::canonical_name(), i);
        let lines = names.map_values(|n: Seq<char>| module_gen::immutable_line(n));
        assert(lines[at] == module_gen::immutable_line(attrs[i].canonical_name@));
        text::lemma_joined_contains(lines, "\n"@, at);
    }
    if forall|j: int| 0 <= j < attrs.len() ==> !(#[trigger] attrs[j]).immutable {
        attrs.lemma_all_neg_filter_empty(ir::immutable());
    }
}

/// An action that names an SDK method calls that one, and the schema gives the
/// model class only; without a name the schema gives both.
pub proof fn law_named_sdk_method_takes_priority(action: IacAction)
    ensures
        match action.sdk_method {
            Some(method) => module_gen::action_pair(action) == module_gen::sdk_pair(
                text::str_debug(sdk_names::model_class_name(action.schema@)),
                text::str_debug(method@),
            ),
            None => module_gen::action_pair(action) == module_gen::schema_pair(action.schema@),
        },
{
}

/// The identifier is given where it is not `name` after normalization, and
/// spellings with hyphens and with underscores amount to the same.
pub proof fn law_read_key_is_normalized(resource: IacResource, module: Seq<char>)
    ensures
        ({
            let key = naming::snake_cased(resource.identity.id_field@);
            let given = module_gen::lifecycle_of(resource, module).read_key;
            &&& !key.contains('-')
            &&& key == "name"@ ==> given is None
            &&& key != "name"@ ==> given == Some(text::str_debug(key))
        }),
{
    naming::law_snake_case_is_stable(resource.identity.id_field@);
}

// ---------------------------------------------------------------------------
// What does not matter
// ---------------------------------------------------------------------------

/// Two optional texts are the same.
pub open spec fn same_option(a: Option<String>, b: Option<String>) -> bool {
    match (a, b) {
        (Some(a), Some(b)) => a@ == b@,
        (None, None) => true,
        _ => false,
    }
}

/// The module of an action depends on its name, description, schema, SDK method
/// and attributes only. In particular it is the same whether the action is
/// mutating or not and whichever response fields are sensitive.
pub proof fn law_action_module_reads_nothing_else(
    a: IacAction,
    b: IacAction,
    provider: Seq<char>,
    namespace: Seq<char>,
    author: Seq<char>,
)
    requires
        a.name@ == b.name@,
        a.description@ == b.description@,
        a.schema@ == b.schema@,
        same_option(a.sdk_method, b.sdk_method),
        a.attributes@ == b.attributes@,
    ensures
        module_gen::action_module(a, provider, namespace, author) == module_gen::action_module(
            b,
            provider,
            namespace,
            author,
        ),
{
}

/// The module of a resource depends on its name, description, schemas,
/// attributes, the normalized identifier and on whether there is an update
/// endpoint. In particular it is the same whatever the read mapping, the
/// category and the paths of the endpoints are.
pub proof fn law_resource_module_reads_nothing_else(
    a: IacResource,
    b: IacResource,
    provider: Seq<char>,
    namespace: Seq<char>,
    author: Seq<char>,
)
    requires
        a.name@ == b.name@,
        a.description@ == b.description@,
        a.attributes@ == b.attributes@,
        a.crud.create_schema@ == b.crud.create_schema@,
        a.crud.read_schema@ == b.crud.read_schema@,
        a.crud.delete_schema@ == b.crud.delete_schema@,
        a.crud.update_endpoint is Some == b.crud.update_endpoint is Some,
        same_option(a.crud.update_schema, b.crud.update_schema),
        naming::snake_cased(a.identity.id_field@) == naming::snake_cased(b.identity.id_field@),
    ensures
        module_gen::resource_module(a, provider, namespace, author) == module_gen::resource_module(
            b,
            provider,
            namespace,
            author,
        ),
{
}

/// The module of a data source depends on its name, description, schema and
/// attributes only.
pub proof fn law_data_source_module_reads_nothing_else(
    a: IacDataSource,
    b: IacDataSource,
    provider: Seq<char>,
    namespace: Seq<char>,
    author: Seq<char>,
)
    requires
        a.name@ == b.name@,
        a.description@ == b.description@,
        a.read_schema@ == b.read_schema@,
        a.attributes@ == b.attributes@,
    ensures
        module_gen::data_source_module(a, provider, namespace, author)
            == module_gen::data_source_module(b, provider, namespace, author),
{
}

// ---------------------------------------------------------------------------
// Playbooks
// ---------------------------------------------------------------------------

/// The playbook of a resource creates it, creates it once more and deletes it,
/// and checks that the first and the last step changed something. Each of the
/// three steps sets every required attribute.
pub proof fn law_playbook_sets_required_attributes(
    resource: IacResource,
    provider: Seq<char>,
    i: int,
)
    ensures
        ({
            let module = naming::snake_cased(naming::unprefixed(resource.name@, provider));
            let params = fragments::params_block(resource.attributes@);
            let book = module_gen::test_playbook(resource, provider);
            let create = module_gen::play_task(
                "Create "@ + module,
                module,
                "present"@,
                params,
                "create_result"@,
            );
            let again = module_gen::play_task(
                "Create "@ + module + " (idempotent)"@,
                module,
                "present"@,
                params,
                "idempotent_result"@,
            );
            let delete = module_gen::play_task(
                "Delete "@ + module,
                module,
                "absent"@,
                params,
                "delete_result"@,
            );
            &&& text::contains(book, create)
            &&& text::contains(book, module_gen::play_check("Verify creation"@, "create_result"@))
            &&& text::contains(book, again)
            &&& text::contains(book, delete)
            &&& text::contains(book, module_gen::play_check("Verify deletion"@, "delete_result"@))
            &&& 0 <= i < resource.attributes@.len() && resource.attributes@[i].required ==> {
                let line = fragments::param_line(resource.attributes@[i]);
                &&& ir::is_input(resource.attributes@[i])
                &&& text::contains(create, line)
                &&& text::contains(again, line)
                &&& text::contains(delete, line)
            }
        }),
{
    let attrs = resource.attributes@;
    if 0 <= i < attrs.len() && attrs[i].required {
        let at = ir::lemma_attribute_texts_contain(
            attrs,
            ir::required(),
            fragments::param_lines(),
            i,
        );
        text::lemma_joined_contains(
            ir::attribute_texts(attrs, ir::required(), fragments::param_lines()),
            Seq::empty(),
            at,
        );
    }
}

// ---------------------------------------------------------------------------
// Types
// ---------------------------------------------------------------------------

/// Every type maps to one of six Ansible types; an enum maps to the type that it
/// is an enum over; lists and sets have an element type, and nothing else has.
pub proof fn law_types_map_to_ansible_types(ty: IacType)
    ensures
        ({
            let name = type_names::ansible_type_of(ty);
            ||| name == "str"@
            ||| name == "int"@
            ||| name == "float"@
            ||| name == "bool"@
            ||| name == "list"@
            ||| name == "dict"@
        }),
        ty matches IacType::Enum { underlying, .. } ==> type_names::ansible_type_of(ty)
            == type_names::ansible_type_of(*underlying),
        type_names::ansible_elements_of(ty) is Some <==> ty is List || ty is SetOf,
    decreases ty,
{
    match ty {
        IacType::Enum { underlying, .. } => law_types_map_to_ansible_types(*underlying),
        _ => {},
    }
}

/// The test value of a non-empty enum is the first of its values, in double
/// quotes.
pub proof fn law_test_value_is_a_choice(attr: IacAttribute)
    requires
        attr.iac_type is Enum,
        attr.iac_type->values@.len() > 0,
    ensures
        fragments::choices_of(attr) is Some,
        fragments::choices_of(attr)->0.len() > 0,
        type_names::test_value_of(attr.iac_type) == "\""@ + fragments::choices_of(attr)->0[0]@
            + "\""@,
{
}

} // verus!
