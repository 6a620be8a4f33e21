//! The arguments and the documented options of a module agree.
use vstd::prelude::*;

use crate::fragments;
use crate::ir;
use crate::ir::{IacAttribute, IacType};
use crate::text;
use crate::type_names;

verus! {

// ---------------------------------------------------------------------------
// Lines
// ---------------------------------------------------------------------------

/// A line starts at this position.
pub open spec fn line_starts(text: Seq<char>, at: int) -> bool {
    at == 0 || text[at - 1] == '\n'
}

/// A line ends at this position.
pub open spec fn line_ends(text: Seq<char>, at: int) -> bool {
    at == text.len() || text[at] == '\n'
}

/// `line` is a line of the text, at position `at`.
pub open spec fn line_at(text: Seq<char>, line: Seq<char>, at: int) -> bool {
    text::occurs_at(text, line, at) && line_starts(text, at) && line_ends(text, at + line.len())
}

/// `line` is a line of the text.
pub open spec fn has_line(text: Seq<char>, line: Seq<char>) -> bool {
    exists|at: int| line_at(text, line, at)
}

/// A line of the text starts with `start`, at position `at`.
pub open spec fn line_start_at(text: Seq<char>, start: Seq<char>, at: int) -> bool {
    text::occurs_at(text, start, at) && line_starts(text, at)
}

/// A line of the text starts with `start`.
pub open spec fn has_line_starting(text: Seq<char>, start: Seq<char>) -> bool {
    exists|at: int| line_start_at(text, start, at)
}

/// The text stays on one line.
pub open spec fn single_line(text: Seq<char>) -> bool {
    !text.contains('\n')
}

proof fn lemma_single_line(text: Seq<char>)
    requires
        single_line(text),
    ensures
        forall|i: int| 0 <= i < text.len() ==> #[trigger] text[i] != '\n',
{
    assert forall|i: int| 0 <= i < text.len() implies #[trigger] text[i] != '\n' by {
        assert(text.contains(text[i]));
    }
}

/// Two texts with a newline between them have the lines of both and no others.
proof fn lemma_lines_split(left: Seq<char>, right: Seq<char>, line: Seq<char>)
    requires
        single_line(line),
    ensures
        has_line(left + "\n"@ + right, line) <==> has_line(left, line) || has_line(right, line),
        line.len() > 0 ==> (has_line_starting(left + "\n"@ + right, line) <==> has_line_starting(
            left,
            line,
        ) || has_line_starting(right, line)),
{
    reveal_strlit("\n");
    lemma_single_line(line);
    let all = left + "\n"@ + right;
    let n = left.len() as int;
    assert(all[n] == '\n');
    assert forall|at: int| text::occurs_at(all, line, at) implies (at + line.len() <= n
        && text::occurs_at(left, line, at)) || (at > n && text::occurs_at(
        right,
        line,
        at - n - 1,
    )) by {
        assert(all.subrange(at, at + line.len()) == line);
        if at <= n < at + line.len() {
            assert(line[n - at] == all[n]);
        } else if at + line.len() <= n {
            assert(left.subrange(at, at + line.len()) =~= line);
        } else {
            assert(right.subrange(at - n - 1, at - n - 1 + line.len()) =~= line);
        }
    }
    if has_line(all, line) {
        let at = choose|at: int| line_at(all, line, at);
        if at + line.len() <= n && text::occurs_at(left, line, at) {
            assert(line_at(left, line, at));
        } else {
            assert(line_at(right, line, at - n - 1));
        }
    }
    if has_line(left, line) {
        let at = choose|at: int| line_at(left, line, at);
        assert(all.subrange(at, at + line.len()) =~= left.subrange(at, at + line.len()));
        assert(line_at(all, line, at));
    }
    if has_line(right, line) {
        let at = choose|at: int| line_at(right, line, at);
        let moved = at + n + 1;
        assert(all.subrange(moved, moved + line.len()) =~= right.subrange(at, at + line.len()));
        assert(line_at(all, line, moved));
    }
    if line.len() > 0 {
        if has_line_starting(all, line) {
            let at = choose|at: int| line_start_at(all, line, at);
            if at + line.len() <= n && text::occurs_at(left, line, at) {
                assert(line_start_at(left, line, at));
            } else {
                assert(line_start_at(right, line, at - n - 1));
            }
        }
        if has_line_starting(left, line) {
            let at = choose|at: int| line_start_at(left, line, at);
            assert(all.subrange(at, at + line.len()) =~= left.subrange(at, at + line.len()));
            assert(line_start_at(all, line, at));
        }
        if has_line_starting(right, line) {
            let at = choose|at: int| line_start_at(right, line, at);
            let moved = at + n + 1;
            assert(all.subrange(moved, moved + line.len()) =~= right.subrange(at, at + line.len()));
            assert(line_start_at(all, line, moved));
        }
    }
}

/// A text on one line has that line and no other.
proof fn lemma_lines_of_single(text: Seq<char>, line: Seq<char>)
    requires
        single_line(text),
    ensures
        has_line(text, line) <==> text == line,
        line.len() > 0 ==> (has_line_starting(text, line) <==> line.is_prefix_of(text)),
{
    lemma_single_line(text);
    if has_line(text, line) {
        let at = choose|at: int| line_at(text, line, at);
        assert(at == 0);
        assert(text =~= text.subrange(0, line.len() as int));
    }
    if text == line {
        assert(text.subrange(0, line.len() as int) =~= line);
        assert(line_at(text, line, 0));
    }
    if line.len() > 0 {
        if has_line_starting(text, line) {
            let at = choose|at: int| line_start_at(text, line, at);
            assert(at == 0);
        }
        if line.is_prefix_of(text) {
            assert(line_start_at(text, line, 0));
        }
    }
}

/// A joined list has the lines of its parts.
proof fn lemma_lines_of_joined(parts: Seq<Seq<char>>, line: Seq<char>)
    requires
        single_line(line),
        line.len() > 0,
    ensures
        has_line(text::joined(parts, "\n"@), line) <==> exists|i: int|
            0 <= i < parts.len() && has_line(#[trigger] parts[i], line),
        has_line_starting(text::joined(parts, "\n"@), line) <==> exists|i: int|
            0 <= i < parts.len() && has_line_starting(#[trigger] parts[i], line),
    decreases parts.len(),
{
    if parts.len() == 0 {
        let nothing = Seq::<char>::empty();
        assert(text::joined(parts, "\n"@) =~= nothing);
        assert(!has_line(nothing, line));
        assert(!has_line_starting(nothing, line));
    } else if parts.len() == 1 {
        assert(text::joined(parts, "\n"@) == parts[0]);
    } else {
        let init = parts.drop_last();
        lemma_lines_of_joined(init, line);
        lemma_lines_split(text::joined(init, "\n"@), parts.last(), line);
        assert forall|i: int| 0 <= i < init.len() implies #[trigger] init[i] == parts[i] by {}
        if exists|i: int| 0 <= i < parts.len() && has_line(#[trigger] parts[i], line) {
            let i = choose|i: int| 0 <= i < parts.len() && has_line(#[trigger] parts[i], line);
            if i < init.len() {
                assert(has_line(init[i], line));
            }
        }
        if exists|i: int| 0 <= i < init.len() && has_line(#[trigger] init[i], line) {
            let i = choose|i: int| 0 <= i < init.len() && has_line(#[trigger] init[i], line);
            assert(has_line(parts[i], line));
        }
        if has_line(parts.last(), line) {
            assert(has_line(parts[parts.len() - 1], line));
        }
        if exists|i: int| 0 <= i < parts.len() && has_line_starting(#[trigger] parts[i], line) {
            let i = choose|i: int|
                0 <= i < parts.len() && has_line_starting(#[trigger] parts[i], line);
            if i < init.len() {
                assert(has_line_starting(init[i], line));
            }
        }
        if exists|i: int| 0 <= i < init.len() && has_line_starting(#[trigger] init[i], line) {
            let i = choose|i: int|
                0 <= i < init.len() && has_line_starting(#[trigger] init[i], line);
            assert(has_line_starting(parts[i], line));
        }
        if has_line_starting(parts.last(), line) {
            assert(has_line_starting(parts[parts.len() - 1], line));
        }
    }
}

// ---------------------------------------------------------------------------
// Texts of attributes
// ---------------------------------------------------------------------------

/// The text holds no single quote.
pub open spec fn unquoted(text: Seq<char>) -> bool {
    !text.contains('\'')
}

/// Every choice of an attribute, if it has any, is a text of this sort.
pub open spec fn all_choices(attr: IacAttribute, sort: spec_fn(Seq<char>) -> bool) -> bool {
    fragments::choices_of(attr) is Some ==> forall|i: int|
        0 <= i < fragments::choices_of(attr)->0.len() ==> sort(
            (#[trigger] fragments::choices_of(attr)->0[i])@,
        )
}

/// The name, the description and the choices of an attribute hold no newline.
pub open spec fn is_single_line(attr: IacAttribute) -> bool {
    &&& single_line(attr.canonical_name@)
    &&& single_line(attr.description@)
    &&& all_choices(attr, |t: Seq<char>| single_line(t))
}

/// The name and the choices of an attribute hold no single quote.
pub open spec fn is_unquoted(attr: IacAttribute) -> bool {
    &&& unquoted(attr.canonical_name@)
    &&& all_choices(attr, |t: Seq<char>| unquoted(t))
}

/// The names of the attributes differ.
pub open spec fn distinct_names(attrs: Seq<IacAttribute>) -> bool {
    forall|j: int, k: int|
        0 <= j < k < attrs.len() ==> (#[trigger] attrs[j]).canonical_name@ != (
        #[trigger] attrs[k]).canonical_name@
}

/// The first letters of the keys that an entry may have.
spec fn is_key_letter(letter: char) -> bool {
    letter == 'r' || letter == 'n' || letter == 'e' || letter == 'c'
}

/// The name of a type is made of letters and starts unlike any of the keys.
proof fn lemma_type_letters(ty: IacType)
    ensures
        ({
            let name = type_names::ansible_type_of(ty);
            &&& name.len() > 0
            &&& !is_key_letter(name[0])
            &&& forall|i: int| 0 <= i < name.len() ==> text::is_lower(#[trigger] name[i])
        }),
    decreases ty,
{
    reveal_strlit("str");
    reveal_strlit("int");
    reveal_strlit("float");
    reveal_strlit("bool");
    reveal_strlit("list");
    reveal_strlit("dict");
    match ty {
        IacType::Enum { underlying, .. } => lemma_type_letters(*underlying),
        _ => {},
    }
}

/// A joined list holds no character that neither its parts nor the separator
/// hold.
proof fn lemma_joined_lacks(parts: Seq<Seq<char>>, sep: Seq<char>, c: char)
    requires
        !sep.contains(c),
        forall|i: int| 0 <= i < parts.len() ==> !(#[trigger] parts[i]).contains(c),
    ensures
        !text::joined(parts, sep).contains(c),
    decreases parts.len(),
{
    if parts.len() > 1 {
        let init = parts.drop_last();
        assert forall|i: int| 0 <= i < init.len() implies !(#[trigger] init[i]).contains(c) by {
            assert(init[i] == parts[i]);
        }
        lemma_joined_lacks(init, sep, c);
        assert(!parts[parts.len() - 1].contains(c));
        lemma_concat_lacks(text::joined(init, sep), sep, c);
        lemma_concat_lacks(text::joined(init, sep) + sep, parts.last(), c);
    } else if parts.len() == 1 {
        assert(!parts[0].contains(c));
    }
}

proof fn lemma_concat_lacks(left: Seq<char>, right: Seq<char>, c: char)
    requires
        !left.contains(c),
        !right.contains(c),
    ensures
        !(left + right).contains(c),
{
    let all = left + right;
    if all.contains(c) {
        let i = choose|i: int| 0 <= i < all.len() && all[i] == c;
        if i < left.len() {
            assert(left[i] == c);
        } else {
            assert(right[i - left.len()] == c);
        }
    }
}

/// The choices of an attribute stay on one line.
proof fn lemma_choices_single_line(attr: IacAttribute, quote: char)
    requires
        is_single_line(attr),
        quote != '\n',
    ensures
        fragments::choices_text(attr, quote) is Some ==> single_line(
            fragments::choices_text(attr, quote)->0,
        ),
{
    if fragments::choices_of(attr) is Some {
        let sort = |t: Seq<char>| single_line(t);
        let values = text::texts(fragments::choices_of(attr)->0);
        let parts = values.map_values(|v: Seq<char>| seq![quote] + v + seq![quote]);
        reveal_strlit(", ");
        assert forall|i: int| 0 <= i < parts.len() implies !(#[trigger] parts[i]).contains('\n') by {
            assert(sort(fragments::choices_of(attr)->0[i]@));
            assert(single_line(values[i]));
            lemma_concat_lacks(seq![quote], values[i], '\n');
            lemma_concat_lacks(seq![quote] + values[i], seq![quote], '\n');
        }
        lemma_joined_lacks(parts, ", "@, '\n');
    }
}

// ---------------------------------------------------------------------------
// Lines of options
// ---------------------------------------------------------------------------

/// The line that an option starts with.
pub open spec fn option_header(name: Seq<char>) -> Seq<char> {
    "    "@ + name + ":"@
}

/// One more line after a text.
proof fn lemma_one_more_line(before: Seq<char>, added: Seq<char>, body: Seq<char>, line: Seq<char>)
    requires
        single_line(line),
        single_line(body),
        added == "\n"@ + body,
    ensures
        has_line(before + added, line) <==> has_line(before, line) || line == body,
{
    assert(before + added =~= before + "\n"@ + body);
    lemma_lines_split(before, body, line);
    lemma_lines_of_single(body, line);
}

/// The lines of the documentation of an input.
pub open spec fn is_option_line(attr: IacAttribute, line: Seq<char>) -> bool {
    ||| line == option_header(attr.canonical_name@)
    ||| line == "      description: \""@ + fragments::escaped(attr.description@) + "\""@
    ||| line == "      type: "@ + type_names::ansible_type_of(attr.iac_type)
    ||| attr.required && line == "      required: true"@
    ||| attr.sensitive && line == "      no_log: true"@
    ||| type_names::ansible_elements_of(attr.iac_type) is Some && line == "      elements: "@
        + type_names::ansible_elements_of(attr.iac_type)->0
    ||| fragments::choices_of(attr) is Some && line == "      choices: ["@
        + fragments::choices_text(attr, '"')->0 + "]"@
}

proof fn lemma_type_lacks(ty: IacType, c: char)
    requires
        !text::is_lower(c),
    ensures
        !type_names::ansible_type_of(ty).contains(c),
        type_names::ansible_elements_of(ty) is Some ==> {
            let elements = type_names::ansible_elements_of(ty)->0;
            &&& elements.len() > 0
            &&& !is_key_letter(elements[0])
            &&& forall|i: int| 0 <= i < elements.len() ==> text::is_lower(#[trigger] elements[i])
            &&& !elements.contains(c)
        },
{
    lemma_type_letters(ty);
    match ty {
        IacType::List(inner) => lemma_type_letters(*inner),
        IacType::SetOf(inner) => lemma_type_letters(*inner),
        _ => {},
    }
}

proof fn lemma_option_lines(attr: IacAttribute, line: Seq<char>)
    requires
        is_single_line(attr),
        single_line(line),
    ensures
        has_line(fragments::option_block(attr), line) <==> is_option_line(attr, line),
{
    let name = attr.canonical_name@;
    let description = fragments::escaped(attr.description@);
    let ty = type_names::ansible_type_of(attr.iac_type);
    reveal_strlit("\n");
    reveal_strlit("    ");
    reveal_strlit(":");
    reveal_strlit(":\n      description: \"");
    reveal_strlit("      description: \"");
    reveal_strlit("\"");
    reveal_strlit("\"\n      type: ");
    reveal_strlit("      type: ");
    lemma_type_lacks(attr.iac_type, '\n');
    lemma_single_line(attr.description@);
    assert(single_line(description)) by {
        if description.contains('\n') {
            let i = choose|i: int| 0 <= i < description.len() && description[i] == '\n';
            assert(attr.description@[i] != '\n');
        }
    }
    let header = option_header(name);
    assert(single_line(header)) by {
        lemma_concat_lacks("    "@, name, '\n');
        lemma_concat_lacks("    "@ + name, ":"@, '\n');
    }
    lemma_lines_of_single(header, line);
    let l2 = "      description: \""@ + description + "\""@;
    assert(single_line(l2)) by {
        lemma_concat_lacks("      description: \""@, description, '\n');
        lemma_concat_lacks("      description: \""@ + description, "\""@, '\n');
    }
    let l3 = "      type: "@ + ty;
    assert(single_line(l3)) by {
        lemma_concat_lacks("      type: "@, ty, '\n');
    }
    let t2 = header + ("\n"@ + l2);
    lemma_one_more_line(header, "\n"@ + l2, l2, line);
    let t3 = t2 + ("\n"@ + l3);
    lemma_one_more_line(t2, "\n"@ + l3, l3, line);
    let start = "    "@ + name + ":\n      description: \""@ + description + "\"\n      type: "@ + ty;
    assert(start =~= t3);
    let required = text::shown_if(attr.required, "\n      required: true"@);
    assert(has_line(start + required, line) <==> has_line(start, line) || attr.required && line
        == "      required: true"@) by {
        reveal_strlit("\n      required: true");
        reveal_strlit("      required: true");
        if attr.required {
            assert(required =~= "\n"@ + "      required: true"@);
            lemma_one_more_line(start, required, "      required: true"@, line);
        } else {
            assert(start + required =~= start);
        }
    }
    let t4 = start + required;
    let no_log = text::shown_if(attr.sensitive, "\n      no_log: true"@);
    assert(has_line(t4 + no_log, line) <==> has_line(t4, line) || attr.sensitive && line
        == "      no_log: true"@) by {
        reveal_strlit("\n      no_log: true");
        reveal_strlit("      no_log: true");
        if attr.sensitive {
            assert(no_log =~= "\n"@ + "      no_log: true"@);
            lemma_one_more_line(t4, no_log, "      no_log: true"@, line);
        } else {
            assert(t4 + no_log =~= t4);
        }
    }
    let t5 = t4 + no_log;
    let of = type_names::ansible_elements_of(attr.iac_type);
    let elements = text::prefixed("\n      elements: "@, of);
    assert(has_line(t5 + elements, line) <==> has_line(t5, line) || of is Some && line
        == "      elements: "@ + of->0) by {
        reveal_strlit("\n      elements: ");
        reveal_strlit("      elements: ");
        if of is Some {
            assert(elements =~= "\n"@ + ("      elements: "@ + of->0));
            lemma_concat_lacks("      elements: "@, of->0, '\n');
            lemma_one_more_line(t5, elements, "      elements: "@ + of->0, line);
        } else {
            assert(t5 + elements =~= t5);
        }
    }
    let t6 = t5 + elements;
    let list = fragments::choices_text(attr, '"');
    let choices = text::wrapped("\n      choices: ["@, list, "]"@);
    assert(has_line(t6 + choices, line) <==> has_line(t6, line) || list is Some && line
        == "      choices: ["@ + list->0 + "]"@) by {
        reveal_strlit("\n      choices: [");
        reveal_strlit("      choices: [");
        reveal_strlit("]");
        if list is Some {
            lemma_choices_single_line(attr, '"');
            assert(choices =~= "\n"@ + ("      choices: ["@ + list->0 + "]"@));
            lemma_concat_lacks("      choices: ["@, list->0, '\n');
            lemma_concat_lacks("      choices: ["@ + list->0, "]"@, '\n');
            lemma_one_more_line(t6, choices, "      choices: ["@ + list->0 + "]"@, line);
        } else {
            assert(t6 + choices =~= t6);
        }
    }
    assert(fragments::option_block(attr) == t6 + choices);
}

/// The documentation of an input has one line that ends in a colon, its header.
proof fn lemma_option_header(attr: IacAttribute, name: Seq<char>)
    requires
        is_single_line(attr),
        single_line(name),
    ensures
        has_line(fragments::option_block(attr), option_header(name)) <==> name
            == attr.canonical_name@,
{
    let line = option_header(name);
    reveal_strlit("    ");
    reveal_strlit(":");
    assert(single_line(line)) by {
        lemma_concat_lacks("    "@, name, '\n');
        lemma_concat_lacks("    "@ + name, ":"@, '\n');
    }
    lemma_option_lines(attr, line);
    assert(line.last() == ':');
    if is_option_line(attr, line) {
        reveal_strlit("\"");
        reveal_strlit("      type: ");
        reveal_strlit("      required: true");
        reveal_strlit("      no_log: true");
        reveal_strlit("      elements: ");
        reveal_strlit("]");
        lemma_type_letters(attr.iac_type);
        lemma_type_lacks(attr.iac_type, ':');
        let ty = type_names::ansible_type_of(attr.iac_type);
        assert(("      type: "@ + ty).last() == ty.last());
        if type_names::ansible_elements_of(attr.iac_type) is Some {
            let elements = type_names::ansible_elements_of(attr.iac_type)->0;
            assert(("      elements: "@ + elements).last() == elements.last());
        }
        assert(line == option_header(attr.canonical_name@));
        let other = attr.canonical_name@;
        assert(name =~= line.subrange(4, line.len() - 1));
        assert(other =~= line.subrange(4, line.len() - 1));
    }
}

/// The documentation of an input has a line about logging where the input is
/// sensitive and nowhere else, and a line about being required where it is.
pub proof fn law_options_mark_exactly_what_attributes_say(attr: IacAttribute)
    requires
        is_single_line(attr),
    ensures
        has_line(fragments::option_block(attr), "      no_log: true"@) <==> attr.sensitive,
        has_line(fragments::option_block(attr), "      required: true"@) <==> attr.required,
{
    reveal_strlit("      no_log: true");
    reveal_strlit("      required: true");
    lemma_option_lines(attr, "      no_log: true"@);
    lemma_option_lines(attr, "      required: true"@);
    reveal_strlit("    ");
    reveal_strlit(":");
    reveal_strlit("      description: \"");
    reveal_strlit("      type: ");
    reveal_strlit("      elements: ");
    reveal_strlit("      choices: [");
    assert(option_header(attr.canonical_name@).last() == ':');
    let description = "      description: \""@ + fragments::escaped(attr.description@) + "\""@;
    assert(description[6] == 'd');
    let ty = "      type: "@ + type_names::ansible_type_of(attr.iac_type);
    assert(ty[6] == 't');
    assert("      no_log: true"@[6] == 'n' && "      required: true"@[6] == 'r');
    if type_names::ansible_elements_of(attr.iac_type) is Some {
        let elements = "      elements: "@ + type_names::ansible_elements_of(attr.iac_type)->0;
        assert(elements[6] == 'e');
    }
    if fragments::choices_of(attr) is Some {
        let choices = "      choices: ["@ + fragments::choices_text(attr, '"')->0 + "]"@;
        assert(choices[6] == 'c');
    }
}

// ---------------------------------------------------------------------------
// Keys of argument entries
// ---------------------------------------------------------------------------

/// The quote at position `j` of a list of quoted values ends a value.
spec fn closes(list: Seq<char>, j: int) -> bool {
    j + 1 == list.len() || list[j + 1] == ','
}

/// The next quote after position `j` stands at `e` and ends a value.
spec fn closed_by(list: Seq<char>, j: int, e: int) -> bool {
    &&& j < e < list.len()
    &&& list[e] == '\''
    &&& closes(list, e)
    &&& forall|x: int| j < x < e ==> #[trigger] list[x] != '\''
}

/// Every quote in a list of quoted values ends a value or starts one that the
/// next quote ends.
spec fn quotes_pair(list: Seq<char>) -> bool {
    forall|j: int|
        0 <= j < list.len() && #[trigger] list[j] == '\'' ==> closes(list, j) || exists|e: int|
            closed_by(list, j, e)
}

/// A value without quotes between two quotes.
spec fn is_quoted_value(part: Seq<char>) -> bool {
    &&& part.len() >= 2
    &&& part[0] == '\''
    &&& part.last() == '\''
    &&& forall|x: int| 0 < x < part.len() - 1 ==> #[trigger] part[x] != '\''
}

proof fn lemma_quotes_pair(parts: Seq<Seq<char>>)
    requires
        forall|i: int| 0 <= i < parts.len() ==> is_quoted_value(#[trigger] parts[i]),
    ensures
        quotes_pair(text::joined(parts, ", "@)),
    decreases parts.len(),
{
    reveal_strlit(", ");
    if parts.len() == 1 {
        let list = parts[0];
        assert(is_quoted_value(list));
        assert(closed_by(list, 0, list.len() - 1));
    } else if parts.len() > 1 {
        let init = parts.drop_last();
        assert forall|i: int| 0 <= i < init.len() implies is_quoted_value(#[trigger] init[i]) by {
            assert(init[i] == parts[i]);
        }
        lemma_quotes_pair(init);
        let left = text::joined(init, ", "@);
        let right = parts.last();
        assert(is_quoted_value(parts[parts.len() - 1]));
        let list = left + ", "@ + right;
        let start = left.len() + 2;
        assert(list[left.len() as int] == ',');
        assert forall|j: int| 0 <= j < list.len() && #[trigger] list[j] == '\'' implies closes(
            list,
            j,
        ) || exists|e: int| closed_by(list, j, e) by {
            if j < left.len() {
                assert(left[j] == '\'');
                if closes(left, j) {
                    assert(closes(list, j));
                } else {
                    let e = choose|e: int| closed_by(left, j, e);
                    assert(closes(list, e));
                    assert forall|x: int| j < x < e implies #[trigger] list[x] != '\'' by {
                        assert(left[x] != '\'');
                    }
                    assert(closed_by(list, j, e));
                }
            } else {
                assert(j >= start);
                let x = j - start;
                assert(right[x] == '\'');
                if x == 0 {
                    let e = list.len() - 1;
                    assert(list[e] == right.last());
                    assert forall|y: int| j < y < e implies #[trigger] list[y] != '\'' by {
                        assert(right[y - start] != '\'');
                    }
                    assert(closed_by(list, j, e));
                } else {
                    assert(x == right.len() - 1);
                    assert(closes(list, j));
                }
            }
        }
    }
}

/// Nowhere in the text, but perhaps at its end, a quote after a comma and a
/// space starts a word with this letter.
spec fn starts_no_word(text: Seq<char>, letter: char) -> bool {
    forall|j: int|
        0 <= j < text.len() && #[trigger] text[j] == '\'' ==> {
            ||| j + 1 == text.len()
            ||| text[j + 1] != letter
            ||| j >= 2 && !(text[j - 2] == ',' && text[j - 1] == ' ')
        }
}

proof fn lemma_starts_no_word_concat(left: Seq<char>, right: Seq<char>, letter: char)
    requires
        starts_no_word(left, letter),
        starts_no_word(right, letter),
        right.len() > 0 ==> right[0] != letter,
    ensures
        starts_no_word(left + right, letter),
{
    let all = left + right;
    assert forall|j: int| 0 <= j < all.len() && #[trigger] all[j] == '\'' implies {
        ||| j + 1 == all.len()
        ||| all[j + 1] != letter
        ||| j >= 2 && !(all[j - 2] == ',' && all[j - 1] == ' ')
    } by {
        if j < left.len() {
            assert(left[j] == '\'');
            if j >= 2 {
                assert(all[j - 2] == left[j - 2] && all[j - 1] == left[j - 1]);
            }
        } else {
            assert(right[j - left.len()] == '\'');
        }
    }
}

/// A text without quotes starts no word.
proof fn lemma_unquoted_starts_no_word(text: Seq<char>, letter: char)
    requires
        unquoted(text),
    ensures
        starts_no_word(text, letter),
{
    assert forall|j: int| 0 <= j < text.len() implies #[trigger] text[j] != '\'' by {
        assert(text.contains(text[j]));
    }
}

/// The entry of an input up to the flags.
spec fn entry_head(attr: IacAttribute) -> Seq<char> {
    "    '"@ + attr.canonical_name@ + "': {'type': '"@ + type_names::ansible_type_of(attr.iac_type)
        + "'"@
}

proof fn lemma_entry_head(attr: IacAttribute, letter: char)
    requires
        unquoted(attr.canonical_name@),
        is_key_letter(letter),
    ensures
        starts_no_word(entry_head(attr), letter),
{
    let name = attr.canonical_name@;
    let ty = type_names::ansible_type_of(attr.iac_type);
    reveal_strlit("    '");
    reveal_strlit("': {'type': '");
    reveal_strlit("'");
    let a = "    '"@ + name;
    assert(starts_no_word(a, letter)) by {
        assert forall|j: int| 0 <= j < a.len() && #[trigger] a[j] == '\'' implies j == 4 by {
            if j > 4 {
                assert(name.contains(name[j - 5]));
            }
        }
    }
    assert(starts_no_word("': {'type': '"@, letter));
    lemma_starts_no_word_concat(a, "': {'type': '"@, letter);
    lemma_type_letters(attr.iac_type);
    lemma_type_lacks(attr.iac_type, '\'');
    lemma_unquoted_starts_no_word(ty, letter);
    lemma_starts_no_word_concat(a + "': {'type': '"@, ty, letter);
    assert(starts_no_word("'"@, letter));
    lemma_starts_no_word_concat(a + "': {'type': '"@ + ty, "'"@, letter);
}

/// The entry of an input up to its choices, with flags that start with other
/// letters.
proof fn lemma_entry_start(
    attr: IacAttribute,
    required: Seq<char>,
    no_log: Seq<char>,
    elements: Seq<char>,
    letter: char,
)
    requires
        unquoted(attr.canonical_name@),
        is_key_letter(letter),
        required.len() == 0 || letter != 'r' && required == ", 'required': True"@,
        no_log.len() == 0 || letter != 'n' && no_log == ", 'no_log': True"@,
        elements.len() == 0 || letter != 'e' && elements == text::wrapped(
            ", 'elements': '"@,
            type_names::ansible_elements_of(attr.iac_type),
            "'"@,
        ),
    ensures
        starts_no_word(entry_head(attr) + required + no_log + elements, letter),
{
    lemma_entry_head(attr, letter);
    reveal_strlit(", 'required': True");
    reveal_strlit(", 'no_log': True");
    assert(starts_no_word(required, letter));
    lemma_starts_no_word_concat(entry_head(attr), required, letter);
    assert(starts_no_word(no_log, letter));
    lemma_starts_no_word_concat(entry_head(attr) + required, no_log, letter);
    let of = type_names::ansible_elements_of(attr.iac_type);
    reveal_strlit(", 'elements': '");
    reveal_strlit("'");
    assert(starts_no_word(elements, letter)) by {
        if elements.len() > 0 && of is Some {
            lemma_type_lacks(attr.iac_type, '\'');
            assert(starts_no_word(", 'elements': '"@, letter));
            lemma_unquoted_starts_no_word(of->0, letter);
            lemma_starts_no_word_concat(", 'elements': '"@, of->0, letter);
            assert(starts_no_word("'"@, letter));
            lemma_starts_no_word_concat(", 'elements': '"@ + of->0, "'"@, letter);
        }
    }
    lemma_starts_no_word_concat(entry_head(attr) + required + no_log, elements, letter);
}

/// A key as it stands in the entry of an input.
spec fn entry_key(key: Seq<char>) -> Seq<char> {
    ", '"@ + key + "':"@
}

/// A flag as it stands in the entry of an input.
pub open spec fn entry_flag(key: Seq<char>) -> Seq<char> {
    ", '"@ + key + "': True"@
}

/// The characters of a key at its place in a text.
proof fn lemma_key_characters(all: Seq<char>, key: Seq<char>, p: int)
    requires
        text::occurs_at(all, entry_key(key), p),
    ensures
        ({
            let k = key.len() as int;
            &&& 0 <= p && p + 5 + k <= all.len()
            &&& all[p] == ',' && all[p + 1] == ' ' && all[p + 2] == '\''
            &&& forall|x: int| p + 3 <= x < p + 3 + k ==> #[trigger] all[x] == key[x - p - 3]
            &&& all[p + 3 + k] == '\'' && all[p + 4 + k] == ':'
        }),
{
    reveal_strlit(", '");
    reveal_strlit("':");
    let mark = entry_key(key);
    let found = all.subrange(p, p + mark.len());
    let k = key.len() as int;
    assert(found == mark);
    assert forall|x: int| 0 <= x < mark.len() implies #[trigger] all[p + x] == mark[x] by {
        assert(found[x] == mark[x]);
    }
    assert(all[p + 0] == mark[0] && all[p + 1] == mark[1] && all[p + 2] == mark[2]);
    assert(all[p + (3 + k)] == mark[3 + k] && all[p + (4 + k)] == mark[4 + k]);
    assert forall|x: int| p + 3 <= x < p + 3 + k implies #[trigger] all[x] == key[x - p - 3] by {
        assert(all[p + (x - p)] == mark[x - p]);
    }
}

/// No colon follows a word between quotes in a list of quoted values.
proof fn lemma_no_colon_in_list(list: Seq<char>, end: Seq<char>, key: Seq<char>, q: int)
    requires
        quotes_pair(list),
        0 <= q < list.len(),
        key.len() > 0,
        unquoted(key),
        key[0] != ',',
        key[0] != ']',
        end.len() > 0,
        end[0] == ']',
        q + 3 + key.len() <= list.len() + end.len(),
        (list + end)[q] == '\'',
        forall|x: int|
            q + 1 <= x < q + 1 + key.len() ==> #[trigger] (list + end)[x] == key[x - q - 1],
        (list + end)[q + 1 + key.len()] == '\'',
    ensures
        (list + end)[q + 2 + key.len()] != ':',
{
    let all = list + end;
    let k = key.len() as int;
    assert(list[q] == '\'');
    assert(all[q + 1] == key[0]);
    if closes(list, q) {
        assert(all[q + 1] == ',' || all[q + 1] == end[0]);
    } else {
        let e = choose|e: int| closed_by(list, q, e);
        assert(all[e] == '\'');
        if e < q + 1 + k {
            assert(all[e] == key[e - q - 1]);
            assert(key.contains(key[e - q - 1]));
        } else if e > q + 1 + k {
            assert(list[q + 1 + k] == all[q + 1 + k]);
        }
        assert(e == q + 1 + k);
        assert(all[e + 1] == ',' || all[e + 1] == end[0]);
    }
}

/// In a text whose start has no word with the first letter of `key` and which
/// goes on with a list of quoted values, the key does not occur.
proof fn lemma_flag_is_absent(start: Seq<char>, list: Seq<char>, end: Seq<char>, key: Seq<char>)
    requires
        key.len() > 0,
        unquoted(key),
        key[0] != ',',
        key[0] != ']',
        key[0] != '}',
        starts_no_word(start, key[0]),
        start.len() > 0 ==> start.last() != '\'' || list.len() == 0,
        quotes_pair(list),
        end == "]},"@ || end == "},"@ && list.len() == 0,
    ensures
        !text::contains(start + list + end, entry_key(key)),
{
    reveal_strlit("]},");
    reveal_strlit("},");
    let all = start + list + end;
    if text::contains(all, entry_key(key)) {
        let p = choose|p: int| text::occurs_at(all, entry_key(key), p);
        lemma_key_characters(all, key, p);
        let j = p + 2;
        let n = start.len() as int;
        assert(all[j + 1] == key[0]);
        if j < n {
            assert(start[j] == '\'');
            assert(start[j - 2] == ',' && start[j - 1] == ' ');
        } else if j < n + list.len() {
            let tail = list + end;
            assert forall|x: int| 0 <= x < tail.len() implies #[trigger] tail[x] == all[n + x] by {}
            assert forall|x: int| j - n + 1 <= x < j - n + 1 + key.len() implies #[trigger] tail[x]
                == key[x - (j - n) - 1] by {
                assert(all[n + x] == key[n + x - p - 3]);
            }
            lemma_no_colon_in_list(list, end, key, j - n);
        } else {
            assert(all[j] == end[j - n - list.len()]);
        }
    }
}

/// The list of the choices of an attribute without quotes.
proof fn lemma_choices_pair(attr: IacAttribute)
    requires
        is_unquoted(attr),
        fragments::choices_of(attr) is Some,
    ensures
        quotes_pair(fragments::choices_text(attr, '\'')->0),
{
    let sort = |t: Seq<char>| unquoted(t);
    let quote = '\'';
    let values = text::texts(fragments::choices_of(attr)->0);
    let parts = values.map_values(|v: Seq<char>| seq![quote] + v + seq![quote]);
    assert forall|i: int| 0 <= i < parts.len() implies is_quoted_value(#[trigger] parts[i]) by {
        assert(sort(fragments::choices_of(attr)->0[i]@));
        let value = values[i];
        assert(unquoted(value));
        let part = parts[i];
        assert forall|x: int| 0 < x < part.len() - 1 implies #[trigger] part[x] != '\'' by {
            assert(value.contains(value[x - 1]));
        }
    }
    lemma_quotes_pair(parts);
}

/// An attribute has choices.
pub open spec fn has_choices(attr: IacAttribute) -> bool {
    attr.iac_type is Enum || attr.enum_values is Some
}

/// An attribute has elements.
pub open spec fn has_elements(attr: IacAttribute) -> bool {
    attr.iac_type is List || attr.iac_type is SetOf
}

/// Where an attribute has no use for a key, its entry does not have it.
proof fn lemma_entry_lacks_flag(attr: IacAttribute, key: Seq<char>)
    requires
        is_unquoted(attr),
        ({
            ||| key == "no_log"@ && !attr.sensitive
            ||| key == "required"@ && !attr.required
            ||| key == "elements"@ && !has_elements(attr)
            ||| key == "choices"@ && !has_choices(attr)
        }),
    ensures
        !text::contains(fragments::argspec_entry(attr), entry_key(key)),
{
    reveal_strlit("no_log");
    reveal_strlit("required");
    reveal_strlit("elements");
    reveal_strlit("choices");
    let required = text::shown_if(attr.required, ", 'required': True"@);
    let no_log = text::shown_if(attr.sensitive, ", 'no_log': True"@);
    let elements = text::wrapped(
        ", 'elements': '"@,
        type_names::ansible_elements_of(attr.iac_type),
        "'"@,
    );
    let start = entry_head(attr) + required + no_log + elements;
    lemma_entry_start(attr, required, no_log, elements, key[0]);
    let list = fragments::choices_text(attr, '\'');
    reveal_strlit(", 'choices': [");
    reveal_strlit("]");
    reveal_strlit("},");
    reveal_strlit("]},");
    let nothing = Seq::<char>::empty();
    match list {
        Some(choices) => {
            lemma_choices_pair(attr);
            assert(starts_no_word(", 'choices': ["@, key[0]));
            lemma_starts_no_word_concat(start, ", 'choices': ["@, key[0]);
            let longer = start + ", 'choices': ["@;
            lemma_flag_is_absent(longer, choices, "]},"@, key);
            assert(fragments::argspec_entry(attr) =~= longer + choices + "]},"@);
        },
        None => {
            lemma_flag_is_absent(start, nothing, "},"@, key);
            assert(fragments::argspec_entry(attr) =~= start + nothing + "},"@);
        },
    }
}

/// What starts with the key of an absent entry is absent too.
proof fn lemma_entry_lacks(attr: IacAttribute, key: Seq<char>, mark: Seq<char>, rest: Seq<char>)
    requires
        !text::contains(fragments::argspec_entry(attr), entry_key(key)),
        mark == entry_key(key) + rest,
    ensures
        !text::contains(fragments::argspec_entry(attr), mark),
{
    broadcast use {text::lemma_contains_concat, text::lemma_contains_self};

    assert(text::contains(mark, entry_key(key)));
    if text::contains(fragments::argspec_entry(attr), mark) {
        text::lemma_contains_transitive(fragments::argspec_entry(attr), mark, entry_key(key));
    }
}

/// The entry of an input holds the flag that keeps it out of logs where the
/// input is sensitive and nowhere else, and the flag that it is required where
/// it is. A name or a choice with a quote in it could spell a flag out, so
/// neither may have one.
pub proof fn law_entries_mark_exactly_what_attributes_say(attr: IacAttribute)
    requires
        is_unquoted(attr),
    ensures
        text::contains(fragments::argspec_entry(attr), ", 'no_log': True"@) <==> attr.sensitive,
        text::contains(fragments::argspec_entry(attr), ", 'required': True"@) <==> attr.required,
{
    broadcast use {text::lemma_contains_concat, text::lemma_contains_self};

    reveal_strlit(", '");
    reveal_strlit("':");
    reveal_strlit("no_log");
    reveal_strlit("required");
    reveal_strlit(", 'no_log': True");
    reveal_strlit(", 'required': True");
    reveal_strlit(" True");
    reveal_strlit("': True");
    if !attr.sensitive {
        lemma_entry_lacks_flag(attr, "no_log"@);
        assert(entry_flag("no_log"@) =~= entry_key("no_log"@) + " True"@);
        assert(entry_flag("no_log"@) =~= ", 'no_log': True"@);
        lemma_entry_lacks(attr, "no_log"@, ", 'no_log': True"@, " True"@);
    }
    if !attr.required {
        lemma_entry_lacks_flag(attr, "required"@);
        assert(entry_flag("required"@) =~= entry_key("required"@) + " True"@);
        assert(entry_flag("required"@) =~= ", 'required': True"@);
        lemma_entry_lacks(attr, "required"@, ", 'required': True"@, " True"@);
    }
}

/// The choices that an attribute has, those of an enum type before its own.
pub open spec fn choice_texts(attr: IacAttribute) -> Seq<Seq<char>> {
    match (attr.iac_type, attr.enum_values) {
        (IacType::Enum { values, .. }, _) => values@.map_values(|v: String| v@),
        (_, Some(values)) => values@.map_values(|v: String| v@),
        _ => Seq::empty(),
    }
}

/// An attribute with choices, of whatever type, has them in its entry, in single
/// quotes, and in its documentation, in double quotes.
pub proof fn law_choices_are_declared_and_documented(attr: IacAttribute)
    requires
        has_choices(attr),
    ensures
        text::contains(
            fragments::argspec_entry(attr),
            ", 'choices': ["@ + fragments::choice_list(choice_texts(attr), '\'') + "]"@,
        ),
        text::contains(
            fragments::option_block(attr),
            "\n      choices: ["@ + fragments::choice_list(choice_texts(attr), '"') + "]"@,
        ),
{
    broadcast use {text::lemma_contains_concat, text::lemma_contains_self};

    assert(choice_texts(attr) =~= text::texts(fragments::choices_of(attr)->0));
}

/// The entry of an input has a key for choices where the attribute has choices,
/// and one for elements where it is a list or a set, and nowhere else. Its
/// documentation has a line for choices and one for elements in the same places.
pub proof fn law_choices_and_elements_stand_where_they_belong(attr: IacAttribute, t: Seq<char>)
    requires
        is_single_line(attr),
        is_unquoted(attr),
        single_line(t),
    ensures
        text::contains(fragments::argspec_entry(attr), ", 'choices': ["@) <==> has_choices(attr),
        text::contains(fragments::argspec_entry(attr), ", 'elements': '"@) <==> has_elements(attr),
        has_line(fragments::option_block(attr), "      choices: ["@ + t + "]"@) <==> has_choices(
            attr,
        ) && t == fragments::choice_list(choice_texts(attr), '"'),
        t.len() > 0 && t.last() != ':' ==> (has_line(
            fragments::option_block(attr),
            "      elements: "@ + t,
        ) <==> match attr.iac_type {
            IacType::List(inner) => t == type_names::ansible_type_of(*inner),
            IacType::SetOf(inner) => t == type_names::ansible_type_of(*inner),
            _ => false,
        }),
{
    broadcast use {text::lemma_contains_concat, text::lemma_contains_self};

    reveal_strlit(", '");
    reveal_strlit("':");
    reveal_strlit("choices");
    reveal_strlit("elements");
    reveal_strlit(", 'choices': [");
    reveal_strlit(", 'elements': '");
    reveal_strlit(" [");
    reveal_strlit(" '");
    if has_choices(attr) {
        law_choices_are_declared_and_documented(attr);
        assert(choice_texts(attr) =~= text::texts(fragments::choices_of(attr)->0));
    } else {
        lemma_entry_lacks_flag(attr, "choices"@);
        assert(", 'choices': ["@ =~= entry_key("choices"@) + " ["@);
        lemma_entry_lacks(attr, "choices"@, ", 'choices': ["@, " ["@);
    }
    if !has_elements(attr) {
        lemma_entry_lacks_flag(attr, "elements"@);
        assert(", 'elements': '"@ =~= entry_key("elements"@) + " '"@);
        lemma_entry_lacks(attr, "elements"@, ", 'elements': '"@, " '"@);
    }
    lemma_choices_and_elements_lines(attr, t);
}

/// The lines for choices and elements in the documentation of an input.
proof fn lemma_choices_and_elements_lines(attr: IacAttribute, t: Seq<char>)
    requires
        is_single_line(attr),
        single_line(t),
    ensures
        has_line(fragments::option_block(attr), "      choices: ["@ + t + "]"@) <==> has_choices(
            attr,
        ) && t == fragments::choices_text(attr, '"')->0,
        t.len() > 0 && t.last() != ':' ==> (has_line(
            fragments::option_block(attr),
            "      elements: "@ + t,
        ) <==> match attr.iac_type {
            IacType::List(inner) => t == type_names::ansible_type_of(*inner),
            IacType::SetOf(inner) => t == type_names::ansible_type_of(*inner),
            _ => false,
        }),
{
    reveal_strlit("    ");
    reveal_strlit(":");
    reveal_strlit("\"");
    reveal_strlit("]");
    reveal_strlit("      description: \"");
    reveal_strlit("      type: ");
    reveal_strlit("      required: true");
    reveal_strlit("      no_log: true");
    reveal_strlit("      elements: ");
    reveal_strlit("      choices: [");
    let header = option_header(attr.canonical_name@);
    assert(header.last() == ':');
    let description = "      description: \""@ + fragments::escaped(attr.description@) + "\""@;
    assert(description[6] == 'd');
    let ty = "      type: "@ + type_names::ansible_type_of(attr.iac_type);
    assert(ty[6] == 't');
    let of = type_names::ansible_elements_of(attr.iac_type);
    let list = fragments::choices_text(attr, '"');
    let choices = "      choices: ["@ + t + "]"@;
    lemma_concat_lacks("      choices: ["@, t, '\n');
    lemma_concat_lacks("      choices: ["@ + t, "]"@, '\n');
    lemma_option_lines(attr, choices);
    assert(choices.last() == ']' && choices[6] == 'c');
    assert(t =~= choices.subrange(16, choices.len() - 1));
    if list is Some {
        let own = "      choices: ["@ + list->0 + "]"@;
        assert(list->0 =~= own.subrange(16, own.len() - 1));
    }
    if of is Some {
        let own = "      elements: "@ + of->0;
        assert(own[6] == 'e');
        assert(of->0 =~= own.subrange(16, own.len() as int));
    }
    if t.len() > 0 && t.last() != ':' {
        let elements = "      elements: "@ + t;
        lemma_concat_lacks("      elements: "@, t, '\n');
        lemma_option_lines(attr, elements);
        assert(elements.last() == t.last() && elements[6] == 'e');
        assert(t =~= elements.subrange(16, elements.len() as int));
        if list is Some {
            let own = "      choices: ["@ + list->0 + "]"@;
            assert(own[6] == 'c');
        }
    }
}

// ---------------------------------------------------------------------------
// Names of arguments and options
// ---------------------------------------------------------------------------

/// What the line of an argument starts with.
pub open spec fn entry_start(name: Seq<char>) -> Seq<char> {
    "    '"@ + name + "': {"@
}

/// The entry of an input stays on one line.
proof fn lemma_entry_single_line(attr: IacAttribute)
    requires
        is_single_line(attr),
    ensures
        single_line(fragments::argspec_entry(attr)),
{
    let c = '\n';
    let name = attr.canonical_name@;
    let ty = type_names::ansible_type_of(attr.iac_type);
    reveal_strlit("    '");
    reveal_strlit("': {'type': '");
    reveal_strlit("'");
    reveal_strlit(", 'required': True");
    reveal_strlit(", 'no_log': True");
    reveal_strlit(", 'elements': '");
    reveal_strlit(", 'choices': [");
    reveal_strlit("]");
    reveal_strlit("},");
    lemma_type_lacks(attr.iac_type, c);
    lemma_choices_single_line(attr, '\'');
    let a = "    '"@ + name;
    lemma_concat_lacks("    '"@, name, c);
    lemma_concat_lacks(a, "': {'type': '"@, c);
    lemma_concat_lacks(a + "': {'type': '"@, ty, c);
    lemma_concat_lacks(a + "': {'type': '"@ + ty, "'"@, c);
    let required = text::shown_if(attr.required, ", 'required': True"@);
    lemma_concat_lacks(entry_head(attr), required, c);
    let no_log = text::shown_if(attr.sensitive, ", 'no_log': True"@);
    lemma_concat_lacks(entry_head(attr) + required, no_log, c);
    let of = type_names::ansible_elements_of(attr.iac_type);
    let elements = text::wrapped(", 'elements': '"@, of, "'"@);
    if of is Some {
        lemma_concat_lacks(", 'elements': '"@, of->0, c);
        lemma_concat_lacks(", 'elements': '"@ + of->0, "'"@, c);
    }
    lemma_concat_lacks(entry_head(attr) + required + no_log, elements, c);
    let list = fragments::choices_text(attr, '\'');
    let choices = text::wrapped(", 'choices': ["@, list, "]"@);
    if list is Some {
        lemma_concat_lacks(", 'choices': ["@, list->0, c);
        lemma_concat_lacks(", 'choices': ["@ + list->0, "]"@, c);
    }
    lemma_concat_lacks(entry_head(attr) + required + no_log + elements, choices, c);
    lemma_concat_lacks(entry_head(attr) + required + no_log + elements + choices, "},"@, c);
}

/// The entry of an input starts with its name and with no other.
proof fn lemma_entry_start_names(attr: IacAttribute, name: Seq<char>)
    requires
        unquoted(attr.canonical_name@),
        unquoted(name),
    ensures
        entry_start(name).is_prefix_of(fragments::argspec_entry(attr)) <==> name
            == attr.canonical_name@,
{
    reveal_strlit("    '");
    reveal_strlit("': {'type': '");
    reveal_strlit("': {");
    let entry = fragments::argspec_entry(attr);
    let other = attr.canonical_name@;
    let rest = entry.skip(entry_start(other).len() as int);
    assert(entry =~= entry_start(other) + rest);
    if name == other {
        assert(entry_start(name).is_prefix_of(entry));
    }
    if entry_start(name).is_prefix_of(entry) {
        let start = entry_start(name);
        let n = name.len() as int;
        let o = other.len() as int;
        assert(start =~= entry.subrange(0, start.len() as int));
        assert(start[5 + n] == '\'');
        assert(entry[5 + n] == '\'');
        assert(entry[5 + o] == '\'');
        if n < o {
            assert(entry[5 + n] == other[n]);
            assert(other.contains(other[n]));
        }
        if o < n {
            assert(start[5 + o] == name[o]);
            assert(name.contains(name[o]));
        }
        assert forall|x: int| 0 <= x < name.len() implies name[x] == other[x] by {
            assert(start[5 + x] == name[x]);
            assert(entry[5 + x] == other[x]);
        }
        assert(name =~= other);
    }
}

/// An attribute that is kept is one of the attributes.
proof fn lemma_kept_is_one(
    attrs: Seq<IacAttribute>,
    keep: spec_fn(IacAttribute) -> bool,
    k: int,
) -> (j: int)
    requires
        0 <= k < attrs.filter(keep).len(),
    ensures
        0 <= j < attrs.len(),
        attrs[j] == attrs.filter(keep)[k],
        keep(attrs[j]),
{
    let kept = attrs.filter(keep);
    assert(kept.contains(kept[k]));
    attrs.lemma_filter_contains_rev(keep, kept[k]);
    attrs.lemma_filter_pred(keep, k);
    choose|j: int| 0 <= j < attrs.len() && attrs[j] == kept[k]
}

/// An attribute that is kept as an input is one of the attributes, and an input.
proof fn lemma_kept_is_input(attrs: Seq<IacAttribute>, k: int) -> (j: int)
    requires
        0 <= k < attrs.filter(ir::inputs()).len(),
    ensures
        0 <= j < attrs.len(),
        attrs[j] == attrs.filter(ir::inputs())[k],
        ir::is_input(attrs[j]),
{
    lemma_kept_is_one(attrs, ir::inputs(), k)
}

/// Two attributes of one name are the same one.
proof fn lemma_found_by_name(attrs: Seq<IacAttribute>, i: int, j: int)
    requires
        0 <= i < attrs.len(),
        0 <= j < attrs.len(),
        distinct_names(attrs),
        attrs[i].canonical_name@ == attrs[j].canonical_name@,
    ensures
        i == j,
{
}

/// The documented options name exactly the inputs: an attribute has a header
/// line there where users can set it, and nowhere else.
pub proof fn law_options_name_exactly_the_inputs(attrs: Seq<IacAttribute>, i: int)
    requires
        0 <= i < attrs.len(),
        distinct_names(attrs),
        forall|j: int| 0 <= j < attrs.len() ==> is_single_line(#[trigger] attrs[j]),
    ensures
        has_line(fragments::options_yaml(attrs), option_header(attrs[i].canonical_name@))
            <==> ir::is_input(attrs[i]),
{
    let name = attrs[i].canonical_name@;
    let line = option_header(name);
    let blocks = ir::attribute_texts(attrs, ir::inputs(), fragments::option_blocks());
    assert(is_single_line(attrs[i]));
    reveal_strlit("    ");
    reveal_strlit(":");
    lemma_concat_lacks("    "@, name, '\n');
    lemma_concat_lacks("    "@ + name, ":"@, '\n');
    lemma_lines_of_joined(blocks, line);
    if has_line(fragments::options_yaml(attrs), line) {
        let k = choose|k: int| 0 <= k < blocks.len() && has_line(#[trigger] blocks[k], line);
        let j = lemma_kept_is_input(attrs, k);
        assert(blocks[k] == fragments::option_block(attrs[j]));
        lemma_option_header(attrs[j], name);
        lemma_found_by_name(attrs, i, j);
    }
    if ir::is_input(attrs[i]) {
        let k = ir::lemma_attribute_texts_contain(
            attrs,
            ir::inputs(),
            fragments::option_blocks(),
            i,
        );
        lemma_option_header(attrs[i], name);
        assert(has_line(blocks[k], line));
    }
}

/// The arguments name exactly the inputs: an attribute has a line there where
/// users can set it, and nowhere else. A name with a quote in it could start
/// like the line of another, so none may have one.
pub proof fn law_arguments_name_exactly_the_inputs(attrs: Seq<IacAttribute>, i: int)
    requires
        0 <= i < attrs.len(),
        distinct_names(attrs),
        forall|j: int| 0 <= j < attrs.len() ==> is_single_line(#[trigger] attrs[j]),
        forall|j: int| 0 <= j < attrs.len() ==> unquoted((#[trigger] attrs[j]).canonical_name@),
    ensures
        has_line_starting(fragments::argument_spec(attrs), entry_start(attrs[i].canonical_name@))
            <==> ir::is_input(attrs[i]),
{
    let name = attrs[i].canonical_name@;
    let line = entry_start(name);
    let entries = ir::attribute_texts(attrs, ir::inputs(), fragments::argspec_entries());
    assert(is_single_line(attrs[i]));
    reveal_strlit("    '");
    reveal_strlit("': {");
    lemma_concat_lacks("    '"@, name, '\n');
    lemma_concat_lacks("    '"@ + name, "': {"@, '\n');
    lemma_lines_of_joined(entries, line);
    if has_line_starting(fragments::argument_spec(attrs), line) {
        let k = choose|k: int|
            0 <= k < entries.len() && has_line_starting(#[trigger] entries[k], line);
        let j = lemma_kept_is_input(attrs, k);
        assert(entries[k] == fragments::argspec_entry(attrs[j]));
        lemma_entry_single_line(attrs[j]);
        lemma_lines_of_single(entries[k], line);
        lemma_entry_start_names(attrs[j], name);
        lemma_found_by_name(attrs, i, j);
    }
    if ir::is_input(attrs[i]) {
        let k = ir::lemma_attribute_texts_contain(
            attrs,
            ir::inputs(),
            fragments::argspec_entries(),
            i,
        );
        lemma_entry_single_line(attrs[i]);
        lemma_lines_of_single(entries[k], line);
        lemma_entry_start_names(attrs[i], name);
        assert(has_line_starting(entries[k], line));
    }
}

/// The arguments and the documented options agree on every attribute: both name
/// it where users can set it and nowhere else, both then hold its declaration
/// and its documentation, and these say alike whether it is kept out of logs and
/// whether it is required.
pub proof fn law_arguments_and_options_agree(attrs: Seq<IacAttribute>, i: int)
    requires
        0 <= i < attrs.len(),
        distinct_names(attrs),
        forall|j: int|
            0 <= j < attrs.len() ==> is_single_line(#[trigger] attrs[j]) && is_unquoted(attrs[j]),
    ensures
        ({
            let name = attrs[i].canonical_name@;
            let arguments = fragments::argument_spec(attrs);
            let options = fragments::options_yaml(attrs);
            let entry = fragments::argspec_entry(attrs[i]);
            let block = fragments::option_block(attrs[i]);
            &&& has_line_starting(arguments, entry_start(name)) <==> ir::is_input(attrs[i])
            &&& has_line(options, option_header(name)) <==> ir::is_input(attrs[i])
            &&& ir::is_input(attrs[i]) ==> text::contains(arguments, entry) && text::contains(
                options,
                block,
            )
            &&& text::contains(entry, ", 'no_log': True"@) <==> attrs[i].sensitive
            &&& has_line(block, "      no_log: true"@) <==> attrs[i].sensitive
            &&& text::contains(entry, ", 'required': True"@) <==> attrs[i].required
            &&& has_line(block, "      required: true"@) <==> attrs[i].required
        }),
{
    law_arguments_name_exactly_the_inputs(attrs, i);
    law_options_name_exactly_the_inputs(attrs, i);
    law_entries_mark_exactly_what_attributes_say(attrs[i]);
    law_options_mark_exactly_what_attributes_say(attrs[i]);
    if ir::is_input(attrs[i]) {
        let k = ir::lemma_attribute_texts_contain(
            attrs,
            ir::inputs(),
            fragments::argspec_entries(),
            i,
        );
        text::lemma_joined_contains(
            ir::attribute_texts(attrs, ir::inputs(), fragments::argspec_entries()),
            "\n"@,
            k,
        );
        let n = ir::lemma_attribute_texts_contain(
            attrs,
            ir::inputs(),
            fragments::option_blocks(),
            i,
        );
        text::lemma_joined_contains(
            ir::attribute_texts(attrs, ir::inputs(), fragments::option_blocks()),
            "\n"@,
            n,
        );
    }
}

// ---------------------------------------------------------------------------
// Returned values
// ---------------------------------------------------------------------------

/// The lines of the documentation of a computed attribute.
proof fn lemma_return_lines(attr: IacAttribute, line: Seq<char>)
    requires
        is_single_line(attr),
        single_line(line),
    ensures
        has_line(fragments::return_block(attr), line) <==> {
            ||| line == attr.canonical_name@ + ":"@
            ||| line == "  description: \""@ + fragments::escaped(attr.description@) + "\""@
            ||| line == "  type: "@ + type_names::ansible_type_of(attr.iac_type)
            ||| line == "  returned: success"@
        },
{
    let name = attr.canonical_name@;
    let description = fragments::escaped(attr.description@);
    let ty = type_names::ansible_type_of(attr.iac_type);
    reveal_strlit("\n");
    reveal_strlit(":");
    reveal_strlit(":\n  description: \"");
    reveal_strlit("  description: \"");
    reveal_strlit("\"");
    reveal_strlit("\"\n  type: ");
    reveal_strlit("  type: ");
    reveal_strlit("\n  returned: success");
    reveal_strlit("  returned: success");
    lemma_type_lacks(attr.iac_type, '\n');
    lemma_single_line(attr.description@);
    assert(single_line(description)) by {
        if description.contains('\n') {
            let i = choose|i: int| 0 <= i < description.len() && description[i] == '\n';
            assert(attr.description@[i] != '\n');
        }
    }
    let l1 = name + ":"@;
    lemma_concat_lacks(name, ":"@, '\n');
    lemma_lines_of_single(l1, line);
    let l2 = "  description: \""@ + description + "\""@;
    lemma_concat_lacks("  description: \""@, description, '\n');
    lemma_concat_lacks("  description: \""@ + description, "\""@, '\n');
    lemma_one_more_line(l1, "\n"@ + l2, l2, line);
    let l3 = "  type: "@ + ty;
    lemma_concat_lacks("  type: "@, ty, '\n');
    let t2 = l1 + ("\n"@ + l2);
    lemma_one_more_line(t2, "\n"@ + l3, l3, line);
    let l4 = "  returned: success"@;
    let t3 = t2 + ("\n"@ + l3);
    lemma_one_more_line(t3, "\n"@ + l4, l4, line);
    assert(fragments::return_block(attr) =~= t3 + ("\n"@ + l4));
}

/// The documentation of a computed attribute has one line that ends in a colon,
/// its canonical name.
proof fn lemma_return_header(attr: IacAttribute, name: Seq<char>)
    requires
        is_single_line(attr),
        single_line(name),
    ensures
        has_line(fragments::return_block(attr), name + ":"@) <==> name == attr.canonical_name@,
{
    let line = name + ":"@;
    reveal_strlit(":");
    reveal_strlit("\"");
    reveal_strlit("  type: ");
    reveal_strlit("  returned: success");
    lemma_concat_lacks(name, ":"@, '\n');
    lemma_return_lines(attr, line);
    assert(line.last() == ':');
    let ty = type_names::ansible_type_of(attr.iac_type);
    lemma_type_letters(attr.iac_type);
    assert(("  type: "@ + ty).last() == ty.last());
    let other = attr.canonical_name@;
    let own = other + ":"@;
    if line == own {
        assert(name =~= line.subrange(0, line.len() - 1));
        assert(other =~= own.subrange(0, own.len() - 1));
    }
}

/// The returned values name exactly the computed attributes: an attribute has a
/// line with its canonical name there where it is computed, and nowhere else.
/// Its description, its type and when it is returned follow that line.
pub proof fn law_returned_values_name_exactly_the_computed(attrs: Seq<IacAttribute>, i: int)
    requires
        0 <= i < attrs.len(),
        distinct_names(attrs),
        forall|j: int| 0 <= j < attrs.len() ==> is_single_line(#[trigger] attrs[j]),
    ensures
        has_line(fragments::return_yaml(attrs), attrs[i].canonical_name@ + ":"@)
            <==> attrs[i].computed,
        attrs[i].computed ==> text::contains(
            fragments::return_yaml(attrs),
            attrs[i].canonical_name@ + ":\n  description: \""@ + fragments::escaped(
                attrs[i].description@,
            ) + "\"\n  type: "@ + type_names::ansible_type_of(attrs[i].iac_type)
                + "\n  returned: success"@,
        ),
{
    let name = attrs[i].canonical_name@;
    let line = name + ":"@;
    let blocks = ir::attribute_texts(attrs, ir::computed(), fragments::return_blocks());
    assert(is_single_line(attrs[i]));
    reveal_strlit(":");
    lemma_concat_lacks(name, ":"@, '\n');
    lemma_lines_of_joined(blocks, line);
    if attrs[i].computed {
        let k = ir::lemma_attribute_texts_contain(
            attrs,
            ir::computed(),
            fragments::return_blocks(),
            i,
        );
        lemma_return_header(attrs[i], name);
        assert(has_line(blocks[k], line));
        text::lemma_joined_contains(blocks, "\n"@, k);
    } else if blocks.len() == 0 {
        reveal_strlit("# No computed fields");
        let remark = "# No computed fields"@;
        assert(single_line(remark));
        lemma_lines_of_single(remark, line);
        assert(line.last() == ':' && remark.last() == 's');
    } else if has_line(fragments::return_yaml(attrs), line) {
        let k = choose|k: int| 0 <= k < blocks.len() && has_line(#[trigger] blocks[k], line);
        let j = lemma_kept_is_one(attrs, ir::computed(), k);
        assert(blocks[k] == fragments::return_block(attrs[j]));
        lemma_return_header(attrs[j], name);
        lemma_found_by_name(attrs, i, j);
    }
}

} // verus!
