//! Names that the Python SDK gives to the methods and model classes of an
//! `OpenAPI` schema.
use vstd::prelude::*;

use crate::text;
use crate::text::{chars_of, lowercase_each, uppercase_of};

verus! {

/// A new word starts at position `i`: at an upper case letter that follows a
/// lower case letter or a digit (`aB`), or that ends a run of upper case
/// letters before a lower case one (`ABc`).
pub open spec fn word_starts(name: Seq<char>, i: int) -> bool {
    &&& 0 < i < name.len()
    &&& text::is_upper(name[i])
    &&& {
        ||| text::is_lower(name[i - 1])
        ||| text::is_digit(name[i - 1])
        ||| text::is_upper(name[i - 1]) && i + 1 < name.len() && text::is_lower(name[i + 1])
    }
}

/// What the character at position `i` becomes in a method name, `lowered`
/// being the lower case mappings of the characters.
pub open spec fn method_piece(name: Seq<char>, lowered: Seq<Seq<char>>, i: int) -> Seq<char> {
    if name[i] == '-' {
        seq!['_']
    } else {
        text::shown_if(word_starts(name, i), seq!['_']) + lowered[i]
    }
}

/// The method name as far as the first `n` characters go.
pub open spec fn method_prefix(name: Seq<char>, lowered: Seq<Seq<char>>, n: int) -> Seq<char>
    decreases n,
{
    if n <= 0 {
        Seq::empty()
    } else {
        method_prefix(name, lowered, n - 1) + method_piece(name, lowered, n - 1)
    }
}

/// The lower case mappings of the characters of a name.
pub open spec fn lowered(name: Seq<char>) -> Seq<Seq<char>> {
    name.map_values(|c: char| text::char_lowercase(c))
}

/// The SDK method name for a schema name.
pub open spec fn method_name(schema: Seq<char>) -> Seq<char> {
    method_prefix(schema, lowered(schema), schema.len() as int)
}

/// `name` with `head` in place of its first character.
pub open spec fn with_head(name: Seq<char>, head: Seq<char>) -> Seq<char> {
    head + name.skip(1)
}

/// The SDK model class name for a schema name.
pub open spec fn model_class_name(schema: Seq<char>) -> Seq<char> {
    if schema.len() == 0 {
        Seq::empty()
    } else {
        with_head(schema, text::char_uppercase(schema[0]))
    }
}

/// Tests an ASCII upper case letter.
fn upper(c: char) -> (res: bool)
    ensures
        res == text::is_upper(c),
{
    'A' <= c && c <= 'Z'
}

/// Tests an ASCII lower case letter.
fn lower(c: char) -> (res: bool)
    ensures
        res == text::is_lower(c),
{
    'a' <= c && c <= 'z'
}

/// Tests an ASCII digit.
fn digit(c: char) -> (res: bool)
    ensures
        res == text::is_digit(c),
{
    '0' <= c && c <= '9'
}

/// Whether a new word starts at position `i`.
pub fn starts_word(chars: &Vec<char>, i: usize) -> (res: bool)
    requires
        i < chars@.len(),
    ensures
        res == word_starts(chars@, i as int),
{
    if i == 0 || !upper(chars[i]) {
        return false;
    }
    let last: usize = chars.len() - 1;
    let prev: char = chars[i - 1];
    let next_is_lower: bool = i < last && lower(chars[i + 1]);
    lower(prev) || digit(prev) || (upper(prev) && next_is_lower)
}

/// Puts a method name together from the characters of a schema name and their
/// lower case mappings.
pub fn assemble_method_name(chars: &Vec<char>, lowered: &Vec<String>) -> (res: String)
    requires
        chars@.len() == lowered@.len(),
    ensures
        res@ == method_prefix(chars@, text::texts(lowered@), chars@.len() as int),
{
    let mut out: String = String::new();
    let mut i: usize = 0;
    while i < chars.len()
        invariant
            i <= chars@.len(),
            chars@.len() == lowered@.len(),
            out@ == method_prefix(chars@, text::texts(lowered@), i as int),
        decreases chars@.len() - i,
    {
        let ghost before = out@;
        if chars[i] == '-' {
            out.push('_');
            assert(out@ =~= before + seq!['_']);
        } else {
            if starts_word(chars, i) {
                out.push('_');
            }
            out.append(lowered[i].as_str());
            assert(out@ =~= before + method_piece(chars@, text::texts(lowered@), i as int));
        }
        i += 1;
    }
    out
}

/// Converts a schema name (`camelCase` or `PascalCase`) to the name of the SDK
/// method: `_` goes between a lower case letter or a digit and an upper case
/// letter, and before the last letter of an upper case run that a lower case
/// letter follows, so `CreatePKICertIssuer` gives `create_pki_cert_issuer`.
/// Hyphens become underscores too.
#[must_use]
pub fn python_sdk_method_name(schema_name: &str) -> (res: String)
    ensures
        res@ == method_name(schema_name@),
        text::ascii_text(schema_name@) ==> res@ == ascii_method_name(schema_name@),
{
    let chars: Vec<char> = chars_of(schema_name);
    let mappings: Vec<String> = lowercase_each(&chars);
    assert(text::texts(mappings@) =~= lowered(schema_name@));
    assert(text::ascii_text(schema_name@) ==> text::texts(mappings@) =~= ascii_lowered(
        schema_name@,
    ));
    assemble_method_name(&chars, &mappings)
}

/// Puts `head` in place of the first character of `name`.
pub fn replace_head(name: &str, head: &str) -> (res: String)
    requires
        name@.len() > 0,
    ensures
        res@ == with_head(name@, head@),
{
    let mut out: String = head.to_owned();
    let tail_end: usize = name.unicode_len();
    out.append(name.substring_char(1, tail_end));
    assert(name@.subrange(1, name@.len() as int) =~= name@.skip(1));
    out
}

/// Converts a schema name to the name of the SDK model class: the first
/// character is put in upper case, the rest is kept.
#[must_use]
pub fn python_sdk_model_class_name(schema_name: &str) -> (res: String)
    ensures
        res@ == model_class_name(schema_name@),
        text::ascii_text(schema_name@) ==> res@ == ascii_model_class_name(schema_name@),
{
    if schema_name.is_empty() {
        return String::new();
    }
    let head: String = uppercase_of(schema_name.get_char(0));
    replace_head(schema_name, head.as_str())
}

// ---------------------------------------------------------------------------
// ASCII names
// ---------------------------------------------------------------------------

/// The lower case mappings of the characters of an ASCII name.
pub open spec fn ascii_lowered(name: Seq<char>) -> Seq<Seq<char>> {
    name.map_values(|c: char| seq![text::ascii_lower(c)])
}

/// The SDK method name for a schema name in ASCII.
pub open spec fn ascii_method_name(schema: Seq<char>) -> Seq<char> {
    method_prefix(schema, ascii_lowered(schema), schema.len() as int)
}

/// The SDK model class name for a schema name in ASCII.
pub open spec fn ascii_model_class_name(schema: Seq<char>) -> Seq<char> {
    if schema.len() == 0 {
        Seq::empty()
    } else {
        with_head(schema, seq![text::ascii_upper(schema[0])])
    }
}

/// Neither `_` nor `-`.
pub open spec fn is_word_char(c: char) -> bool {
    c != '_' && c != '-'
}

/// The characters of a name without its underscores and hyphens.
pub open spec fn word_chars(name: Seq<char>) -> Seq<char> {
    name.filter(|c: char| is_word_char(c))
}

/// A name in lower case.
pub open spec fn lower_case(name: Seq<char>) -> Seq<char> {
    name.map_values(|c: char| text::ascii_lower(c))
}

proof fn lemma_method_prefix_word_chars(name: Seq<char>, n: int)
    requires
        text::ascii_text(name),
        0 <= n <= name.len(),
    ensures
        word_chars(method_prefix(name, ascii_lowered(name), n)) == lower_case(
            word_chars(name.take(n)),
        ),
    decreases n,
{
    let keep = |c: char| is_word_char(c);
    reveal(Seq::filter);
    if n == 0 {
        assert(lower_case(word_chars(name.take(0))) =~= Seq::empty());
        assert(word_chars(method_prefix(name, ascii_lowered(name), 0)) =~= Seq::empty());
    } else {
        lemma_method_prefix_word_chars(name, n - 1);
        let c = name[n - 1];
        let before = method_prefix(name, ascii_lowered(name), n - 1);
        let piece = method_piece(name, ascii_lowered(name), n - 1);
        Seq::filter_distributes_over_add(before, piece, keep);
        assert(name.take(n).drop_last() =~= name.take(n - 1));
        assert(name.take(n).last() == c);
        let kept = text::shown_if(is_word_char(c), seq![text::ascii_lower(c)]);
        assert(word_chars(piece) =~= kept) by {
            let mark = text::shown_if(word_starts(name, n - 1), seq!['_']);
            let letter = seq![text::ascii_lower(c)];
            assert(seq!['_'].drop_last() =~= Seq::empty());
            assert(letter.drop_last() =~= Seq::empty());
            if c != '-' {
                Seq::filter_distributes_over_add(mark, letter, keep);
                assert(mark.filter(keep) =~= Seq::empty());
            }
        }
        assert(lower_case(word_chars(name.take(n))) =~= lower_case(word_chars(name.take(n - 1)))
            + kept);
    }
}

/// A method name keeps every letter and digit of an ASCII schema name, in
/// order and in lower case; only underscores and hyphens come or go.
pub proof fn law_method_name_drops_nothing(schema: Seq<char>)
    requires
        text::ascii_text(schema),
    ensures
        word_chars(ascii_method_name(schema)) == lower_case(word_chars(schema)),
{
    lemma_method_prefix_word_chars(schema, schema.len() as int);
    assert(schema.take(schema.len() as int) =~= schema);
}

proof fn lemma_plain_prefix(name: Seq<char>, n: int)
    requires
        text::plain_text(name),
        0 <= n <= name.len(),
    ensures
        text::plain_text(method_prefix(name, ascii_lowered(name), n)),
    decreases n,
{
    if n > 0 {
        lemma_plain_prefix(name, n - 1);
        assert(text::is_plain_char(name[n - 1]));
        assert(text::plain_text(method_piece(name, ascii_lowered(name), n - 1)));
    }
}

/// A schema name without special characters is in ASCII, and its method and
/// model class names hold no special characters either.
pub proof fn lemma_plain_names(schema: Seq<char>)
    requires
        text::plain_text(schema),
    ensures
        text::ascii_text(schema),
        text::plain_text(ascii_method_name(schema)),
        text::plain_text(ascii_model_class_name(schema)),
{
    assert forall|i: int| 0 <= i < schema.len() implies text::is_ascii_char(#[trigger] schema[i]) by {
        assert(text::is_plain_char(schema[i]));
    }
    lemma_plain_prefix(schema, schema.len() as int);
    if schema.len() > 0 {
        assert(text::is_plain_char(schema[0]));
    }
    let class = ascii_model_class_name(schema);
    assert forall|i: int| 0 <= i < class.len() implies text::is_plain_char(#[trigger] class[i]) by {
        assert(text::is_plain_char(schema[i]));
    }
}

/// A name as a Python SDK method has it: ASCII without upper case letters and
/// hyphens.
pub open spec fn is_method_style(name: Seq<char>) -> bool {
    forall|i: int|
        0 <= i < name.len() ==> text::is_ascii_char(#[trigger] name[i]) && !text::is_upper(name[i])
            && name[i] != '-'
}

proof fn lemma_method_prefix_style(name: Seq<char>, n: int)
    requires
        text::ascii_text(name),
        0 <= n <= name.len(),
    ensures
        is_method_style(method_prefix(name, ascii_lowered(name), n)),
    decreases n,
{
    if n > 0 {
        lemma_method_prefix_style(name, n - 1);
        assert(text::is_ascii_char(name[n - 1]));
        assert(is_method_style(method_piece(name, ascii_lowered(name), n - 1)));
    }
}

/// The method name of an ASCII schema name has neither upper case letters nor
/// hyphens.
pub proof fn law_method_name_style(schema: Seq<char>)
    requires
        text::ascii_text(schema),
    ensures
        is_method_style(ascii_method_name(schema)),
{
    lemma_method_prefix_style(schema, schema.len() as int);
}

proof fn lemma_method_prefix_identity(name: Seq<char>, n: int)
    requires
        is_method_style(name),
        0 <= n <= name.len(),
    ensures
        method_prefix(name, ascii_lowered(name), n) == name.take(n),
    decreases n,
{
    if n == 0 {
        assert(name.take(0) =~= Seq::empty());
    } else {
        lemma_method_prefix_identity(name, n - 1);
        assert(!text::is_upper(name[n - 1]) && name[n - 1] != '-');
        assert(name.take(n) =~= name.take(n - 1) + seq![name[n - 1]]);
        assert(method_piece(name, ascii_lowered(name), n - 1) =~= seq![name[n - 1]]);
    }
}

/// A name that is a method name already stays as it is, so converting a second
/// time changes nothing.
pub proof fn law_method_name_is_stable(schema: Seq<char>)
    requires
        text::ascii_text(schema),
    ensures
        is_method_style(schema) ==> ascii_method_name(schema) == schema,
        ascii_method_name(ascii_method_name(schema)) == ascii_method_name(schema),
{
    let method = ascii_method_name(schema);
    law_method_name_style(schema);
    lemma_method_prefix_identity(method, method.len() as int);
    assert(method.take(method.len() as int) =~= method);
    if is_method_style(schema) {
        lemma_method_prefix_identity(schema, schema.len() as int);
        assert(schema.take(schema.len() as int) =~= schema);
    }
}

/// A model class name differs from an ASCII schema name in the first character
/// at most, which is not a lower case letter; a name that starts otherwise
/// stays as it is.
pub proof fn law_model_class_name_keeps_the_tail(schema: Seq<char>)
    requires
        text::ascii_text(schema),
    ensures
        ascii_model_class_name(schema).len() == schema.len(),
        schema.len() > 0 ==> {
            &&& !text::is_lower(ascii_model_class_name(schema)[0])
            &&& ascii_model_class_name(schema).skip(1) == schema.skip(1)
        },
        schema.len() > 0 && !text::is_lower(schema[0]) ==> ascii_model_class_name(schema)
            == schema,
        ascii_model_class_name(ascii_model_class_name(schema)) == ascii_model_class_name(schema),
{
    let class = ascii_model_class_name(schema);
    if schema.len() > 0 {
        assert(class.skip(1) =~= schema.skip(1));
        if !text::is_lower(schema[0]) {
            assert(class =~= schema);
        }
        assert(ascii_model_class_name(class) =~= class);
    }
}

} // verus!
