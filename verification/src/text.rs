//! Text building blocks: occurrence, joined lists, and the character and
//! string mappings of the standard library that the generators rely on.
use vstd::prelude::*;

verus! {

// ---------------------------------------------------------------------------
// Models
// ---------------------------------------------------------------------------

/// `needle` stands in `text` at position `at`.
pub open spec fn occurs_at(text: Seq<char>, needle: Seq<char>, at: int) -> bool {
    &&& 0 <= at
    &&& at + needle.len() <= text.len()
    &&& text.subrange(at, at + needle.len()) == needle
}

/// `needle` stands somewhere in `text`.
pub open spec fn contains(text: Seq<char>, needle: Seq<char>) -> bool {
    exists|at: int| occurs_at(text, needle, at)
}

/// The texts of a list of strings.
pub open spec fn texts(strings: Seq<String>) -> Seq<Seq<char>> {
    strings.map_values(|s: String| s@)
}

/// `parts` in order, with `sep` between neighbours.
pub open spec fn joined(parts: Seq<Seq<char>>, sep: Seq<char>) -> Seq<char>
    decreases parts.len(),
{
    if parts.len() == 0 {
        Seq::empty()
    } else if parts.len() == 1 {
        parts[0]
    } else {
        joined(parts.drop_last(), sep) + sep + parts.last()
    }
}

/// `text` with every `from` turned into `to`.
pub open spec fn replaced(text: Seq<char>, from: char, to: char) -> Seq<char> {
    text.map_values(|c: char| if c == from { to } else { c })
}

/// `text` if `shown`, nothing otherwise.
pub open spec fn shown_if(shown: bool, text: Seq<char>) -> Seq<char> {
    if shown {
        text
    } else {
        Seq::empty()
    }
}

/// A text that is there between `before` and `after`, nothing for one that is
/// not.
pub open spec fn wrapped(before: Seq<char>, text: Option<Seq<char>>, after: Seq<char>) -> Seq<char> {
    match text {
        Some(text) => before + text + after,
        None => Seq::empty(),
    }
}

/// A text that is there after `before`, nothing for one that is not.
pub open spec fn prefixed(before: Seq<char>, text: Option<Seq<char>>) -> Seq<char> {
    match text {
        Some(text) => before + text,
        None => Seq::empty(),
    }
}

/// An ASCII upper case letter.
pub open spec fn is_upper(c: char) -> bool {
    'A' <= c <= 'Z'
}

/// An ASCII lower case letter.
pub open spec fn is_lower(c: char) -> bool {
    'a' <= c <= 'z'
}

/// An ASCII digit.
pub open spec fn is_digit(c: char) -> bool {
    '0' <= c <= '9'
}

/// An ASCII character.
pub open spec fn is_ascii_char(c: char) -> bool {
    c as u32 <= 0x7f
}

/// A text of ASCII characters only.
pub open spec fn ascii_text(text: Seq<char>) -> bool {
    forall|i: int| 0 <= i < text.len() ==> is_ascii_char(#[trigger] text[i])
}

/// The ASCII letters `A` to `Z` mapped to `a` to `z`, all else kept.
pub open spec fn ascii_lower(c: char) -> char {
    if is_upper(c) {
        (c as u32 + 32) as char
    } else {
        c
    }
}

/// The ASCII letters `a` to `z` mapped to `A` to `Z`, all else kept.
pub open spec fn ascii_upper(c: char) -> char {
    if is_lower(c) {
        (c as u32 - 32) as char
    } else {
        c
    }
}

/// Printable ASCII other than quotes and the backslash.
pub open spec fn is_plain_char(c: char) -> bool {
    ' ' <= c <= '~' && c != '"' && c != '\'' && c != '\\'
}

/// A text that needs no escapes inside a quoted literal.
pub open spec fn plain_text(text: Seq<char>) -> bool {
    forall|i: int| 0 <= i < text.len() ==> is_plain_char(#[trigger] text[i])
}

// ---------------------------------------------------------------------------
// What the standard library supplies
// ---------------------------------------------------------------------------

/// The lower case mapping of a character, one or more characters long.
pub uninterp spec fn char_lowercase(c: char) -> Seq<char>;

/// The upper case mapping of a character, one or more characters long.
pub uninterp spec fn char_uppercase(c: char) -> Seq<char>;

/// A text as a double-quoted literal with escapes.
pub uninterp spec fn str_debug(text: Seq<char>) -> Seq<char>;

/// `String::push` appends one character at the end.
pub assume_specification[ std::string::String::push ](s: &mut std::string::String, c: char)
    ensures
        final(s)@ == old(s)@.push(c),
;

/// `char::to_lowercase`: the Unicode lower case mapping, collected. On ASCII
/// it maps the letters `A` to `Z` to `a` to `z` and keeps all else.
#[verifier::external_body]
fn lowercase_of(c: char) -> (res: String)
    ensures
        res@ == char_lowercase(c),
        is_ascii_char(c) ==> res@ == seq![ascii_lower(c)],
{
    c.to_lowercase().collect()
}

/// `char::to_uppercase`: the Unicode upper case mapping, collected. On ASCII
/// it maps the letters `a` to `z` to `A` to `Z` and keeps all else.
#[verifier::external_body]
pub(crate) fn uppercase_of(c: char) -> (res: String)
    ensures
        res@ == char_uppercase(c),
        is_ascii_char(c) ==> res@ == seq![ascii_upper(c)],
{
    c.to_uppercase().collect()
}

/// The `Debug` formatting of a string slice: the text between double quotes,
/// with escapes where they are needed. Printable ASCII other than quotes and
/// the backslash needs none.
#[verifier::external_body]
pub(crate) fn debug_quoted(text: &str) -> (res: String)
    ensures
        res@ == str_debug(text@),
        plain_text(text@) ==> res@ == seq!['"'] + text@ + seq!['"'],
{
    format!("{text:?}")
}

// ---------------------------------------------------------------------------
// Operations
// ---------------------------------------------------------------------------

/// The characters of `text`, in order.
pub fn chars_of(text: &str) -> (res: Vec<char>)
    ensures
        res@ == text@,
{
    let mut out: Vec<char> = Vec::new();
    for c in it: text.chars()
        invariant
            it.seq() == text@,
            out@ == it.seq().take(it.index()),
    {
        out.push(c);
        assert(it.seq().take(it.index() + 1) =~= it.seq().take(it.index()).push(c));
    }
    out
}

/// The lower case mapping of each character of `chars`.
pub fn lowercase_each(chars: &Vec<char>) -> (res: Vec<String>)
    ensures
        res@.len() == chars@.len(),
        forall|i: int|
            #![trigger res@[i]]
            0 <= i < chars@.len() ==> {
                &&& res@[i]@ == char_lowercase(chars@[i])
                &&& is_ascii_char(chars@[i]) ==> res@[i]@ == seq![ascii_lower(chars@[i])]
            },
{
    let mut out: Vec<String> = Vec::new();
    let mut i: usize = 0;
    while i < chars.len()
        invariant
            i <= chars@.len(),
            out@.len() == i,
            forall|j: int|
                #![trigger out@[j]]
                0 <= j < i ==> {
                    &&& out@[j]@ == char_lowercase(chars@[j])
                    &&& is_ascii_char(chars@[j]) ==> out@[j]@ == seq![ascii_lower(chars@[j])]
                },
        decreases chars@.len() - i,
    {
        out.push(lowercase_of(chars[i]));
        i += 1;
    }
    out
}

/// `text` with every `from` turned into `to`.
pub fn replace_char(text: &str, from: char, to: char) -> (res: String)
    ensures
        res@ == replaced(text@, from, to),
        from != to ==> !res@.contains(from),
{
    let mut out: String = String::new();
    for c in it: text.chars()
        invariant
            it.seq() == text@,
            out@ == replaced(it.seq().take(it.index()), from, to),
    {
        if c == from {
            out.push(to);
        } else {
            out.push(c);
        }
        assert(it.seq().take(it.index() + 1) =~= it.seq().take(it.index()).push(c));
        assert(replaced(it.seq().take(it.index() + 1), from, to) =~= replaced(
            it.seq().take(it.index()),
            from,
            to,
        ).push(if c == from { to } else { c }));
    }
    assert(text@.take(text@.len() as int) =~= text@);
    out
}

/// Whether two texts are the same.
pub fn same_text(a: &str, b: &str) -> (res: bool)
    ensures
        res == (a@ == b@),
{
    a.to_owned() == b.to_owned()
}

/// `parts` in order, with `sep` between neighbours.
pub fn join(parts: &Vec<String>, sep: &str) -> (res: String)
    ensures
        res@ == joined(texts(parts@), sep@),
{
    let mut out: String = String::new();
    let mut i: usize = 0;
    while i < parts.len()
        invariant
            i <= parts@.len(),
            out@ == joined(texts(parts@).take(i as int), sep@),
        decreases parts@.len() - i,
    {
        if i > 0 {
            out.append(sep);
        }
        out.append(parts[i].as_str());
        proof {
            let all = texts(parts@);
            assert(all.take(i + 1).drop_last() =~= all.take(i as int));
            assert(all.take(i + 1).last() == parts@[i as int]@);
            assert(i == 0 ==> out@ =~= all[0]);
        }
        i += 1;
    }
    assert(texts(parts@).take(parts@.len() as int) =~= texts(parts@));
    out
}

/// Appends `text` if `shown`.
pub fn append_if(out: &mut String, shown: bool, text: &str)
    ensures
        final(out)@ == old(out)@ + shown_if(shown, text@),
{
    if shown {
        out.append(text);
    } else {
        assert(out@ =~= old(out)@ + Seq::empty());
    }
}

/// Appends a text that is there between `before` and `after`.
pub fn append_wrapped(out: &mut String, before: &str, text: Option<&str>, after: &str)
    ensures
        final(out)@ == old(out)@ + wrapped(
            before@,
            match text {
                Some(text) => Some(text@),
                None => None,
            },
            after@,
        ),
{
    match text {
        Some(text) => {
            out.append(before);
            out.append(text);
            out.append(after);
            assert(out@ =~= old(out)@ + (before@ + text@ + after@));
        },
        None => {
            assert(out@ =~= old(out)@ + Seq::empty());
        },
    }
}

/// Appends a text that is there after `before`.
pub fn append_prefixed(out: &mut String, before: &str, text: Option<&str>)
    ensures
        final(out)@ == old(out)@ + prefixed(
            before@,
            match text {
                Some(text) => Some(text@),
                None => None,
            },
        ),
{
    match text {
        Some(text) => {
            out.append(before);
            out.append(text);
            assert(out@ =~= old(out)@ + (before@ + text@));
        },
        None => {
            assert(out@ =~= old(out)@ + Seq::empty());
        },
    }
}

// ---------------------------------------------------------------------------
// Facts about the models
// ---------------------------------------------------------------------------

/// What stands in one of two texts stands in the two put together.
pub broadcast proof fn lemma_contains_concat(left: Seq<char>, right: Seq<char>, needle: Seq<char>)
    ensures
        contains(left, needle) || contains(right, needle) ==> #[trigger] contains(
            left + right,
            needle,
        ),
{
    if contains(left, needle) {
        let at = choose|at: int| occurs_at(left, needle, at);
        assert((left + right).subrange(at, at + needle.len()) =~= needle);
        assert(occurs_at(left + right, needle, at));
    }
    if contains(right, needle) {
        let at = choose|at: int| occurs_at(right, needle, at);
        let shifted = left.len() + at;
        assert((left + right).subrange(shifted, shifted + needle.len()) =~= right.subrange(
            at,
            at + needle.len(),
        ));
        assert(occurs_at(left + right, needle, shifted));
    }
}

/// Every text contains itself.
pub broadcast proof fn lemma_contains_self(text: Seq<char>)
    ensures
        #[trigger] contains(text, text),
{
    assert(text.subrange(0, text.len() as int) =~= text);
    assert(occurs_at(text, text, 0));
}

/// What stands in a part of a text stands in the text.
pub proof fn lemma_contains_transitive(text: Seq<char>, part: Seq<char>, needle: Seq<char>)
    requires
        contains(text, part),
        contains(part, needle),
    ensures
        contains(text, needle),
{
    let outer = choose|at: int| occurs_at(text, part, at);
    let inner = choose|at: int| occurs_at(part, needle, at);
    let at = outer + inner;
    assert(text.subrange(at, at + needle.len()) =~= part.subrange(inner, inner + needle.len()));
    assert(occurs_at(text, needle, at));
}

/// A joined list contains each of its parts.
pub proof fn lemma_joined_contains(parts: Seq<Seq<char>>, sep: Seq<char>, i: int)
    requires
        0 <= i < parts.len(),
    ensures
        contains(joined(parts, sep), parts[i]),
    decreases parts.len(),
{
    broadcast use {lemma_contains_concat, lemma_contains_self};

    if parts.len() > 1 && i < parts.len() - 1 {
        lemma_joined_contains(parts.drop_last(), sep, i);
        assert(parts.drop_last()[i] == parts[i]);
    }
}

/// Pushing a string pushes its text.
pub proof fn lemma_texts_push(strings: Seq<String>, s: String)
    ensures
        texts(strings.push(s)) == texts(strings).push(s@),
{
    assert(texts(strings.push(s)) =~= texts(strings).push(s@));
}

} // verus!
