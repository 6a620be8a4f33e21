//! Name transformations shared with the other `iac-forge` backends.
use vstd::prelude::*;

use crate::text;

verus! {

/// `name` without a leading `<provider>_`, where it has one.
pub open spec fn unprefixed(name: Seq<char>, provider: Seq<char>) -> Seq<char> {
    let prefix = provider.push('_');
    if prefix.is_prefix_of(name) {
        name.skip(prefix.len() as int)
    } else {
        name
    }
}

/// `name` with hyphens turned into underscores.
pub open spec fn snake_cased(name: Seq<char>) -> Seq<char> {
    text::replaced(name, '-', '_')
}

/// `iac_forge::strip_provider_prefix` takes a leading `<provider>_` off a name
/// and returns any other name unchanged.
pub assume_specification<'a>[ iac_forge::strip_provider_prefix ](
    name: &'a str,
    provider: &str,
) -> (res: &'a str)
    ensures
        res@ == unprefixed(name@, provider@),
;

/// `iac_forge::to_snake_case` turns every hyphen into an underscore and keeps
/// every other character.
pub assume_specification[ iac_forge::to_snake_case ](name: &str) -> (res: std::string::String)
    ensures
        res@ == snake_cased(name@),
;

/// Stripping the prefix undoes prepending it.
pub proof fn law_prefix_is_stripped(provider: Seq<char>, rest: Seq<char>)
    ensures
        unprefixed(provider.push('_') + rest, provider) == rest,
{
    let name = provider.push('_') + rest;
    assert(provider.push('_').is_prefix_of(name));
    assert(name.skip(provider.len() as int + 1) =~= rest);
}

/// A snake-cased name holds no hyphen, and snake-casing it again changes
/// nothing.
pub proof fn law_snake_case_is_stable(name: Seq<char>)
    ensures
        !snake_cased(name).contains('-'),
        snake_cased(snake_cased(name)) == snake_cased(name),
{
    assert(snake_cased(snake_cased(name)) =~= snake_cased(name));
}

} // verus!
