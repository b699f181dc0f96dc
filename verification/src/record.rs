//! The shape of one registry entry, and what it means for a registry to be
//! well formed.

use vstd::prelude::*;

verus! {

/// One entry of a status code registry. Its four fields are, in order: the
/// numeric status code; the short human-readable description, such as
/// "Not Found"; the citation of the document that defines the code; and one
/// or more URIs of the cited documents, in a single string.
pub type StatusRecord = (usize, &'static str, &'static str, &'static str);

/// The numeric status code of an entry.
pub open spec fn code_of(record: StatusRecord) -> usize {
    record.0
}

/// The description of an entry, as a sequence of characters.
pub open spec fn description_of(record: StatusRecord) -> Seq<char> {
    record.1@
}

/// No code is held by two entries of the registry.
pub open spec fn codes_unique(registry: Seq<StatusRecord>) -> bool {
    forall|i: int, j: int|
        0 <= i < registry.len() && 0 <= j < registry.len() && i != j ==> code_of(registry[i])
            != code_of(registry[j])
}

/// The entries stand in strictly ascending order of their codes.
pub open spec fn codes_ascending(registry: Seq<StatusRecord>) -> bool {
    forall|i: int, j: int|
        0 <= i < j < registry.len() ==> code_of(registry[i]) < code_of(registry[j])
}

/// A registry in ascending order of codes holds no code twice.
pub proof fn ascending_codes_are_unique(registry: Seq<StatusRecord>)
    requires
        codes_ascending(registry),
    ensures
        codes_unique(registry),
{
    assert forall|i: int, j: int|
        0 <= i < registry.len() && 0 <= j < registry.len() && i != j implies code_of(registry[i])
        != code_of(registry[j]) by {
        if i < j {
            assert(code_of(registry[i]) < code_of(registry[j]));
        } else {
            assert(code_of(registry[j]) < code_of(registry[i]));
        }
    }
}

} // verus!
