//! Exact lookup of a status code.

use vstd::prelude::*;
use crate::record::StatusRecord;
use crate::record::code_of;
use crate::record::codes_unique;

verus! {

/// Entry `i` is the first entry of `registry` whose code is `code`.
pub open spec fn is_first_with_code(registry: Seq<StatusRecord>, code: usize, i: int) -> bool {
    &&& 0 <= i < registry.len()
    &&& code_of(registry[i]) == code
    &&& forall|j: int| 0 <= j < i ==> code_of(registry[j]) != code
}

/// Some entry of `registry` has the code `code`.
pub open spec fn has_code(registry: Seq<StatusRecord>, code: usize) -> bool {
    exists|i: int| 0 <= i < registry.len() && code_of(registry[i]) == code
}

/// Looks a status code up in a registry: the first entry with that code, or
/// `None` where the registry has no such entry.
pub fn find_by_code(code: usize, registry: &[StatusRecord]) -> (found: Option<StatusRecord>)
    ensures
        found is Some <==> has_code(registry@, code),
        found matches Some(record) ==> exists|i: int|
            is_first_with_code(registry@, code, i) && registry@[i] == record,
        forall|i: int|
            0 <= i < registry@.len() && code_of(registry@[i]) == code && codes_unique(registry@)
                ==> found == Some(registry@[i]),
{
    let mut i: usize = 0;
    while i < registry.len()
        invariant
            i <= registry@.len(),
            forall|j: int| 0 <= j < i ==> code_of(registry@[j]) != code,
        decreases registry@.len() - i,
    {
        if registry[i].0 == code {
            assert(is_first_with_code(registry@, code, i as int));
            return Some(registry[i]);
        }
        i += 1;
    }
    None
}

} // verus!
