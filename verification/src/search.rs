//! Search in the descriptions of a registry, without regard to the case of
//! letters.

use vstd::prelude::*;
use convert_case::Case;
use convert_case::Casing;
use crate::record::StatusRecord;
use crate::record::description_of;
use crate::text::chars_of;
use crate::text::contains_chars;
use crate::text::occurs_in;
use crate::text::empty_occurs_everywhere;

verus! {

/// A text in lower case: what `convert_case` makes of it when it takes the
/// whole text as one word and puts that word in lower case. Only the case of
/// letters changes: spaces, punctuation and digits stay as they are. The
/// form depends on the text alone. No contract here relies on more than
/// that: the form is known only as the result of that conversion.
pub uninterp spec fn lower_case_form(text: Seq<char>) -> Seq<char>;

/// Puts a text in lower case by `convert_case`: `Casing::from_case` with
/// `Case::Flat`, which sets no word boundaries, then
/// `StateConverter::to_case` with `Case::Lower`.
///
/// Trusted, not proved: the result is the lower case form of the text, and
/// the empty text is left empty (the conversion makes no words of an empty
/// text and joins no words to the empty string).
#[verifier::external_body]
fn to_lower_case(text: &str) -> (folded: String)
    ensures
        folded@ == lower_case_form(text@),
        text@.len() == 0 ==> folded@.len() == 0,
{
    text.from_case(Case::Flat).to_case(Case::Lower)
}

/// Whether two texts have the same lower case form, as two texts do that
/// differ only in the case of their letters.
pub fn same_lower_case_form(first: &str, second: &str) -> (same: bool)
    ensures
        same == (lower_case_form(first@) == lower_case_form(second@)),
{
    let folded_first = to_lower_case(first);
    let folded_second = to_lower_case(second);
    folded_first == folded_second
}

/// The description of `record` contains `needle`, both taken in lower case.
pub open spec fn description_matches(needle: Seq<char>, record: StatusRecord) -> bool {
    occurs_in(lower_case_form(needle), lower_case_form(description_of(record)))
}

/// The entries of `registry` whose descriptions contain `needle`, both taken
/// in lower case, in the order in which the registry holds them.
pub open spec fn matching_records(needle: Seq<char>, registry: Seq<StatusRecord>) -> Seq<
    StatusRecord,
> {
    registry.filter(|record: StatusRecord| description_matches(needle, record))
}

/// What one more entry adds to the matches of the entries before it.
proof fn matching_records_step(needle: Seq<char>, registry: Seq<StatusRecord>, i: int)
    requires
        0 <= i < registry.len(),
    ensures
        matching_records(needle, registry.take(i + 1)) == if description_matches(
            needle,
            registry[i],
        ) {
            matching_records(needle, registry.take(i)).push(registry[i])
        } else {
            matching_records(needle, registry.take(i))
        },
{
    reveal(Seq::filter);
    assert(registry.take(i + 1).drop_last() =~= registry.take(i));
}

/// Where every entry matches, the matches are the whole registry.
proof fn all_matching_keeps_all(needle: Seq<char>, registry: Seq<StatusRecord>)
    requires
        forall|i: int| 0 <= i < registry.len() ==> description_matches(needle, registry[i]),
    ensures
        matching_records(needle, registry) == registry,
    decreases registry.len(),
{
    reveal(Seq::filter);
    if registry.len() > 0 {
        all_matching_keeps_all(needle, registry.drop_last());
        assert(registry.drop_last().push(registry.last()) =~= registry);
    }
}

/// Two needles with the same lower case form select the same entries in the
/// same order. Whether two given needles have the same form is what
/// `same_lower_case_form` tells.
pub proof fn needles_of_one_form_match_alike(
    first: Seq<char>,
    second: Seq<char>,
    registry: Seq<StatusRecord>,
)
    requires
        lower_case_form(first) == lower_case_form(second),
    ensures
        matching_records(first, registry) == matching_records(second, registry),
    decreases registry.len(),
{
    reveal(Seq::filter);
    if registry.len() > 0 {
        needles_of_one_form_match_alike(first, second, registry.drop_last());
        assert(description_matches(first, registry.last()) == description_matches(
            second,
            registry.last(),
        ));
    }
}

/// A search is determined by its needle and its registry: any two results of
/// searching for the same needle in the same registry hold the same entries
/// in the same order.
pub proof fn search_is_repeatable(
    needle: Seq<char>,
    registry: Seq<StatusRecord>,
    first: Seq<StatusRecord>,
    second: Seq<StatusRecord>,
)
    requires
        first == matching_records(needle, registry),
        second == matching_records(needle, registry),
    ensures
        first == second,
{
}

/// Searches a registry for the entries whose description contains `needle`,
/// without regard to the case of letters: the needle and each description
/// are put in lower case and compared. Only the description is searched. The
/// matching entries come back in the order of the registry, each as often as
/// the registry holds it; the empty needle matches every entry.
pub fn find_by_substring(needle: &str, registry: &[StatusRecord]) -> (matches: Vec<StatusRecord>)
    ensures
        matches@ == matching_records(needle@, registry@),
        needle@.len() == 0 ==> matches@ == registry@,
{
    let folded_needle = to_lower_case(needle);
    let needle_chars = chars_of(folded_needle.as_str());
    let mut matches: Vec<StatusRecord> = Vec::new();
    let mut i: usize = 0;
    proof {
        reveal(Seq::filter);
        assert(registry@.take(0) =~= Seq::<StatusRecord>::empty());
    }
    while i < registry.len()
        invariant
            i <= registry@.len(),
            needle_chars@ == lower_case_form(needle@),
            matches@ == matching_records(needle@, registry@.take(i as int)),
        decreases registry@.len() - i,
    {
        let record = registry[i];
        let folded_description = to_lower_case(record.1);
        let description_chars = chars_of(folded_description.as_str());
        proof {
            matching_records_step(needle@, registry@, i as int);
        }
        if contains_chars(&description_chars, &needle_chars) {
            matches.push(record);
        }
        i += 1;
    }
    proof {
        assert(registry@.take(registry@.len() as int) =~= registry@);
        if needle@.len() == 0 {
            assert(lower_case_form(needle@) =~= Seq::<char>::empty());
            assert forall|k: int| 0 <= k < registry@.len() implies description_matches(
                needle@,
                registry@[k],
            ) by {
                empty_occurs_everywhere(lower_case_form(description_of(registry@[k])));
            }
            all_matching_keeps_all(needle@, registry@);
        }
    }
    matches
}

} // verus!
