//! The one command the frontend can invoke: `filter_and_sort`.
//!
//! It is a placeholder: it performs no filtering or sorting, and only echoes
//! both arguments verbatim inside a fixed diagnostic template. It never
//! fails, whatever the arguments hold.

use vstd::prelude::*;
use vstd::string::StringExecFns;

verus! {

/// The fixed text that precedes the filter argument in the echoed string.
pub open spec fn template_prefix() -> Seq<char> {
    "filterAndSort called with filter: '"@
}

/// The fixed text between the filter argument and the sort argument.
pub open spec fn template_mid() -> Seq<char> {
    "' and sort: '"@
}

/// The fixed text that follows the sort argument.
pub open spec fn template_suffix() -> Seq<char> {
    "'"@
}

/// The full diagnostic string for the given filter and sort arguments:
/// both are embedded verbatim, between the fixed template pieces.
pub open spec fn filter_and_sort_template(filter: Seq<char>, sort: Seq<char>) -> Seq<char> {
    template_prefix() + filter + template_mid() + sort + template_suffix()
}

/// Echo the two arguments inside the diagnostic template.
///
/// Accepts every pair of strings (empty ones and ones holding the
/// template's own delimiters included) and always succeeds.
pub fn filter_and_sort(filter: String, sort: String) -> (r: String)
    ensures
        r@ == filter_and_sort_template(filter@, sort@),
{
    let mut r = String::from_str("filterAndSort called with filter: '");
    r.append(filter.as_str());
    r.append("' and sort: '");
    r.append(sort.as_str());
    r.append("'");
    r
}

/// Both arguments stand verbatim in the template result, each at its
/// documented position: the filter right after the fixed prefix, the sort
/// right after the fixed middle piece.
pub proof fn lemma_template_embeds_inputs(filter: Seq<char>, sort: Seq<char>)
    ensures
        ({
            let r = filter_and_sort_template(filter, sort);
            let fpos = template_prefix().len() as int;
            let spos = fpos + filter.len() + template_mid().len();
            &&& r.subrange(fpos, fpos + filter.len()) == filter
            &&& r.subrange(spos, spos + sort.len()) == sort
        }),
{
    let r = filter_and_sort_template(filter, sort);
    let fpos = template_prefix().len() as int;
    let spos = fpos + filter.len() + template_mid().len();
    assert(r.subrange(fpos, fpos + filter.len()) =~= filter);
    assert(r.subrange(spos, spos + sort.len()) =~= sort);
}

} // verus!
