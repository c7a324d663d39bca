//! Boundary to the external domain-object collaborator: a stored byte
//! payload can be handed to a domain record and parsed into its structured
//! form.  This layer treats the parse outcome as a success/failure signal
//! and never interprets the record's internal structure.

use vstd::prelude::*;

verus! {

#[verifier::external_type_specification]
#[verifier::external_body]
pub struct ExIndividual(v_individual_model::onto::individual::Individual);

/// The raw byte payload currently held by a domain record.
pub uninterp spec fn individual_raw(iraw: &v_individual_model::onto::individual::Individual) -> Seq<
    u8,
>;

/// Whether a byte payload parses as the external domain format.  The parser
/// is a pure function of the bytes, so its verdict is named here and never
/// restated.
pub uninterp spec fn parses(data: Seq<u8>) -> bool;

/// Relies on Individual::set_raw: stores a copy of the given bytes as the
/// record's raw payload.
#[verifier::external_body]
pub(crate) fn individual_set_raw(
    iraw: &mut v_individual_model::onto::individual::Individual,
    data: &[u8],
)
    ensures
        individual_raw(final(iraw)) == data@,
{
    iraw.set_raw(data);
}

/// Relies on parse_raw of the domain-object crate: parses the record's raw
/// payload into its structured form, succeeding exactly when the bytes are
/// in the domain format.  The parser reads the raw payload and never
/// rewrites it.
#[verifier::external_body]
pub(crate) fn individual_parse(iraw: &mut v_individual_model::onto::individual::Individual) -> (ok: bool)
    ensures
        ok == parses(individual_raw(old(iraw))),
        individual_raw(final(iraw)) == individual_raw(old(iraw)),
{
    v_individual_model::onto::parser::parse_raw(iraw).is_ok()
}

} // verus!
