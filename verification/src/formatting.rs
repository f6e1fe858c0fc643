//! What the verifier is told about `core::fmt`, so that the `Display` impls of
//! this crate can be written and checked as ordinary code.
use vstd::prelude::*;

verus! {

/// `core::fmt::Formatter`, carried through `Display::fmt` as an opaque value.
#[verifier::external_type_specification]
#[verifier::external_body]
pub struct ExFormatter<'a>(core::fmt::Formatter<'a>);

/// `core::fmt::Error`, the error of `core::fmt::Result`, opaque as well.
#[verifier::external_type_specification]
#[verifier::external_body]
pub struct ExFmtError(core::fmt::Error);

/// `Formatter::write_str` hands `data` to the formatter's sink. Whether the sink
/// takes it is for the sink to say, so nothing is claimed of the outcome.
pub assume_specification<'a>[ core::fmt::Formatter::<'a>::write_str ](
    f: &mut core::fmt::Formatter<'a>,
    data: &str,
) -> (outcome: Result<(), core::fmt::Error>)
;

} // verus!
