use either::Either;
use vstd::prelude::*;

verus! {

/// `either::Either`: a value of one of two types, `Left(L)` or `Right(R)`.
/// The declaration lets the verifier read the two variants of the type as
/// the crate defines them.
#[verifier::external_type_specification]
#[verifier::reject_recursive_types(L)]
#[verifier::reject_recursive_types(R)]
pub struct ExEither<L, R>(Either<L, R>);

} // verus!
