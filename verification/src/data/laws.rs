//! The rules of the response algebra, stated of the shapes.

use crate::data::adapters::effect::Effect;
use crate::data::adapters::sure::Sure;
use crate::data::traits::{
    Attachable, Combinable, Disjoinable, Ignorable, Optionable, Response,
};
use vstd::prelude::*;

verus! {

/// The no-payload success is the identity of combination: combined with any
/// response it gives that response, unchanged.
pub proof fn unit_is_identity<Res>(second: Res) where Res: Response
    ensures
        <() as Combinable<Res>>::combined((), Some(second)) == second,
{
}

/// A first failure decides a combination, whatever the second step is or
/// would have been.
pub proof fn first_failure_decides<Val0, Val1, Fail>(
    error: Fail,
    second: Option<Result<Val1, Fail>>,
    signal: Option<Effect<Fail>>,
    absent: Option<Option<Val1>>,
)
    ensures
        Err::<Val0, Fail>(error).combined(second) == Err::<(Val0, Val1), Fail>(error),
        Err::<Val0, Fail>(error).combined(signal) == Err::<Val0, Fail>(error),
        Effect::<Fail>(Err(error)).combined(signal) == Effect::<Fail>(Err(error)),
        Effect::<Fail>(Err(error)).combined(second) == Err::<Val1, Fail>(error),
        None::<Val0>.combined(absent) == None::<(Val0, Val1)>,
{
}

/// Two successes combine into the pair of their values; a response without
/// a value adds none.
pub proof fn successes_pair<Val0, Val1, Fail>(val0: Val0, val1: Val1)
    ensures
        Ok::<Val0, Fail>(val0).combined(Some(Ok::<Val1, Fail>(val1))) == Ok::<(Val0, Val1), Fail>(
            (val0, val1),
        ),
        Some(val0).combined(Some(Some(val1))) == Some((val0, val1)),
        Sure(val0).combined(Some(Sure(val1))) == Sure((val0, val1)),
        Ok::<Val0, Fail>(val0).combined(Some(Sure(val1))) == Ok::<(Val0, Val1), Fail>(
            (val0, val1),
        ),
        Ok::<Val0, Fail>(val0).combined(Some(Effect::<Fail>(Ok(())))) == Ok::<Val0, Fail>(val0),
        Sure(val0).combined(Some(Effect::<Fail>(Ok(())))) == Ok::<Val0, Fail>(val0),
{
}

/// A second failure fails the combination with its own error.
pub proof fn second_failure_fails<Val0, Val1, Fail>(val0: Val0, error: Fail)
    ensures
        Ok::<Val0, Fail>(val0).combined(Some(Err::<Val1, Fail>(error))) == Err::<
            (Val0, Val1),
            Fail,
        >(error),
        Ok::<Val0, Fail>(val0).combined(Some(Effect::<Fail>(Err(error)))) == Err::<Val0, Fail>(
            error,
        ),
        Sure(val0).combined(Some(Err::<Val1, Fail>(error))) == Err::<(Val0, Val1), Fail>(error),
        Some(val0).combined(Some(None::<Val1>)) == None::<(Val0, Val1)>,
{
}

/// A first success decides an alternation, whatever the second step is or
/// would have been.
pub proof fn first_success_decides<Val, Fail0, Fail1>(
    value: Val,
    second: Option<Result<Val, Fail1>>,
    other: Option<Option<Val>>,
    signal: Option<Effect<Fail0>>,
)
    ensures
        Ok::<Val, Fail0>(value).disjoined(second) == Ok::<Val, (Fail0, Fail1)>(value),
        Some(value).disjoined(other) == Some(value),
        Effect::<Fail0>(Ok(())).disjoined(signal) == Effect::<(Fail0, Fail0)>(Ok(())),
{
}

/// After a first failure an alternation is the second success, or both
/// failures as a pair.
pub proof fn alternation_aggregates<Val, Fail0, Fail1>(value: Val, error0: Fail0, error1: Fail1)
    ensures
        Err::<Val, Fail0>(error0).disjoined(Some(Ok::<Val, Fail1>(value))) == Ok::<
            Val,
            (Fail0, Fail1),
        >(value),
        Err::<Val, Fail0>(error0).disjoined(Some(Err::<Val, Fail1>(error1))) == Err::<
            Val,
            (Fail0, Fail1),
        >((error0, error1)),
        Effect::<Fail0>(Err(error0)).disjoined(Some(Effect::<Fail0>(Err(error0)))) == Effect::<
            (Fail0, Fail0),
        >(Err((error0, error0))),
        None::<Val>.disjoined(Some(Some(value))) == Some(value),
        None::<Val>.disjoined(Some(None::<Val>)) == None::<Val>,
{
}

/// Dropping the value keeps the signal, and the error with it.
pub proof fn ignoring_keeps_signal<Val, Fail>(result: Result<Val, Fail>, option: Option<Val>)
    ensures
        result.ignored().succeeded() == result.succeeded(),
        result is Err ==> result.ignored().0 == Err::<(), Fail>(result->Err_0),
        option.ignored().succeeded() == option.succeeded(),
{
}

/// An attached value is carried exactly when the response succeeded.
pub proof fn attaching_keeps_signal<Val, Fail>(effect: Effect<Fail>, value: Val)
    ensures
        effect.attached(value).succeeded() == effect.succeeded(),
        effect.0 is Ok ==> effect.attached(value) == Ok::<Val, Fail>(value),
        effect.0 is Err ==> effect.attached(value) == Err::<Val, Fail>(effect.0->Err_0),
        ().attached(value) == Sure(value),
{
}

/// Making a response optional absorbs its failure: what comes out always
/// succeeded, and holds the value if there was one.
pub proof fn optionalizing_absorbs<Val, Fail>(result: Result<Val, Fail>, option: Option<Val>)
    ensures
        result.optional().succeeded(),
        result.optional().0 is Some == result.succeeded(),
        result is Ok ==> result.optional().0 == Some(result->Ok_0),
        option.optional().0 == option,
{
}

} // verus!
