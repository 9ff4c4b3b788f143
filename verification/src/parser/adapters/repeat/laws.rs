//! A repetition of a parser whose runs have one outcome has one outcome.

use super::mode::{Exact, Maximum, Minimum, MinimumEOI, UntilEOI, UntilErr};
use super::{
    advances, exhausted, finishes, insisted, reaches, settles, stalls, Collector, Repeater,
};
use crate::data::traits::{
    Collectable, Pure, Recoverable, Response, ResultConvertable, UnerringConvertable,
};
use crate::parser::laws::deterministic;
use crate::parser::traits::{ParserMut, ParserOnce};
use crate::stream::traits::Stream;
use vstd::prelude::*;

verus! {

/// True when a run in place of a `Par` on a cursor state has one outcome
/// only (response, final cursor state and parser afterwards), and a push
/// onto a `Col` one result only.
pub open spec fn single_valued<Str, Par, Col>() -> bool where
    Str: Stream,
    Par: ParserMut<Str>,
    Par::Output: ResultConvertable,
    Col: Collector<<Par::Output as ResultConvertable>::Value>,
 {
    &&& forall|
        parser: Par,
        input: Str,
        output0: Par::Output,
        rest0: Str,
        next0: Par,
        output1: Par::Output,
        rest1: Str,
        next1: Par,
    |
        #![trigger parser.steps(input, output0, rest0, next0), parser.steps(input, output1, rest1, next1)]
        parser.steps(input, output0, rest0, next0) && parser.steps(input, output1, rest1, next1)
            ==> output0 == output1 && rest0 == rest1 && next0 == next1
    &&& forall|
        collector: Col,
        value: <Par::Output as ResultConvertable>::Value,
        next0: Col,
        next1: Col,
    |
        #![trigger collector.grows(value, next0), collector.grows(value, next1)]
        collector.grows(value, next0) && collector.grows(value, next1) ==> next0 == next1
}

/// So many successful applications lead to one state only.
pub proof fn chain_is_single_valued<Str, Par, Col>(
    guarded: bool,
    from: (Par, Col, Str),
    count: nat,
    to0: (Par, Col, Str),
    to1: (Par, Col, Str),
) where
    Str: Stream,
    Par: ParserMut<Str>,
    Par::Output: ResultConvertable,
    Col: Collector<<Par::Output as ResultConvertable>::Value>,

    requires
        single_valued::<Str, Par, Col>(),
        reaches(guarded, from, count, to0),
        reaches(guarded, from, count, to1),
    ensures
        to0 == to1,
    decreases count,
{
    if count > 0 {
        let before0 = choose|before: (Par, Col, Str)|
            reaches(guarded, from, (count - 1) as nat, before) && (guarded ==> !exhausted(
                before.2,
            )) && #[trigger] advances(before, to0);
        let before1 = choose|before: (Par, Col, Str)|
            reaches(guarded, from, (count - 1) as nat, before) && (guarded ==> !exhausted(
                before.2,
            )) && #[trigger] advances(before, to1);
        chain_is_single_valued(guarded, from, (count - 1) as nat, before0, before1);
        step_is_single_valued(before0, to0, to1);
    }
}

/// One successful application leads to one state only.
pub proof fn step_is_single_valued<Str, Par, Col>(
    from: (Par, Col, Str),
    to0: (Par, Col, Str),
    to1: (Par, Col, Str),
) where
    Str: Stream,
    Par: ParserMut<Str>,
    Par::Output: ResultConvertable,
    Col: Collector<<Par::Output as ResultConvertable>::Value>,

    requires
        single_valued::<Str, Par, Col>(),
        advances(from, to0),
        advances(from, to1),
    ensures
        to0 == to1,
{
    let output0 = choose|output: Par::Output| #[trigger]
        from.0.steps(from.2, output, to0.2, to0.0) && output.as_result() is Ok && from.1.grows(
            output.as_result()->Ok_0,
            to0.1,
        );
    let output1 = choose|output: Par::Output| #[trigger]
        from.0.steps(from.2, output, to1.2, to1.0) && output.as_result() is Ok && from.1.grows(
            output.as_result()->Ok_0,
            to1.1,
        );
    assert(output0 == output1);
    assert(to0.0 == to1.0 && to0.1 == to1.1 && to0.2 == to1.2);
}

/// An application that fails in a state cannot succeed in it, and fails in
/// one way only.
pub proof fn stall_is_single_valued<Str, Par, Col>(
    boundary: bool,
    from: (Par, Col, Str),
    output0: Par::Output,
    rest0: Str,
    output1: Par::Output,
    rest1: Str,
) where
    Str: Stream,
    Par: ParserMut<Str>,
    Par::Output: ResultConvertable,
    Col: Collector<<Par::Output as ResultConvertable>::Value>,

    requires
        single_valued::<Str, Par, Col>(),
        stalls(boundary, from, output0, rest0),
        stalls(boundary, from, output1, rest1),
    ensures
        output0 == output1,
        rest0 == rest1,
        forall|to: (Par, Col, Str)| !advances(from, to),
{
    let (reached0, next0) = choose|reached: Str, next: Par| #[trigger]
        from.0.steps(from.2, output0, reached, next) && output0.as_result() is Err && rest0 == if boundary {
            reached.at(from.2.position())
        } else {
            reached
        };
    let (reached1, next1) = choose|reached: Str, next: Par| #[trigger]
        from.0.steps(from.2, output1, reached, next) && output1.as_result() is Err && rest1 == if boundary {
            reached.at(from.2.position())
        } else {
            reached
        };
    assert(output0 == output1 && reached0 == reached1);
    assert forall|to: (Par, Col, Str)| !advances(from, to) by {
        if advances(from, to) {
            let output = choose|output: Par::Output| #[trigger]
                from.0.steps(from.2, output, to.2, to.0) && output.as_result() is Ok
                    && from.1.grows(output.as_result()->Ok_0, to.1);
            assert(output == output0);
        }
    }
}

/// A chain of successful applications passes through a state after each
/// smaller number of them, from which one more application succeeds.
pub proof fn chain_has_prefix<Str, Par, Col>(
    guarded: bool,
    from: (Par, Col, Str),
    count: nat,
    to: (Par, Col, Str),
    fewer: nat,
) -> (middle: (Par, Col, Str)) where
    Str: Stream,
    Par: ParserMut<Str>,
    Par::Output: ResultConvertable,
    Col: Collector<<Par::Output as ResultConvertable>::Value>,

    requires
        reaches(guarded, from, count, to),
        fewer < count,
    ensures
        reaches(guarded, from, fewer, middle),
        guarded ==> !exhausted(middle.2),
        exists|next: (Par, Col, Str)| advances(middle, next),
    decreases count,
{
    let before = choose|before: (Par, Col, Str)|
        reaches(guarded, from, (count - 1) as nat, before) && (guarded ==> !exhausted(before.2))
            && #[trigger] advances(before, to);
    if fewer == count - 1 {
        before
    } else {
        chain_has_prefix(guarded, from, (count - 1) as nat, before, fewer)
    }
}

/// Where an application fails after so many successes, no chain of
/// successes is longer.
pub proof fn stall_ends_chain<Str, Par, Col>(
    guarded: bool,
    boundary: bool,
    from: (Par, Col, Str),
    done: nat,
    state: (Par, Col, Str),
    output: Par::Output,
    rest: Str,
    count: nat,
    to: (Par, Col, Str),
) where
    Str: Stream,
    Par: ParserMut<Str>,
    Par::Output: ResultConvertable,
    Col: Collector<<Par::Output as ResultConvertable>::Value>,

    requires
        single_valued::<Str, Par, Col>(),
        reaches(guarded, from, done, state),
        stalls(boundary, state, output, rest),
        reaches(guarded, from, count, to),
    ensures
        count <= done,
{
    if count > done {
        let middle = chain_has_prefix(guarded, from, count, to, done);
        chain_is_single_valued(guarded, from, done, middle, state);
        stall_is_single_valued(boundary, state, output, rest, output, rest);
    }
}

/// Applications that go on until one fails, or until a limit, end in one way only.
pub proof fn settles_is_single_valued<Str, Par, Col>(
    from: (Par, Col, Str),
    limit: Option<nat>,
    filled0: Col,
    rest0: Str,
    filled1: Col,
    rest1: Str,
) where
    Str: Stream,
    Par: ParserMut<Str>,
    Par::Output: ResultConvertable,
    Col: Collector<<Par::Output as ResultConvertable>::Value>,

    requires
        single_valued::<Str, Par, Col>(),
        settles(from, limit, filled0, rest0),
        settles(from, limit, filled1, rest1),
    ensures
        filled0 == filled1,
        rest0 == rest1,
{
    let (done0, state0) = choose|done: nat, state: (Par, Col, Str)| #[trigger]
        reaches(false, from, done, state) && filled0 == state.1 && if limit == Some(done) {
            rest0 == state.2
        } else {
            (limit is Some ==> done < limit->Some_0) && exists|output: Par::Output| #[trigger]
                stalls(true, state, output, rest0)
        };
    let (done1, state1) = choose|done: nat, state: (Par, Col, Str)| #[trigger]
        reaches(false, from, done, state) && filled1 == state.1 && if limit == Some(done) {
            rest1 == state.2
        } else {
            (limit is Some ==> done < limit->Some_0) && exists|output: Par::Output| #[trigger]
                stalls(true, state, output, rest1)
        };
    if limit != Some(done0) {
        let output0 = choose|output: Par::Output| #[trigger] stalls(true, state0, output, rest0);
        stall_ends_chain(false, true, from, done0, state0, output0, rest0, done1, state1);
    }
    if limit != Some(done1) {
        let output1 = choose|output: Par::Output| #[trigger] stalls(true, state1, output, rest1);
        stall_ends_chain(false, true, from, done1, state1, output1, rest1, done0, state0);
    }
    assert(done0 == done1);
    chain_is_single_valued(false, from, done0, state0, state1);
    if limit != Some(done0) {
        let output0 = choose|output: Par::Output| #[trigger] stalls(true, state0, output, rest0);
        let output1 = choose|output: Par::Output| #[trigger] stalls(true, state1, output, rest1);
        stall_is_single_valued(true, state0, output0, rest0, output1, rest1);
    }
}

/// Applications that must all succeed end in one way only.
pub proof fn insisted_is_single_valued<Str, Par, Col>(
    from: (Par, Col, Str),
    count: nat,
    result0: Result<Col, <Par::Output as ResultConvertable>::Error>,
    last0: Par,
    rest0: Str,
    result1: Result<Col, <Par::Output as ResultConvertable>::Error>,
    last1: Par,
    rest1: Str,
) where
    Str: Stream,
    Par: ParserMut<Str>,
    Par::Output: ResultConvertable,
    Col: Collector<<Par::Output as ResultConvertable>::Value>,

    requires
        single_valued::<Str, Par, Col>(),
        insisted(from, count, result0, last0, rest0),
        insisted(from, count, result1, last1, rest1),
    ensures
        result0 == result1,
        rest0 == rest1,
        result0 is Ok ==> last0 == last1,
{
    match (result0, result1) {
        (Ok(collector0), Ok(collector1)) => {
            chain_is_single_valued(
                false,
                from,
                count,
                (last0, collector0, rest0),
                (last1, collector1, rest1),
            );
        },
        (Ok(collector0), Err(error1)) => {
            let (done1, state1, output1) = choose|
                done: nat,
                state: (Par, Col, Str),
                output: Par::Output,
            |
                done < count && #[trigger] reaches(false, from, done, state) && #[trigger] stalls(
                    false,
                    state,
                    output,
                    rest1,
                ) && output.as_result() == Err::<<Par::Output as ResultConvertable>::Value, _>(
                    error1,
                );
            stall_ends_chain(
                false,
                false,
                from,
                done1,
                state1,
                output1,
                rest1,
                count,
                (last0, collector0, rest0),
            );
        },
        (Err(error0), Ok(collector1)) => {
            let (done0, state0, output0) = choose|
                done: nat,
                state: (Par, Col, Str),
                output: Par::Output,
            |
                done < count && #[trigger] reaches(false, from, done, state) && #[trigger] stalls(
                    false,
                    state,
                    output,
                    rest0,
                ) && output.as_result() == Err::<<Par::Output as ResultConvertable>::Value, _>(
                    error0,
                );
            stall_ends_chain(
                false,
                false,
                from,
                done0,
                state0,
                output0,
                rest0,
                count,
                (last1, collector1, rest1),
            );
        },
        (Err(error0), Err(error1)) => {
            let (done0, state0, output0) = choose|
                done: nat,
                state: (Par, Col, Str),
                output: Par::Output,
            |
                done < count && #[trigger] reaches(false, from, done, state) && #[trigger] stalls(
                    false,
                    state,
                    output,
                    rest0,
                ) && output.as_result() == Err::<<Par::Output as ResultConvertable>::Value, _>(
                    error0,
                );
            let (done1, state1, output1) = choose|
                done: nat,
                state: (Par, Col, Str),
                output: Par::Output,
            |
                done < count && #[trigger] reaches(false, from, done, state) && #[trigger] stalls(
                    false,
                    state,
                    output,
                    rest1,
                ) && output.as_result() == Err::<<Par::Output as ResultConvertable>::Value, _>(
                    error1,
                );
            stall_ends_chain(false, false, from, done0, state0, output0, rest0, done1, state1);
            stall_ends_chain(false, false, from, done1, state1, output1, rest1, done0, state0);
            chain_is_single_valued(false, from, done0, state0, state1);
            stall_is_single_valued(false, state0, output0, rest0, output1, rest1);
        },
    }
}

/// Applications that go on until the input is exhausted end in one way only.
pub proof fn finishes_is_single_valued<Str, Par, Col>(
    from: (Par, Col, Str),
    result0: Result<Col, <Par::Output as ResultConvertable>::Error>,
    rest0: Str,
    result1: Result<Col, <Par::Output as ResultConvertable>::Error>,
    rest1: Str,
) where
    Str: Stream,
    Par: ParserMut<Str>,
    Par::Output: ResultConvertable,
    Col: Collector<<Par::Output as ResultConvertable>::Value>,

    requires
        single_valued::<Str, Par, Col>(),
        finishes(from, result0, rest0),
        finishes(from, result1, rest1),
    ensures
        result0 == result1,
        rest0 == rest1,
{
    let (done0, state0) = choose|done: nat, state: (Par, Col, Str)| #[trigger]
        reaches(true, from, done, state) && if exhausted(state.2) {
            rest0 == state.2 && result0 == Ok::<Col, <Par::Output as ResultConvertable>::Error>(
                state.1,
            )
        } else {
            exists|output: Par::Output| #[trigger]
                stalls(false, state, output, rest0) && result0 is Err && output.as_result() == Err::<
                    <Par::Output as ResultConvertable>::Value,
                    _,
                >(result0->Err_0)
        };
    let (done1, state1) = choose|done: nat, state: (Par, Col, Str)| #[trigger]
        reaches(true, from, done, state) && if exhausted(state.2) {
            rest1 == state.2 && result1 == Ok::<Col, <Par::Output as ResultConvertable>::Error>(
                state.1,
            )
        } else {
            exists|output: Par::Output| #[trigger]
                stalls(false, state, output, rest1) && result1 is Err && output.as_result() == Err::<
                    <Par::Output as ResultConvertable>::Value,
                    _,
                >(result1->Err_0)
        };
    if done0 < done1 {
        let middle = chain_has_prefix(true, from, done1, state1, done0);
        chain_is_single_valued(true, from, done0, middle, state0);
        let output0 = choose|output: Par::Output| #[trigger]
            stalls(false, state0, output, rest0);
        stall_is_single_valued(false, state0, output0, rest0, output0, rest0);
    }
    if done1 < done0 {
        let middle = chain_has_prefix(true, from, done0, state0, done1);
        chain_is_single_valued(true, from, done1, middle, state1);
        let output1 = choose|output: Par::Output| #[trigger]
            stalls(false, state1, output, rest1);
        stall_is_single_valued(false, state1, output1, rest1, output1, rest1);
    }
    assert(done0 == done1);
    chain_is_single_valued(true, from, done0, state0, state1);
    if !exhausted(state0.2) {
        let output0 = choose|output: Par::Output| #[trigger]
            stalls(false, state0, output, rest0) && result0 is Err && output.as_result() == Err::<
                <Par::Output as ResultConvertable>::Value,
                _,
            >(result0->Err_0);
        let output1 = choose|output: Par::Output| #[trigger]
            stalls(false, state1, output, rest1) && result1 is Err && output.as_result() == Err::<
                <Par::Output as ResultConvertable>::Value,
                _,
            >(result1->Err_0);
        stall_is_single_valued(false, state0, output0, rest0, output1, rest1);
    }
}

/// A repetition until failure never fails: the failed application ends it
/// and is not passed on.
pub proof fn until_err_never_fails<Str, Par, Col>(
    repeater: Repeater<Par, UntilErr, Col>,
    input: Str,
    output: <Par::Output as UnerringConvertable<Col>>::Infallible,
    rest: Str,
) where
    Str: Stream,
    Par: ParserMut<Str>,
    Par::Output: Recoverable + UnerringConvertable<Col>,
    Col: Collector<<Par::Output as ResultConvertable>::Value>,

    requires
        repeater.parses(input, output, rest),
    ensures
        output.succeeded(),
        exists|done: nat, state: (Par, Col, Str), failed: Par::Output|
            #[trigger] reaches(false, (repeater.parser, repeater.collector, input), done, state)
                && output.held() == state.1 && #[trigger] stalls(true, state, failed, rest),
{
    output.never_fails();
    let from = (repeater.parser, repeater.collector, input);
    let (done, state) = choose|done: nat, state: (Par, Col, Str)| #[trigger]
        reaches(false, from, done, state) && output.held() == state.1 && exists|
            failed: Par::Output,
        | #[trigger] stalls(true, state, failed, rest);
    let failed = choose|failed: Par::Output| #[trigger] stalls(true, state, failed, rest);
    assert(reaches(false, from, done, state) && stalls(true, state, failed, rest));
}

/// A repetition up to a maximum never fails, and collects no more than the
/// maximum.
pub proof fn maximum_never_fails<Str, Par, Col>(
    repeater: Repeater<Par, Maximum, Col>,
    input: Str,
    output: <Par::Output as UnerringConvertable<Col>>::Infallible,
    rest: Str,
) where
    Str: Stream,
    Par: ParserMut<Str>,
    Par::Output: Recoverable + UnerringConvertable<Col>,
    Col: Collector<<Par::Output as ResultConvertable>::Value>,

    requires
        repeater.parses(input, output, rest),
    ensures
        output.succeeded(),
        exists|done: nat, state: (Par, Col, Str)|
            #[trigger] reaches(false, (repeater.parser, repeater.collector, input), done, state)
                && output.held() == state.1 && done <= repeater.mode.0,
{
    output.never_fails();
    let from = (repeater.parser, repeater.collector, input);
    let limit = Some(repeater.mode.0 as nat);
    let (done, state) = choose|done: nat, state: (Par, Col, Str)| #[trigger]
        reaches(false, from, done, state) && output.held() == state.1 && if limit == Some(done) {
            rest == state.2
        } else {
            (limit is Some ==> done < limit->Some_0) && exists|failed: Par::Output| #[trigger]
                stalls(true, state, failed, rest)
        };
    assert(reaches(false, from, done, state) && done <= repeater.mode.0);
}

/// A repetition of an exact count that fails carries the error of the
/// application that failed, and nothing of what the earlier ones produced.
pub proof fn exact_failure_is_the_error<Str, Par, Col>(
    repeater: Repeater<Par, Exact, Col>,
    input: Str,
    output: <Par::Output as Collectable<Col>>::WithVal,
    rest: Str,
) where
    Str: Stream,
    Par: ParserMut<Str>,
    Par::Output: Collectable<Col>,
    Col: Collector<<Par::Output as ResultConvertable>::Value>,

    requires
        repeater.parses(input, output, rest),
        output.as_result() is Err,
    ensures
        exists|done: nat, state: (Par, Col, Str), failed: Par::Output|
            done < repeater.mode.0 && #[trigger] reaches(
                false,
                (repeater.parser, repeater.collector, input),
                done,
                state,
            ) && #[trigger] stalls(false, state, failed, rest) && failed.as_result() is Err
                && output.as_result()->Err_0 == failed.as_result()->Err_0,
{
    let from = (repeater.parser, repeater.collector, input);
    let count = repeater.mode.0 as nat;
    let last = choose|last: Par| #[trigger]
        insisted(from, count, output.as_result(), last, rest);
    let error = output.as_result()->Err_0;
    let (done, state, failed) = choose|done: nat, state: (Par, Col, Str), failed: Par::Output|
        done < count && #[trigger] reaches(false, from, done, state) && #[trigger] stalls(
            false,
            state,
            failed,
            rest,
        ) && failed.as_result() == Err::<<Par::Output as ResultConvertable>::Value, _>(error);
    assert(done < repeater.mode.0 && reaches(false, from, done, state) && stalls(
        false,
        state,
        failed,
        rest,
    ));
}

/// A repetition until failure has one outcome.
pub proof fn until_err_is_deterministic<Str, Par, Col>(repeater: Repeater<Par, UntilErr, Col>) where
    Str: Stream,
    Par: ParserMut<Str>,
    Par::Output: Recoverable + UnerringConvertable<Col>,
    Col: Collector<<Par::Output as ResultConvertable>::Value>,

    requires
        single_valued::<Str, Par, Col>(),
    ensures
        deterministic(repeater),
{
    assert forall|
        input: Str,
        output0: <Par::Output as UnerringConvertable<Col>>::Infallible,
        rest0: Str,
        output1: <Par::Output as UnerringConvertable<Col>>::Infallible,
        rest1: Str,
    |
        repeater.parses(input, output0, rest0) && repeater.parses(
            input,
            output1,
            rest1,
        ) implies output0 == output1 && rest0 == rest1 by {
        settles_is_single_valued(
            (repeater.parser, repeater.collector, input),
            None,
            output0.held(),
            rest0,
            output1.held(),
            rest1,
        );
        output0.held_determines(output1);
    }
}

/// A repetition up to a maximum has one outcome.
pub proof fn maximum_is_deterministic<Str, Par, Col>(repeater: Repeater<Par, Maximum, Col>) where
    Str: Stream,
    Par: ParserMut<Str>,
    Par::Output: Recoverable + UnerringConvertable<Col>,
    Col: Collector<<Par::Output as ResultConvertable>::Value>,

    requires
        single_valued::<Str, Par, Col>(),
    ensures
        deterministic(repeater),
{
    assert forall|
        input: Str,
        output0: <Par::Output as UnerringConvertable<Col>>::Infallible,
        rest0: Str,
        output1: <Par::Output as UnerringConvertable<Col>>::Infallible,
        rest1: Str,
    |
        repeater.parses(input, output0, rest0) && repeater.parses(
            input,
            output1,
            rest1,
        ) implies output0 == output1 && rest0 == rest1 by {
        settles_is_single_valued(
            (repeater.parser, repeater.collector, input),
            Some(repeater.mode.0 as nat),
            output0.held(),
            rest0,
            output1.held(),
            rest1,
        );
        output0.held_determines(output1);
    }
}

/// A repetition to the end of the input has one outcome.
pub proof fn until_eoi_is_deterministic<Str, Par, Col>(repeater: Repeater<Par, UntilEOI, Col>) where
    Str: Stream,
    Par: ParserMut<Str>,
    Par::Output: Collectable<Col>,
    Col: Collector<<Par::Output as ResultConvertable>::Value>,

    requires
        single_valued::<Str, Par, Col>(),
    ensures
        deterministic(repeater),
{
    assert forall|
        input: Str,
        output0: <Par::Output as Collectable<Col>>::WithVal,
        rest0: Str,
        output1: <Par::Output as Collectable<Col>>::WithVal,
        rest1: Str,
    |
        repeater.parses(input, output0, rest0) && repeater.parses(
            input,
            output1,
            rest1,
        ) implies output0 == output1 && rest0 == rest1 by {
        finishes_is_single_valued(
            (repeater.parser, repeater.collector, input),
            output0.as_result(),
            rest0,
            output1.as_result(),
            rest1,
        );
        output0.result_determines(output1);
    }
}

/// A repetition of an exact count has one outcome.
pub proof fn exact_is_deterministic<Str, Par, Col>(repeater: Repeater<Par, Exact, Col>) where
    Str: Stream,
    Par: ParserMut<Str>,
    Par::Output: Collectable<Col>,
    Col: Collector<<Par::Output as ResultConvertable>::Value>,

    requires
        single_valued::<Str, Par, Col>(),
    ensures
        deterministic(repeater),
{
    let count = repeater.mode.0 as nat;
    assert forall|
        input: Str,
        output0: <Par::Output as Collectable<Col>>::WithVal,
        rest0: Str,
        output1: <Par::Output as Collectable<Col>>::WithVal,
        rest1: Str,
    |
        repeater.parses(input, output0, rest0) && repeater.parses(
            input,
            output1,
            rest1,
        ) implies output0 == output1 && rest0 == rest1 by {
        let from = (repeater.parser, repeater.collector, input);
        let last0 = choose|last: Par| #[trigger]
            insisted(from, count, output0.as_result(), last, rest0);
        let last1 = choose|last: Par| #[trigger]
            insisted(from, count, output1.as_result(), last, rest1);
        insisted_is_single_valued(
            from,
            count,
            output0.as_result(),
            last0,
            rest0,
            output1.as_result(),
            last1,
            rest1,
        );
        output0.result_determines(output1);
    }
}

/// A repetition with a minimum has one outcome.
pub proof fn minimum_is_deterministic<Str, Par, Col>(repeater: Repeater<Par, Minimum, Col>) where
    Str: Stream,
    Par: ParserMut<Str>,
    Par::Output: Recoverable + Collectable<Col>,
    Col: Collector<<Par::Output as ResultConvertable>::Value>,

    requires
        single_valued::<Str, Par, Col>(),
    ensures
        deterministic(repeater),
{
    let count = repeater.mode.0 as nat;
    assert forall|
        input: Str,
        output0: <Par::Output as Collectable<Col>>::WithVal,
        rest0: Str,
        output1: <Par::Output as Collectable<Col>>::WithVal,
        rest1: Str,
    |
        repeater.parses(input, output0, rest0) && repeater.parses(
            input,
            output1,
            rest1,
        ) implies output0 == output1 && rest0 == rest1 by {
        let from = (repeater.parser, repeater.collector, input);
        let (first0, last0, middle0) = choose|
            first: Result<Col, <Par::Output as ResultConvertable>::Error>,
            last: Par,
            middle: Str,
        |
            #[trigger] insisted(from, count, first, last, middle) && match first {
                Ok(collector) => output0.as_result() is Ok && settles(
                    (last, collector, middle),
                    None,
                    output0.as_result()->Ok_0,
                    rest0,
                ),
                Err(error) => rest0 == middle && output0.as_result() == Err::<Col, _>(error),
            };
        let (first1, last1, middle1) = choose|
            first: Result<Col, <Par::Output as ResultConvertable>::Error>,
            last: Par,
            middle: Str,
        |
            #[trigger] insisted(from, count, first, last, middle) && match first {
                Ok(collector) => output1.as_result() is Ok && settles(
                    (last, collector, middle),
                    None,
                    output1.as_result()->Ok_0,
                    rest1,
                ),
                Err(error) => rest1 == middle && output1.as_result() == Err::<Col, _>(error),
            };
        insisted_is_single_valued(from, count, first0, last0, middle0, first1, last1, middle1);
        if let Ok(collector) = first0 {
            settles_is_single_valued(
                (last0, collector, middle0),
                None,
                output0.as_result()->Ok_0,
                rest0,
                output1.as_result()->Ok_0,
                rest1,
            );
        }
        assert(output0.as_result() == output1.as_result());
        output0.result_determines(output1);
    }
}

/// A repetition with a minimum that goes to the end of the input has one outcome.
pub proof fn minimum_eoi_is_deterministic<Str, Par, Col>(
    repeater: Repeater<Par, MinimumEOI, Col>,
) where
    Str: Stream,
    Par: ParserMut<Str>,
    Par::Output: Collectable<Col>,
    Col: Collector<<Par::Output as ResultConvertable>::Value>,

    requires
        single_valued::<Str, Par, Col>(),
    ensures
        deterministic(repeater),
{
    let count = repeater.mode.0 as nat;
    assert forall|
        input: Str,
        output0: <Par::Output as Collectable<Col>>::WithVal,
        rest0: Str,
        output1: <Par::Output as Collectable<Col>>::WithVal,
        rest1: Str,
    |
        repeater.parses(input, output0, rest0) && repeater.parses(
            input,
            output1,
            rest1,
        ) implies output0 == output1 && rest0 == rest1 by {
        let from = (repeater.parser, repeater.collector, input);
        let (first0, last0, middle0) = choose|
            first: Result<Col, <Par::Output as ResultConvertable>::Error>,
            last: Par,
            middle: Str,
        |
            #[trigger] insisted(from, count, first, last, middle) && match first {
                Ok(collector) => finishes((last, collector, middle), output0.as_result(), rest0),
                Err(error) => rest0 == middle && output0.as_result() == Err::<Col, _>(error),
            };
        let (first1, last1, middle1) = choose|
            first: Result<Col, <Par::Output as ResultConvertable>::Error>,
            last: Par,
            middle: Str,
        |
            #[trigger] insisted(from, count, first, last, middle) && match first {
                Ok(collector) => finishes((last, collector, middle), output1.as_result(), rest1),
                Err(error) => rest1 == middle && output1.as_result() == Err::<Col, _>(error),
            };
        insisted_is_single_valued(from, count, first0, last0, middle0, first1, last1, middle1);
        if let Ok(collector) = first0 {
            finishes_is_single_valued(
                (last0, collector, middle0),
                output0.as_result(),
                rest0,
                output1.as_result(),
                rest1,
            );
        }
        output0.result_determines(output1);
    }
}

} // verus!
