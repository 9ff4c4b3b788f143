//! What holds of the adapters whatever parsers they are built from.

use crate::data::traits::{
    Attachable, Combinable, Data, Disjoinable, Exceptional, Ignorable, Optionable, Recoverable,
    Response,
};
use crate::parser::adapters::and::And;
use crate::parser::adapters::attach::Attach;
use crate::parser::adapters::conversion::Unit;
use crate::parser::adapters::flat_map::FlatMap;
use crate::parser::adapters::ignore::Ignore;
use crate::parser::adapters::map::{mapped, MapValue};
use crate::parser::adapters::map_err::MapErr;
use crate::parser::adapters::try_map::TryMap;
use crate::parser::adapters::non_terminal::{settled, NonTerminal};
use crate::parser::adapters::opt::Opt;
use crate::parser::adapters::or::Or;
use crate::parser::traits::ParserOnce;
use crate::stream::traits::Stream;
use vstd::prelude::*;

verus! {

/// True when a run of `parser` on a cursor state has one outcome only: the
/// same state gives the same response and the same final state.
pub open spec fn deterministic<Str, Par>(parser: Par) -> bool where
    Str: Stream,
    Par: ParserOnce<Str>,
 {
    forall|input: Str, output0: Par::Output, rest0: Str, output1: Par::Output, rest1: Str|
        #![trigger parser.parses(input, output0, rest0), parser.parses(input, output1, rest1)]
        parser.parses(input, output0, rest0) && parser.parses(input, output1, rest1) ==> output0
            == output1 && rest0 == rest1
}

/// True when no run of `parser` on `input` fails.
pub open spec fn always_succeeds<Str, Par>(parser: Par, input: Str) -> bool where
    Str: Stream,
    Par: ParserOnce<Str>,
 {
    forall|output: Par::Output, rest: Str| #[trigger]
        parser.parses(input, output, rest) ==> output.succeeded()
}

/// True when no run of `parser` on `input` succeeds.
pub open spec fn always_fails<Str, Par>(parser: Par, input: Str) -> bool where
    Str: Stream,
    Par: ParserOnce<Str>,
 {
    forall|output: Par::Output, rest: Str| #[trigger]
        parser.parses(input, output, rest) ==> !output.succeeded()
}

/// Rollback: when a parser behind a backtracking boundary fails, the cursor
/// is at the offset it had before the run, and on the same input.
pub proof fn boundary_restores_offset<Str, Par>(
    boundary: NonTerminal<Par>,
    input: Str,
    output: Par::Output,
    rest: Str,
) where Str: Stream, Par: ParserOnce<Str>, Par::Output: Recoverable
    requires
        boundary.parses(input, output, rest),
        !output.succeeded(),
    ensures
        rest.position() == input.position(),
        exists|reached: Str|
            #[trigger] boundary.parser.parses(input, output, reached) && rest == reached.at(
                input.position(),
            ),
{
    let reached = choose|reached: Str| #[trigger]
        boundary.parser.parses(input, output, reached) && rest
            == settled(input, output.succeeded(), reached);
    reached.checkpoints(input.position(), input.position());
}

/// A success passes through a backtracking boundary untouched.
pub proof fn boundary_keeps_success<Str, Par>(
    boundary: NonTerminal<Par>,
    input: Str,
    output: Par::Output,
    rest: Str,
) where Str: Stream, Par: ParserOnce<Str>, Par::Output: Recoverable
    requires
        boundary.parses(input, output, rest),
        output.succeeded(),
    ensures
        boundary.parser.parses(input, output, rest),
{
}

/// Alternation short-circuits: when the first parser cannot fail on `input`,
/// the alternation may be run wherever the first parser may, whatever the
/// second parser asks for, and its outcome is that of the first parser alone.
pub proof fn alternation_short_circuits<Str, Par0, Par1>(
    either: Or<Par0, Par1>,
    input: Str,
    output: <Par0::Output as Disjoinable<Par1::Output>>::Output,
    rest: Str,
) where
    Str: Stream,
    Par0: ParserOnce<Str>,
    Par1: ParserOnce<Str>,
    Par0::Output: Disjoinable<Par1::Output>,

    requires
        always_succeeds(either.parser0, input),
    ensures
        either.accepts(input) == either.parser0.accepts(input),
        either.parses(input, output, rest) ==> output.succeeded() && exists|first: Par0::Output|
            #[trigger] either.parser0.parses(input, first, rest) && output == first.disjoined(
                None,
            ),
{
    if either.parses(input, output, rest) {
        let (first, middle) = choose|first: Par0::Output, middle: Str| #[trigger]
            either.parser0.parses(input, first, middle) && if first.succeeded() {
                rest == middle && output == first.disjoined(None)
            } else {
                exists|second: Par1::Output| #[trigger]
                    either.parser1.parses(middle.at(input.position()), second, rest) && output
                        == first.disjoined(Some(second))
            };
        first.disjoined_signal(None);
    }
}

/// Sequencing short-circuits: when the first parser cannot succeed on
/// `input`, the sequence may be run wherever the first parser may, whatever
/// the second parser asks for, the cursor stays where the first parser left
/// it, and the outcome is the failure of the first parser.
pub proof fn sequence_short_circuits<Str, Par0, Par1>(
    both: And<Par0, Par1>,
    input: Str,
    output: <Par0::Output as Combinable<Par1::Output>>::Output,
    rest: Str,
) where
    Str: Stream,
    Par0: ParserOnce<Str>,
    Par1: ParserOnce<Str>,
    Par0::Output: Combinable<Par1::Output>,

    requires
        always_fails(both.parser0, input),
    ensures
        both.accepts(input) == both.parser0.accepts(input),
        both.parses(input, output, rest) ==> !output.succeeded() && exists|first: Par0::Output|
            #[trigger] both.parser0.parses(input, first, rest) && output == first.combined(None),
{
    if both.parses(input, output, rest) {
        let (first, middle) = choose|first: Par0::Output, middle: Str| #[trigger]
            both.parser0.parses(input, first, middle) && if first.succeeded() {
                exists|second: Par1::Output| #[trigger]
                    both.parser1.parses(middle, second, rest) && output == first.combined(
                        Some(second),
                    )
            } else {
                rest == middle && output == first.combined(None)
            };
        first.combined_signal(None);
    }
}

/// A sequence succeeds exactly when both parsers did, the second on what the
/// first left. When it fails, either the first parser failed and the cursor
/// is where that left it, or the second failed and the cursor is where that
/// left it.
pub proof fn sequence_signal<Str, Par0, Par1>(
    both: And<Par0, Par1>,
    input: Str,
    output: <Par0::Output as Combinable<Par1::Output>>::Output,
    rest: Str,
) where
    Str: Stream,
    Par0: ParserOnce<Str>,
    Par1: ParserOnce<Str>,
    Par0::Output: Combinable<Par1::Output>,

    requires
        both.parses(input, output, rest),
    ensures
        exists|first: Par0::Output, middle: Str|
            #[trigger] both.parser0.parses(input, first, middle) && if first.succeeded() {
                exists|second: Par1::Output|
                    #[trigger] both.parser1.parses(middle, second, rest) && output.succeeded()
                        == second.succeeded()
            } else {
                rest == middle && !output.succeeded()
            },
{
    let (first, middle) = choose|first: Par0::Output, middle: Str| #[trigger]
        both.parser0.parses(input, first, middle) && if first.succeeded() {
            exists|second: Par1::Output| #[trigger]
                both.parser1.parses(middle, second, rest) && output == first.combined(
                    Some(second),
                )
        } else {
            rest == middle && output == first.combined(None)
        };
    if first.succeeded() {
        let second = choose|second: Par1::Output| #[trigger]
            both.parser1.parses(middle, second, rest) && output == first.combined(Some(second));
        first.combined_signal(Some(second));
    } else {
        first.combined_signal(None);
    }
}

/// An alternation succeeds when the first parser did, and else exactly when
/// the second did, run from the offset at which the alternation started.
pub proof fn alternation_signal<Str, Par0, Par1>(
    either: Or<Par0, Par1>,
    input: Str,
    output: <Par0::Output as Disjoinable<Par1::Output>>::Output,
    rest: Str,
) where
    Str: Stream,
    Par0: ParserOnce<Str>,
    Par1: ParserOnce<Str>,
    Par0::Output: Disjoinable<Par1::Output>,

    requires
        either.parses(input, output, rest),
    ensures
        exists|first: Par0::Output, middle: Str|
            #[trigger] either.parser0.parses(input, first, middle) && if first.succeeded() {
                rest == middle && output.succeeded()
            } else {
                middle.at(input.position()).position() == input.position() && exists|
                    second: Par1::Output,
                |
                    #[trigger] either.parser1.parses(middle.at(input.position()), second, rest)
                        && output.succeeded() == second.succeeded()
            },
{
    let (first, middle) = choose|first: Par0::Output, middle: Str| #[trigger]
        either.parser0.parses(input, first, middle) && if first.succeeded() {
            rest == middle && output == first.disjoined(None)
        } else {
            exists|second: Par1::Output| #[trigger]
                either.parser1.parses(middle.at(input.position()), second, rest) && output
                    == first.disjoined(Some(second))
        };
    if first.succeeded() {
        first.disjoined_signal(None);
    } else {
        let second = choose|second: Par1::Output| #[trigger]
            either.parser1.parses(middle.at(input.position()), second, rest) && output
                == first.disjoined(Some(second));
        first.disjoined_signal(Some(second));
        middle.checkpoints(input.position(), input.position());
    }
}

/// Sequencing does not roll back: when the second parser fails, the cursor
/// is where the second parser left it, not where the sequence started.
pub proof fn sequence_keeps_movement<Str, Par0, Par1>(
    both: And<Par0, Par1>,
    input: Str,
    first: Par0::Output,
    middle: Str,
    second: Par1::Output,
    rest: Str,
) where
    Str: Stream,
    Par0: ParserOnce<Str>,
    Par1: ParserOnce<Str>,
    Par0::Output: Combinable<Par1::Output>,

    requires
        both.parser0.parses(input, first, middle),
        first.succeeded(),
        both.parser1.parses(middle, second, rest),
    ensures
        both.parses(input, first.combined(Some(second)), rest),
{
}

/// A backtracking boundary around a deterministic parser is deterministic.
pub proof fn boundary_is_deterministic<Str, Par>(boundary: NonTerminal<Par>) where
    Str: Stream,
    Par: ParserOnce<Str>,
    Par::Output: Recoverable,

    requires
        deterministic(boundary.parser),
    ensures
        deterministic(boundary),
{
    assert forall|input: Str, output0: Par::Output, rest0: Str, output1: Par::Output, rest1: Str|
        boundary.parses(input, output0, rest0) && boundary.parses(
            input,
            output1,
            rest1,
        ) implies output0 == output1 && rest0 == rest1 by {
        let reached0 = choose|reached: Str| #[trigger]
            boundary.parser.parses(input, output0, reached) && rest0
                == settled(
                input,
                output0.succeeded(),
                reached,
            );
        let reached1 = choose|reached: Str| #[trigger]
            boundary.parser.parses(input, output1, reached) && rest1
                == settled(
                input,
                output1.succeeded(),
                reached,
            );
        assert(output0 == output1 && reached0 == reached1);
    }
}

/// A sequence of two deterministic parsers is deterministic.
pub proof fn sequence_is_deterministic<Str, Par0, Par1>(both: And<Par0, Par1>) where
    Str: Stream,
    Par0: ParserOnce<Str>,
    Par1: ParserOnce<Str>,
    Par0::Output: Combinable<Par1::Output>,

    requires
        deterministic(both.parser0),
        deterministic(both.parser1),
    ensures
        deterministic(both),
{
    assert forall|
        input: Str,
        output0: <Par0::Output as Combinable<Par1::Output>>::Output,
        rest0: Str,
        output1: <Par0::Output as Combinable<Par1::Output>>::Output,
        rest1: Str,
    |
        both.parses(input, output0, rest0) && both.parses(
            input,
            output1,
            rest1,
        ) implies output0 == output1 && rest0 == rest1 by {
        let (first0, middle0) = choose|first: Par0::Output, middle: Str| #[trigger]
            both.parser0.parses(input, first, middle) && if first.succeeded() {
                exists|second: Par1::Output| #[trigger]
                    both.parser1.parses(middle, second, rest0) && output0 == first.combined(
                        Some(second),
                    )
            } else {
                rest0 == middle && output0 == first.combined(None)
            };
        let (first1, middle1) = choose|first: Par0::Output, middle: Str| #[trigger]
            both.parser0.parses(input, first, middle) && if first.succeeded() {
                exists|second: Par1::Output| #[trigger]
                    both.parser1.parses(middle, second, rest1) && output1 == first.combined(
                        Some(second),
                    )
            } else {
                rest1 == middle && output1 == first.combined(None)
            };
        assert(first0 == first1 && middle0 == middle1);
        if first0.succeeded() {
            let second0 = choose|second: Par1::Output| #[trigger]
                both.parser1.parses(middle0, second, rest0) && output0 == first0.combined(
                    Some(second),
                );
            let second1 = choose|second: Par1::Output| #[trigger]
                both.parser1.parses(middle1, second, rest1) && output1 == first1.combined(
                    Some(second),
                );
            assert(second0 == second1 && rest0 == rest1);
        }
    }
}

/// An alternation of two deterministic parsers is deterministic.
pub proof fn alternation_is_deterministic<Str, Par0, Par1>(either: Or<Par0, Par1>) where
    Str: Stream,
    Par0: ParserOnce<Str>,
    Par1: ParserOnce<Str>,
    Par0::Output: Disjoinable<Par1::Output>,

    requires
        deterministic(either.parser0),
        deterministic(either.parser1),
    ensures
        deterministic(either),
{
    assert forall|
        input: Str,
        output0: <Par0::Output as Disjoinable<Par1::Output>>::Output,
        rest0: Str,
        output1: <Par0::Output as Disjoinable<Par1::Output>>::Output,
        rest1: Str,
    |
        either.parses(input, output0, rest0) && either.parses(
            input,
            output1,
            rest1,
        ) implies output0 == output1 && rest0 == rest1 by {
        let (first0, middle0) = choose|first: Par0::Output, middle: Str| #[trigger]
            either.parser0.parses(input, first, middle) && if first.succeeded() {
                rest0 == middle && output0 == first.disjoined(None)
            } else {
                exists|second: Par1::Output| #[trigger]
                    either.parser1.parses(middle.at(input.position()), second, rest0) && output0
                        == first.disjoined(Some(second))
            };
        let (first1, middle1) = choose|first: Par0::Output, middle: Str| #[trigger]
            either.parser0.parses(input, first, middle) && if first.succeeded() {
                rest1 == middle && output1 == first.disjoined(None)
            } else {
                exists|second: Par1::Output| #[trigger]
                    either.parser1.parses(middle.at(input.position()), second, rest1) && output1
                        == first.disjoined(Some(second))
            };
        assert(first0 == first1 && middle0 == middle1);
        if !first0.succeeded() {
            let second0 = choose|second: Par1::Output| #[trigger]
                either.parser1.parses(middle0.at(input.position()), second, rest0) && output0
                    == first0.disjoined(Some(second));
            let second1 = choose|second: Par1::Output| #[trigger]
                either.parser1.parses(middle1.at(input.position()), second, rest1) && output1
                    == first1.disjoined(Some(second));
            assert(second0 == second1 && rest0 == rest1);
        }
    }
}

/// A deterministic parser stays deterministic when its value is dropped.
pub proof fn ignore_is_deterministic<Str, Par>(adapter: Ignore<Par>) where
    Str: Stream,
    Par: ParserOnce<Str>,
    Par::Output: Ignorable,

    requires
        deterministic(adapter.parser),
    ensures
        deterministic(adapter),
{
    assert forall|
        input: Str,
        output0: <Par::Output as Ignorable>::Output,
        rest0: Str,
        output1: <Par::Output as Ignorable>::Output,
        rest1: Str,
    |
        adapter.parses(input, output0, rest0) && adapter.parses(
            input,
            output1,
            rest1,
        ) implies output0 == output1 && rest0 == rest1 by {
        let inner0 = choose|inner: Par::Output| #[trigger]
            adapter.parser.parses(input, inner, rest0) && output0 == inner.ignored();
        let inner1 = choose|inner: Par::Output| #[trigger]
            adapter.parser.parses(input, inner, rest1) && output1 == inner.ignored();
        assert(inner0 == inner1 && rest0 == rest1);
    }
}

/// A deterministic parser stays deterministic when it is made optional.
pub proof fn opt_is_deterministic<Str, Par>(adapter: Opt<Par>) where
    Str: Stream,
    Par: ParserOnce<Str>,
    Par::Output: Optionable,

    requires
        deterministic(adapter.parser),
    ensures
        deterministic(adapter),
{
    let boundary = NonTerminal { parser: adapter.parser };
    boundary_is_deterministic(boundary);
    assert forall|
        input: Str,
        output0: <Par::Output as Optionable>::Output,
        rest0: Str,
        output1: <Par::Output as Optionable>::Output,
        rest1: Str,
    |
        adapter.parses(input, output0, rest0) && adapter.parses(
            input,
            output1,
            rest1,
        ) implies output0 == output1 && rest0 == rest1 by {
        let inner0 = choose|inner: Par::Output| #[trigger]
            boundary.parses(input, inner, rest0) && output0 == inner.optional();
        let inner1 = choose|inner: Par::Output| #[trigger]
            boundary.parses(input, inner, rest1) && output1 == inner.optional();
        assert(inner0 == inner1 && rest0 == rest1);
    }
}

/// An optional parser never fails, and a failed attempt leaves the cursor
/// at the offset it had.
pub proof fn opt_never_leaks<Str, Par>(
    adapter: Opt<Par>,
    input: Str,
    output: <Par::Output as Optionable>::Output,
    rest: Str,
) where Str: Stream, Par: ParserOnce<Str>, Par::Output: Optionable
    requires
        adapter.parses(input, output, rest),
    ensures
        output.succeeded(),
        exists|inner: Par::Output, reached: Str|
            #[trigger] adapter.parser.parses(input, inner, reached) && output == inner.optional()
                && (inner.succeeded() ==> rest == reached) && (!inner.succeeded()
                ==> rest.position() == input.position()),
{
    let boundary = NonTerminal { parser: adapter.parser };
    let inner = choose|inner: Par::Output| #[trigger]
        boundary.parses(input, inner, rest) && output == inner.optional();
    let reached = choose|reached: Str| #[trigger]
        adapter.parser.parses(input, inner, reached) && rest
            == settled(input, inner.succeeded(), reached);
    reached.checkpoints(input.position(), input.position());
    inner.optional_succeeds();
}

/// True when a call of `function` on a value has one result only.
pub open spec fn single_result<Fun, Arg, Out>(function: Fun) -> bool where Fun: FnOnce(Arg) -> Out {
    forall|argument: Arg, result0: Out, result1: Out|
        #![trigger call_ensures(function, (argument,), result0), call_ensures(function, (argument,), result1)]
        call_ensures(function, (argument,), result0) && call_ensures(
            function,
            (argument,),
            result1,
        ) ==> result0 == result1
}

/// A deterministic parser mapped through a function with one result is deterministic.
pub proof fn map_is_deterministic<Str, Par, Fun, Val>(adapter: MapValue<Par, Fun, Val>) where
    Str: Stream,
    Par: ParserOnce<Str>,
    Par::Output: Data<Val>,
    Fun: FnOnce(<Par::Output as Data<Val>>::Value) -> Val,

    requires
        deterministic(adapter.parser),
        single_result(adapter.function),
    ensures
        deterministic(adapter),
{
    assert forall|
        input: Str,
        output0: <Par::Output as Data<Val>>::WithVal,
        rest0: Str,
        output1: <Par::Output as Data<Val>>::WithVal,
        rest1: Str,
    |
        adapter.parses(input, output0, rest0) && adapter.parses(
            input,
            output1,
            rest1,
        ) implies output0 == output1 && rest0 == rest1 by {
        let inner0 = choose|inner: Par::Output| #[trigger]
            adapter.parser.parses(input, inner, rest0) && mapped(inner, adapter.function, output0);
        let inner1 = choose|inner: Par::Output| #[trigger]
            adapter.parser.parses(input, inner, rest1) && mapped(inner, adapter.function, output1);
        assert(inner0 == inner1 && rest0 == rest1);
        if inner0.succeeded() {
            let value0 = choose|value: Val| #[trigger]
                call_ensures(adapter.function, (inner0.value(),), value) && output0
                    == inner0.with_value(value);
            let value1 = choose|value: Val| #[trigger]
                call_ensures(adapter.function, (inner0.value(),), value) && output1
                    == inner0.with_value(value);
            assert(value0 == value1);
        }
    }
}

/// A deterministic parser whose error goes through a function with one
/// result is deterministic.
pub proof fn map_err_is_deterministic<Str, Par, Fun, NewErr>(
    adapter: MapErr<Par, Fun, NewErr>,
) where
    Str: Stream,
    Par: ParserOnce<Str>,
    Par::Output: Exceptional<NewErr>,
    Fun: Fn(<Par::Output as Exceptional<NewErr>>::Error) -> NewErr,

    requires
        deterministic(adapter.parser),
        single_result(adapter.function),
    ensures
        deterministic(adapter),
{
    assert forall|
        input: Str,
        output0: <Par::Output as Exceptional<NewErr>>::WithErr,
        rest0: Str,
        output1: <Par::Output as Exceptional<NewErr>>::WithErr,
        rest1: Str,
    |
        adapter.parses(input, output0, rest0) && adapter.parses(
            input,
            output1,
            rest1,
        ) implies output0 == output1 && rest0 == rest1 by {
        let inner0 = choose|inner: Par::Output| #[trigger]
            adapter.parser.parses(input, inner, rest0) && if inner.succeeded() {
                output0 == inner.with_error(arbitrary())
            } else {
                exists|error: NewErr| #[trigger]
                    call_ensures(adapter.function, (inner.error(),), error) && output0
                        == inner.with_error(error)
            };
        let inner1 = choose|inner: Par::Output| #[trigger]
            adapter.parser.parses(input, inner, rest1) && if inner.succeeded() {
                output1 == inner.with_error(arbitrary())
            } else {
                exists|error: NewErr| #[trigger]
                    call_ensures(adapter.function, (inner.error(),), error) && output1
                        == inner.with_error(error)
            };
        assert(inner0 == inner1 && rest0 == rest1);
        if !inner0.succeeded() {
            let error0 = choose|error: NewErr| #[trigger]
                call_ensures(adapter.function, (inner0.error(),), error) && output0
                    == inner0.with_error(error);
            let error1 = choose|error: NewErr| #[trigger]
                call_ensures(adapter.function, (inner0.error(),), error) && output1
                    == inner0.with_error(error);
            assert(error0 == error1);
        }
    }
}

/// A deterministic parser whose value goes to a fallible function with one
/// result is deterministic.
pub proof fn try_map_is_deterministic<Str, Par, Fun, Val>(adapter: TryMap<Par, Fun, Val>) where
    Str: Stream,
    Par: ParserOnce<Str>,
    Par::Output: Data<Val> + Exceptional<()>,
    Fun: Fn(<Par::Output as Data<Val>>::Value) -> <Par::Output as Data<Val>>::WithVal,

    requires
        deterministic(adapter.parser),
        single_result(adapter.function),
    ensures
        deterministic(adapter),
{
    assert forall|
        input: Str,
        output0: <Par::Output as Data<Val>>::WithVal,
        rest0: Str,
        output1: <Par::Output as Data<Val>>::WithVal,
        rest1: Str,
    |
        adapter.parses(input, output0, rest0) && adapter.parses(
            input,
            output1,
            rest1,
        ) implies output0 == output1 && rest0 == rest1 by {
        let inner0 = choose|inner: Par::Output| #[trigger]
            adapter.parser.parses(input, inner, rest0) && if inner.succeeded() {
                call_ensures(adapter.function, (Data::<Val>::value(inner),), output0)
            } else {
                output0 == Data::<Val>::with_value(inner, arbitrary())
            };
        let inner1 = choose|inner: Par::Output| #[trigger]
            adapter.parser.parses(input, inner, rest1) && if inner.succeeded() {
                call_ensures(adapter.function, (Data::<Val>::value(inner),), output1)
            } else {
                output1 == Data::<Val>::with_value(inner, arbitrary())
            };
        assert(inner0 == inner1 && rest0 == rest1);
    }
}

/// A deterministic parser stays deterministic when its value is replaced by `()`.
pub proof fn unit_is_deterministic<Str, Par>(adapter: Unit<Par>) where
    Str: Stream,
    Par: ParserOnce<Str>,
    Par::Output: Data<()>,

    requires
        deterministic(adapter.parser),
    ensures
        deterministic(adapter),
{
    assert forall|
        input: Str,
        output0: <Par::Output as Data<()>>::WithVal,
        rest0: Str,
        output1: <Par::Output as Data<()>>::WithVal,
        rest1: Str,
    |
        adapter.parses(input, output0, rest0) && adapter.parses(
            input,
            output1,
            rest1,
        ) implies output0 == output1 && rest0 == rest1 by {
        let inner0 = choose|inner: Par::Output| #[trigger]
            adapter.parser.parses(input, inner, rest0) && output0 == inner.with_value(());
        let inner1 = choose|inner: Par::Output| #[trigger]
            adapter.parser.parses(input, inner, rest1) && output1 == inner.with_value(());
        assert(inner0 == inner1 && rest0 == rest1);
    }
}

/// A deterministic parser rebound through a function with one result is deterministic.
pub proof fn flat_map_is_deterministic<Str, Par, Fun, Val>(adapter: FlatMap<Par, Fun, Val>) where
    Str: Stream,
    Par: ParserOnce<Str>,
    Par::Output: Data<Val> + Exceptional<()>,
    Fun: Fn(<Par::Output as Data<Val>>::Value) -> <Par::Output as Data<Val>>::WithVal,

    requires
        deterministic(adapter.parser),
        single_result(adapter.function),
    ensures
        deterministic(adapter),
{
    assert forall|
        input: Str,
        output0: <Par::Output as Data<Val>>::WithVal,
        rest0: Str,
        output1: <Par::Output as Data<Val>>::WithVal,
        rest1: Str,
    |
        adapter.parses(input, output0, rest0) && adapter.parses(
            input,
            output1,
            rest1,
        ) implies output0 == output1 && rest0 == rest1 by {
        let inner0 = choose|inner: Par::Output| #[trigger]
            adapter.parser.parses(input, inner, rest0) && if inner.succeeded() {
                call_ensures(adapter.function, (Data::<Val>::value(inner),), output0)
            } else {
                output0 == Data::<Val>::with_value(inner, arbitrary())
            };
        let inner1 = choose|inner: Par::Output| #[trigger]
            adapter.parser.parses(input, inner, rest1) && if inner.succeeded() {
                call_ensures(adapter.function, (Data::<Val>::value(inner),), output1)
            } else {
                output1 == Data::<Val>::with_value(inner, arbitrary())
            };
        assert(inner0 == inner1 && rest0 == rest1);
    }
}

/// A deterministic parser with a value attached is deterministic, where a
/// copy of the value is the value.
pub proof fn attach_is_deterministic<Str, Par, Val>(adapter: Attach<Par, Val>) where
    Str: Stream,
    Par: ParserOnce<Str>,
    Par::Output: Attachable<Val>,
    Val: Clone,

    requires
        deterministic(adapter.parser),
        forall|copy: Val| cloned(adapter.value, copy) ==> copy == adapter.value,
    ensures
        deterministic(adapter),
{
    assert forall|
        input: Str,
        output0: <Par::Output as Attachable<Val>>::Output,
        rest0: Str,
        output1: <Par::Output as Attachable<Val>>::Output,
        rest1: Str,
    |
        adapter.parses(input, output0, rest0) && adapter.parses(
            input,
            output1,
            rest1,
        ) implies output0 == output1 && rest0 == rest1 by {
        let (inner0, copy0) = choose|inner: Par::Output, copy: Val| #[trigger]
            adapter.parser.parses(input, inner, rest0) && cloned(adapter.value, copy) && output0
                == #[trigger] inner.attached(copy);
        let (inner1, copy1) = choose|inner: Par::Output, copy: Val| #[trigger]
            adapter.parser.parses(input, inner, rest1) && cloned(adapter.value, copy) && output1
                == #[trigger] inner.attached(copy);
        assert(inner0 == inner1 && rest0 == rest1);
    }
}

} // verus!
