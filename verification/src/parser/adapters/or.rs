use crate::data::traits::{Data, Disjoinable, Response};
use crate::parser::adapters::map::MapValue;
use crate::parser::traits::ParserOnce;
use either::Either;
use std::marker::PhantomData;
use crate::stream::traits::Stream;
use vstd::prelude::*;

verus! {

/// Alternation: the first parser; when it fails, the cursor goes back to the
/// offset it had and the second parser runs from there.
pub struct Or<Par0, Par1> {
    pub parser0: Par0,
    pub parser1: Par1,
}

impl<Par0, Par1> Or<Par0, Par1> {
    pub fn new<Str>(parser0: Par0, parser1: Par1) -> (either: Or<Par0, Par1>) where
        Str: Stream,
        Par0: ParserOnce<Str>,
        Par1: ParserOnce<Str>,
        Par0::Output: Disjoinable<Par1::Output>,

        ensures
            either.parser0 == parser0,
            either.parser1 == parser1,
    {
        Or { parser0, parser1 }
    }
}

impl<Par0, Par1> Or<Par0, Par1> {
    /// The same alternation with one value type for both parsers: a value of
    /// the first becomes a left alternative, a value of the second a right one.
    pub fn either<Str, Val0, Val1>(self) -> (either: Or<
        MapValue<Par0, impl Fn(Val0) -> Either<Val0, Val1>, Either<Val0, Val1>>,
        MapValue<Par1, impl Fn(Val1) -> Either<Val0, Val1>, Either<Val0, Val1>>,
    >) where
        Str: Stream,
        Par0: ParserOnce<Str>,
        Par0::Output: Data<Either<Val0, Val1>, Value = Val0>,
        Par1: ParserOnce<Str>,
        Par1::Output: Data<Either<Val0, Val1>, Value = Val1>,

        ensures
            either.parser0.parser == self.parser0,
            either.parser1.parser == self.parser1,
            forall|value: Val0| call_requires(either.parser0.function, (value,)),
            forall|value: Val1| call_requires(either.parser1.function, (value,)),
            forall|value: Val0, tagged: Either<Val0, Val1>|
                call_ensures(either.parser0.function, (value,), tagged) ==> tagged == Either::<
                    Val0,
                    Val1,
                >::Left(value),
            forall|value: Val1, tagged: Either<Val0, Val1>|
                call_ensures(either.parser1.function, (value,), tagged) ==> tagged == Either::<
                    Val0,
                    Val1,
                >::Right(value),
    {
        Or {
            parser0: MapValue {
                parser: self.parser0,
                function: |value: Val0| -> (tagged: Either<Val0, Val1>)
                    ensures
                        tagged == Either::<Val0, Val1>::Left(value)
                    { Either::Left(value) },
                _marker: PhantomData,
            },
            parser1: MapValue {
                parser: self.parser1,
                function: |value: Val1| -> (tagged: Either<Val0, Val1>)
                    ensures
                        tagged == Either::<Val0, Val1>::Right(value)
                    { Either::Right(value) },
                _marker: PhantomData,
            },
        }
    }
}

impl<Str, Par0, Par1> ParserOnce<Str> for Or<Par0, Par1> where
    Str: Stream,
    Par0: ParserOnce<Str>,
    Par1: ParserOnce<Str>,
    Par0::Output: Disjoinable<Par1::Output>,
 {
    type Output = <Par0::Output as Disjoinable<Par1::Output>>::Output;

    open spec fn accepts(self, input: Str) -> bool {
        &&& self.parser0.accepts(input)
        &&& forall|first: Par0::Output, middle: Str| #[trigger]
            self.parser0.parses(input, first, middle) && !first.succeeded()
                ==> self.parser1.accepts(middle.at(input.position()))
    }

    open spec fn parses(self, input: Str, output: Self::Output, rest: Str) -> bool {
        exists|first: Par0::Output, middle: Str| #[trigger]
            self.parser0.parses(input, first, middle) && if first.succeeded() {
                rest == middle && output == first.disjoined(None)
            } else {
                exists|second: Par1::Output| #[trigger]
                    self.parser1.parses(middle.at(input.position()), second, rest) && output
                        == first.disjoined(Some(second))
            }
    }

    fn parse_stream_once(self, input: &mut Str) -> (output: Self::Output) {
        let offset = input.offset();
        let parser1 = self.parser1;
        self.parser0.parse_stream_once(input).disjoin_response(
            |input: &mut Str| -> (second: Par1::Output)
                requires
                    parser1.accepts(*input),
                ensures
                    parser1.parses(*old(input), second, *final(input))
                { parser1.parse_stream_once(input) },
            |input: &mut Str|
                ensures
                    *final(input) == old(input).at(offset)
                {
                    *input.offset_mut() = offset;
                },
            input,
        )
    }
}

} // verus!
