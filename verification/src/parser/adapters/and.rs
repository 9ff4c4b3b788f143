use crate::data::traits::{Combinable, Exceptional, Response};
use crate::parser::adapters::map_err::MapErr;
use crate::parser::traits::ParserOnce;
use either::Either;
use std::marker::PhantomData;
use crate::stream::traits::Stream;
use vstd::prelude::*;

verus! {

/// Sequencing: the first parser, then the second on what the first left.
///
/// Nothing is rolled back: when the second parser fails, the cursor stays
/// where the two left it.
pub struct And<Par0, Par1> {
    pub parser0: Par0,
    pub parser1: Par1,
}

impl<Par0, Par1> And<Par0, Par1> {
    pub fn new<Str>(parser0: Par0, parser1: Par1) -> (both: And<Par0, Par1>) where
        Str: Stream,
        Par0: ParserOnce<Str>,
        Par1: ParserOnce<Str>,
        Par0::Output: Combinable<Par1::Output>,

        ensures
            both.parser0 == parser0,
            both.parser1 == parser1,
    {
        And { parser0, parser1 }
    }
}

impl<Par0, Par1> And<Par0, Par1> {
    /// The same sequence with one error type for both parsers: an error of
    /// the first becomes a left alternative, an error of the second a right one.
    pub fn either_err<Str, Fail0, Fail1>(self) -> (both: And<
        MapErr<Par0, impl Fn(Fail0) -> Either<Fail0, Fail1>, Either<Fail0, Fail1>>,
        MapErr<Par1, impl Fn(Fail1) -> Either<Fail0, Fail1>, Either<Fail0, Fail1>>,
    >) where
        Str: Stream,
        Par0: ParserOnce<Str>,
        Par0::Output: Exceptional<Either<Fail0, Fail1>, Error = Fail0>,
        Par1: ParserOnce<Str>,
        Par1::Output: Exceptional<Either<Fail0, Fail1>, Error = Fail1>,

        ensures
            both.parser0.parser == self.parser0,
            both.parser1.parser == self.parser1,
            forall|error: Fail0| call_requires(both.parser0.function, (error,)),
            forall|error: Fail1| call_requires(both.parser1.function, (error,)),
            forall|error: Fail0, tagged: Either<Fail0, Fail1>|
                call_ensures(both.parser0.function, (error,), tagged) ==> tagged == Either::<
                    Fail0,
                    Fail1,
                >::Left(error),
            forall|error: Fail1, tagged: Either<Fail0, Fail1>|
                call_ensures(both.parser1.function, (error,), tagged) ==> tagged == Either::<
                    Fail0,
                    Fail1,
                >::Right(error),
    {
        And {
            parser0: MapErr {
                parser: self.parser0,
                function: |error: Fail0| -> (tagged: Either<Fail0, Fail1>)
                    ensures
                        tagged == Either::<Fail0, Fail1>::Left(error)
                    { Either::Left(error) },
                _marker: PhantomData,
            },
            parser1: MapErr {
                parser: self.parser1,
                function: |error: Fail1| -> (tagged: Either<Fail0, Fail1>)
                    ensures
                        tagged == Either::<Fail0, Fail1>::Right(error)
                    { Either::Right(error) },
                _marker: PhantomData,
            },
        }
    }
}

impl<Str, Par0, Par1> ParserOnce<Str> for And<Par0, Par1> where
    Str: Stream,
    Par0: ParserOnce<Str>,
    Par1: ParserOnce<Str>,
    Par0::Output: Combinable<Par1::Output>,
 {
    type Output = <Par0::Output as Combinable<Par1::Output>>::Output;

    open spec fn accepts(self, input: Str) -> bool {
        &&& self.parser0.accepts(input)
        &&& forall|first: Par0::Output, middle: Str| #[trigger]
            self.parser0.parses(input, first, middle) && first.succeeded()
                ==> self.parser1.accepts(middle)
    }

    open spec fn parses(self, input: Str, output: Self::Output, rest: Str) -> bool {
        exists|first: Par0::Output, middle: Str| #[trigger]
            self.parser0.parses(input, first, middle) && if first.succeeded() {
                exists|second: Par1::Output| #[trigger]
                    self.parser1.parses(middle, second, rest) && output == first.combined(
                        Some(second),
                    )
            } else {
                rest == middle && output == first.combined(None)
            }
    }

    fn parse_stream_once(self, input: &mut Str) -> (output: Self::Output) {
        let parser1 = self.parser1;
        self.parser0.parse_stream_once(input).combine_response(
            |input: &mut Str| -> (second: Par1::Output)
                requires
                    parser1.accepts(*input),
                ensures
                    parser1.parses(*old(input), second, *final(input))
                { parser1.parse_stream_once(input) },
            input,
        )
    }
}

} // verus!
