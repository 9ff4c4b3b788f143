use crate::data::traits::{Exceptional, Response};
use crate::parser::traits::ParserOnce;
use crate::stream::traits::Stream;
use std::marker::PhantomData;
use vstd::prelude::*;

verus! {

/// Transforms the error that the wrapped parser carries on failure.
pub struct MapErr<Par, Fun, NewErr> {
    pub parser: Par,
    pub function: Fun,
    pub _marker: PhantomData<NewErr>,
}

impl<Par, Fun, NewErr> MapErr<Par, Fun, NewErr> {
    pub fn new<Str>(parser: Par, function: Fun) -> (adapter: Self) where
        Str: Stream,
        Par: ParserOnce<Str>,
        Par::Output: Exceptional<NewErr>,
        Fun: Fn(<Par::Output as Exceptional<NewErr>>::Error) -> NewErr,

        ensures
            adapter.parser == parser,
            adapter.function == function,
    {
        Self { parser, function, _marker: PhantomData }
    }
}

impl<Str, Par, Fun, NewErr> ParserOnce<Str> for MapErr<Par, Fun, NewErr> where
    Str: Stream,
    Par: ParserOnce<Str>,
    Par::Output: Exceptional<NewErr>,
    Fun: Fn(<Par::Output as Exceptional<NewErr>>::Error) -> NewErr,
 {
    type Output = <Par::Output as Exceptional<NewErr>>::WithErr;

    open spec fn accepts(self, input: Str) -> bool {
        &&& self.parser.accepts(input)
        &&& forall|inner: Par::Output, rest: Str| #[trigger]
            self.parser.parses(input, inner, rest) && !inner.succeeded() ==> call_requires(
                self.function,
                (inner.error(),),
            )
    }

    open spec fn parses(self, input: Str, output: Self::Output, rest: Str) -> bool {
        exists|inner: Par::Output| #[trigger]
            self.parser.parses(input, inner, rest) && if inner.succeeded() {
                output == inner.with_error(arbitrary())
            } else {
                exists|error: NewErr| #[trigger]
                    call_ensures(self.function, (inner.error(),), error) && output
                        == inner.with_error(error)
            }
    }

    fn parse_stream_once(self, input: &mut Str) -> (output: Self::Output) {
        self.parser.parse_stream_once(input).map_err(&self.function)
    }
}

} // verus!
