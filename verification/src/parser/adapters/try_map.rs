use crate::data::traits::{Data, Exceptional, Response};
use crate::parser::traits::ParserOnce;
use crate::stream::traits::Stream;
use std::marker::PhantomData;
use vstd::prelude::*;

verus! {

/// Hands the value that the wrapped parser carries to a function that may
/// itself fail. The response has to be one that can carry an error.
pub struct TryMap<Par, Fun, Val> {
    pub parser: Par,
    pub function: Fun,
    pub _marker: PhantomData<Val>,
}

impl<Par, Fun, Val> TryMap<Par, Fun, Val> {
    pub fn new<Str>(parser: Par, function: Fun) -> (adapter: TryMap<Par, Fun, Val>) where
        Str: Stream,
        Par: ParserOnce<Str>,
        Par::Output: Data<Val> + Exceptional<()>,
        Fun: Fn(<Par::Output as Data<Val>>::Value) -> <Par::Output as Data<Val>>::WithVal,

        ensures
            adapter.parser == parser,
            adapter.function == function,
    {
        TryMap { parser, function, _marker: PhantomData }
    }
}

impl<Str, Par, Fun, Val> ParserOnce<Str> for TryMap<Par, Fun, Val> where
    Str: Stream,
    Par: ParserOnce<Str>,
    Par::Output: Data<Val> + Exceptional<()>,
    Fun: Fn(<Par::Output as Data<Val>>::Value) -> <Par::Output as Data<Val>>::WithVal,
 {
    type Output = <Par::Output as Data<Val>>::WithVal;

    open spec fn accepts(self, input: Str) -> bool {
        &&& self.parser.accepts(input)
        &&& forall|inner: Par::Output, rest: Str| #[trigger]
            self.parser.parses(input, inner, rest) && inner.succeeded() ==> call_requires(
                self.function,
                (Data::<Val>::value(inner),),
            )
    }

    open spec fn parses(self, input: Str, output: Self::Output, rest: Str) -> bool {
        exists|inner: Par::Output| #[trigger]
            self.parser.parses(input, inner, rest) && if inner.succeeded() {
                call_ensures(self.function, (Data::<Val>::value(inner),), output)
            } else {
                output == Data::<Val>::with_value(inner, arbitrary())
            }
    }

    fn parse_stream_once(self, input: &mut Str) -> (output: Self::Output) {
        self.parser.parse_stream_once(input).flat_map(&self.function)
    }
}

} // verus!
