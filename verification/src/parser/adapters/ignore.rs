use crate::data::traits::Ignorable;
use crate::parser::traits::ParserOnce;
use crate::stream::traits::Stream;
use vstd::prelude::*;

verus! {

/// Keeps the signal of the wrapped parser and drops the value it carries.
pub struct Ignore<Par> {
    pub parser: Par,
}

impl<Par> Ignore<Par> {
    pub fn new<Str>(parser: Par) -> (adapter: Self) where
        Str: Stream,
        Par: ParserOnce<Str>,
        Par::Output: Ignorable,

        ensures
            adapter.parser == parser,
    {
        Self { parser }
    }
}

impl<Str, Par> ParserOnce<Str> for Ignore<Par> where
    Str: Stream,
    Par: ParserOnce<Str>,
    Par::Output: Ignorable,
 {
    type Output = <Par::Output as Ignorable>::Output;

    open spec fn accepts(self, input: Str) -> bool {
        self.parser.accepts(input)
    }

    open spec fn parses(self, input: Str, output: Self::Output, rest: Str) -> bool {
        exists|inner: Par::Output| #[trigger]
            self.parser.parses(input, inner, rest) && output == inner.ignored()
    }

    fn parse_stream_once(self, input: &mut Str) -> (output: Self::Output) {
        self.parser.parse_stream_once(input).ignore_response()
    }
}

} // verus!
