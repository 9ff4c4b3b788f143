use super::non_terminal::NonTerminal;
use crate::data::traits::Optionable;
use crate::parser::traits::ParserOnce;
use crate::stream::traits::Stream;
use vstd::prelude::*;

verus! {

/// Makes the wrapped parser optional: a failure becomes "no value", and the
/// cursor goes back to where the attempt started.
pub struct Opt<Par> {
    pub parser: Par,
}

impl<Par> Opt<Par> {
    pub fn new<Str>(parser: Par) -> (adapter: Self) where
        Str: Stream,
        Par: ParserOnce<Str>,
        Par::Output: Optionable,

        ensures
            adapter.parser == parser,
    {
        Self { parser }
    }
}

impl<Str, Par> ParserOnce<Str> for Opt<Par> where
    Str: Stream,
    Par: ParserOnce<Str>,
    Par::Output: Optionable,
 {
    type Output = <Par::Output as Optionable>::Output;

    open spec fn accepts(self, input: Str) -> bool {
        self.parser.accepts(input)
    }

    open spec fn parses(self, input: Str, output: Self::Output, rest: Str) -> bool {
        exists|inner: Par::Output| #[trigger]
            (NonTerminal { parser: self.parser }).parses(input, inner, rest) && output
                == inner.optional()
    }

    fn parse_stream_once(self, input: &mut Str) -> (output: Self::Output) {
        self.parser.non_terminal().parse_stream_once(input).opt_response()
    }
}

} // verus!
