use crate::data::traits::Attachable;
use crate::parser::traits::ParserOnce;
use crate::stream::traits::Stream;
use vstd::prelude::*;

verus! {

/// Gives the success of the wrapped parser a value to carry.
pub struct Attach<Par, Val> {
    pub parser: Par,
    pub value: Val,
}

impl<Par, Val> Attach<Par, Val> {
    pub fn new<Str>(parser: Par, value: Val) -> (adapter: Self) where
        Str: Stream,
        Par: ParserOnce<Str>,
        Par::Output: Attachable<Val>,

        ensures
            adapter.parser == parser,
            adapter.value == value,
    {
        Self { parser, value }
    }
}

impl<Str, Par, Val> ParserOnce<Str> for Attach<Par, Val> where
    Str: Stream,
    Par: ParserOnce<Str>,
    Par::Output: Attachable<Val>,
    Val: Clone,
 {
    type Output = <Par::Output as Attachable<Val>>::Output;

    open spec fn accepts(self, input: Str) -> bool {
        self.parser.accepts(input)
    }

    open spec fn parses(self, input: Str, output: Self::Output, rest: Str) -> bool {
        exists|inner: Par::Output, copy: Val| #[trigger]
            self.parser.parses(input, inner, rest) && cloned(self.value, copy) && output
                == #[trigger] inner.attached(copy)
    }

    fn parse_stream_once(self, input: &mut Str) -> (output: Self::Output) {
        self.parser.parse_stream_once(input).attach_to_response(self.value.clone())
    }
}

} // verus!
