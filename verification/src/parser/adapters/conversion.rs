use crate::data::traits::{Data, Response};
use crate::parser::traits::ParserOnce;
use crate::stream::traits::Stream;
use vstd::prelude::*;

verus! {

/// Replaces the value that the wrapped parser carries by `()`.
pub struct Unit<Par> {
    pub parser: Par,
}

impl<Par> Unit<Par> {
    pub fn new<Str>(parser: Par) -> (adapter: Self) where
        Str: Stream,
        Par: ParserOnce<Str>,
        Par::Output: Data<()>,

        ensures
            adapter.parser == parser,
    {
        Self { parser }
    }
}

impl<Str, Par> ParserOnce<Str> for Unit<Par> where
    Str: Stream,
    Par: ParserOnce<Str>,
    Par::Output: Data<()>,
 {
    type Output = <Par::Output as Data<()>>::WithVal;

    open spec fn accepts(self, input: Str) -> bool {
        self.parser.accepts(input)
    }

    open spec fn parses(self, input: Str, output: Self::Output, rest: Str) -> bool {
        exists|inner: Par::Output| #[trigger]
            self.parser.parses(input, inner, rest) && output == inner.with_value(())
    }

    fn parse_stream_once(self, input: &mut Str) -> (output: Self::Output) {
        self.parser.parse_stream_once(input).map(
            |_value: <Par::Output as Data<()>>::Value| -> (unit: ()) { () },
        )
    }
}

} // verus!
