use crate::data::traits::{Recoverable, Response};
use crate::parser::traits::{ParserMut, ParserOnce};
use crate::stream::traits::Stream;
use vstd::prelude::*;

verus! {

/// The backtracking boundary: when the wrapped parser fails, the cursor goes
/// back to where it was before the attempt.
pub struct NonTerminal<Par> {
    pub parser: Par,
}

/// The cursor after an attempt that started at `input` and that the wrapped
/// parser left at `reached`: on success where the parser left it, on failure
/// at the offset it started from.
pub open spec fn settled<Str: Stream>(input: Str, succeeded: bool, reached: Str) -> Str {
    if succeeded {
        reached
    } else {
        reached.at(input.position())
    }
}

impl<Par> NonTerminal<Par> {
    pub fn new<Str>(parser: Par) -> (boundary: Self) where
        Str: Stream,
        Par: ParserOnce<Str>,
        Par::Output: Recoverable,

        ensures
            boundary.parser == parser,
    {
        Self { parser }
    }
}

impl<Str, Par> ParserOnce<Str> for NonTerminal<Par> where
    Str: Stream,
    Par: ParserOnce<Str>,
    Par::Output: Recoverable,
 {
    type Output = Par::Output;

    open spec fn accepts(self, input: Str) -> bool {
        self.parser.accepts(input)
    }

    open spec fn parses(self, input: Str, output: Par::Output, rest: Str) -> bool {
        exists|reached: Str| #[trigger]
            self.parser.parses(input, output, reached) && rest == settled(
                input,
                output.succeeded(),
                reached,
            )
    }

    fn parse_stream_once(self, input: &mut Str) -> (output: Par::Output) {
        let offset = input.offset();
        self.parser.parse_stream_once(input).recover_response(
            |input: &mut Str|
                ensures
                    *final(input) == old(input).at(offset),
                    final(input).position() == offset
                {
                    *input.offset_mut() = offset;
                },
            input,
        )
    }
}

impl<Str, Par> ParserMut<Str> for NonTerminal<Par> where
    Str: Stream,
    Par: ParserMut<Str>,
    Par::Output: Recoverable,
 {
    open spec fn steps(self, input: Str, output: Par::Output, rest: Str, next: Self) -> bool {
        exists|reached: Str| #[trigger]
            self.parser.steps(input, output, reached, next.parser) && rest == settled(
                input,
                output.succeeded(),
                reached,
            )
    }

    fn parse_stream_mut(&mut self, input: &mut Str) -> (output: Par::Output) {
        let offset = input.offset();
        let attempt = self.parser.parse_stream_mut(input);
        assert(old(self).parser.steps(*old(input), attempt, *input, self.parser));
        attempt.recover_response(
            |input: &mut Str|
                ensures
                    *final(input) == old(input).at(offset),
                    final(input).position() == offset
                {
                    *input.offset_mut() = offset;
                },
            input,
        )
    }
}

} // verus!
