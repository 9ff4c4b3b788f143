use crate::data::traits::{Data, Response};
use crate::parser::traits::{Parser, ParserMut, ParserOnce};
use crate::stream::traits::Stream;
use std::marker::PhantomData;
use vstd::prelude::*;

verus! {

/// Transforms the value that the wrapped parser carries on success.
pub struct MapValue<Par, Fun, Val> {
    pub parser: Par,
    pub function: Fun,
    pub _marker: PhantomData<Val>,
}

/// True when `function` may be called on whatever `parser` carries after a
/// successful run on `input`.
pub open spec fn maps<Str, Par, Fun, Val>(parser: Par, function: Fun, input: Str) -> bool where
    Str: Stream,
    Par: ParserOnce<Str>,
    Par::Output: Data<Val>,
    Fun: FnOnce(<Par::Output as Data<Val>>::Value) -> Val,
 {
    forall|inner: Par::Output, rest: Str| #[trigger]
        parser.parses(input, inner, rest) && inner.succeeded() ==> call_requires(
            function,
            (inner.value(),),
        )
}

/// True when `output` is `inner` with its value, if it has one, sent through `function`.
pub open spec fn mapped<Res, Fun, Val>(inner: Res, function: Fun, output: Res::WithVal) -> bool where
    Res: Data<Val>,
    Fun: FnOnce(Res::Value) -> Val,
 {
    if inner.succeeded() {
        exists|value: Val| #[trigger]
            call_ensures(function, (inner.value(),), value) && output == inner.with_value(value)
    } else {
        output == inner.with_value(arbitrary())
    }
}

impl<Par, Fun, Val> MapValue<Par, Fun, Val> {
    pub fn new<Str>(parser: Par, function: Fun) -> (adapter: MapValue<Par, Fun, Val>) where
        Str: Stream,
        Par: ParserOnce<Str>,
        Par::Output: Data<Val>,
        Fun: FnOnce(<Par::Output as Data<Val>>::Value) -> Val,

        ensures
            adapter.parser == parser,
            adapter.function == function,
    {
        MapValue { parser, function, _marker: PhantomData }
    }
}

impl<Str, Par, Fun, Val> Parser<Str> for MapValue<Par, Fun, Val> where
    Str: Stream,
    Par: Parser<Str>,
    Par::Output: Data<Val>,
    Fun: Fn(<Par::Output as Data<Val>>::Value) -> Val,
 {
    fn parse_stream(&self, input: &mut Str) -> (output: Self::Output) {
        self.parser.parse_stream(input).map(&self.function)
    }
}

impl<Str, Par, Fun, Val> ParserMut<Str> for MapValue<Par, Fun, Val> where
    Str: Stream,
    Par: ParserMut<Str>,
    Par::Output: Data<Val>,
    Fun: Fn(<Par::Output as Data<Val>>::Value) -> Val,
 {
    open spec fn steps(self, input: Str, output: Self::Output, rest: Str, next: Self) -> bool {
        exists|inner: Par::Output| #[trigger]
            self.parser.steps(input, inner, rest, next.parser) && mapped(
                inner,
                self.function,
                output,
            ) && next.function == self.function
    }

    fn parse_stream_mut(&mut self, input: &mut Str) -> (output: Self::Output) {
        let inner = self.parser.parse_stream_mut(input);
        assert(old(self).parser.steps(*old(input), inner, *input, self.parser));
        inner.map(&self.function)
    }
}

impl<Str, Par, Fun, Val> ParserOnce<Str> for MapValue<Par, Fun, Val> where
    Str: Stream,
    Par: ParserOnce<Str>,
    Par::Output: Data<Val>,
    Fun: FnOnce(<Par::Output as Data<Val>>::Value) -> Val,
 {
    type Output = <Par::Output as Data<Val>>::WithVal;

    open spec fn accepts(self, input: Str) -> bool {
        self.parser.accepts(input) && maps(self.parser, self.function, input)
    }

    open spec fn parses(self, input: Str, output: Self::Output, rest: Str) -> bool {
        exists|inner: Par::Output| #[trigger]
            self.parser.parses(input, inner, rest) && mapped(inner, self.function, output)
    }

    fn parse_stream_once(self, input: &mut Str) -> (output: Self::Output) {
        self.parser.parse_stream_once(input).map(self.function)
    }
}

} // verus!
