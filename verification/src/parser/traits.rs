use super::adapters::and::And;
use super::adapters::attach::Attach;
use super::adapters::ignore::Ignore;
use super::adapters::map::MapValue;
use super::adapters::map_err::MapErr;
use super::adapters::non_terminal::NonTerminal;
use super::adapters::opt::Opt;
use super::adapters::or::Or;
use super::adapters::repeat::mode::{Exact, Maximum, Minimum, MinimumEOI, UntilEOI, UntilErr};
use super::adapters::repeat::{
    Repeat, RepeatEOI, RepeatExact, RepeatMax, RepeatMin, RepeatMinEOI, Repeater,
};
use super::adapters::try_map::TryMap;
use crate::data::traits::{
    Attachable, Data, Exceptional, Ignorable, Optionable, Recoverable, Response,
};
use crate::stream::traits::Stream;
use std::marker::PhantomData;
use vstd::prelude::*;

verus! {

/// A parser that is used up by the one call it takes.
///
/// `accepts` says on which cursor states the parser may be run, `parses`
/// which responses and final cursor states a run may end in.
pub trait ParserOnce<Str>: Sized where Str: Stream {
    type Output: Response;

    /// True when the parser may be run on `input`.
    spec fn accepts(self, input: Str) -> bool;

    /// True when a run on `input` may return `output` and leave the cursor as `rest`.
    spec fn parses(self, input: Str, output: Self::Output, rest: Str) -> bool;

    fn parse_stream_once(self, input: &mut Str) -> (output: Self::Output)
        requires
            self.accepts(*old(input)),
        ensures
            self.parses(*old(input), output, *final(input)),
    ;

    /// This parser with `f` applied to the value it carries.
    fn map<Fun, Out>(self, f: Fun) -> (parser: MapValue<Self, Fun, Out>) where
        Self::Output: Data<Out>,
        Fun: FnOnce(<Self::Output as Data<Out>>::Value) -> Out,

        ensures
            parser.parser == self,
            parser.function == f,
    {
        MapValue { parser: self, function: f, _marker: PhantomData }
    }

    /// This parser with `f` applied to the error it carries.
    fn map_err<Fun, Fail>(self, f: Fun) -> (parser: MapErr<Self, Fun, Fail>) where
        Self::Output: Exceptional<Fail>,
        Fun: Fn(<Self::Output as Exceptional<Fail>>::Error) -> Fail,

        ensures
            parser.parser == self,
            parser.function == f,
    {
        MapErr { parser: self, function: f, _marker: PhantomData }
    }

    /// This parser with the value it carries handed to `f`, which may fail.
    fn try_map<Fun, Val>(self, f: Fun) -> (parser: TryMap<Self, Fun, Val>) where
        Self::Output: Data<Val> + Exceptional<()>,
        Fun: Fn(<Self::Output as Data<Val>>::Value) -> <Self::Output as Data<Val>>::WithVal,

        ensures
            parser.parser == self,
            parser.function == f,
    {
        TryMap { parser: self, function: f, _marker: PhantomData }
    }

    /// This parser without the value it carries.
    fn ignore(self) -> (parser: Ignore<Self>) where Self::Output: Ignorable
        ensures
            parser.parser == self,
    {
        Ignore { parser: self }
    }

    /// This parser carrying `value` on success.
    fn attach<Val>(self, value: Val) -> (parser: Attach<Self, Val>) where
        Self::Output: Attachable<Val>,

        ensures
            parser.parser == self,
            parser.value == value,
    {
        Attach { parser: self, value }
    }

    /// The backtracking boundary around this parser.
    fn non_terminal(self) -> (parser: NonTerminal<Self>) where Self::Output: Recoverable
        ensures
            parser.parser == self,
    {
        NonTerminal { parser: self }
    }

    /// This parser made optional.
    fn opt(self) -> (parser: Opt<Self>) where Self::Output: Optionable
        ensures
            parser.parser == self,
    {
        Opt { parser: self }
    }

    /// This parser, then `parser`.
    fn and<Next>(self, parser: Next) -> (both: And<Self, Next>)
        ensures
            both.parser0 == self,
            both.parser1 == parser,
    {
        And { parser0: self, parser1: parser }
    }

    /// This parser, or else `parser`.
    fn or<Other>(self, parser: Other) -> (either: Or<Self, Other>)
        ensures
            either.parser0 == self,
            either.parser1 == parser,
    {
        Or { parser0: self, parser1: parser }
    }

    /// This parser again and again, until it fails.
    fn repeat(self) -> (repeater: Repeat<Self>)
        ensures
            repeater.parser == self,
    {
        Repeater { parser: self, mode: UntilErr, collector: () }
    }

    /// This parser again and again, until the input is exhausted.
    fn repeat_eoi(self) -> (repeater: RepeatEOI<Self>)
        ensures
            repeater.parser == self,
    {
        Repeater { parser: self, mode: UntilEOI, collector: () }
    }

    /// This parser at least `count` times, then until it fails.
    fn repeat_min(self, count: usize) -> (repeater: RepeatMin<Self>)
        ensures
            repeater.parser == self,
            repeater.mode.0 == count,
    {
        Repeater { parser: self, mode: Minimum(count), collector: () }
    }

    /// This parser at least `count` times, then until the input is exhausted.
    fn repeat_min_eoi(self, count: usize) -> (repeater: RepeatMinEOI<Self>)
        ensures
            repeater.parser == self,
            repeater.mode.0 == count,
    {
        Repeater { parser: self, mode: MinimumEOI(count), collector: () }
    }

    /// This parser at most `count` times, or until it fails.
    fn repeat_max(self, count: usize) -> (repeater: RepeatMax<Self>)
        ensures
            repeater.parser == self,
            repeater.mode.0 == count,
    {
        Repeater { parser: self, mode: Maximum(count), collector: () }
    }

    /// This parser exactly `count` times.
    fn repeat_exact(self, count: usize) -> (repeater: RepeatExact<Self>)
        ensures
            repeater.parser == self,
            repeater.mode.0 == count,
    {
        Repeater { parser: self, mode: Exact(count), collector: () }
    }
}

/// A parser that can be run again and again in place. A run may change the
/// parser itself.
pub trait ParserMut<Str>: ParserOnce<Str> where Str: Stream {
    /// True when a run in place on `input` may return `output`, leave the
    /// cursor as `rest` and the parser as `next`.
    spec fn steps(self, input: Str, output: Self::Output, rest: Str, next: Self) -> bool;

    fn parse_stream_mut(&mut self, input: &mut Str) -> (output: Self::Output)
        requires
            Self::accepts(*old(self), *old(input)),
        ensures
            Self::steps(*old(self), *old(input), output, *final(input), *final(self)),
            Self::parses(*old(self), *old(input), output, *final(input)),
    ;
}

/// A parser that can be run again and again and stays as it is.
pub trait Parser<Str>: ParserMut<Str> where Str: Stream {
    fn parse_stream(&self, input: &mut Str) -> (output: Self::Output)
        requires
            Self::accepts(*self, *old(input)),
        ensures
            Self::parses(*self, *old(input), output, *final(input)),
            Self::steps(*self, *old(input), output, *final(input), *self),
    ;
}

/// A value that knows how to parse itself from its input.
pub trait Parse: Sized {
    type Input: Stream;

    /// True when `parse` may be run on `input`.
    spec fn parse_accepts(input: Self::Input) -> bool;

    /// True when a run on `input` may return `value` and leave the cursor as `rest`.
    spec fn parsed(input: Self::Input, value: Self, rest: Self::Input) -> bool;

    fn parse(input: &mut Self::Input) -> (value: Self)
        requires
            Self::parse_accepts(*old(input)),
        ensures
            Self::parsed(*old(input), value, *final(input)),
    ;
}

/// Runs `parser` on `stream`.
pub fn eval<Str, Par>(stream: &mut Str, parser: Par) -> (output: Par::Output) where
    Str: Stream,
    Par: Parser<Str>,

    requires
        parser.accepts(*old(stream)),
    ensures
        parser.parses(*old(stream), output, *final(stream)),
{
    parser.parse_stream(stream)
}

/// Parses a `T` from `stream`.
pub fn parse<T>(stream: &mut T::Input) -> (value: T) where T: Parse
    requires
        T::parse_accepts(*old(stream)),
    ensures
        T::parsed(*old(stream), value, *final(stream)),
{
    T::parse(stream)
}

/// A shared reference to a parser is a parser: it runs the parser it points to.
impl<Str, Par> Parser<Str> for &Par where Str: Stream, Par: Parser<Str> {
    fn parse_stream(&self, input: &mut Str) -> (output: Self::Output) {
        (*self).parse_stream(input)
    }
}

impl<Str, Par> ParserMut<Str> for &Par where Str: Stream, Par: Parser<Str> {
    open spec fn steps(self, input: Str, output: Self::Output, rest: Str, next: Self) -> bool {
        (*self).steps(input, output, rest, *next) && *next == *self
    }

    fn parse_stream_mut(&mut self, input: &mut Str) -> (output: Self::Output) {
        self.parse_stream(input)
    }
}

impl<Str, Par> ParserOnce<Str> for &Par where Str: Stream, Par: Parser<Str> {
    type Output = Par::Output;

    open spec fn accepts(self, input: Str) -> bool {
        (*self).accepts(input)
    }

    open spec fn parses(self, input: Str, output: Self::Output, rest: Str) -> bool {
        (*self).parses(input, output, rest)
    }

    fn parse_stream_once(self, input: &mut Str) -> (output: Self::Output) {
        self.parse_stream(input)
    }
}

/// An exclusive reference to a parser is a parser: it runs the parser it
/// points to, in place.
impl<Str, Par> ParserMut<Str> for &mut Par where Str: Stream, Par: ParserMut<Str> {
    open spec fn steps(self, input: Str, output: Self::Output, rest: Str, next: Self) -> bool {
        (*self).steps(input, output, rest, *next)
    }

    fn parse_stream_mut(&mut self, input: &mut Str) -> (output: Self::Output) {
        (*self).parse_stream_mut(input)
    }
}

impl<Str, Par> ParserOnce<Str> for &mut Par where Str: Stream, Par: ParserMut<Str> {
    type Output = Par::Output;

    open spec fn accepts(self, input: Str) -> bool {
        (*self).accepts(input)
    }

    open spec fn parses(self, input: Str, output: Self::Output, rest: Str) -> bool {
        (*self).parses(input, output, rest)
    }

    fn parse_stream_once(self, input: &mut Str) -> (output: Self::Output) {
        self.parse_stream_mut(input)
    }
}

} // verus!
