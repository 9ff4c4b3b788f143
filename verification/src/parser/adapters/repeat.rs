use crate::data::traits::{
    Collectable, Pure, Recoverable, Response, ResultConvertable, UnerringConvertable,
};
use crate::parser::adapters::non_terminal::NonTerminal;
use crate::parser::traits::{ParserMut, ParserOnce};
use crate::stream::traits::Stream;
use vstd::prelude::*;
use vstd::string::StringExecFns;

pub mod laws;
pub mod mode;

use mode::{Exact, Maximum, Minimum, MinimumEOI, UntilEOI, UntilErr};

verus! {

/// An accumulator for the values that a repetition produces.
pub trait Collector<T>: Default {
    /// True when pushing `value` onto `self` may give `next`.
    spec fn grows(self, value: T, next: Self) -> bool;

    fn push(&mut self, value: T)
        ensures
            old(self).grows(value, *final(self)),
    ;
}

/// The accumulator that keeps nothing.
impl<T> Collector<T> for () {
    open spec fn grows(self, value: T, next: ()) -> bool {
        true
    }

    fn push(&mut self, _value: T) {
    }
}

/// The accumulator that keeps every value, in the order they came.
impl<T> Collector<T> for Vec<T> {
    open spec fn grows(self, value: T, next: Vec<T>) -> bool {
        next@ == self@.push(value)
    }

    #[inline(always)]
    fn push(&mut self, value: T) {
        Vec::push(self, value)
    }
}

/// `String::push`: the character is appended at the end of the text.
#[verifier::external_body]
fn push_char(text: &mut String, ch: char)
    ensures
        final(text)@ == old(text)@.push(ch),
{
    text.push(ch)
}

/// The accumulator that appends characters to a text.
impl Collector<char> for String {
    open spec fn grows(self, value: char, next: String) -> bool {
        next@ == self@.push(value)
    }

    #[inline(always)]
    fn push(&mut self, ch: char) {
        push_char(self, ch)
    }
}

/// The accumulator that appends pieces of text to a text.
impl<'a> Collector<&'a str> for String {
    open spec fn grows(self, value: &'a str, next: String) -> bool {
        next@ == self@ + value@
    }

    #[inline(always)]
    fn push(&mut self, piece: &'a str) {
        self.append(piece)
    }
}

/// An accumulator that holds nothing or one item in place, and moves to a
/// general accumulator when the second item comes.
#[derive(Debug)]
pub enum OneOrMul<T, Col = Vec<T>> where Col: Collector<T> {
    Empty,
    One(T),
    Multiple(Col),
}

impl<T, Col> Default for OneOrMul<T, Col> where Col: Collector<T> {
    fn default() -> (empty: Self)
        ensures
            empty is Empty,
    {
        OneOrMul::Empty
    }
}

impl<T, Col> Collector<T> for OneOrMul<T, Col> where Col: Collector<T> {
    open spec fn grows(self, value: T, next: Self) -> bool {
        match self {
            OneOrMul::Empty => next == OneOrMul::<T, Col>::One(value),
            OneOrMul::One(first) => next is Multiple && exists|fresh: Col, single: Col|
                #![trigger fresh.grows(first, single)]
                call_ensures(Col::default, (), fresh) && fresh.grows(first, single)
                    && single.grows(value, next->Multiple_0),
            OneOrMul::Multiple(col) => next is Multiple && col.grows(value, next->Multiple_0),
        }
    }

    #[inline(always)]
    fn push(&mut self, value: T) {
        let mut one_or_mul = OneOrMul::Empty;
        std::mem::swap(self, &mut one_or_mul);
        *self = match one_or_mul {
            OneOrMul::Empty => OneOrMul::One(value),
            OneOrMul::One(first) => {
                let mut col = Col::default();
                col.push(first);
                col.push(value);
                OneOrMul::Multiple(col)
            },
            OneOrMul::Multiple(mut col) => {
                col.push(value);
                OneOrMul::Multiple(col)
            },
        };
    }
}

pub type Repeat<Par, Col = ()> = Repeater<Par, UntilErr, Col>;

pub type RepeatEOI<Par, Col = ()> = Repeater<Par, UntilEOI, Col>;

pub type RepeatMin<Par, Col = ()> = Repeater<Par, Minimum, Col>;

pub type RepeatMinEOI<Par, Col = ()> = Repeater<Par, MinimumEOI, Col>;

pub type RepeatMax<Par, Col = ()> = Repeater<Par, Maximum, Col>;

pub type RepeatExact<Par, Col = ()> = Repeater<Par, Exact, Col>;

/// Applies a parser again and again, as the mode says, and pushes every
/// value produced onto the collector.
#[derive(Clone, Copy, Debug)]
pub struct Repeater<Par, Mod, Col = ()> {
    pub parser: Par,
    pub mode: Mod,
    pub collector: Col,
}

impl<Par, Mod> Repeater<Par, Mod> {
    pub fn new<Str>(parser: Par, mode: Mod) -> (repeater: Self) where
        Str: Stream,
        Par: ParserMut<Str>,
        Par::Output: ResultConvertable,

        ensures
            repeater.parser == parser,
            repeater.mode == mode,
    {
        Self { parser, mode, collector: () }
    }
}

impl<Par, Mod, Col> Repeater<Par, Mod, Col> {
    /// The same repetition, pushing onto `collector`.
    #[inline(always)]
    pub fn collector<T, Str>(self, collector: T) -> (repeater: Repeater<Par, Mod, T>) where
        Str: Stream,
        Par: ParserMut<Str>,

        ensures
            repeater.parser == self.parser,
            repeater.mode == self.mode,
            repeater.collector == collector,
    {
        Repeater { parser: self.parser, mode: self.mode, collector }
    }

    /// The same repetition, pushing onto a fresh `T`.
    #[inline(always)]
    pub fn collect<T, Str>(self) -> (repeater: Repeater<Par, Mod, T>) where
        T: Default,
        Str: Stream,
        Par: ParserMut<Str>,
        Par::Output: ResultConvertable,

        ensures
            repeater.parser == self.parser,
            repeater.mode == self.mode,
            call_ensures(T::default, (), repeater.collector),
    {
        Repeater { parser: self.parser, mode: self.mode, collector: T::default() }
    }

    /// The same repetition, pushing onto an empty sequence.
    #[inline(always)]
    pub fn to_vec<Str>(self) -> (repeater: Repeater<
        Par,
        Mod,
        Vec<<Par::Output as ResultConvertable>::Value>,
    >) where Str: Stream, Par: ParserMut<Str>, Par::Output: ResultConvertable
        ensures
            repeater.parser == self.parser,
            repeater.mode == self.mode,
            repeater.collector@ == Seq::<<Par::Output as ResultConvertable>::Value>::empty(),
    {
        Repeater { parser: self.parser, mode: self.mode, collector: Vec::new() }
    }
}

impl<Par, Col> Repeater<Par, UntilErr, Col> {
    /// The same repetition, going on until the input is exhausted.
    #[inline(always)]
    pub fn until_eoi(self) -> (repeater: RepeatEOI<Par, Col>)
        ensures
            repeater.parser == self.parser,
            repeater.collector == self.collector,
    {
        Repeater { parser: self.parser, mode: UntilEOI, collector: self.collector }
    }
}

impl<Par, Col> Repeater<Par, Minimum, Col> {
    /// The same repetition, going on until the input is exhausted.
    #[inline(always)]
    pub fn until_eoi(self) -> (repeater: RepeatMinEOI<Par, Col>)
        ensures
            repeater.parser == self.parser,
            repeater.mode.0 == self.mode.0,
            repeater.collector == self.collector,
    {
        Repeater { parser: self.parser, mode: MinimumEOI(self.mode.0), collector: self.collector }
    }
}

/// True when `cursor` has no item at its offset.
pub open spec fn exhausted<Str: Stream>(cursor: Str) -> bool {
    cursor.past_end(cursor.position())
}

/// True when one successful application of the parser takes the repetition
/// from `from` to `to`. A state is the parser, the collector and the cursor.
pub open spec fn advances<Str, Par, Col>(from: (Par, Col, Str), to: (Par, Col, Str)) -> bool where
    Str: Stream,
    Par: ParserMut<Str>,
    Par::Output: ResultConvertable,
    Col: Collector<<Par::Output as ResultConvertable>::Value>,
 {
    exists|output: Par::Output| #[trigger]
        from.0.steps(from.2, output, to.2, to.0) && output.as_result() is Ok && from.1.grows(
            output.as_result()->Ok_0,
            to.1,
        )
}

/// True when `count` successful applications in a row take the repetition
/// from `from` to `to`. When `guarded`, none of them started on an exhausted
/// cursor.
pub open spec fn reaches<Str, Par, Col>(
    guarded: bool,
    from: (Par, Col, Str),
    count: nat,
    to: (Par, Col, Str),
) -> bool where
    Str: Stream,
    Par: ParserMut<Str>,
    Par::Output: ResultConvertable,
    Col: Collector<<Par::Output as ResultConvertable>::Value>,

    decreases count,
{
    if count == 0 {
        from == to
    } else {
        exists|before: (Par, Col, Str)|
            reaches(guarded, from, (count - 1) as nat, before) && (guarded ==> !exhausted(
                before.2,
            )) && #[trigger] advances(before, to)
    }
}

/// True when an application in state `from` fails with `output` and leaves
/// the cursor as `rest`. Behind a `boundary` the cursor goes back to its offset.
pub open spec fn stalls<Str, Par, Col>(
    boundary: bool,
    from: (Par, Col, Str),
    output: Par::Output,
    rest: Str,
) -> bool where
    Str: Stream,
    Par: ParserMut<Str>,
    Par::Output: ResultConvertable,
    Col: Collector<<Par::Output as ResultConvertable>::Value>,
 {
    exists|reached: Str, next: Par| #[trigger]
        from.0.steps(from.2, output, reached, next) && output.as_result() is Err && rest == if boundary {
            reached.at(from.2.position())
        } else {
            reached
        }
}

/// True when the parser may be run in every state that fewer than `limit`
/// successful applications lead to (in every state, without a `limit`).
pub open spec fn ready<Str, Par, Col>(
    guarded: bool,
    from: (Par, Col, Str),
    limit: Option<nat>,
) -> bool where
    Str: Stream,
    Par: ParserMut<Str>,
    Par::Output: ResultConvertable,
    Col: Collector<<Par::Output as ResultConvertable>::Value>,
 {
    forall|count: nat, state: (Par, Col, Str)| #[trigger]
        reaches(guarded, from, count, state) && (limit is Some ==> count < limit->Some_0)
            && (guarded ==> !exhausted(state.2)) ==> state.0.accepts(state.2)
}

/// True when every successful application leaves less input than it found.
/// Without this an unbounded repetition need not end: nothing in the
/// repetition itself guards against a parser that succeeds on nothing.
pub open spec fn progresses<Str, Par, Col>(guarded: bool, from: (Par, Col, Str)) -> bool where
    Str: Stream,
    Par: ParserMut<Str>,
    Par::Output: ResultConvertable,
    Col: Collector<<Par::Output as ResultConvertable>::Value>,
 {
    forall|count: nat, state: (Par, Col, Str), next: (Par, Col, Str)|
        #![trigger reaches(guarded, from, count, state), advances(state, next)]
        reaches(guarded, from, count, state) && (guarded ==> !exhausted(state.2)) && advances(
            state,
            next,
        ) ==> next.2.remaining() < state.2.remaining()
}

/// The outcome of `count` applications that must all succeed: the collector
/// after all of them, or the error of the first that failed. Nothing of what
/// was collected comes out with the error.
pub open spec fn insisted<Str, Par, Col>(
    from: (Par, Col, Str),
    count: nat,
    result: Result<Col, <Par::Output as ResultConvertable>::Error>,
    last: Par,
    rest: Str,
) -> bool where
    Str: Stream,
    Par: ParserMut<Str>,
    Par::Output: ResultConvertable,
    Col: Collector<<Par::Output as ResultConvertable>::Value>,
 {
    match result {
        Ok(collector) => reaches(false, from, count, (last, collector, rest)),
        Err(error) => exists|done: nat, state: (Par, Col, Str), output: Par::Output|
            done < count && #[trigger] reaches(false, from, done, state) && #[trigger] stalls(
                false,
                state,
                output,
                rest,
            ) && output.as_result() == Err::<<Par::Output as ResultConvertable>::Value, _>(error),
    }
}

/// The outcome of applications that go on until one fails, or until `limit`
/// of them have succeeded: the collector `filled` by the successes. The
/// failed attempt leaves the cursor at the offset where it started.
pub open spec fn settles<Str, Par, Col>(
    from: (Par, Col, Str),
    limit: Option<nat>,
    filled: Col,
    rest: Str,
) -> bool where
    Str: Stream,
    Par: ParserMut<Str>,
    Par::Output: ResultConvertable,
    Col: Collector<<Par::Output as ResultConvertable>::Value>,
 {
    exists|done: nat, state: (Par, Col, Str)| #[trigger]
        reaches(false, from, done, state) && filled == state.1 && if limit == Some(done) {
            rest == state.2
        } else {
            (limit is Some ==> done < limit->Some_0) && exists|output: Par::Output| #[trigger]
                stalls(true, state, output, rest)
        }
}

/// The outcome of applications that go on until the input is exhausted: the
/// collector after all of them, or the error of the first that failed.
pub open spec fn finishes<Str, Par, Col>(
    from: (Par, Col, Str),
    result: Result<Col, <Par::Output as ResultConvertable>::Error>,
    rest: Str,
) -> bool where
    Str: Stream,
    Par: ParserMut<Str>,
    Par::Output: ResultConvertable,
    Col: Collector<<Par::Output as ResultConvertable>::Value>,
 {
    exists|done: nat, state: (Par, Col, Str)| #[trigger]
        reaches(true, from, done, state) && if exhausted(state.2) {
            rest == state.2 && result == Ok::<Col, <Par::Output as ResultConvertable>::Error>(
                state.1,
            )
        } else {
            exists|output: Par::Output| #[trigger]
                stalls(false, state, output, rest) && result is Err && output.as_result() == Err::<
                    <Par::Output as ResultConvertable>::Value,
                    _,
                >(result->Err_0)
        }
}

/// Applies `parser` `count` times, each of which must succeed.
fn exactly<Str, Par, Col>(parser: &mut Par, count: usize, collector: Col, input: &mut Str) -> (result:
    Result<Col, <Par::Output as ResultConvertable>::Error>) where
    Str: Stream,
    Par: ParserMut<Str>,
    Par::Output: ResultConvertable,
    Col: Collector<<Par::Output as ResultConvertable>::Value>,

    requires
        ready(false, (*old(parser), collector, *old(input)), Some(count as nat)),
    ensures
        insisted(
            (*old(parser), collector, *old(input)),
            count as nat,
            result,
            *final(parser),
            *final(input),
        ),
        result is Err ==> <Par::Output as ResultConvertable>::fallible(),
{
    let ghost start = (*parser, collector, *input);
    let mut filled = collector;
    let mut done: usize = 0;
    while done < count
        invariant
            done <= count,
            start == (*old(parser), collector, *old(input)),
            reaches(false, start, done as nat, (*parser, filled, *input)),
            ready(false, start, Some(count as nat)),
        decreases count - done,
    {
        let ghost state = (*parser, filled, *input);
        let output = parser.parse_stream_mut(input);
        let ghost outcome = output;
        match output.into_result() {
            Ok(value) => {
                filled.push(value);
                let ghost next = (*parser, filled, *input);
                assert(state.0.steps(state.2, outcome, next.2, next.0));
                assert(advances(state, next));
            },
            Err(error) => {
                assert(stalls(false, state, outcome, *input));
                return Err(error);
            },
        }
        done = done + 1;
    }
    Ok(filled)
}

/// Applies `parser` behind a backtracking boundary until an application fails.
fn until_failure<Str, Par, Col>(parser: Par, collector: Col, input: &mut Str) -> (filled: Col) where
    Str: Stream,
    Par: ParserMut<Str>,
    Par::Output: ResultConvertable + Recoverable,
    Col: Collector<<Par::Output as ResultConvertable>::Value>,

    requires
        ready(false, (parser, collector, *old(input)), None),
        progresses(false, (parser, collector, *old(input))),
    ensures
        settles((parser, collector, *old(input)), None, filled, *final(input)),
{
    let ghost start = (parser, collector, *input);
    let ghost mut done: nat = 0;
    let mut boundary = NonTerminal { parser };
    let mut filled = collector;
    loop
        invariant
            start == (parser, collector, *old(input)),
            reaches(false, start, done, (boundary.parser, filled, *input)),
            ready(false, start, None),
            progresses(false, start),
        decreases input.remaining(),
    {
        let ghost state = (boundary.parser, filled, *input);
        let output = boundary.parse_stream_mut(input);
        let ghost outcome = output;
        match output.into_result() {
            Ok(value) => {
                filled.push(value);
                proof {
                    let next = (boundary.parser, filled, *input);
                    assert(state.0.steps(state.2, outcome, next.2, next.0));
                    assert(advances(state, next));
                    done = done + 1;
                }
            },
            Err(_) => {
                assert(stalls(true, state, outcome, *input));
                return filled;
            },
        }
    }
}

/// Applies `parser` behind a backtracking boundary until an application
/// fails or `count` of them have succeeded.
fn at_most<Str, Par, Col>(parser: Par, count: usize, collector: Col, input: &mut Str) -> (filled:
    Col) where
    Str: Stream,
    Par: ParserMut<Str>,
    Par::Output: ResultConvertable + Recoverable,
    Col: Collector<<Par::Output as ResultConvertable>::Value>,

    requires
        ready(false, (parser, collector, *old(input)), Some(count as nat)),
    ensures
        settles((parser, collector, *old(input)), Some(count as nat), filled, *final(input)),
{
    let ghost start = (parser, collector, *input);
    let mut boundary = NonTerminal { parser };
    let mut filled = collector;
    let mut done: usize = 0;
    while done < count
        invariant
            done <= count,
            start == (parser, collector, *old(input)),
            reaches(false, start, done as nat, (boundary.parser, filled, *input)),
            ready(false, start, Some(count as nat)),
        decreases count - done,
    {
        let ghost state = (boundary.parser, filled, *input);
        let output = boundary.parse_stream_mut(input);
        let ghost outcome = output;
        match output.into_result() {
            Ok(value) => {
                filled.push(value);
                proof {
                    let next = (boundary.parser, filled, *input);
                    assert(state.0.steps(state.2, outcome, next.2, next.0));
                    assert(advances(state, next));
                }
            },
            Err(_) => {
                assert(stalls(true, state, outcome, *input));
                return filled;
            },
        }
        done = done + 1;
    }
    filled
}

/// Applies `parser` until the input is exhausted; each application must succeed.
fn until_end<Str, Par, Col>(parser: Par, collector: Col, input: &mut Str) -> (result: Result<
    Col,
    <Par::Output as ResultConvertable>::Error,
>) where
    Str: Stream,
    Par: ParserMut<Str>,
    Par::Output: ResultConvertable,
    Col: Collector<<Par::Output as ResultConvertable>::Value>,

    requires
        ready(true, (parser, collector, *old(input)), None),
        progresses(true, (parser, collector, *old(input))),
    ensures
        finishes((parser, collector, *old(input)), result, *final(input)),
        result is Err ==> <Par::Output as ResultConvertable>::fallible(),
{
    let ghost start = (parser, collector, *input);
    let ghost mut done: nat = 0;
    let mut current = parser;
    let mut filled = collector;
    loop
        invariant
            start == (parser, collector, *old(input)),
            reaches(true, start, done, (current, filled, *input)),
            ready(true, start, None),
            progresses(true, start),
        decreases input.remaining(),
    {
        let ghost state = (current, filled, *input);
        match input.peek() {
            Some(_) => {},
            None => {
                return Ok(filled);
            },
        }
        let output = current.parse_stream_mut(input);
        let ghost outcome = output;
        match output.into_result() {
            Ok(value) => {
                filled.push(value);
                proof {
                    let next = (current, filled, *input);
                    assert(state.0.steps(state.2, outcome, next.2, next.0));
                    assert(advances(state, next));
                    done = done + 1;
                }
            },
            Err(error) => {
                assert(stalls(false, state, outcome, *input));
                return Err(error);
            },
        }
    }
}

impl<Str, Par, Col> ParserOnce<Str> for Repeater<Par, UntilErr, Col> where
    Str: Stream,
    Par: ParserMut<Str>,
    Par::Output: Recoverable + UnerringConvertable<Col>,
    Col: Collector<<Par::Output as ResultConvertable>::Value>,
 {
    type Output = <Par::Output as UnerringConvertable<Col>>::Infallible;

    open spec fn accepts(self, input: Str) -> bool {
        &&& ready(false, (self.parser, self.collector, input), None)
        &&& progresses(false, (self.parser, self.collector, input))
    }

    open spec fn parses(self, input: Str, output: Self::Output, rest: Str) -> bool {
        settles((self.parser, self.collector, input), None, output.held(), rest)
    }

    #[inline]
    fn parse_stream_once(self, input: &mut Str) -> (output: Self::Output) {
        <Self::Output as Pure>::pure(until_failure(self.parser, self.collector, input))
    }
}

impl<Str, Par, Col> ParserOnce<Str> for Repeater<Par, UntilEOI, Col> where
    Str: Stream,
    Par: ParserMut<Str>,
    Par::Output: Collectable<Col>,
    Col: Collector<<Par::Output as ResultConvertable>::Value>,
 {
    type Output = <Par::Output as Collectable<Col>>::WithVal;

    open spec fn accepts(self, input: Str) -> bool {
        &&& ready(true, (self.parser, self.collector, input), None)
        &&& progresses(true, (self.parser, self.collector, input))
    }

    open spec fn parses(self, input: Str, output: Self::Output, rest: Str) -> bool {
        finishes((self.parser, self.collector, input), output.as_result(), rest)
    }

    #[inline]
    fn parse_stream_once(self, input: &mut Str) -> (output: Self::Output) {
        let result = until_end(self.parser, self.collector, input);
        proof {
            <Par::Output as Collectable<Col>>::same_fallibility();
        }
        match result {
            Ok(collector) => <Self::Output as ResultConvertable>::ok(collector),
            Err(error) => <Self::Output as ResultConvertable>::err(error),
        }
    }
}

impl<Str, Par, Col> ParserOnce<Str> for Repeater<Par, Maximum, Col> where
    Str: Stream,
    Par: ParserMut<Str>,
    Par::Output: Recoverable + UnerringConvertable<Col>,
    Col: Collector<<Par::Output as ResultConvertable>::Value>,
 {
    type Output = <Par::Output as UnerringConvertable<Col>>::Infallible;

    open spec fn accepts(self, input: Str) -> bool {
        ready(false, (self.parser, self.collector, input), Some(self.mode.0 as nat))
    }

    open spec fn parses(self, input: Str, output: Self::Output, rest: Str) -> bool {
        settles(
            (self.parser, self.collector, input),
            Some(self.mode.0 as nat),
            output.held(),
            rest,
        )
    }

    #[inline]
    fn parse_stream_once(self, input: &mut Str) -> (output: Self::Output) {
        <Self::Output as Pure>::pure(at_most(self.parser, self.mode.0, self.collector, input))
    }
}

impl<Str, Par, Col> ParserOnce<Str> for Repeater<Par, Exact, Col> where
    Str: Stream,
    Par: ParserMut<Str>,
    Par::Output: Collectable<Col>,
    Col: Collector<<Par::Output as ResultConvertable>::Value>,
 {
    type Output = <Par::Output as Collectable<Col>>::WithVal;

    open spec fn accepts(self, input: Str) -> bool {
        ready(false, (self.parser, self.collector, input), Some(self.mode.0 as nat))
    }

    open spec fn parses(self, input: Str, output: Self::Output, rest: Str) -> bool {
        exists|last: Par| #[trigger]
            insisted(
                (self.parser, self.collector, input),
                self.mode.0 as nat,
                output.as_result(),
                last,
                rest,
            )
    }

    #[inline]
    fn parse_stream_once(self, input: &mut Str) -> (output: Self::Output) {
        let mut parser = self.parser;
        let result = exactly(&mut parser, self.mode.0, self.collector, input);
        proof {
            <Par::Output as Collectable<Col>>::same_fallibility();
        }
        match result {
            Ok(collector) => <Self::Output as ResultConvertable>::ok(collector),
            Err(error) => <Self::Output as ResultConvertable>::err(error),
        }
    }
}

/// `count` applications that must succeed, then as `UntilErr`, on one collector.
impl<Str, Par, Col> ParserOnce<Str> for Repeater<Par, Minimum, Col> where
    Str: Stream,
    Par: ParserMut<Str>,
    Par::Output: Recoverable + Collectable<Col>,
    Col: Collector<<Par::Output as ResultConvertable>::Value>,
 {
    type Output = <Par::Output as Collectable<Col>>::WithVal;

    open spec fn accepts(self, input: Str) -> bool {
        &&& ready(false, (self.parser, self.collector, input), Some(self.mode.0 as nat))
        &&& forall|middle: (Par, Col, Str)| #[trigger]
            reaches(false, (self.parser, self.collector, input), self.mode.0 as nat, middle)
                ==> ready(false, middle, None) && progresses(false, middle)
    }

    open spec fn parses(self, input: Str, output: Self::Output, rest: Str) -> bool {
        exists|first: Result<Col, <Par::Output as ResultConvertable>::Error>, last: Par, middle: Str|
            #[trigger] insisted(
                (self.parser, self.collector, input),
                self.mode.0 as nat,
                first,
                last,
                middle,
            ) && match first {
                Ok(collector) => output.as_result() is Ok && settles(
                    (last, collector, middle),
                    None,
                    output.as_result()->Ok_0,
                    rest,
                ),
                Err(error) => rest == middle && output.as_result() == Err::<Col, _>(error),
            }
    }

    #[inline]
    fn parse_stream_once(self, input: &mut Str) -> (output: Self::Output) {
        let mut parser = self.parser;
        let first = exactly(&mut parser, self.mode.0, self.collector, input);
        proof {
            <Par::Output as Collectable<Col>>::same_fallibility();
        }
        let ghost middle = *input;
        assert(insisted(
            (self.parser, self.collector, *old(input)),
            self.mode.0 as nat,
            first,
            parser,
            middle,
        ));
        match first {
            Ok(collector) => <Self::Output as ResultConvertable>::ok(
                until_failure(parser, collector, input),
            ),
            Err(error) => <Self::Output as ResultConvertable>::err(error),
        }
    }
}

/// `count` applications that must succeed, then as `UntilEOI`, on one collector.
impl<Str, Par, Col> ParserOnce<Str> for Repeater<Par, MinimumEOI, Col> where
    Str: Stream,
    Par: ParserMut<Str>,
    Par::Output: Collectable<Col>,
    Col: Collector<<Par::Output as ResultConvertable>::Value>,
 {
    type Output = <Par::Output as Collectable<Col>>::WithVal;

    open spec fn accepts(self, input: Str) -> bool {
        &&& ready(false, (self.parser, self.collector, input), Some(self.mode.0 as nat))
        &&& forall|middle: (Par, Col, Str)| #[trigger]
            reaches(false, (self.parser, self.collector, input), self.mode.0 as nat, middle)
                ==> ready(true, middle, None) && progresses(true, middle)
    }

    open spec fn parses(self, input: Str, output: Self::Output, rest: Str) -> bool {
        exists|first: Result<Col, <Par::Output as ResultConvertable>::Error>, last: Par, middle: Str|
            #[trigger] insisted(
                (self.parser, self.collector, input),
                self.mode.0 as nat,
                first,
                last,
                middle,
            ) && match first {
                Ok(collector) => finishes((last, collector, middle), output.as_result(), rest),
                Err(error) => rest == middle && output.as_result() == Err::<Col, _>(error),
            }
    }

    #[inline]
    fn parse_stream_once(self, input: &mut Str) -> (output: Self::Output) {
        let mut parser = self.parser;
        let first = exactly(&mut parser, self.mode.0, self.collector, input);
        proof {
            <Par::Output as Collectable<Col>>::same_fallibility();
        }
        let ghost middle = *input;
        assert(insisted(
            (self.parser, self.collector, *old(input)),
            self.mode.0 as nat,
            first,
            parser,
            middle,
        ));
        match first {
            Ok(collector) => {
                match until_end(parser, collector, input) {
                    Ok(filled) => <Self::Output as ResultConvertable>::ok(filled),
                    Err(error) => <Self::Output as ResultConvertable>::err(error),
                }
            },
            Err(error) => <Self::Output as ResultConvertable>::err(error),
        }
    }
}

} // verus!
