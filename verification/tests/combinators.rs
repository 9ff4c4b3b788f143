use either::Either;
use parcomb::data::adapters::effect::Effect;
use parcomb::data::adapters::sure::Sure;
use parcomb::parser::adapters::and::And;
use parcomb::parser::adapters::attach::Attach;
use parcomb::parser::adapters::conversion::Unit;
use parcomb::parser::adapters::flat_map::FlatMap;
use parcomb::parser::adapters::ignore::Ignore;
use parcomb::parser::adapters::map::MapValue;
use parcomb::parser::adapters::map_err::MapErr;
use parcomb::parser::adapters::non_terminal::NonTerminal;
use parcomb::parser::adapters::opt::Opt;
use parcomb::parser::adapters::or::Or;
use parcomb::parser::adapters::try_map::TryMap;
use parcomb::parser::traits::{eval, parse, Parse, Parser, ParserMut, ParserOnce};
use parcomb::stream::traits::Stream;
use std::cell::Cell;

type Text<'a> = (&'a str, usize);

/// Matches one given character and consumes it; the error is the offset.
#[derive(Clone, Copy)]
struct Match(char);

fn run(expected: char, input: &mut Text<'_>) -> Result<char, usize> {
    match input.next() {
        Some(found) if found == expected => {
            input.skip();
            Ok(found)
        }
        _ => Err(input.offset()),
    }
}

impl<'a> ParserOnce<Text<'a>> for Match {
    type Output = Result<char, usize>;

    fn accepts(self, _input: Text<'a>) -> bool {
        true
    }

    fn parses(self, _input: Text<'a>, _output: Self::Output, _rest: Text<'a>) -> bool {
        true
    }

    fn parse_stream_once(self, input: &mut Text<'a>) -> Self::Output {
        run(self.0, input)
    }
}

impl<'a> ParserMut<Text<'a>> for Match {
    fn steps(self, _input: Text<'a>, _output: Self::Output, _rest: Text<'a>, _next: Self) -> bool {
        true
    }

    fn parse_stream_mut(&mut self, input: &mut Text<'a>) -> Self::Output {
        run(self.0, input)
    }
}

impl<'a> Parser<Text<'a>> for Match {
    fn parse_stream(&self, input: &mut Text<'a>) -> Self::Output {
        run(self.0, input)
    }
}

/// Consumes one item, counts its calls, and succeeds or fails as told.
struct Probe<'c> {
    calls: &'c Cell<u32>,
    succeed: bool,
}

impl<'a, 'c> ParserOnce<Text<'a>> for Probe<'c> {
    type Output = Result<char, usize>;

    fn accepts(self, _input: Text<'a>) -> bool {
        true
    }

    fn parses(self, _input: Text<'a>, _output: Self::Output, _rest: Text<'a>) -> bool {
        true
    }

    fn parse_stream_once(self, input: &mut Text<'a>) -> Self::Output {
        self.calls.set(self.calls.get() + 1);
        input.skip();
        if self.succeed {
            Ok('p')
        } else {
            Err(input.offset())
        }
    }
}

/// Succeeds without a value when the cursor is at an even offset.
struct Even;

impl<'a> ParserOnce<Text<'a>> for Even {
    type Output = Effect<usize>;

    fn accepts(self, _input: Text<'a>) -> bool {
        true
    }

    fn parses(self, _input: Text<'a>, _output: Self::Output, _rest: Text<'a>) -> bool {
        true
    }

    fn parse_stream_once(self, input: &mut Text<'a>) -> Self::Output {
        if input.offset() % 2 == 0 {
            Effect::ok()
        } else {
            Effect::err(input.offset())
        }
    }
}

#[derive(Debug, PartialEq)]
struct Digit(u32);

impl Parse for Digit {
    type Input = (&'static str, usize);

    fn parse_accepts(_input: Self::Input) -> bool {
        true
    }

    fn parsed(_input: Self::Input, _value: Self, _rest: Self::Input) -> bool {
        true
    }

    fn parse(input: &mut Self::Input) -> Self {
        let digit = input.next().and_then(|c| c.to_digit(10)).unwrap_or(0);
        input.skip();
        Digit(digit)
    }
}

#[test]
fn sequencing_does_not_roll_back() {
    let mut input: Text<'_> = ("ac", 0);
    let result = Match('a').and(Match('b')).parse_stream_once(&mut input);
    assert_eq!(result, Err(1));
    assert_eq!(input.offset(), 1);
}

#[test]
fn sequencing_pairs_both_values() {
    let mut input: Text<'_> = ("abc", 0);
    let result = And::new(Match('a'), Match('b')).parse_stream_once(&mut input);
    assert_eq!(result, Ok(('a', 'b')));
    assert_eq!(input.offset(), 2);
}

#[test]
fn sequencing_skips_the_second_parser_after_a_failure() {
    let first = Cell::new(0);
    let second = Cell::new(0);
    let mut input: Text<'_> = ("xyz", 0);
    let result = Probe { calls: &first, succeed: false }
        .and(Probe { calls: &second, succeed: true })
        .parse_stream_once(&mut input);
    assert_eq!(result, Err(1));
    assert_eq!(first.get(), 1);
    assert_eq!(second.get(), 0);
    assert_eq!(input.offset(), 1);
}

#[test]
fn alternation_rolls_back_the_left_branch() {
    let mut input: Text<'_> = ("b", 0);
    let result = Match('a').or(Match('b')).parse_stream_once(&mut input);
    assert_eq!(result, Ok('b'));
    assert_eq!(input.offset(), 1);
}

#[test]
fn alternation_skips_the_second_parser_after_a_success() {
    let first = Cell::new(0);
    let second = Cell::new(0);
    let mut input: Text<'_> = ("xyz", 0);
    let result = Or::new(
        Probe { calls: &first, succeed: true },
        Probe { calls: &second, succeed: true },
    )
    .parse_stream_once(&mut input);
    assert_eq!(result, Ok('p'));
    assert_eq!(first.get(), 1);
    assert_eq!(second.get(), 0);
    assert_eq!(input.offset(), 1);
}

#[test]
fn alternation_keeps_both_errors() {
    let first = Cell::new(0);
    let mut input: Text<'_> = ("xyz", 1);
    let result = Probe { calls: &first, succeed: false }
        .or(Match('a'))
        .parse_stream_once(&mut input);
    assert_eq!(result, Err((2, 1)));
    assert_eq!(input.offset(), 1);
}

#[test]
fn boundary_restores_the_offset_on_failure() {
    let mut input: Text<'_> = ("ac", 0);
    let result = Match('a').and(Match('b')).non_terminal().parse_stream_once(&mut input);
    assert_eq!(result, Err(1));
    assert_eq!(input.offset(), 0);
}

#[test]
fn boundary_keeps_the_offset_on_success() {
    let mut input: Text<'_> = ("ab", 0);
    let mut boundary = NonTerminal::new(Match('a'));
    assert_eq!(boundary.parse_stream_mut(&mut input), Ok('a'));
    assert_eq!(input.offset(), 1);
    assert_eq!(boundary.parse_stream_mut(&mut input), Err(1));
    assert_eq!(input.offset(), 1);
}

#[test]
fn same_state_gives_same_result() {
    let parser = Match('a').and(Match('b')).or(Match('a').and(Match('c')));
    let mut first: Text<'_> = ("acd", 0);
    let mut second: Text<'_> = ("acd", 0);
    let one = parser.parse_stream_once(&mut first);
    let parser = Match('a').and(Match('b')).or(Match('a').and(Match('c')));
    let two = parser.parse_stream_once(&mut second);
    assert_eq!(one, Ok(('a', 'c')));
    assert_eq!(one, two);
    assert_eq!(first.offset(), second.offset());
    assert_eq!(first.offset(), 2);
}

#[test]
fn map_transforms_the_value() {
    let mut input: Text<'_> = ("a", 0);
    let upper = |c: char| c.to_ascii_uppercase();
    let parser = Match('a').map(upper);
    assert_eq!(parser.parse_stream(&mut input), Ok('A'));
    let code = |c: char| c as u32;
    let mut parser = MapValue::new(Match('b'), code);
    assert_eq!(parser.parse_stream_mut(&mut input), Err(1));
    let mut input: Text<'_> = ("b", 0);
    assert_eq!(parser.parse_stream_once(&mut input), Ok(98));
}

#[test]
fn map_err_transforms_the_error() {
    let mut input: Text<'_> = ("a", 0);
    let result = Match('b').map_err(|offset: usize| offset + 10).parse_stream_once(&mut input);
    assert_eq!(result, Err(10));
    let result = MapErr::new(Match('a'), |offset: usize| offset + 10).parse_stream_once(&mut input);
    assert_eq!(result, Ok('a'));
}

#[test]
fn try_map_may_fail_on_the_value() {
    let check = |c: char| if c == 'a' { Ok(1u8) } else { Err(99usize) };
    let mut input: Text<'_> = ("ab", 0);
    assert_eq!(Match('a').try_map(check).parse_stream_once(&mut input), Ok(1));
    assert_eq!(TryMap::new(Match('b'), check).parse_stream_once(&mut input), Err(99));
    assert_eq!(input.offset(), 2);
    assert_eq!(FlatMap::new(Match('c'), check).parse_stream_once(&mut input), Err(2));
}

#[test]
fn ignore_drops_the_value() {
    let mut input: Text<'_> = ("a", 0);
    assert_eq!(Match('a').ignore().parse_stream_once(&mut input).into_result(), Ok(()));
    assert_eq!(Ignore::new(Match('a')).parse_stream_once(&mut input).into_result(), Err(1));
}

#[test]
fn attach_supplies_a_value() {
    let mut input: Text<'_> = ("ab", 0);
    assert_eq!(Even.attach(7u8).parse_stream_once(&mut input), Ok(7));
    input.skip();
    assert_eq!(Attach::new(Even, 7u8).parse_stream_once(&mut input), Err(1));
}

#[test]
fn opt_absorbs_a_failure_and_rolls_back() {
    let mut input: Text<'_> = ("ac", 0);
    let Sure(found) = Match('a').and(Match('b')).opt().parse_stream_once(&mut input);
    assert_eq!(found, None);
    assert_eq!(input.offset(), 0);
    let Sure(found) = Opt::new(Match('a')).parse_stream_once(&mut input);
    assert_eq!(found, Some('a'));
    assert_eq!(input.offset(), 1);
}

#[test]
fn unit_replaces_the_value() {
    let mut input: Text<'_> = ("a", 0);
    assert_eq!(Unit::new(Match('a')).parse_stream_once(&mut input), Ok(()));
    assert_eq!(Unit::new(Match('a')).parse_stream_once(&mut input), Err(1));
}

#[test]
fn either_tags_the_values() {
    let mut input: Text<'_> = ("b", 0);
    let parser = Match('a').map(|c: char| c as u32).or(Match('b')).either();
    let result: Result<Either<u32, char>, (usize, usize)> = parser.parse_stream_once(&mut input);
    assert_eq!(result, Ok(Either::Right('b')));
    let mut input: Text<'_> = ("a", 0);
    let parser = Match('a').map(|c: char| c as u32).or(Match('b')).either();
    assert_eq!(parser.parse_stream_once(&mut input), Ok(Either::Left(97)));
}

#[test]
fn either_err_tags_the_errors() {
    let mut input: Text<'_> = ("ab", 0);
    let parser = Match('a').and(Match('c').map_err(|_: usize| "second")).either_err();
    let result: Result<(char, char), Either<usize, &str>> = parser.parse_stream_once(&mut input);
    assert_eq!(result, Err(Either::Right("second")));
    let mut input: Text<'_> = ("xb", 0);
    let parser = Match('a').and(Match('c').map_err(|_: usize| "second")).either_err();
    assert_eq!(parser.parse_stream_once(&mut input), Err(Either::Left(0)));
}

#[test]
fn references_are_parsers() {
    let parser = Match('a');
    let mut input: Text<'_> = ("aaa", 0);
    assert_eq!((&parser).parse_stream_once(&mut input), Ok('a'));
    assert_eq!((&parser).parse_stream(&mut input), Ok('a'));
    let mut shared = &parser;
    assert_eq!(shared.parse_stream_mut(&mut input), Ok('a'));
    let mut parser = Match('a');
    assert_eq!((&mut parser).parse_stream_once(&mut input), Err(3));
    let mut exclusive = &mut parser;
    assert_eq!(ParserMut::parse_stream_mut(&mut exclusive, &mut input), Err(3));
}

#[test]
fn eval_and_parse_run_on_the_stream() {
    let mut input: (&'static str, usize) = ("7a", 0);
    assert_eq!(parse::<Digit>(&mut input), Digit(7));
    assert_eq!(eval(&mut input, Match('a')), Ok('a'));
    assert_eq!(input.offset(), 2);
}
