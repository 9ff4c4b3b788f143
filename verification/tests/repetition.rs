use parcomb::data::adapters::sure::Sure;
use parcomb::parser::adapters::repeat::mode::{Exact, Maximum, Minimum, MinimumEOI, UntilEOI, UntilErr};
use parcomb::parser::adapters::repeat::{Collector, OneOrMul, Repeater};
use parcomb::parser::traits::{Parser, ParserMut, ParserOnce};
use parcomb::stream::traits::Stream;

type Text<'a> = (&'a str, usize);

/// Matches one given character and consumes it; the error is the offset.
#[derive(Clone, Copy)]
struct Letter(char);

fn run(expected: char, input: &mut Text<'_>) -> Result<char, usize> {
    match input.next() {
        Some(found) if found == expected => {
            input.skip();
            Ok(found)
        }
        _ => Err(input.offset()),
    }
}

impl<'a> ParserOnce<Text<'a>> for Letter {
    type Output = Result<char, usize>;

    fn accepts(self, _input: Text<'a>) -> bool {
        true
    }

    fn parses(self, _input: Text<'a>, _output: Self::Output, _rest: Text<'a>) -> bool {
        true
    }

    fn parse_stream_once(self, input: &mut Text<'a>) -> Self::Output {
        run(self.0, input)
    }
}

impl<'a> ParserMut<Text<'a>> for Letter {
    fn steps(self, _input: Text<'a>, _output: Self::Output, _rest: Text<'a>, _next: Self) -> bool {
        true
    }

    fn parse_stream_mut(&mut self, input: &mut Text<'a>) -> Self::Output {
        run(self.0, input)
    }
}

impl<'a> Parser<Text<'a>> for Letter {
    fn parse_stream(&self, input: &mut Text<'a>) -> Self::Output {
        run(self.0, input)
    }
}

/// Matches "ab" and fails after the 'a' when no 'b' follows; gives no reason.
#[derive(Clone, Copy)]
struct Pair;

impl<'a> ParserOnce<Text<'a>> for Pair {
    type Output = Option<&'static str>;

    fn accepts(self, _input: Text<'a>) -> bool {
        true
    }

    fn parses(self, _input: Text<'a>, _output: Self::Output, _rest: Text<'a>) -> bool {
        true
    }

    fn parse_stream_once(mut self, input: &mut Text<'a>) -> Self::Output {
        self.parse_stream_mut(input)
    }
}

impl<'a> ParserMut<Text<'a>> for Pair {
    fn steps(self, _input: Text<'a>, _output: Self::Output, _rest: Text<'a>, _next: Self) -> bool {
        true
    }

    fn parse_stream_mut(&mut self, input: &mut Text<'a>) -> Self::Output {
        run('a', input).ok()?;
        run('b', input).ok()?;
        Some("ab")
    }
}

#[test]
fn until_err_collects_and_never_fails() {
    let mut input: Text<'_> = ("aaab", 0);
    let Sure(items) = Letter('a').repeat().to_vec().parse_stream_once(&mut input);
    assert_eq!(items, vec!['a', 'a', 'a']);
    assert_eq!(input.offset(), 3);
}

#[test]
fn until_err_on_no_match_collects_nothing() {
    let mut input: Text<'_> = ("b", 0);
    let Sure(items) = Letter('a').repeat().to_vec().parse_stream_once(&mut input);
    assert_eq!(items, Vec::<char>::new());
    assert_eq!(input.offset(), 0);
}

#[test]
fn until_err_rolls_back_the_failed_attempt() {
    let mut input: Text<'_> = ("ababac", 0);
    let Sure(text) = Pair.repeat().collect::<String, Text<'_>>().parse_stream_once(&mut input);
    assert_eq!(text, "abab");
    assert_eq!(input.offset(), 4);
}

#[test]
fn until_err_with_the_discarding_collector() {
    let mut input: Text<'_> = ("aab", 0);
    let Sure(()) = Repeater::new(Letter('a'), UntilErr).parse_stream_once(&mut input);
    assert_eq!(input.offset(), 2);
}

#[test]
fn exact_fails_on_the_third_application() {
    let mut input: Text<'_> = ("aab", 0);
    let result = Letter('a').repeat_exact(3).to_vec().parse_stream_once(&mut input);
    assert_eq!(result, Err(2));
    assert_eq!(input.offset(), 2);
}

#[test]
fn exact_stops_after_the_count() {
    let mut input: Text<'_> = ("aaaa", 0);
    let result = Repeater::new(Letter('a'), Exact(3)).to_vec().parse_stream_once(&mut input);
    assert_eq!(result, Ok(vec!['a', 'a', 'a']));
    assert_eq!(input.offset(), 3);
    let result = Letter('a').repeat_exact(0).to_vec().parse_stream_once(&mut input);
    assert_eq!(result, Ok(vec![]));
    assert_eq!(input.offset(), 3);
}

#[test]
fn minimum_collects_beyond_the_minimum() {
    let mut input: Text<'_> = ("aaab", 0);
    let result = Letter('a').repeat_min(2).to_vec().parse_stream_once(&mut input);
    assert_eq!(result, Ok(vec!['a', 'a', 'a']));
    assert_eq!(input.offset(), 3);
}

#[test]
fn minimum_fails_below_the_minimum() {
    let mut input: Text<'_> = ("ab", 0);
    let result = Repeater::new(Letter('a'), Minimum(2)).to_vec().parse_stream_once(&mut input);
    assert_eq!(result, Err(1));
    assert_eq!(input.offset(), 1);
}

#[test]
fn maximum_stops_at_the_count_or_the_failure() {
    let mut input: Text<'_> = ("aaab", 0);
    let Sure(items) = Letter('a').repeat_max(2).to_vec().parse_stream_once(&mut input);
    assert_eq!(items, vec!['a', 'a']);
    assert_eq!(input.offset(), 2);
    let Sure(items) =
        Repeater::new(Letter('a'), Maximum(5)).to_vec().parse_stream_once(&mut input);
    assert_eq!(items, vec!['a']);
    assert_eq!(input.offset(), 3);
    let Sure(items) = Letter('a').repeat_max(0).to_vec().parse_stream_once(&mut input);
    assert_eq!(items, Vec::<char>::new());
}

#[test]
fn until_eoi_needs_every_application_to_succeed() {
    let mut input: Text<'_> = ("aaa", 0);
    let result = Letter('a').repeat_eoi().to_vec().parse_stream_once(&mut input);
    assert_eq!(result, Ok(vec!['a', 'a', 'a']));
    assert_eq!(input.offset(), 3);
    let mut input: Text<'_> = ("aab", 0);
    let result = Repeater::new(Letter('a'), UntilEOI).to_vec().parse_stream_once(&mut input);
    assert_eq!(result, Err(2));
    let mut input: Text<'_> = ("", 0);
    let result = Letter('a').repeat().until_eoi().to_vec().parse_stream_once(&mut input);
    assert_eq!(result, Ok(vec![]));
}

#[test]
fn minimum_eoi_runs_both_phases() {
    let mut input: Text<'_> = ("aaa", 0);
    let result = Letter('a').repeat_min_eoi(2).to_vec().parse_stream_once(&mut input);
    assert_eq!(result, Ok(vec!['a', 'a', 'a']));
    let mut input: Text<'_> = ("a", 0);
    let result = Letter('a').repeat_min(2).until_eoi().to_vec().parse_stream_once(&mut input);
    assert_eq!(result, Err(1));
    let mut input: Text<'_> = ("aab", 0);
    let result =
        Repeater::new(Letter('a'), MinimumEOI(1)).to_vec().parse_stream_once(&mut input);
    assert_eq!(result, Err(2));
    let mut input: Text<'_> = ("", 0);
    let result = Letter('a').repeat_min_eoi(0).to_vec().parse_stream_once(&mut input);
    assert_eq!(result, Ok(vec![]));
}

#[test]
fn repetition_over_an_option_shape() {
    let mut input: Text<'_> = ("ababx", 0);
    let result = Pair.repeat_exact(2).to_vec().parse_stream_once(&mut input);
    assert_eq!(result, Some(vec!["ab", "ab"]));
    let mut input: Text<'_> = ("abax", 0);
    let result = Pair.repeat_exact(2).to_vec().parse_stream_once(&mut input);
    assert_eq!(result, None);
    assert_eq!(input.offset(), 3);
}

#[test]
fn collector_given_by_the_caller_is_extended() {
    let mut input: Text<'_> = ("aab", 0);
    let Sure(items) = Letter('a').repeat().collector(vec!['x']).parse_stream_once(&mut input);
    assert_eq!(items, vec!['x', 'a', 'a']);
}

#[test]
fn text_collector_appends_characters_and_pieces() {
    let mut text = String::from("x");
    Collector::push(&mut text, 'y');
    Collector::push(&mut text, "zz");
    assert_eq!(text, "xyzz");
    let mut input: Text<'_> = ("aab", 0);
    let Sure(text) =
        Letter('a').repeat().collect::<String, Text<'_>>().parse_stream_once(&mut input);
    assert_eq!(text, "aa");
}

#[test]
fn sequence_and_discarding_collectors() {
    let mut items = vec![1u8];
    Collector::push(&mut items, 2);
    assert_eq!(items, vec![1, 2]);
    let mut nothing = ();
    Collector::push(&mut nothing, 2u8);
    assert_eq!(nothing, ());
}

#[test]
fn one_or_mul_promotes_on_the_second_push() {
    let mut collector: OneOrMul<u8> = OneOrMul::default();
    assert!(matches!(collector, OneOrMul::Empty));
    collector.push(1);
    assert!(matches!(collector, OneOrMul::One(1)));
    collector.push(2);
    assert!(matches!(&collector, OneOrMul::Multiple(items) if items == &vec![1, 2]));
    collector.push(3);
    assert!(matches!(&collector, OneOrMul::Multiple(items) if items == &vec![1, 2, 3]));
    let mut input: Text<'_> = ("aab", 0);
    let Sure(found) = Letter('a')
        .repeat()
        .collect::<OneOrMul<char>, Text<'_>>()
        .parse_stream_once(&mut input);
    assert!(matches!(&found, OneOrMul::Multiple(items) if items == &vec!['a', 'a']));
}
