use super::effect::Effect;
use crate::data::traits::{
    Combinable, Data, Ignorable, Pure, Response, ResultConvertable,
};
use crate::stream::traits::Stream;
use std::convert::Infallible;
use vstd::pervasive::unreached;
use vstd::prelude::*;

verus! {

/// The infallible-value shape: a value that is always there.
pub struct Sure<T>(pub T);

impl<T> Sure<T> {
    pub fn value(self) -> (value: T)
        ensures
            value == self.0,
    {
        self.0
    }

    pub fn get(&self) -> (value: &T)
        ensures
            *value == self.0,
    {
        &self.0
    }

    pub fn get_mut(&mut self) -> (value: &mut T)
        ensures
            *value == old(self).0,
            final(self).0 == *final(value),
    {
        &mut self.0
    }
}

impl<T> Response for Sure<T> {
    open spec fn succeeded(&self) -> bool {
        true
    }
}

impl<T, Val> Data<Val> for Sure<T> {
    type Value = T;

    type WithVal = Sure<Val>;

    open spec fn value(self) -> T {
        self.0
    }

    open spec fn with_value(self, value: Val) -> Sure<Val> {
        Sure(value)
    }

    proof fn with_value_keeps_signal(self, value: Val) {
    }

    fn map<Fun>(self, f: Fun) -> Sure<Val> where Fun: FnOnce(T) -> Val {
        Sure(f(self.value()))
    }

    fn flat_map<Fun>(self, f: Fun) -> Sure<Val> where Fun: FnOnce(T) -> Sure<Val> {
        f(self.value())
    }
}

impl<T> Pure for Sure<T> {
    type Value = T;

    open spec fn held(self) -> T {
        self.0
    }

    proof fn never_fails(self) {
    }

    proof fn held_determines(self, other: Self) {
    }

    fn pure(value: T) -> Self {
        Sure(value)
    }

    fn unwrap(self) -> T {
        self.value()
    }
}

impl<Val> Combinable<()> for Sure<Val> {
    type Output = Self;

    open spec fn combined(self, second: Option<()>) -> Self {
        self
    }

    proof fn combined_signal(self, second: Option<()>) {
    }

    fn combine_response<Fun, Str>(self, response: Fun, stream: &mut Str) -> Self where
        Fun: FnOnce(&mut Str),
        Str: Stream,
     {
        response(stream);
        self
    }
}

impl<Val0, Val1> Combinable<Sure<Val1>> for Sure<Val0> {
    type Output = Sure<(Val0, Val1)>;

    open spec fn combined(self, second: Option<Sure<Val1>>) -> Sure<(Val0, Val1)> {
        match second {
            Some(other) => Sure((self.0, other.0)),
            None => Sure((self.0, arbitrary())),
        }
    }

    proof fn combined_signal(self, second: Option<Sure<Val1>>) {
    }

    fn combine_response<Fun, Str>(self, response: Fun, stream: &mut Str) -> Sure<
        (Val0, Val1),
    > where Fun: FnOnce(&mut Str) -> Sure<Val1>, Str: Stream {
        let val0 = self.value();
        Sure((val0, response(stream).value()))
    }
}

impl<Val0, Val1> Combinable<Option<Val1>> for Sure<Val0> {
    type Output = Option<(Val0, Val1)>;

    open spec fn combined(self, second: Option<Option<Val1>>) -> Option<(Val0, Val1)> {
        match second {
            Some(Some(val1)) => Some((self.0, val1)),
            _ => None,
        }
    }

    proof fn combined_signal(self, second: Option<Option<Val1>>) {
    }

    fn combine_response<Fun, Str>(self, response: Fun, stream: &mut Str) -> Option<
        (Val0, Val1),
    > where Fun: FnOnce(&mut Str) -> Option<Val1>, Str: Stream {
        let val0 = self.value();
        let val1 = response(stream)?;
        Some((val0, val1))
    }
}

impl<Val, Fail> Combinable<Effect<Fail>> for Sure<Val> {
    type Output = Result<Val, Fail>;

    open spec fn combined(self, second: Option<Effect<Fail>>) -> Result<Val, Fail> {
        match second {
            Some(Effect(Err(error))) => Err(error),
            _ => Ok(self.0),
        }
    }

    proof fn combined_signal(self, second: Option<Effect<Fail>>) {
    }

    fn combine_response<Fun, Str>(self, response: Fun, stream: &mut Str) -> Result<
        Val,
        Fail,
    > where Fun: FnOnce(&mut Str) -> Effect<Fail>, Str: Stream {
        match response(stream).into_result() {
            Ok(()) => Ok(self.value()),
            Err(error) => Err(error),
        }
    }
}

impl<Val0, Val1, Fail> Combinable<Result<Val1, Fail>> for Sure<Val0> {
    type Output = Result<(Val0, Val1), Fail>;

    open spec fn combined(self, second: Option<Result<Val1, Fail>>) -> Result<
        (Val0, Val1),
        Fail,
    > {
        match second {
            Some(Ok(val1)) => Ok((self.0, val1)),
            Some(Err(error)) => Err(error),
            None => Ok((self.0, arbitrary())),
        }
    }

    proof fn combined_signal(self, second: Option<Result<Val1, Fail>>) {
    }

    fn combine_response<Fun, Str>(self, response: Fun, stream: &mut Str) -> Result<
        (Val0, Val1),
        Fail,
    > where Fun: FnOnce(&mut Str) -> Result<Val1, Fail>, Str: Stream {
        match response(stream) {
            Ok(value) => Ok((self.value(), value)),
            Err(error) => Err(error),
        }
    }
}

impl<Val> Ignorable for Sure<Val> {
    type Output = ();

    open spec fn ignored(self) -> () {
        ()
    }

    proof fn ignored_keeps_signal(self) {
    }

    fn ignore_response(self) -> () {
        let _ = self;
    }
}

impl<Val> ResultConvertable for Sure<Val> {
    type Value = Val;

    type Error = Infallible;

    open spec fn as_result(self) -> Result<Val, Infallible> {
        Ok(self.0)
    }

    proof fn result_determines(self, other: Self) {
    }

    open spec fn fallible() -> bool {
        false
    }

    fn ok(value: Val) -> Self {
        Sure(value)
    }

    fn err(error: Infallible) -> Self {
        unreached()
    }

    fn into_result(self) -> Result<Val, Infallible> {
        Ok(self.value())
    }
}

} // verus!
