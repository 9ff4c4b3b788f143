use super::effect::Effect;
use crate::data::traits::{Combinable, Data, Ignorable, Response};
use crate::stream::traits::Stream;
use vstd::prelude::*;

verus! {

/// A plain value in the place of a response: it cannot fail and converts to nothing else.
pub struct Pure<T>(pub T);

impl<T> Pure<T> {
    pub fn value(self) -> (value: T)
        ensures
            value == self.0,
    {
        self.0
    }

    pub fn get(&self) -> (value: &T)
        ensures
            *value == self.0,
    {
        &self.0
    }

    pub fn get_mut(&mut self) -> (value: &mut T)
        ensures
            *value == old(self).0,
            final(self).0 == *final(value),
    {
        &mut self.0
    }
}

impl<T> Response for Pure<T> {
    open spec fn succeeded(&self) -> bool {
        true
    }
}

impl<T, Val> Data<Val> for Pure<T> {
    type Value = T;

    type WithVal = Pure<Val>;

    open spec fn value(self) -> T {
        self.0
    }

    open spec fn with_value(self, value: Val) -> Pure<Val> {
        Pure(value)
    }

    proof fn with_value_keeps_signal(self, value: Val) {
    }

    fn map<Fun>(self, f: Fun) -> Pure<Val> where Fun: FnOnce(T) -> Val {
        Pure(f(self.value()))
    }

    fn flat_map<Fun>(self, f: Fun) -> Pure<Val> where Fun: FnOnce(T) -> Pure<Val> {
        f(self.value())
    }
}

impl<Val> Combinable<()> for Pure<Val> {
    type Output = Self;

    open spec fn combined(self, second: Option<()>) -> Self {
        self
    }

    proof fn combined_signal(self, second: Option<()>) {
    }

    fn combine_response<Fun, Str>(self, response: Fun, stream: &mut Str) -> Self where
        Fun: FnOnce(&mut Str),
        Str: Stream,
     {
        response(stream);
        self
    }
}

impl<Val0, Val1> Combinable<Pure<Val1>> for Pure<Val0> {
    type Output = Pure<(Val0, Val1)>;

    open spec fn combined(self, second: Option<Pure<Val1>>) -> Pure<(Val0, Val1)> {
        match second {
            Some(other) => Pure((self.0, other.0)),
            None => Pure((self.0, arbitrary())),
        }
    }

    proof fn combined_signal(self, second: Option<Pure<Val1>>) {
    }

    fn combine_response<Fun, Str>(self, response: Fun, stream: &mut Str) -> Pure<
        (Val0, Val1),
    > where Fun: FnOnce(&mut Str) -> Pure<Val1>, Str: Stream {
        let val0 = self.value();
        Pure((val0, response(stream).value()))
    }
}

impl<Val0, Val1> Combinable<Option<Val1>> for Pure<Val0> {
    type Output = Option<(Val0, Val1)>;

    open spec fn combined(self, second: Option<Option<Val1>>) -> Option<(Val0, Val1)> {
        match second {
            Some(Some(val1)) => Some((self.0, val1)),
            _ => None,
        }
    }

    proof fn combined_signal(self, second: Option<Option<Val1>>) {
    }

    fn combine_response<Fun, Str>(self, response: Fun, stream: &mut Str) -> Option<
        (Val0, Val1),
    > where Fun: FnOnce(&mut Str) -> Option<Val1>, Str: Stream {
        let val0 = self.value();
        let val1 = response(stream)?;
        Some((val0, val1))
    }
}

impl<Val, Fail> Combinable<Effect<Fail>> for Pure<Val> {
    type Output = Result<Val, Fail>;

    open spec fn combined(self, second: Option<Effect<Fail>>) -> Result<Val, Fail> {
        match second {
            Some(Effect(Err(error))) => Err(error),
            _ => Ok(self.0),
        }
    }

    proof fn combined_signal(self, second: Option<Effect<Fail>>) {
    }

    fn combine_response<Fun, Str>(self, response: Fun, stream: &mut Str) -> Result<
        Val,
        Fail,
    > where Fun: FnOnce(&mut Str) -> Effect<Fail>, Str: Stream {
        match response(stream).into_result() {
            Ok(()) => Ok(self.value()),
            Err(error) => Err(error),
        }
    }
}

impl<Val0, Val1, Fail> Combinable<Result<Val1, Fail>> for Pure<Val0> {
    type Output = Result<(Val0, Val1), Fail>;

    open spec fn combined(self, second: Option<Result<Val1, Fail>>) -> Result<
        (Val0, Val1),
        Fail,
    > {
        match second {
            Some(Ok(val1)) => Ok((self.0, val1)),
            Some(Err(error)) => Err(error),
            None => Ok((self.0, arbitrary())),
        }
    }

    proof fn combined_signal(self, second: Option<Result<Val1, Fail>>) {
    }

    fn combine_response<Fun, Str>(self, response: Fun, stream: &mut Str) -> Result<
        (Val0, Val1),
        Fail,
    > where Fun: FnOnce(&mut Str) -> Result<Val1, Fail>, Str: Stream {
        match response(stream) {
            Ok(value) => Ok((self.value(), value)),
            Err(error) => Err(error),
        }
    }
}

impl<Val> Ignorable for Pure<Val> {
    type Output = ();

    open spec fn ignored(self) -> () {
        ()
    }

    proof fn ignored_keeps_signal(self) {
    }

    fn ignore_response(self) -> () {
        let _ = self;
    }
}

} // verus!
