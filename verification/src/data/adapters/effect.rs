use super::pure::Pure;
use crate::data::traits::{
    Attachable, Combinable, Disjoinable, Exceptional, Optionable, Recoverable,
    Response,
};
use crate::stream::traits::Stream;
use std::fmt::Debug;
use vstd::prelude::*;
use vstd::std_specs::convert::FromSpecImpl;

verus! {

/// The signal-only shape: success without a payload, or an error.
pub struct Effect<E>(pub Result<(), E>);

impl<E> Effect<E> {
    pub fn ok() -> (effect: Self)
        ensures
            effect.0 == Ok::<(), E>(()),
    {
        Self(Ok(()))
    }

    pub fn err(error: E) -> (effect: Self)
        ensures
            effect.0 == Err::<(), E>(error),
    {
        Self(Err(error))
    }

    pub fn into_result(self) -> (result: Result<(), E>)
        ensures
            result == self.0,
    {
        self.0
    }

    /// Discards a success. An effect that holds an error has nothing to unwrap.
    pub fn unwrap(self) where E: Debug
        requires
            self.0 is Ok,
    {
        self.into_result().unwrap();
    }
}

impl<E> From<Result<(), E>> for Effect<E> {
    fn from(value: Result<(), E>) -> (effect: Self) {
        Self(value)
    }
}

impl<E> FromSpecImpl<Result<(), E>> for Effect<E> {
    open spec fn obeys_from_spec() -> bool {
        true
    }

    open spec fn from_spec(value: Result<(), E>) -> Self {
        Effect(value)
    }
}

impl<E> From<Effect<E>> for Result<(), E> {
    fn from(value: Effect<E>) -> (result: Self) {
        value.0
    }
}

impl<E> FromSpecImpl<Effect<E>> for Result<(), E> {
    open spec fn obeys_from_spec() -> bool {
        true
    }

    open spec fn from_spec(value: Effect<E>) -> Self {
        value.0
    }
}

impl<T> Response for Effect<T> {
    open spec fn succeeded(&self) -> bool {
        self.0 is Ok
    }
}

impl<T, NewErr> Exceptional<NewErr> for Effect<T> {
    type Error = T;

    type WithErr = Effect<NewErr>;

    open spec fn error(self) -> T {
        self.0->Err_0
    }

    open spec fn with_error(self, error: NewErr) -> Effect<NewErr> {
        match self.0 {
            Ok(()) => Effect(Ok(())),
            Err(_) => Effect(Err(error)),
        }
    }

    proof fn with_error_keeps_signal(self, error: NewErr) {
    }

    fn map_err<Fun>(self, f: Fun) -> Effect<NewErr> where Fun: FnOnce(T) -> NewErr {
        match self.into_result() {
            Ok(()) => Effect::ok(),
            Err(error) => Effect::err(f(error)),
        }
    }
}

impl<Fail> Combinable<()> for Effect<Fail> {
    type Output = Self;

    open spec fn combined(self, second: Option<()>) -> Self {
        self
    }

    proof fn combined_signal(self, second: Option<()>) {
    }

    fn combine_response<Fun, Str>(self, response: Fun, stream: &mut Str) -> Self where
        Fun: FnOnce(&mut Str),
        Str: Stream,
     {
        if self.0.is_ok() {
            response(stream);
        }
        self
    }
}

impl<Fail, Val> Combinable<Pure<Val>> for Effect<Fail> {
    type Output = Result<Val, Fail>;

    open spec fn combined(self, second: Option<Pure<Val>>) -> Result<Val, Fail> {
        match (self.0, second) {
            (Err(error), _) => Err(error),
            (Ok(()), Some(other)) => Ok(other.0),
            (Ok(()), None) => Ok(arbitrary()),
        }
    }

    proof fn combined_signal(self, second: Option<Pure<Val>>) {
    }

    fn combine_response<Fun, Str>(self, response: Fun, stream: &mut Str) -> Result<
        Val,
        Fail,
    > where Fun: FnOnce(&mut Str) -> Pure<Val>, Str: Stream {
        match self.into_result() {
            Ok(()) => Ok(response(stream).value()),
            Err(error) => Err(error),
        }
    }
}

impl<Fail> Combinable<Effect<Fail>> for Effect<Fail> {
    type Output = Self;

    open spec fn combined(self, second: Option<Effect<Fail>>) -> Self {
        match (self.0, second) {
            (Ok(()), Some(other)) => other,
            _ => self,
        }
    }

    proof fn combined_signal(self, second: Option<Effect<Fail>>) {
    }

    fn combine_response<Fun, Str>(self, response: Fun, stream: &mut Str) -> Self where
        Fun: FnOnce(&mut Str) -> Effect<Fail>,
        Str: Stream,
     {
        match self.into_result() {
            Ok(()) => response(stream),
            Err(error) => Self::err(error),
        }
    }
}

impl<Fail, Val> Combinable<Result<Val, Fail>> for Effect<Fail> {
    type Output = Result<Val, Fail>;

    open spec fn combined(self, second: Option<Result<Val, Fail>>) -> Result<Val, Fail> {
        match (self.0, second) {
            (Err(error), _) => Err(error),
            (Ok(()), Some(other)) => other,
            (Ok(()), None) => Ok(arbitrary()),
        }
    }

    proof fn combined_signal(self, second: Option<Result<Val, Fail>>) {
    }

    fn combine_response<Fun, Str>(self, response: Fun, stream: &mut Str) -> Result<
        Val,
        Fail,
    > where Fun: FnOnce(&mut Str) -> Result<Val, Fail>, Str: Stream {
        match self.into_result() {
            Ok(()) => response(stream),
            Err(error) => Err(error),
        }
    }
}

impl<Fail> Disjoinable<Effect<Fail>> for Effect<Fail> {
    type Output = Effect<(Fail, Fail)>;

    open spec fn disjoined(self, second: Option<Effect<Fail>>) -> Effect<(Fail, Fail)> {
        match (self.0, second) {
            (Ok(()), _) => Effect(Ok(())),
            (Err(_), Some(Effect(Ok(())))) => Effect(Ok(())),
            (Err(error0), Some(Effect(Err(error1)))) => Effect(Err((error0, error1))),
            (Err(error0), None) => Effect(Err((error0, arbitrary()))),
        }
    }

    proof fn disjoined_signal(self, second: Option<Effect<Fail>>) {
    }

    fn disjoin_response<Fun, Rec, Str>(self, response: Fun, recover: Rec, stream: &mut Str) -> Effect<
        (Fail, Fail),
    > where Fun: FnOnce(&mut Str) -> Effect<Fail>, Rec: FnOnce(&mut Str), Str: Stream {
        match self.into_result() {
            Ok(()) => Effect::ok(),
            Err(error0) => {
                recover(stream);
                match response(stream).into_result() {
                    Ok(()) => Effect::ok(),
                    Err(error1) => Effect::err((error0, error1)),
                }
            },
        }
    }
}

impl<Fail> Recoverable for Effect<Fail> {
    fn recover_response<Rec, Str>(self, on_residual: Rec, stream: &mut Str) -> Self where
        Rec: FnOnce(&mut Str),
        Str: Stream,
     {
        if self.0.is_err() {
            on_residual(stream);
        }
        self
    }
}

impl<Val, Fail> Attachable<Val> for Effect<Fail> {
    type Output = Result<Val, Fail>;

    open spec fn attached(self, value: Val) -> Result<Val, Fail> {
        match self.0 {
            Ok(()) => Ok(value),
            Err(error) => Err(error),
        }
    }

    proof fn attached_keeps_signal(self, value: Val) {
    }

    fn attach_to_response(self, value: Val) -> Result<Val, Fail> {
        match self.into_result() {
            Ok(()) => Ok(value),
            Err(error) => Err(error),
        }
    }
}

impl<Fail> Optionable for Effect<Fail> {
    type Output = ();

    open spec fn optional(self) -> () {
        ()
    }

    proof fn optional_succeeds(self) {
    }

    fn opt_response(self) -> () {
        let _ = self;
    }
}

} // verus!
