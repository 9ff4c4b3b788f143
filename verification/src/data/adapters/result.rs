use super::effect::Effect;
use super::sure::Sure;
use crate::data::traits::{
    Collectable, Combinable, Data, Disjoinable, Exceptional, Ignorable,
    Optionable, Recoverable, Response, ResultConvertable, UnerringConvertable,
};
use crate::stream::traits::Stream;
use vstd::prelude::*;

verus! {

/// The fallible-value shape: a value, or an error that says why there is none.
impl<T, E> Response for Result<T, E> {
    open spec fn succeeded(&self) -> bool {
        self is Ok
    }
}

impl<T, E, Val> Data<Val> for Result<T, E> {
    type Value = T;

    type WithVal = Result<Val, E>;

    open spec fn value(self) -> T {
        self->Ok_0
    }

    open spec fn with_value(self, value: Val) -> Result<Val, E> {
        match self {
            Ok(_) => Ok(value),
            Err(error) => Err(error),
        }
    }

    proof fn with_value_keeps_signal(self, value: Val) {
    }

    fn map<Fun>(self, f: Fun) -> Result<Val, E> where Fun: FnOnce(T) -> Val {
        match self {
            Ok(value) => Ok(f(value)),
            Err(error) => Err(error),
        }
    }

    fn flat_map<Fun>(self, f: Fun) -> Result<Val, E> where Fun: FnOnce(T) -> Result<Val, E> {
        match self {
            Ok(value) => f(value),
            Err(error) => Err(error),
        }
    }
}

impl<T, E, NewErr> Exceptional<NewErr> for Result<T, E> {
    type Error = E;

    type WithErr = Result<T, NewErr>;

    open spec fn error(self) -> E {
        self->Err_0
    }

    open spec fn with_error(self, error: NewErr) -> Result<T, NewErr> {
        match self {
            Ok(value) => Ok(value),
            Err(_) => Err(error),
        }
    }

    proof fn with_error_keeps_signal(self, error: NewErr) {
    }

    fn map_err<Fun>(self, f: Fun) -> Result<T, NewErr> where Fun: FnOnce(E) -> NewErr {
        match self {
            Ok(value) => Ok(value),
            Err(error) => Err(f(error)),
        }
    }
}

impl<Val, Fail> Combinable<()> for Result<Val, Fail> {
    type Output = Self;

    open spec fn combined(self, second: Option<()>) -> Self {
        self
    }

    proof fn combined_signal(self, second: Option<()>) {
    }

    fn combine_response<Fun, Str>(self, response: Fun, stream: &mut Str) -> Self where
        Fun: FnOnce(&mut Str),
        Str: Stream,
     {
        let value = self?;
        response(stream);
        Ok(value)
    }
}

impl<Val0, Val1, Fail> Combinable<Result<Val1, Fail>> for Result<Val0, Fail> {
    type Output = Result<(Val0, Val1), Fail>;

    open spec fn combined(self, second: Option<Result<Val1, Fail>>) -> Result<
        (Val0, Val1),
        Fail,
    > {
        match (self, second) {
            (Err(error), _) => Err(error),
            (Ok(_), Some(Err(error))) => Err(error),
            (Ok(val0), Some(Ok(val1))) => Ok((val0, val1)),
            (Ok(val0), None) => Ok((val0, arbitrary())),
        }
    }

    proof fn combined_signal(self, second: Option<Result<Val1, Fail>>) {
    }

    fn combine_response<Fun, Str>(self, response: Fun, stream: &mut Str) -> Result<
        (Val0, Val1),
        Fail,
    > where Fun: FnOnce(&mut Str) -> Result<Val1, Fail>, Str: Stream {
        let val0 = self?;
        let val1 = response(stream)?;
        Ok((val0, val1))
    }
}

impl<Val0, Val1, Fail> Combinable<Sure<Val1>> for Result<Val0, Fail> {
    type Output = Result<(Val0, Val1), Fail>;

    open spec fn combined(self, second: Option<Sure<Val1>>) -> Result<(Val0, Val1), Fail> {
        match (self, second) {
            (Err(error), _) => Err(error),
            (Ok(val0), Some(other)) => Ok((val0, other.0)),
            (Ok(val0), None) => Ok((val0, arbitrary())),
        }
    }

    proof fn combined_signal(self, second: Option<Sure<Val1>>) {
    }

    fn combine_response<Fun, Str>(self, response: Fun, stream: &mut Str) -> Result<
        (Val0, Val1),
        Fail,
    > where Fun: FnOnce(&mut Str) -> Sure<Val1>, Str: Stream {
        let value = self?;
        Ok((value, response(stream).value()))
    }
}

impl<Val, Fail> Combinable<Effect<Fail>> for Result<Val, Fail> {
    type Output = Result<Val, Fail>;

    open spec fn combined(self, second: Option<Effect<Fail>>) -> Result<Val, Fail> {
        match (self, second) {
            (Ok(_), Some(Effect(Err(error)))) => Err(error),
            _ => self,
        }
    }

    proof fn combined_signal(self, second: Option<Effect<Fail>>) {
    }

    fn combine_response<Fun, Str>(self, response: Fun, stream: &mut Str) -> Result<
        Val,
        Fail,
    > where Fun: FnOnce(&mut Str) -> Effect<Fail>, Str: Stream {
        let value = self?;
        response(stream).into_result()?;
        Ok(value)
    }
}

impl<Val, Fail0, Fail1> Disjoinable<Result<Val, Fail1>> for Result<Val, Fail0> {
    type Output = Result<Val, (Fail0, Fail1)>;

    open spec fn disjoined(self, second: Option<Result<Val, Fail1>>) -> Result<
        Val,
        (Fail0, Fail1),
    > {
        match (self, second) {
            (Ok(value), _) => Ok(value),
            (Err(_), Some(Ok(value))) => Ok(value),
            (Err(error0), Some(Err(error1))) => Err((error0, error1)),
            (Err(error0), None) => Err((error0, arbitrary())),
        }
    }

    proof fn disjoined_signal(self, second: Option<Result<Val, Fail1>>) {
    }

    fn disjoin_response<Fun, Rec, Str>(self, response: Fun, recover: Rec, stream: &mut Str) -> Result<
        Val,
        (Fail0, Fail1),
    > where Fun: FnOnce(&mut Str) -> Result<Val, Fail1>, Rec: FnOnce(&mut Str), Str: Stream {
        match self {
            Ok(value) => Ok(value),
            Err(error0) => {
                recover(stream);
                match response(stream) {
                    Ok(value) => Ok(value),
                    Err(error1) => Err((error0, error1)),
                }
            },
        }
    }
}

impl<Val, Fail> Recoverable for Result<Val, Fail> {
    fn recover_response<Rec, Str>(self, on_residual: Rec, stream: &mut Str) -> Self where
        Rec: FnOnce(&mut Str),
        Str: Stream,
     {
        match self {
            Ok(value) => Ok(value),
            Err(error) => {
                on_residual(stream);
                Err(error)
            },
        }
    }
}

impl<Val, Fail> Ignorable for Result<Val, Fail> {
    type Output = Effect<Fail>;

    open spec fn ignored(self) -> Effect<Fail> {
        match self {
            Ok(_) => Effect(Ok(())),
            Err(error) => Effect(Err(error)),
        }
    }

    proof fn ignored_keeps_signal(self) {
    }

    fn ignore_response(self) -> Effect<Fail> {
        match self {
            Ok(_) => Effect::ok(),
            Err(error) => Effect::err(error),
        }
    }
}

impl<Val, Fail> Optionable for Result<Val, Fail> {
    type Output = Sure<Option<Val>>;

    open spec fn optional(self) -> Sure<Option<Val>> {
        match self {
            Ok(value) => Sure(Some(value)),
            Err(_) => Sure(None),
        }
    }

    proof fn optional_succeeds(self) {
    }

    fn opt_response(self) -> Sure<Option<Val>> {
        Sure(self.ok())
    }
}

impl<Val, Fail> ResultConvertable for Result<Val, Fail> {
    type Value = Val;

    type Error = Fail;

    open spec fn as_result(self) -> Result<Val, Fail> {
        self
    }

    proof fn result_determines(self, other: Self) {
    }

    open spec fn fallible() -> bool {
        true
    }

    fn ok(value: Val) -> Self {
        Ok(value)
    }

    fn err(error: Fail) -> Self {
        Err(error)
    }

    fn into_result(self) -> Result<Val, Fail> {
        self
    }
}

impl<Val, Fail, Col> Collectable<Col> for Result<Val, Fail> {
    type WithVal = Result<Col, Fail>;

    proof fn same_fallibility() {
    }
}

impl<Val, Fail, Col> UnerringConvertable<Col> for Result<Val, Fail> {
    type Infallible = Sure<Col>;
}

} // verus!
