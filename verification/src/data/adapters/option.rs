use super::sure::Sure;
use crate::data::traits::{
    Collectable, Combinable, Data, Disjoinable, Ignorable, Optionable,
    Recoverable, Response, ResultConvertable, UnerringConvertable,
};
use crate::stream::traits::Stream;
use vstd::prelude::*;

verus! {

/// The optional-value shape: a value, or its absence without a reason.
impl<T> Response for Option<T> {
    open spec fn succeeded(&self) -> bool {
        self is Some
    }
}

impl<T, Val> Data<Val> for Option<T> {
    type Value = T;

    type WithVal = Option<Val>;

    open spec fn value(self) -> T {
        self->Some_0
    }

    open spec fn with_value(self, value: Val) -> Option<Val> {
        match self {
            Some(_) => Some(value),
            None => None,
        }
    }

    proof fn with_value_keeps_signal(self, value: Val) {
    }

    fn map<Fun>(self, f: Fun) -> Option<Val> where Fun: FnOnce(T) -> Val {
        match self {
            Some(value) => Some(f(value)),
            None => None,
        }
    }

    fn flat_map<Fun>(self, f: Fun) -> Option<Val> where Fun: FnOnce(T) -> Option<Val> {
        match self {
            Some(value) => f(value),
            None => None,
        }
    }
}

impl<Val> Combinable<()> for Option<Val> {
    type Output = Self;

    open spec fn combined(self, second: Option<()>) -> Self {
        self
    }

    proof fn combined_signal(self, second: Option<()>) {
    }

    fn combine_response<Fun, Str>(self, response: Fun, stream: &mut Str) -> Self where
        Fun: FnOnce(&mut Str),
        Str: Stream,
     {
        let value = self?;
        response(stream);
        Some(value)
    }
}

impl<Val0, Val1> Combinable<Option<Val1>> for Option<Val0> {
    type Output = Option<(Val0, Val1)>;

    open spec fn combined(self, second: Option<Option<Val1>>) -> Option<(Val0, Val1)> {
        match (self, second) {
            (Some(val0), Some(Some(val1))) => Some((val0, val1)),
            _ => None,
        }
    }

    proof fn combined_signal(self, second: Option<Option<Val1>>) {
    }

    fn combine_response<Fun, Str>(self, response: Fun, stream: &mut Str) -> Option<
        (Val0, Val1),
    > where Fun: FnOnce(&mut Str) -> Option<Val1>, Str: Stream {
        let val0 = self?;
        let val1 = response(stream)?;
        Some((val0, val1))
    }
}

impl<Val0, Val1> Combinable<Sure<Val1>> for Option<Val0> {
    type Output = Option<(Val0, Val1)>;

    open spec fn combined(self, second: Option<Sure<Val1>>) -> Option<(Val0, Val1)> {
        match (self, second) {
            (Some(val0), Some(val1)) => Some((val0, val1.0)),
            _ => None,
        }
    }

    proof fn combined_signal(self, second: Option<Sure<Val1>>) {
    }

    fn combine_response<Fun, Str>(self, response: Fun, stream: &mut Str) -> Option<
        (Val0, Val1),
    > where Fun: FnOnce(&mut Str) -> Sure<Val1>, Str: Stream {
        let val0 = self?;
        Some((val0, response(stream).value()))
    }
}

impl<Val> Disjoinable<Option<Val>> for Option<Val> {
    type Output = Option<Val>;

    open spec fn disjoined(self, second: Option<Option<Val>>) -> Option<Val> {
        match (self, second) {
            (Some(value), _) => Some(value),
            (None, Some(other)) => other,
            (None, None) => None,
        }
    }

    proof fn disjoined_signal(self, second: Option<Option<Val>>) {
    }

    fn disjoin_response<Fun, Rec, Str>(self, response: Fun, recover: Rec, stream: &mut Str) -> Option<
        Val,
    > where Fun: FnOnce(&mut Str) -> Option<Val>, Rec: FnOnce(&mut Str), Str: Stream {
        match self {
            Some(value) => Some(value),
            None => {
                recover(stream);
                response(stream)
            },
        }
    }
}

impl<Val> Recoverable for Option<Val> {
    fn recover_response<Rec, Str>(self, on_residual: Rec, stream: &mut Str) -> Self where
        Rec: FnOnce(&mut Str),
        Str: Stream,
     {
        match self {
            Some(value) => Some(value),
            None => {
                on_residual(stream);
                None
            },
        }
    }
}

impl<Val> Ignorable for Option<Val> {
    type Output = Option<()>;

    open spec fn ignored(self) -> Option<()> {
        match self {
            Some(_) => Some(()),
            None => None,
        }
    }

    proof fn ignored_keeps_signal(self) {
    }

    fn ignore_response(self) -> Option<()> {
        match self {
            Some(_) => Some(()),
            None => None,
        }
    }
}

impl<Val> Optionable for Option<Val> {
    type Output = Sure<Option<Val>>;

    open spec fn optional(self) -> Sure<Option<Val>> {
        Sure(self)
    }

    proof fn optional_succeeds(self) {
    }

    fn opt_response(self) -> Sure<Option<Val>> {
        Sure(self)
    }
}

impl<Val> ResultConvertable for Option<Val> {
    type Value = Val;

    type Error = ();

    open spec fn as_result(self) -> Result<Val, ()> {
        match self {
            Some(value) => Ok(value),
            None => Err(()),
        }
    }

    proof fn result_determines(self, other: Self) {
    }

    open spec fn fallible() -> bool {
        true
    }

    fn ok(value: Val) -> Self {
        Some(value)
    }

    fn err(error: ()) -> Self {
        let _ = error;
        None
    }

    fn into_result(self) -> Result<Val, ()> {
        match self {
            Some(value) => Ok(value),
            None => Err(()),
        }
    }
}

impl<Val, Col> Collectable<Col> for Option<Val> {
    type WithVal = Option<Col>;

    proof fn same_fallibility() {
    }
}

impl<Val, Col> UnerringConvertable<Col> for Option<Val> {
    type Infallible = Sure<Col>;
}

} // verus!
