use super::sure::Sure;
use crate::data::traits::{
    Attachable, Combinable, Pure, Response, ResultConvertable,
};
use crate::stream::traits::Stream;
use std::convert::Infallible;
use vstd::prelude::*;

verus! {

/// The no-payload-success shape: nothing to carry, nothing to go wrong.
impl Response for () {
    open spec fn succeeded(&self) -> bool {
        true
    }
}

impl Pure for () {
    type Value = ();

    open spec fn held(self) -> () {
        ()
    }

    proof fn never_fails(self) {
    }

    proof fn held_determines(self, other: Self) {
    }

    fn pure(value: ()) -> Self {
    }

    fn unwrap(self) -> () {
    }
}

/// The identity of combination: the outcome is the other response, unchanged.
impl<Res> Combinable<Res> for () where Res: Response {
    type Output = Res;

    open spec fn combined(self, second: Option<Res>) -> Res {
        second->Some_0
    }

    proof fn combined_signal(self, second: Option<Res>) {
    }

    fn combine_response<Fun, Str>(self, response: Fun, stream: &mut Str) -> Res where
        Fun: FnOnce(&mut Str) -> Res,
        Str: Stream,
     {
        response(stream)
    }
}

impl<Val> Attachable<Val> for () {
    type Output = Sure<Val>;

    open spec fn attached(self, value: Val) -> Sure<Val> {
        Sure(value)
    }

    proof fn attached_keeps_signal(self, value: Val) {
    }

    fn attach_to_response(self, value: Val) -> Sure<Val> {
        Sure(value)
    }
}

impl ResultConvertable for () {
    type Value = ();

    type Error = Infallible;

    open spec fn as_result(self) -> Result<(), Infallible> {
        Ok(())
    }

    proof fn result_determines(self, other: Self) {
    }

    open spec fn fallible() -> bool {
        false
    }

    fn ok(value: ()) -> Self {
        let _ = value;
    }

    fn err(error: Infallible) -> Self {
        let _ = error;
    }

    fn into_result(self) -> Result<(), Infallible> {
        Ok(())
    }
}

} // verus!
