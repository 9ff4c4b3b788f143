use crate::stream::traits::Stream;
use vstd::prelude::*;

verus! {

/// True when `step` may be called on a cursor in state `before`.
pub open spec fn runnable<Fun, Str, Out>(step: Fun, before: Str) -> bool where
    Fun: FnOnce(&mut Str) -> Out,
 {
    forall|cursor: &mut Str| *cursor == before ==> #[trigger] call_requires(step, (cursor,))
}

/// The outcome of one parse step.
pub trait Response: Sized {
    /// True when the step succeeded.
    spec fn succeeded(&self) -> bool;
}

/// A response that carries a value when it succeeded. `Val` is the type of
/// value that `map` and `flat_map` put in its place.
pub trait Data<Val>: Response {
    type Value;

    /// This shape with a `Val` as its payload.
    type WithVal: Response;

    /// The carried value; meaningful on a response that succeeded.
    spec fn value(self) -> Self::Value;

    /// This response with `value` in place of its payload. A failed response
    /// keeps its failure and ignores `value`.
    spec fn with_value(self, value: Val) -> Self::WithVal;

    /// Replacing the payload keeps the signal.
    proof fn with_value_keeps_signal(self, value: Val)
        ensures
            self.with_value(value).succeeded() == self.succeeded(),
    ;

    /// Transforms the carried value; a failure passes through and `f` is not called.
    fn map<Fun>(self, f: Fun) -> (output: Self::WithVal) where Fun: FnOnce(Self::Value) -> Val
        requires
            self.succeeded() ==> call_requires(f, (self.value(),)),
        ensures
            self.succeeded() ==> exists|value: Val|
                #[trigger] call_ensures(f, (self.value(),), value) && output == self.with_value(
                    value,
                ),
            !self.succeeded() ==> output == self.with_value(arbitrary()),
    ;

    /// Hands the carried value to `f`, which gives the whole new response; a
    /// failure passes through and `f` is not called.
    fn flat_map<Fun>(self, f: Fun) -> (output: Self::WithVal) where
        Fun: FnOnce(Self::Value) -> Self::WithVal,

        requires
            self.succeeded() ==> call_requires(f, (self.value(),)),
        ensures
            self.succeeded() ==> call_ensures(f, (self.value(),), output),
            !self.succeeded() ==> output == self.with_value(arbitrary()),
    ;
}

/// A response that cannot fail and holds exactly one value.
pub trait Pure: Response {
    type Value;

    /// The value held.
    spec fn held(self) -> Self::Value;

    /// Such a response has succeeded.
    proof fn never_fails(self)
        ensures
            self.succeeded(),
    ;

    /// The response is nothing but the value it holds.
    proof fn held_determines(self, other: Self)
        requires
            self.held() == other.held(),
        ensures
            self == other,
    ;

    fn pure(value: Self::Value) -> (response: Self)
        ensures
            response.held() == value,
            response.succeeded(),
    ;

    fn unwrap(self) -> (value: Self::Value)
        ensures
            value == self.held(),
    ;
}

/// A response that carries an error when it failed. `NewErr` is the type of
/// error that `map_err` puts in its place.
pub trait Exceptional<NewErr>: Response {
    type Error;

    /// This shape with an `NewErr` as its error.
    type WithErr: Response;

    /// The carried error; meaningful on a response that failed.
    spec fn error(self) -> Self::Error;

    /// This response with `error` in place of its error. A response that
    /// succeeded keeps its success and ignores `error`.
    spec fn with_error(self, error: NewErr) -> Self::WithErr;

    /// Replacing the error keeps the signal.
    proof fn with_error_keeps_signal(self, error: NewErr)
        ensures
            self.with_error(error).succeeded() == self.succeeded(),
    ;

    /// Transforms the carried error; a success passes through and `f` is not called.
    fn map_err<Fun>(self, f: Fun) -> (output: Self::WithErr) where Fun: FnOnce(Self::Error) -> NewErr
        requires
            !self.succeeded() ==> call_requires(f, (self.error(),)),
        ensures
            !self.succeeded() ==> exists|error: NewErr|
                #[trigger] call_ensures(f, (self.error(),), error) && output == self.with_error(
                    error,
                ),
            self.succeeded() ==> output == self.with_error(arbitrary()),
    ;
}

/// Sequencing of two responses: the second step runs only when the first
/// succeeded.
pub trait Combinable<Res>: Response where Res: Response {
    type Output: Response;

    /// The merged outcome. `second` is `None` when the second step did not run.
    spec fn combined(self, second: Option<Res>) -> Self::Output;

    /// A failure of the first response fails the combination; after a first
    /// success the combination succeeded exactly when the second step did.
    proof fn combined_signal(self, second: Option<Res>)
        ensures
            !self.succeeded() ==> !self.combined(second).succeeded(),
            self.succeeded() && second is Some ==> self.combined(second).succeeded()
                == second->Some_0.succeeded(),
    ;

    /// Runs `response` on `stream` when `self` succeeded, and merges the two
    /// outcomes. When `self` failed, `response` is not called and `stream`
    /// stays as it is.
    fn combine_response<Fun, Str>(self, response: Fun, stream: &mut Str) -> (output:
        Self::Output) where Fun: FnOnce(&mut Str) -> Res, Str: Stream
        requires
            self.succeeded() ==> runnable(response, *old(stream)),
        ensures
            self.succeeded() ==> exists|cursor: &mut Str, second: Res|
                *cursor == *old(stream) && *final(cursor) == *final(stream) && #[trigger] call_ensures(
                    response,
                    (cursor,),
                    second,
                ) && output == self.combined(Some(second)),
            !self.succeeded() ==> *final(stream) == *old(stream) && output == self.combined(None),
    ;
}

/// Alternation of two responses: the second step runs only when the first
/// failed, after `recover` has undone what the first did to the cursor.
pub trait Disjoinable<Res>: Response where Res: Response {
    type Output: Response;

    /// The outcome of the alternation. `second` is `None` when the second step
    /// did not run.
    spec fn disjoined(self, second: Option<Res>) -> Self::Output;

    /// A success of the first response is the success of the alternation;
    /// after a first failure the alternation succeeded exactly when the
    /// second step did.
    proof fn disjoined_signal(self, second: Option<Res>)
        ensures
            self.succeeded() ==> self.disjoined(second).succeeded(),
            !self.succeeded() && second is Some ==> self.disjoined(second).succeeded()
                == second->Some_0.succeeded(),
    ;

    /// When `self` succeeded, returns its success; `recover` and `response`
    /// are not called. When it failed, calls `recover`, then `response`, on
    /// `stream`, and returns the second success or both failures.
    fn disjoin_response<Fun, Rec, Str>(
        self,
        response: Fun,
        recover: Rec,
        stream: &mut Str,
    ) -> (output: Self::Output) where
        Fun: FnOnce(&mut Str) -> Res,
        Rec: FnOnce(&mut Str),
        Str: Stream,

        requires
            !self.succeeded() ==> runnable(recover, *old(stream)),
            !self.succeeded() ==> forall|first: &mut Str|
                *first == *old(stream) && #[trigger] call_ensures(recover, (first,), ())
                    ==> runnable(response, *final(first)),
        ensures
            self.succeeded() ==> *final(stream) == *old(stream) && output == self.disjoined(None),
            !self.succeeded() ==> exists|first: &mut Str, cursor: &mut Str, second: Res|
                *first == *old(stream) && #[trigger] call_ensures(recover, (first,), ())
                    && *cursor == *final(first) && *final(cursor) == *final(stream)
                    && #[trigger] call_ensures(response, (cursor,), second) && output
                    == self.disjoined(Some(second)),
    ;
}

/// The backtracking primitive: a failure triggers a side effect on the cursor
/// before it is signalled again.
pub trait Recoverable: Response {
    /// Returns `self` unchanged. When `self` failed, `on_residual` has been
    /// called on `stream`; when it succeeded, `stream` stays as it is.
    fn recover_response<Rec, Str>(self, on_residual: Rec, stream: &mut Str) -> (output:
        Self) where Rec: FnOnce(&mut Str), Str: Stream
        requires
            !self.succeeded() ==> runnable(on_residual, *old(stream)),
        ensures
            output == self,
            self.succeeded() ==> *final(stream) == *old(stream),
            !self.succeeded() ==> exists|cursor: &mut Str|
                *cursor == *old(stream) && *final(cursor) == *final(stream) && #[trigger] call_ensures(
                    on_residual,
                    (cursor,),
                    (),
                ),
    ;
}

/// A response whose payload can be dropped while its signal is kept.
pub trait Ignorable: Response {
    type Output: Response;

    /// The same signal without the payload.
    spec fn ignored(self) -> Self::Output;

    /// Dropping the payload keeps the signal.
    proof fn ignored_keeps_signal(self)
        ensures
            self.ignored().succeeded() == self.succeeded(),
    ;

    fn ignore_response(self) -> (output: Self::Output)
        ensures
            output == self.ignored(),
    ;
}

/// A response without a payload that can be given one.
pub trait Attachable<Val>: Response {
    type Output: Response;

    /// The same signal carrying `value` on success.
    spec fn attached(self, value: Val) -> Self::Output;

    /// Attaching a value keeps the signal.
    proof fn attached_keeps_signal(self, value: Val)
        ensures
            self.attached(value).succeeded() == self.succeeded(),
    ;

    fn attach_to_response(self, value: Val) -> (output: Self::Output)
        ensures
            output == self.attached(value),
    ;
}

/// A response whose failure can be absorbed into "no value".
pub trait Optionable: Recoverable {
    type Output: Response;

    /// The response that always succeeds and holds what `self` had, if anything.
    spec fn optional(self) -> Self::Output;

    /// What comes out has succeeded, whatever went in.
    proof fn optional_succeeds(self)
        ensures
            self.optional().succeeded(),
    ;

    fn opt_response(self) -> (output: Self::Output)
        ensures
            output == self.optional(),
            output.succeeded(),
    ;
}

/// A response that can be built from, and turned into, a `Result`.
pub trait ResultConvertable: Response {
    type Value;

    type Error;

    /// The response seen as a `Result`.
    spec fn as_result(self) -> Result<Self::Value, Self::Error>;

    /// True when the shape has a failure to signal. A shape that cannot fail
    /// has the empty type as its error, and `err` is never called on it.
    spec fn fallible() -> bool;

    /// The response is nothing but the `Result` it is seen as.
    proof fn result_determines(self, other: Self)
        requires
            self.as_result() == other.as_result(),
        ensures
            self == other,
    ;

    fn ok(collector: Self::Value) -> (response: Self)
        ensures
            response.as_result() == Ok::<Self::Value, Self::Error>(collector),
    ;

    fn err(error: Self::Error) -> (response: Self)
        requires
            Self::fallible(),
        ensures
            response.as_result() == Err::<Self::Value, Self::Error>(error),
    ;

    fn into_result(self) -> (result: Result<Self::Value, Self::Error>)
        ensures
            result == self.as_result(),
            result is Ok == self.succeeded(),
            result is Err ==> Self::fallible(),
    ;
}

/// Names, for a convertible response, the same shape holding a `Col`.
pub trait Collectable<Col>: ResultConvertable {
    type WithVal: ResultConvertable<Value = Col, Error = Self::Error>;

    /// The shape holding a `Col` can fail exactly when this one can.
    proof fn same_fallibility()
        ensures
            <Self::WithVal as ResultConvertable>::fallible() == Self::fallible(),
    ;
}

/// Names, for a convertible response, the shape that cannot fail and holds a `Col`.
pub trait UnerringConvertable<Col>: ResultConvertable {
    type Infallible: Pure<Value = Col>;
}

} // verus!
