use parcomb::data::adapters::effect::Effect;
use parcomb::data::adapters::pure::Pure;
use parcomb::data::adapters::sure::Sure;
use parcomb::data::traits::{
    Attachable, Combinable, Data, Disjoinable, Exceptional, Ignorable, Optionable, Recoverable,
    ResultConvertable,
};
use parcomb::data::traits::Pure as PureResponse;
use parcomb::stream::traits::Stream;

type Items = (Vec<u8>, usize);

fn items() -> Items {
    (vec![1, 2, 3], 1)
}

fn step_some(stream: &mut Items) -> Option<u8> {
    stream.skip();
    Some(9)
}

fn step_none(stream: &mut Items) -> Option<u8> {
    stream.skip();
    None
}

fn step_ok(stream: &mut Items) -> Result<u8, &'static str> {
    stream.skip();
    Ok(9)
}

fn step_err(stream: &mut Items) -> Result<u8, &'static str> {
    stream.skip();
    Err("second")
}

fn step_sure(stream: &mut Items) -> Sure<u8> {
    stream.skip();
    Sure(9)
}

fn step_pure(stream: &mut Items) -> Pure<u8> {
    stream.skip();
    Pure(9)
}

fn step_unit(stream: &mut Items) {
    stream.skip();
}

fn step_effect_ok(stream: &mut Items) -> Effect<&'static str> {
    stream.skip();
    Effect::ok()
}

fn step_effect_err(stream: &mut Items) -> Effect<&'static str> {
    stream.skip();
    Effect::err("second")
}

fn rewind(stream: &mut Items) {
    *stream.offset_mut() = 0;
}

#[test]
fn effect_constructors_and_conversions() {
    assert_eq!(Effect::<u8>::ok().into_result(), Ok(()));
    assert_eq!(Effect::err(3u8).into_result(), Err(3));
    Effect::<u8>::ok().unwrap();
    let effect: Effect<u8> = Effect::from(Err(4));
    assert_eq!(effect.0, Err(4));
    let result: Result<(), u8> = Result::from(Effect::err(5u8));
    assert_eq!(result, Err(5));
    let result: Result<(), u8> = Effect::ok().into();
    assert_eq!(result, Ok(()));
}

#[test]
fn effect_map_err() {
    let double = |e: u8| e as u32 * 2;
    assert_eq!(Effect::err(4u8).map_err(double).into_result(), Err(8));
    assert_eq!(Effect::<u8>::ok().map_err(double).into_result(), Ok(()));
}

#[test]
fn effect_combines() {
    let mut stream = items();
    let ok: Effect<&str> = Effect::ok();
    assert_eq!(ok.combine_response(step_unit, &mut stream).into_result(), Ok(()));
    assert_eq!(stream.1, 2);
    let failed: Effect<&str> = Effect::err("first");
    assert_eq!(failed.combine_response(step_unit, &mut stream).into_result(), Err("first"));
    assert_eq!(stream.1, 2);

    let mut stream = items();
    assert_eq!(Effect::<&str>::ok().combine_response(step_pure, &mut stream), Ok(9));
    assert_eq!(Effect::err("first").combine_response(step_pure, &mut stream), Err("first"));
    assert_eq!(stream.1, 2);

    let mut stream = items();
    let both = Effect::<&str>::ok().combine_response(step_effect_err, &mut stream);
    assert_eq!(both.into_result(), Err("second"));
    let both = Effect::<&str>::ok().combine_response(step_effect_ok, &mut stream);
    assert_eq!(both.into_result(), Ok(()));
    let both = Effect::err("first").combine_response(step_effect_err, &mut stream);
    assert_eq!(both.into_result(), Err("first"));
    assert_eq!(stream.1, 3);

    let mut stream = items();
    assert_eq!(Effect::<&str>::ok().combine_response(step_ok, &mut stream), Ok(9));
    assert_eq!(Effect::<&str>::ok().combine_response(step_err, &mut stream), Err("second"));
    assert_eq!(Effect::err("first").combine_response(step_ok, &mut stream), Err("first"));
    assert_eq!(stream.1, 3);
}

#[test]
fn effect_disjoins_and_recovers() {
    let mut stream = items();
    let first = Effect::<&str>::ok().disjoin_response(step_effect_err, rewind, &mut stream);
    assert_eq!(first.into_result(), Ok(()));
    assert_eq!(stream.1, 1);
    let second = Effect::err("first").disjoin_response(step_effect_ok, rewind, &mut stream);
    assert_eq!(second.into_result(), Ok(()));
    assert_eq!(stream.1, 1);
    let neither = Effect::err("first").disjoin_response(step_effect_err, rewind, &mut stream);
    assert_eq!(neither.into_result(), Err(("first", "second")));
    assert_eq!(stream.1, 1);

    let mut stream = items();
    let kept = Effect::<&str>::ok().recover_response(rewind, &mut stream);
    assert_eq!(kept.into_result(), Ok(()));
    assert_eq!(stream.1, 1);
    let failed = Effect::err("first").recover_response(rewind, &mut stream);
    assert_eq!(failed.into_result(), Err("first"));
    assert_eq!(stream.1, 0);
}

#[test]
fn effect_attaches_and_optionalizes() {
    assert_eq!(Effect::<&str>::ok().attach_to_response(5u8), Ok(5));
    assert_eq!(Effect::err("first").attach_to_response(5u8), Err("first"));
    Effect::err("first").opt_response();
    Effect::<&str>::ok().opt_response();
}

#[test]
fn option_maps() {
    let double = |v: u8| v as u32 * 2;
    let halve = |v: u8| if v % 2 == 0 { Some(v / 2) } else { None };
    assert_eq!(Data::map(Some(4u8), double), Some(8));
    assert_eq!(Data::map(None::<u8>, double), None);
    assert_eq!(Data::flat_map(Some(4u8), halve), Some(2));
    assert_eq!(Data::flat_map(Some(3u8), halve), None);
    assert_eq!(Data::flat_map(None::<u8>, halve), None);
}

#[test]
fn option_combines() {
    let mut stream = items();
    assert_eq!(Some(1u8).combine_response(step_unit, &mut stream), Some(1));
    assert_eq!(None::<u8>.combine_response(step_unit, &mut stream), None);
    assert_eq!(stream.1, 2);

    let mut stream = items();
    assert_eq!(Some(1u8).combine_response(step_some, &mut stream), Some((1, 9)));
    assert_eq!(Some(1u8).combine_response(step_none, &mut stream), None);
    assert_eq!(None::<u8>.combine_response(step_some, &mut stream), None);
    assert_eq!(stream.1, 3);

    let mut stream = items();
    assert_eq!(Some(1u8).combine_response(step_sure, &mut stream), Some((1, 9)));
    assert_eq!(None::<u8>.combine_response(step_sure, &mut stream), None);
    assert_eq!(stream.1, 2);
}

#[test]
fn option_disjoins_and_recovers() {
    let mut stream = items();
    assert_eq!(Some(1u8).disjoin_response(step_some, rewind, &mut stream), Some(1));
    assert_eq!(stream.1, 1);
    assert_eq!(None.disjoin_response(step_some, rewind, &mut stream), Some(9));
    assert_eq!(stream.1, 1);
    assert_eq!(None.disjoin_response(step_none, rewind, &mut stream), None);
    assert_eq!(stream.1, 1);

    let mut stream = items();
    assert_eq!(Some(1u8).recover_response(rewind, &mut stream), Some(1));
    assert_eq!(stream.1, 1);
    assert_eq!(None::<u8>.recover_response(rewind, &mut stream), None);
    assert_eq!(stream.1, 0);
}

#[test]
fn option_ignores_optionalizes_and_converts() {
    assert_eq!(Some(1u8).ignore_response(), Some(()));
    assert_eq!(None::<u8>.ignore_response(), None);
    assert_eq!(Some(1u8).opt_response().value(), Some(1));
    assert_eq!(None::<u8>.opt_response().value(), None);
    assert_eq!(<Option<u8> as ResultConvertable>::ok(1), Some(1));
    assert_eq!(<Option<u8> as ResultConvertable>::err(()), None);
    assert_eq!(Some(1u8).into_result(), Ok(1));
    assert_eq!(None::<u8>.into_result(), Err(()));
}

#[test]
fn result_maps() {
    let double = |v: u8| v as u32 * 2;
    let halve = |v: u8| if v % 2 == 0 { Ok(v / 2) } else { Err("odd") };
    let shout = |e: &str| e.len();
    assert_eq!(Data::map(Ok::<u8, &str>(4), double), Ok(8));
    assert_eq!(Data::map(Err::<u8, &str>("first"), double), Err("first"));
    assert_eq!(Data::flat_map(Ok::<u8, &str>(4), halve), Ok(2));
    assert_eq!(Data::flat_map(Ok::<u8, &str>(3), halve), Err("odd"));
    assert_eq!(Data::flat_map(Err::<u8, &str>("first"), halve), Err("first"));
    assert_eq!(Exceptional::map_err(Err::<u8, &str>("first"), shout), Err(5));
    assert_eq!(Exceptional::map_err(Ok::<u8, &str>(1), shout), Ok(1));
}

#[test]
fn result_combines() {
    let mut stream = items();
    assert_eq!(Ok::<u8, &str>(1).combine_response(step_unit, &mut stream), Ok(1));
    assert_eq!(Err::<u8, &str>("first").combine_response(step_unit, &mut stream), Err("first"));
    assert_eq!(stream.1, 2);

    let mut stream = items();
    assert_eq!(Ok::<u8, &str>(1).combine_response(step_ok, &mut stream), Ok((1, 9)));
    assert_eq!(Ok::<u8, &str>(1).combine_response(step_err, &mut stream), Err("second"));
    assert_eq!(Err::<u8, &str>("first").combine_response(step_err, &mut stream), Err("first"));
    assert_eq!(stream.1, 3);

    let mut stream = items();
    assert_eq!(Ok::<u8, &str>(1).combine_response(step_sure, &mut stream), Ok((1, 9)));
    assert_eq!(Err::<u8, &str>("first").combine_response(step_sure, &mut stream), Err("first"));
    assert_eq!(stream.1, 2);

    let mut stream = items();
    assert_eq!(Ok::<u8, &str>(1).combine_response(step_effect_ok, &mut stream), Ok(1));
    assert_eq!(Ok::<u8, &str>(1).combine_response(step_effect_err, &mut stream), Err("second"));
    assert_eq!(
        Err::<u8, &str>("first").combine_response(step_effect_err, &mut stream),
        Err("first")
    );
    assert_eq!(stream.1, 3);
}

#[test]
fn result_disjoins_and_recovers() {
    let mut stream = items();
    assert_eq!(Ok::<u8, u8>(1).disjoin_response(step_err, rewind, &mut stream), Ok(1));
    assert_eq!(stream.1, 1);
    assert_eq!(Err::<u8, u8>(7).disjoin_response(step_ok, rewind, &mut stream), Ok(9));
    assert_eq!(stream.1, 1);
    assert_eq!(
        Err::<u8, u8>(7).disjoin_response(step_err, rewind, &mut stream),
        Err((7, "second"))
    );
    assert_eq!(stream.1, 1);

    let mut stream = items();
    assert_eq!(Ok::<u8, u8>(1).recover_response(rewind, &mut stream), Ok(1));
    assert_eq!(stream.1, 1);
    assert_eq!(Err::<u8, u8>(7).recover_response(rewind, &mut stream), Err(7));
    assert_eq!(stream.1, 0);
}

#[test]
fn result_ignores_optionalizes_and_converts() {
    assert_eq!(Ok::<u8, u8>(1).ignore_response().into_result(), Ok(()));
    assert_eq!(Err::<u8, u8>(7).ignore_response().into_result(), Err(7));
    assert_eq!(Ok::<u8, u8>(1).opt_response().value(), Some(1));
    assert_eq!(Err::<u8, u8>(7).opt_response().value(), None);
    assert_eq!(<Result<u8, u8> as ResultConvertable>::ok(1), Ok(1));
    assert_eq!(<Result<u8, u8> as ResultConvertable>::err(7), Err(7));
    assert_eq!(ResultConvertable::into_result(Err::<u8, u8>(7)), Err(7));
    assert_eq!(ResultConvertable::into_result(Ok::<u8, u8>(1)), Ok(1));
}

#[test]
fn sure_accessors_and_maps() {
    let mut sure = Sure(5u8);
    assert_eq!(*sure.get(), 5);
    *sure.get_mut() = 6;
    assert_eq!(sure.value(), 6);
    assert_eq!(Sure(4u8).map(|v: u8| v as u32 * 2).value(), 8);
    assert_eq!(Sure(4u8).flat_map(|v: u8| Sure(v + 1)).value(), 5);
    assert_eq!(<Sure<u8> as PureResponse>::pure(3).unwrap(), 3);
    assert!(matches!(Sure(3u8).into_result(), Ok(3)));
    assert_eq!(<Sure<u8> as ResultConvertable>::ok(2).value(), 2);
    Sure(1u8).ignore_response();
}

#[test]
fn sure_combines() {
    let mut stream = items();
    assert_eq!(Sure(1u8).combine_response(step_unit, &mut stream).value(), 1);
    assert_eq!(Sure(1u8).combine_response(step_sure, &mut stream).value(), (1, 9));
    assert_eq!(stream.1, 3);
    let mut stream = items();
    assert_eq!(Sure(1u8).combine_response(step_some, &mut stream), Some((1, 9)));
    assert_eq!(Sure(1u8).combine_response(step_none, &mut stream), None);
    let mut stream = items();
    assert_eq!(Sure(1u8).combine_response(step_effect_ok, &mut stream), Ok(1));
    assert_eq!(Sure(1u8).combine_response(step_effect_err, &mut stream), Err("second"));
    let mut stream = items();
    assert_eq!(Sure(1u8).combine_response(step_ok, &mut stream), Ok((1, 9)));
    assert_eq!(Sure(1u8).combine_response(step_err, &mut stream), Err("second"));
    assert_eq!(stream.1, 3);
}

#[test]
fn pure_accessors_maps_and_combines() {
    let mut pure = Pure(5u8);
    assert_eq!(*pure.get(), 5);
    *pure.get_mut() = 6;
    assert_eq!(pure.value(), 6);
    assert_eq!(Pure(4u8).map(|v: u8| v as u32 * 2).value(), 8);
    assert_eq!(Pure(4u8).flat_map(|v: u8| Pure(v + 1)).value(), 5);
    Pure(1u8).ignore_response();

    let mut stream = items();
    assert_eq!(Pure(1u8).combine_response(step_unit, &mut stream).value(), 1);
    assert_eq!(Pure(1u8).combine_response(step_pure, &mut stream).value(), (1, 9));
    assert_eq!(stream.1, 3);
    let mut stream = items();
    assert_eq!(Pure(1u8).combine_response(step_some, &mut stream), Some((1, 9)));
    assert_eq!(Pure(1u8).combine_response(step_none, &mut stream), None);
    let mut stream = items();
    assert_eq!(Pure(1u8).combine_response(step_effect_ok, &mut stream), Ok(1));
    assert_eq!(Pure(1u8).combine_response(step_effect_err, &mut stream), Err("second"));
    let mut stream = items();
    assert_eq!(Pure(1u8).combine_response(step_ok, &mut stream), Ok((1, 9)));
    assert_eq!(Pure(1u8).combine_response(step_err, &mut stream), Err("second"));
}

#[test]
fn unit_is_the_identity_of_combination() {
    let mut stream = items();
    assert_eq!(().combine_response(step_some, &mut stream), Some(9));
    assert_eq!(().combine_response(step_err, &mut stream), Err("second"));
    assert_eq!(stream.1, 3);
    assert_eq!(().attach_to_response(4u8).value(), 4);
    <() as PureResponse>::pure(());
    PureResponse::unwrap(());
    <() as ResultConvertable>::ok(());
    assert!(matches!(ResultConvertable::into_result(()), Ok(())));
}
