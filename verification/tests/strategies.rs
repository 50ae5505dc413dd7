//! Tests of the arbitrary-value annotations and the strategy layer.

use rvt::annotations;
use rvt::strategy::arrays;
use rvt::strategy::bools;
use rvt::strategy::colls;
use rvt::strategy::nums;
use rvt::strategy::strings;
use rvt::strategy::{any, prop_flat_map, prop_is_replay, Just, Strategy};
use rvt::traits::{AbstractValue, Symbolic, VerifierNonDet};
use rvt::utils::UnwrapOrReject;

#[test]
fn test_original() {
    // An array
    let mut a = [0u32; 10];

    // Set each element of array to an arbitrary value
    for i in &mut a {
        *i = u32::abstract_value();
    }

    // A loop containing two branches - a performance problem
    // for conventional symbolic execution.
    for x in &a {
        annotations::presume((5..10).contains(x) || (15..20).contains(x))
    }

    // A true assertion about an arbitrary element of the array
    assert!(a[3] < 20);
}

#[test]
fn test_merged() {
    // An array
    let mut a = [0u32; 10];

    // Set each element of array to an arbitrary value
    for i in 0..a.len() {
        a[i] = u32::abstract_value();
    }

    // A loop containing two branches - a performance problem
    // for conventional symbolic execution.
    for x in a.iter() {
        annotations::presume((5..10).contains(x) || (15..20).contains(x))
    }

    // A true assertion about an arbitrary element of the array
    assert!(a[3] < 20);
}

#[test]
fn nondet_is_identity_concretely() {
    assert_eq!(42u32.verifier_nondet(), 42);
    assert_eq!(true.verifier_nondet(), true);
    assert_eq!((-7i64).verifier_nondet(), -7);
}

#[test]
fn abstract_values_are_zero_concretely() {
    assert_eq!(u8::abstract_value(), 0);
    assert_eq!(i32::abstract_value(), 0);
    assert_eq!(usize::abstract_value(), 0);
    assert_eq!(bool::abstract_value(), false);
    let v: u16 = annotations::abstract_value();
    assert_eq!(v, 0);
}

#[test]
fn symbolic_ignores_description() {
    assert_eq!(u32::symbolic("x"), 0);
    assert_eq!(u32::symbolic("y"), 0);
    assert_eq!(i8::symbolic_where("z", |v| *v >= 0), 0);
}

#[test]
fn nondet_bytes_and_string() {
    let b = annotations::verifier_nondet_bytes(8);
    assert_eq!(b.len(), 8);
    assert!(b.iter().all(|x| *x == 0));
    let s = annotations::verifier_nondet_ascii_string(6);
    assert_eq!(s.chars().count(), 6);
    assert!(s.chars().all(|c| c == '\u{0}'));
}

#[test]
fn concretize_and_sample_identity() {
    assert_eq!(annotations::concretize(17u32), 17);
    assert_eq!(annotations::sample(10, 23u64), 23);
}

#[test]
fn unwrap_or_reject_takes_value() {
    let r: Result<u32, &str> = Ok(5);
    assert_eq!(r.unwrap_or_reject(), 5);
    let o: Option<i32> = Some(-3);
    assert_eq!(o.unwrap_or_reject(), -3);
}

#[test]
fn just_yields_its_member() {
    assert_eq!(Just(99u64).value(), 99);
}

#[test]
fn map_applies_function() {
    let s = Just(10u32).prop_map(|x| x + 1);
    assert_eq!(s.value(), 11);
}

#[test]
fn flat_map_draws_inner() {
    let s = prop_flat_map(Just(3u32), |x| Just(x * 2));
    assert_eq!(s.value(), 6);
}

#[test]
fn filter_is_assumption_not_sieve() {
    let s = Just(4u32).prop_filter("even", |x| x % 2 == 0);
    assert_eq!(s.value(), 4);
}

#[test]
fn filter_map_applies_partial_function() {
    let s = Just(4u32).prop_filter_map("half", |x| Some(x / 2));
    assert_eq!(s.value(), 2);
}

#[test]
fn union_draws_one_side() {
    let s = Just(1u32).prop_union(Just(2u32));
    let v = s.value();
    assert!(v == 1 || v == 2);
}

#[test]
fn any_strategies_are_concretely_zero() {
    assert_eq!(any::<u32>().value(), 0);
    assert_eq!(any::<i64>().value(), 0);
    assert_eq!(any::<bool>().value(), false);
    assert_eq!(any::<char>().value(), '\u{0}');
    assert_eq!(nums::Any::<u8>(core::marker::PhantomData).value(), 0);
    assert_eq!(bools::Any(()).value(), false);
}

#[test]
fn range_strategy_draws_member() {
    let v = (5u32..10).value();
    assert!((5..10).contains(&v));
    let w = (0usize..3).value();
    assert!(w < 3);
    let x = (-5i32..5).value();
    assert!((-5..5).contains(&x));
}

#[test]
fn string_strategies_have_exact_length() {
    assert_eq!(strings::arbitrary(5).value().chars().count(), 5);
    let s = strings::arbitrary_ascii(4).value();
    assert_eq!(s.chars().count(), 4);
    assert!(s.is_ascii());
}

#[test]
fn vec_strategy_has_exact_length() {
    let v = colls::vec(Just(7u32), 5).value();
    assert_eq!(v.len(), 5);
    assert!(v.iter().all(|x| *x == 7));
}

#[test]
fn vec_deque_strategy_has_exact_length() {
    let v = colls::vec_deque(Just(7u32), 4).value();
    assert_eq!(v.len(), 4);
    assert!(v.iter().all(|x| *x == 7));
}

#[test]
fn option_and_result_strategies() {
    let o = colls::of(Just(1u32)).value();
    assert!(o.is_none() || o == Some(1));
    let r = colls::maybe_ok(Just(1u32), Just("e")).value();
    match r {
        Ok(v) => assert_eq!(v, 1),
        Err(e) => assert_eq!(e, "e"),
    }
    let r2 = colls::maybe_err(Just(2u32), Just("f")).value();
    assert!(r2 == Ok(2) || r2 == Err("f"));
}

#[test]
fn btree_strategies_insert_draws() {
    let m = colls::btree_map(Just(1u32), Just(9u8), 3).value();
    assert!(m.len() <= 3);
    assert_eq!(m.get(&1), Some(&9));
    let s = colls::btree_set(Just(2u32), 3).value();
    assert!(s.contains(&2));
}

#[test]
fn array_strategy_draws_lanes() {
    let a = arrays::uniform2(Just(5u16)).value();
    assert_eq!(a, [5, 5]);
    let b = arrays::uniform4(Just(6u8)).value();
    assert_eq!(b, [6, 6, 6, 6]);
    let c = arrays::ArrayStrategy::<_, [u16; 2]>::new(Just(3u16)).value();
    assert_eq!(c, [3, 3]);
}

#[test]
fn replay_is_never_active() {
    assert!(!prop_is_replay());
    assert!(!annotations::is_replay());
}
