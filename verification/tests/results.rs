use std::collections::hash_map::DefaultHasher;
use std::hash::Hash;
use std::hash::Hasher;

use minicoroutine::result::CoroutineResult;

fn hash_of<T: Hash>(value: &T) -> u64 {
    let mut hasher = DefaultHasher::new();
    value.hash(&mut hasher);
    hasher.finish()
}

#[test]
fn results_of_one_kind_compare_by_value() {
    type R = CoroutineResult<u32, i64>;
    assert!(R::Yield(1) == R::Yield(1));
    assert!(R::Yield(1) != R::Yield(2));
    assert!(R::Return(-5) == R::Return(-5));
    assert!(R::Return(-5) != R::Return(5));
    assert!(R::Error("Not running") == R::Error("Not running"));
    assert!(R::Error("Not running") != R::Error("Not suspended"));
}

#[test]
fn results_of_different_kinds_differ() {
    type R = CoroutineResult<u32, u32>;
    assert!(R::Yield(1) != R::Return(1));
    assert!(R::Return(1) != R::Yield(1));
    assert!(R::Yield(1) != R::Error("1"));
    assert!(R::Error("1") != R::Return(1));
}

#[test]
fn errors_compare_by_text_not_by_place() {
    let first: &'static str = Box::leak(String::from("Stack overflow").into_boxed_str());
    let second: &'static str = Box::leak(String::from("Stack overflow").into_boxed_str());
    let other: &'static str = Box::leak(String::from("Stack overflown").into_boxed_str());
    assert!(first.as_ptr() != second.as_ptr());
    type R = CoroutineResult<(), ()>;
    assert!(R::Error(first) == R::Error(second));
    assert!(R::Error(first) != R::Error(other));
    assert!(R::Error("") != R::Error(first));
}

#[test]
fn equality_follows_the_value_types() {
    // a float that is not equal to itself makes a result that is not either
    type R = CoroutineResult<f64, f64>;
    assert!(R::Yield(f64::NAN) != R::Yield(f64::NAN));
    assert!(R::Return(0.5) == R::Return(0.5));
}

#[test]
fn clone_keeps_kind_and_value() {
    type R = CoroutineResult<String, Vec<u8>>;
    let y = R::Yield(String::from("y"));
    let r = R::Return(vec![1, 2]);
    let e = R::Error("Generic error");
    assert_eq!(y.clone(), y);
    assert_eq!(r.clone(), r);
    assert_eq!(e.clone(), e);
    assert!(matches!(y.clone(), CoroutineResult::Yield(s) if s == "y"));
    assert!(matches!(r.clone(), CoroutineResult::Return(v) if v == vec![1, 2]));
    assert!(matches!(e.clone(), CoroutineResult::Error("Generic error")));
}

#[test]
fn results_of_copy_values_are_copy() {
    let a: CoroutineResult<u8, u8> = CoroutineResult::Yield(3);
    let b = a;
    assert_eq!(a, b);
}

#[test]
fn equal_results_hash_alike() {
    type R = CoroutineResult<u32, u32>;
    assert_eq!(hash_of(&R::Yield(7)), hash_of(&R::Yield(7)));
    assert_eq!(hash_of(&R::Return(7)), hash_of(&R::Return(7)));
    assert_eq!(hash_of(&R::Error("x")), hash_of(&R::Error("x")));
    assert_ne!(hash_of(&R::Yield(7)), hash_of(&R::Return(7)));
}

#[test]
fn results_print_their_kind() {
    type R = CoroutineResult<u32, u32>;
    assert!(format!("{:?}", R::Yield(1)).contains("Yield(1)"));
    assert!(format!("{:?}", R::Return(2)).contains("Return(2)"));
    assert!(format!("{:?}", R::Error("Not running")).contains("Not running"));
}
