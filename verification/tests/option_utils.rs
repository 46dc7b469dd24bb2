use std::path::{Path, PathBuf};

use option_utils::OptionUtils;

#[test]
fn test_inner_mut() {
    let mut x = Some("Hello world".to_owned());
    x.inner_mut(|s| s.push('!'));
    assert_eq!(x, Some("Hello world!".to_owned()));
}

#[test]
fn test_map_into() {
    let path = Some("hey");
    let path: Option<PathBuf> = path.map_into();
    assert_eq!(path, Some(Path::new("hey").to_owned()));
}

#[test]
fn test_map_try_into() {
    let num = Some(10_u64);
    let num: Option<u8> = num.try_map_into().unwrap();
    assert_eq!(num, Some(10_u8));
}

#[test]
fn test_inner_mut_absent_leaves_absent_and_skips_f() {
    let mut x: Option<String> = None;
    x.inner_mut(|_s| panic!("the function must not be invoked on an absent value"));
    assert_eq!(x, None);
}

#[test]
fn test_inner_mut_invokes_f_exactly_once() {
    let mut calls = 0_u32;
    let mut x = Some(5_u64);
    x.inner_mut(|v| {
        calls += 1;
        *v += 1;
    });
    assert_eq!(calls, 1);
    assert_eq!(x, Some(6_u64));
}

#[test]
fn test_map_into_absent() {
    let path: Option<&str> = None;
    let path: Option<PathBuf> = path.map_into();
    assert_eq!(path, None);
}

#[test]
fn test_map_into_widens_integer() {
    let narrow = Some(10_u8);
    let wide: Option<u16> = narrow.map_into();
    assert_eq!(wide, Some(10_u16));
}

#[test]
fn test_try_map_into_absent_is_ok_absent() {
    let num: Option<u64> = None;
    let num: Result<Option<u8>, _> = num.try_map_into();
    assert_eq!(num, Ok(None));
}

#[test]
fn test_try_map_into_overflow_is_err() {
    let num = Some(300_u64);
    let num: Result<Option<u8>, _> = num.try_map_into();
    assert!(num.is_err());
}

#[test]
fn test_repeated_operations_on_absent_stay_absent() {
    let mut start: Option<String> = None;
    start.inner_mut(|_s| panic!("the function must not be invoked on an absent value"));
    let once: Option<PathBuf> = start.map_into();
    assert_eq!(once, None);
    let twice: Result<Option<PathBuf>, _> = once.try_map_into();
    assert_eq!(twice, Ok(None));
}
