use also::and_run;
use also::or_run;
use also::Also;

#[test]
fn lets_returns_the_functions_result() {
    let x = "Hello, world!".lets(|x| x.len());
    assert_eq!(13, x);
}

#[test]
fn lets_equals_direct_application() {
    let f = |v: u32| v * 2 + 1;
    assert_eq!(f(21), 21u32.lets(f));
    let not_empty = ().lets(|_| "Hello, world!");
    assert_eq!("Hello, world!", not_empty);
}

#[test]
fn lets_with_owned_mutation() {
    let x = "Hello, world!".to_string().lets(|mut x| {
        x.push('g');
        x.len()
    });
    assert_eq!(14, x);
}

#[test]
fn also_returns_the_mutated_receiver() {
    let x = "Hello".to_string().also(|x| x.push_str(", world!"));
    assert_eq!("Hello, world!", x);
}

#[test]
fn also_invokes_exactly_once() {
    let mut count = 0u32;
    let v = 7u8.also(|_| count += 1);
    assert_eq!(7, v);
    assert_eq!(1, count);
}

#[test]
fn also_with_noop_is_identity() {
    let v = vec![1u8, 2, 3];
    let w = v.clone().also(|_| ());
    assert_eq!(v, w);
}

#[test]
fn take_if_keeps_receiver_on_ok() {
    let x = "42".take_if(|x| u8::from_str_radix(x, 10));
    assert_eq!(Ok("42"), x);
}

#[test]
fn take_if_forwards_err() {
    let x = "aa".take_if(|x| u8::from_str_radix(x, 10));
    assert!(x.is_err());
}

#[test]
fn take_if_forwards_the_error_value_unchanged() {
    let x: Result<u8, &str> = 3u8.take_if(|_| Err::<u8, &str>("boom"));
    assert_eq!(Err("boom"), x);
}

#[test]
fn take_if_returns_the_mutated_receiver_on_ok() {
    let x = "Hello".to_string().take_if(|s| {
        s.push('!');
        Ok::<u8, ()>(0)
    });
    assert_eq!(Ok("Hello!".to_string()), x);
}

#[test]
fn and_run_touches_only_the_ok_payload() {
    let x: Result<String, ()> = and_run(Ok("Hello".to_string()), |s| s.push('!'));
    assert_eq!(Ok("Hello!".to_string()), x);
    let y: Result<String, u8> = and_run(Err(9), |s: &mut String| s.push('!'));
    assert_eq!(Err(9), y);
}

#[test]
fn or_run_touches_only_the_err_payload() {
    let x: Result<(), String> = or_run(Err("Hello".to_string()), |s| s.push('!'));
    assert_eq!(Err("Hello!".to_string()), x);
    let y: Result<u8, String> = or_run(Ok(3), |s: &mut String| s.push('!'));
    assert_eq!(Ok(3), y);
}
