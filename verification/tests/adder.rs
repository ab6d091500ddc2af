// Plain assertion exercises, kept alongside the pool's own tests.

#[test]
fn it_works() {
    assert_eq!(2 + 2, 4);
    assert_ne!(2 + 2, 5);
}

#[test]
fn exploration() {
    assert_eq!(2 + 2, 4);
}

#[test]
fn boolean_test() {
    assert!(true)
}

#[test]
fn it_works_result() -> Result<(), String> {
    if 2 + 2 == 4 {
        Ok(())
    } else {
        Err(String::from("two plus two does not equal four"))
    }
}
