use incrementer::{Error, Identity, Incrementer};

fn alice() -> Identity {
    Identity::from_bytes([1u8; 32])
}

fn bob() -> Identity {
    Identity::from_bytes([2u8; 32])
}

#[test]
fn default_works() {
    let incrementer = Incrementer::default(alice());
    assert_eq!(incrementer.get(), 0);
}

#[test]
fn it_works() {
    let mut incrementer = Incrementer::new(0, alice());
    assert_eq!(incrementer.get(), 0);
    assert_eq!(incrementer.inc(10), Ok(10));
    assert_eq!(incrementer.get(), 10);
}

#[test]
fn new_starts_at_init_value() {
    for init_value in [0, 1, -1, 42, -300, i32::MAX, i32::MIN] {
        let incrementer = Incrementer::new(init_value, alice());
        assert_eq!(incrementer.get(), init_value);
    }
}

#[test]
fn default_is_new_zero() {
    let by_default = Incrementer::default(bob());
    let by_new = Incrementer::new(0, bob());
    assert_eq!(by_default.get(), by_new.get());
    assert_eq!(by_default.get_mine(), by_new.get_mine());
}

#[test]
fn last_setter_wins() {
    let mut incrementer = Incrementer::new(7, alice());
    for value in [3, -8, i32::MAX, 0, i32::MIN, 19] {
        incrementer.my_setter(value);
        assert_eq!(incrementer.get(), value);
    }
    assert_eq!(incrementer.get(), 19);
}

#[test]
fn setter_overwrites_without_adding() {
    let mut incrementer = Incrementer::new(100, alice());
    incrementer.my_setter(5);
    incrementer.my_setter(5);
    assert_eq!(incrementer.get(), 5);
}

#[test]
fn inc_returns_the_new_counter() {
    let mut incrementer = Incrementer::new(40, alice());
    assert_eq!(incrementer.inc(2), Ok(42));
    assert_eq!(incrementer.get(), 42);
    assert_eq!(incrementer.inc(-50), Ok(-8));
    assert_eq!(incrementer.get(), -8);
    assert_eq!(incrementer.inc(0), Ok(-8));
    assert_eq!(incrementer.get(), -8);
}

#[test]
fn inc_reaches_both_ends_of_the_range() {
    let mut up = Incrementer::new(i32::MAX - 1, alice());
    assert_eq!(up.inc(1), Ok(i32::MAX));
    assert_eq!(up.get(), i32::MAX);

    let mut down = Incrementer::new(i32::MIN + 1, alice());
    assert_eq!(down.inc(-1), Ok(i32::MIN));
    assert_eq!(down.get(), i32::MIN);

    let mut across = Incrementer::new(i32::MIN, alice());
    assert_eq!(across.inc(i32::MAX), Ok(-1));
    assert_eq!(across.get(), -1);
}

#[test]
fn inc_overflow_fails_and_changes_nothing() {
    let mut incrementer = Incrementer::new(i32::MAX, alice());
    assert_eq!(incrementer.inc(1), Err(Error::Overflow));
    assert_eq!(incrementer.get(), i32::MAX);
    assert_eq!(incrementer.get_mine(), 0);
    assert_eq!(incrementer.inc(-1), Ok(i32::MAX - 1));
}

#[test]
fn inc_underflow_fails_and_changes_nothing() {
    let mut incrementer = Incrementer::new(i32::MIN, alice());
    assert_eq!(incrementer.inc(-1), Err(Error::Overflow));
    assert_eq!(incrementer.get(), i32::MIN);

    let mut low = Incrementer::new(-2, alice());
    assert_eq!(low.inc(i32::MIN), Err(Error::Overflow));
    assert_eq!(low.get(), -2);
}

#[test]
fn fresh_state_has_number_zero() {
    assert_eq!(Incrementer::new(9, alice()).get_mine(), 0);
    assert_eq!(Incrementer::default(bob()).get_mine(), 0);
}

#[test]
fn set_my_number_then_get_mine() {
    let mut incrementer = Incrementer::new(0, alice());
    incrementer.set_my_number(11);
    assert_eq!(incrementer.get_mine(), 11);
    incrementer.set_my_number(-4);
    assert_eq!(incrementer.get_mine(), -4);
    incrementer.set_my_number(0);
    assert_eq!(incrementer.get_mine(), 0);
    incrementer.set_my_number(i32::MIN);
    assert_eq!(incrementer.get_mine(), i32::MIN);
}

#[test]
fn set_then_add_gives_the_sum() {
    let mut incrementer = Incrementer::new(0, alice());
    incrementer.set_my_number(20);
    assert_eq!(incrementer.add_my_number(22), Ok(()));
    assert_eq!(incrementer.get_mine(), 42);
    assert_eq!(incrementer.add_my_number(-50), Ok(()));
    assert_eq!(incrementer.get_mine(), -8);
}

#[test]
fn add_to_a_fresh_state_starts_from_zero() {
    let mut incrementer = Incrementer::new(3, alice());
    assert_eq!(incrementer.add_my_number(6), Ok(()));
    assert_eq!(incrementer.get_mine(), 6);
    assert_eq!(incrementer.add_my_number(6), Ok(()));
    assert_eq!(incrementer.get_mine(), 12);
}

#[test]
fn add_my_number_overflow_fails_and_changes_nothing() {
    let mut incrementer = Incrementer::new(1, alice());
    incrementer.set_my_number(i32::MAX);
    assert_eq!(incrementer.add_my_number(1), Err(Error::Overflow));
    assert_eq!(incrementer.get_mine(), i32::MAX);
    assert_eq!(incrementer.get(), 1);

    incrementer.set_my_number(i32::MIN);
    assert_eq!(incrementer.add_my_number(-1), Err(Error::Overflow));
    assert_eq!(incrementer.get_mine(), i32::MIN);
    assert_eq!(incrementer.add_my_number(i32::MAX), Ok(()));
    assert_eq!(incrementer.get_mine(), -1);
}

#[test]
fn add_overflow_on_a_fresh_state_stores_nothing() {
    let mut incrementer = Incrementer::new(0, alice());
    assert_eq!(incrementer.add_my_number(i32::MAX), Ok(()));
    assert_eq!(incrementer.add_my_number(i32::MAX), Err(Error::Overflow));
    assert_eq!(incrementer.get_mine(), i32::MAX);
}

#[test]
fn counter_and_number_are_independent() {
    let mut incrementer = Incrementer::new(5, alice());
    assert_eq!(incrementer.inc(10), Ok(15));
    assert_eq!(incrementer.get(), 15);
    incrementer.set_my_number(3);
    assert_eq!(incrementer.get_mine(), 3);
    assert_eq!(incrementer.add_my_number(4), Ok(()));
    assert_eq!(incrementer.get_mine(), 7);
    assert_eq!(incrementer.get(), 15);
    incrementer.my_setter(-1);
    assert_eq!(incrementer.get_mine(), 7);
    assert_eq!(incrementer.get(), -1);
}

#[test]
fn states_of_different_owners_do_not_share_numbers() {
    let mut of_alice = Incrementer::new(0, alice());
    let mut of_bob = Incrementer::new(0, bob());
    of_alice.set_my_number(1);
    of_bob.set_my_number(2);
    assert_eq!(of_alice.get_mine(), 1);
    assert_eq!(of_bob.get_mine(), 2);
}

#[test]
fn identity_keeps_its_bytes() {
    let mut bytes = [0u8; 32];
    for (i, byte) in bytes.iter_mut().enumerate() {
        *byte = (i * 7) as u8;
    }
    let id = Identity::from_bytes(bytes);
    assert_eq!(id.to_bytes(), bytes);
    assert_eq!(id, Identity::from_bytes(bytes));
    assert_ne!(id, alice());
    assert_ne!(alice(), bob());
}

#[test]
fn owner_with_any_bytes_can_store_a_number() {
    for fill in [0u8, 1, 127, 255] {
        let mut incrementer = Incrementer::new(0, Identity::from_bytes([fill; 32]));
        assert_eq!(incrementer.get_mine(), 0);
        incrementer.set_my_number(fill as i32 + 1);
        assert_eq!(incrementer.get_mine(), fill as i32 + 1);
    }
}

#[test]
fn error_is_comparable() {
    let overflow = Error::Overflow;
    let copy = overflow;
    assert_eq!(overflow, copy);
    assert_eq!(format!("{:?}", overflow), "Overflow");
}
