//! What holds of the operations, whatever the state and the arguments.
//!
//! Each law is stated over [`State`], the model in which the contracts of
//! [`crate::Incrementer`] are written, and proved from the definitions of
//! its operations.

use vstd::prelude::*;

use crate::error::Error;
use crate::state::{sum_fits, State};

verus! {

/// A state constructed by default has its counter at `0`.
pub proof fn law_default_counter_is_zero(caller: Seq<u8>)
    ensures
        State::new(0, caller).get() == 0,
{
}

/// A state constructed with `init_value` has its counter at `init_value`.
pub proof fn law_new_counter_is_init_value(init_value: i32, caller: Seq<u8>)
    ensures
        State::new(init_value, caller).get() == init_value,
{
}

/// After one or more values have been set, the counter is the last of them.
pub proof fn law_last_setter_wins(state: State, new_values: Seq<i32>)
    requires
        new_values.len() > 0,
    ensures
        state.my_setter_each(new_values).get() == new_values.last(),
{
}

/// Setting the counter, however often, touches neither the numbers nor the
/// owner.
pub proof fn law_setters_touch_only_counter(state: State, new_values: Seq<i32>)
    ensures
        state.my_setter_each(new_values).balances == state.balances,
        state.my_setter_each(new_values).owner == state.owner,
    decreases new_values.len(),
{
    if new_values.len() > 0 {
        law_setters_touch_only_counter(state, new_values.drop_last());
    }
}

/// Where the sum of the counter and `by` fits, an increment by `by` returns
/// that sum, and the counter is that sum afterwards.
pub proof fn law_inc_returns_new_counter(state: State, by: i32)
    requires
        sum_fits(state.counter, by),
    ensures
        state.inc_result(by) == Ok::<i32, Error>((state.counter + by) as i32),
        state.inc(by).get() == state.counter + by,
{
}

/// Where the sum of the counter and `by` does not fit, an increment by `by`
/// fails with an overflow and leaves the state as it was.
pub proof fn law_inc_overflow_changes_nothing(state: State, by: i32)
    requires
        !sum_fits(state.counter, by),
    ensures
        state.inc_result(by) == Err::<i32, Error>(Error::Overflow),
        state.inc(by) == state,
{
}

/// A state that was just constructed holds `0` as the owner's number.
pub proof fn law_fresh_number_is_zero(init_value: i32, caller: Seq<u8>)
    ensures
        State::new(init_value, caller).get_mine() == 0,
{
}

/// After the owner's number is set to `value` it is `value`, whatever it
/// was before.
pub proof fn law_set_then_get_mine(state: State, value: i32)
    ensures
        state.set_my_number(value).get_mine() == value,
{
}

/// After the owner's number is set to `first` and `second` is added, where
/// their sum fits, the owner's number is that sum.
pub proof fn law_set_then_add(state: State, first: i32, second: i32)
    requires
        sum_fits(first, second),
    ensures
        state.set_my_number(first).add_my_number_result(second) == Ok::<(), Error>(()),
        state.set_my_number(first).add_my_number(second).get_mine() == first + second,
{
}

/// Where the sum of the owner's number and `value` does not fit, adding
/// `value` fails with an overflow and leaves the state as it was.
pub proof fn law_add_overflow_changes_nothing(state: State, value: i32)
    requires
        !sum_fits(state.get_mine(), value),
    ensures
        state.add_my_number_result(value) == Err::<(), Error>(Error::Overflow),
        state.add_my_number(value) == state,
{
}

/// The counter and the numbers are independent: an operation on the one
/// leaves the other as it was, and no operation changes the owner.
pub proof fn law_slots_are_independent(state: State, value: i32)
    ensures
        state.my_setter(value).balances == state.balances,
        state.inc(value).balances == state.balances,
        state.set_my_number(value).counter == state.counter,
        state.add_my_number(value).counter == state.counter,
        state.my_setter(value).owner == state.owner,
        state.inc(value).owner == state.owner,
        state.set_my_number(value).owner == state.owner,
        state.add_my_number(value).owner == state.owner,
{
}

/// Only the owner's entry is ever written: the number of any other
/// identity stays what it was.
pub proof fn law_other_numbers_untouched(state: State, value: i32, other: Seq<u8>)
    requires
        other != state.owner,
    ensures
        state.set_my_number(value).balances.contains_key(other)
            == state.balances.contains_key(other),
        state.set_my_number(value).balances[other] == state.balances[other],
        state.add_my_number(value).balances.contains_key(other)
            == state.balances.contains_key(other),
        state.add_my_number(value).balances[other] == state.balances[other],
{
}

} // verus!
