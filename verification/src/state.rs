//! The mathematical model of the state machine.

use vstd::prelude::*;

use crate::error::Error;

verus! {

/// What the state machine holds, as plain mathematical values.
pub struct State {
    /// The counter.
    pub counter: i32,
    /// The numbers stored so far, by identity. An identity without an entry
    /// counts as holding `0`.
    pub balances: Map<Seq<u8>, i32>,
    /// The identity that constructed the state.
    pub owner: Seq<u8>,
}

/// The number stored for `id`, or `0` where nothing was stored for it.
pub open spec fn number_or_zero(balances: Map<Seq<u8>, i32>, id: Seq<u8>) -> i32 {
    if balances.contains_key(id) {
        balances[id]
    } else {
        0
    }
}

/// Whether the sum of `a` and `b` is a value of `i32`.
pub open spec fn sum_fits(a: i32, b: i32) -> bool {
    i32::MIN <= a + b <= i32::MAX
}

impl State {
    /// The state right after construction by `caller`.
    pub open spec fn new(init_value: i32, caller: Seq<u8>) -> State {
        State { counter: init_value, balances: Map::empty(), owner: caller }
    }

    /// The counter.
    pub open spec fn get(self) -> i32 {
        self.counter
    }

    /// The state after the counter is set to `new_value`.
    pub open spec fn my_setter(self, new_value: i32) -> State {
        State { counter: new_value, ..self }
    }

    /// The state after the values of `new_values` are set one after the
    /// other, the first one first.
    pub open spec fn my_setter_each(self, new_values: Seq<i32>) -> State
        decreases new_values.len(),
    {
        if new_values.len() == 0 {
            self
        } else {
            self.my_setter_each(new_values.drop_last()).my_setter(new_values.last())
        }
    }

    /// What an increment by `by` returns: the new counter, or the overflow.
    pub open spec fn inc_result(self, by: i32) -> Result<i32, Error> {
        if sum_fits(self.counter, by) {
            Ok((self.counter + by) as i32)
        } else {
            Err(Error::Overflow)
        }
    }

    /// The state after an increment by `by`: the counter moves where the sum
    /// fits, and nothing changes where it does not.
    pub open spec fn inc(self, by: i32) -> State {
        if sum_fits(self.counter, by) {
            State { counter: (self.counter + by) as i32, ..self }
        } else {
            self
        }
    }

    /// The number of the owner.
    pub open spec fn get_mine(self) -> i32 {
        number_or_zero(self.balances, self.owner)
    }

    /// The state after the owner's number is set to `value`.
    pub open spec fn set_my_number(self, value: i32) -> State {
        State { balances: self.balances.insert(self.owner, value), ..self }
    }

    /// What adding `value` to the owner's number returns.
    pub open spec fn add_my_number_result(self, value: i32) -> Result<(), Error> {
        if sum_fits(self.get_mine(), value) {
            Ok(())
        } else {
            Err(Error::Overflow)
        }
    }

    /// The state after `value` is added to the owner's number: the sum is
    /// stored where it fits, and nothing changes where it does not.
    pub open spec fn add_my_number(self, value: i32) -> State {
        if sum_fits(self.get_mine(), value) {
            self.set_my_number((self.get_mine() + value) as i32)
        } else {
            self
        }
    }
}

} // verus!
