//! The state machine and its operations.

use vstd::prelude::*;

use crate::balances::{self, balance_entries, Balances};
use crate::error::Error;
use crate::identity::Identity;
use crate::state::{number_or_zero, State};

verus! {

/// The state machine: a counter, a table of numbers by identity, and the
/// identity of the account that constructed it.
pub struct Incrementer {
    value: i32,
    my_number_map: Balances,
    owner: Identity,
}

impl View for Incrementer {
    type V = State;

    closed spec fn view(&self) -> State {
        State {
            counter: self.value,
            balances: balance_entries(self.my_number_map),
            owner: self.owner@,
        }
    }
}

impl Incrementer {
    /// Only the owner's number is ever written, so the table holds at most
    /// that one entry.
    #[verifier::type_invariant]
    spec fn only_owner_has_number(self) -> bool {
        balance_entries(self.my_number_map).dom().subset_of(set![self.owner@])
    }

    /// Constructs the state for `caller`, with the counter at `init_value`
    /// and no number stored.
    pub fn new(init_value: i32, caller: Identity) -> (created: Self)
        ensures
            created@ == State::new(init_value, caller@),
    {
        Incrementer { value: init_value, my_number_map: balances::empty(), owner: caller }
    }

    /// Constructs the state for `caller`, with the counter at `0` and no
    /// number stored.
    pub fn default(caller: Identity) -> (created: Self)
        ensures
            created@ == State::new(0, caller@),
    {
        Self::new(0, caller)
    }

    /// Returns the counter.
    pub fn get(&self) -> (counter: i32)
        ensures
            counter == self@.get(),
    {
        self.value
    }

    /// Sets the counter to `new_value`.
    pub fn my_setter(&mut self, new_value: i32)
        ensures
            final(self)@ == old(self)@.my_setter(new_value),
    {
        proof {
            use_type_invariant(&*self);
        }
        self.value = new_value;
    }

    /// Adds `by` to the counter and returns the new counter.
    ///
    /// Where the sum does not fit into an `i32`, nothing is changed and
    /// [`Error::Overflow`] is returned.
    pub fn inc(&mut self, by: i32) -> (result: Result<i32, Error>)
        ensures
            result == old(self)@.inc_result(by),
            final(self)@ == old(self)@.inc(by),
    {
        proof {
            use_type_invariant(&*self);
        }
        match self.value.checked_add(by) {
            Some(incr) => {
                self.value = incr;
                Ok(incr)
            },
            None => Err(Error::Overflow),
        }
    }

    /// Returns the number stored for `of`, or `0` if none has been stored.
    fn my_number_or_zero(&self, of: &Identity) -> (number: i32)
        ensures
            number == number_or_zero(self@.balances, of@),
    {
        let key = of.to_bytes();
        match balances::get(&self.my_number_map, &key) {
            Some(balance) => balance,
            None => 0,
        }
    }

    /// Returns the number of the owner: of the identity that constructed
    /// this state, whoever calls. It is `0` until one has been stored.
    pub fn get_mine(&self) -> (number: i32)
        ensures
            number == self@.get_mine(),
    {
        let caller = self.owner;
        self.my_number_or_zero(&caller)
    }

    /// Stores `value` as the number of the owner, in place of the one
    /// stored before, if any.
    pub fn set_my_number(&mut self, value: i32)
        ensures
            final(self)@ == old(self)@.set_my_number(value),
    {
        proof {
            use_type_invariant(&*self);
            self.lemma_room_for_owner();
        }
        balances::insert(&mut self.my_number_map, self.owner.to_bytes(), value);
    }

    /// Adds `value` to the number of the owner, which counts as `0` until
    /// one has been stored.
    ///
    /// Where the sum does not fit into an `i32`, nothing is changed and
    /// [`Error::Overflow`] is returned.
    pub fn add_my_number(&mut self, value: i32) -> (result: Result<(), Error>)
        ensures
            result == old(self)@.add_my_number_result(value),
            final(self)@ == old(self)@.add_my_number(value),
    {
        let my_number = self.my_number_or_zero(&self.owner);
        match my_number.checked_add(value) {
            Some(sum) => {
                self.set_my_number(sum);
                Ok(())
            },
            None => Err(Error::Overflow),
        }
    }

    /// A table that holds nothing but the owner's number has room for it.
    proof fn lemma_room_for_owner(self)
        requires
            self.only_owner_has_number(),
        ensures
            balance_entries(self.my_number_map).dom().finite(),
            balance_entries(self.my_number_map).dom().len() <= 1,
    {
        vstd::set_lib::lemma_len_subset(
            balance_entries(self.my_number_map).dom(),
            set![self.owner@],
        );
    }
}

} // verus!
