//! The trading account opened for each registered user.

use vstd::prelude::*;

verus! {

/// Opening balance of a new account.
pub const INITIAL_BALANCE: i64 = 1000000;

#[derive(PartialEq, Eq, Structural, Clone, Copy, Debug)]
pub struct Account {
    pub account_id: Option<i32>,
    pub user_id: i32,
    pub balance: i64,
    pub invested_value: i64,
}

impl Account {
    pub fn new(user_id: i32) -> (r: Self)
        ensures
            r.account_id is None,
            r.user_id == user_id,
            r.balance == INITIAL_BALANCE,
            r.invested_value == 0,
    {
        Self { account_id: None, user_id, balance: INITIAL_BALANCE, invested_value: 0 }
    }
}

} // verus!
