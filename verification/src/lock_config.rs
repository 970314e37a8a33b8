//! Lock records for positions: a locked position rejects liquidity
//! decreases and closure.

use vstd::prelude::*;

use crate::address::Address;
use crate::errors::ErrorCode;

verus! {

/// How a position is locked.
#[derive(Clone, Copy, Debug, PartialEq, Eq, Structural)]
pub enum LockType {
    Permanent,
}

/// The stored label of a lock; kept separate from `LockType` so the stored
/// value stays flat if lock kinds grow.
#[derive(Clone, Copy, Debug, PartialEq, Eq, Structural)]
pub enum LockTypeLabel {
    Permanent,
}

/// The lock record of one position.
#[derive(Clone, Copy, Debug)]
pub struct LockConfig {
    pub position: Address,
    pub position_owner: Address,
    pub solve: Address,
    pub locked_timestamp: u64,
    pub lock_type: LockTypeLabel,
}

impl LockConfig {
    pub fn default() -> (r: LockConfig)
        ensures
            r.position.is_null(),
            r.locked_timestamp == 0,
    {
        LockConfig {
            position: Address::null(),
            position_owner: Address::null(),
            solve: Address::null(),
            locked_timestamp: 0,
            lock_type: LockTypeLabel::Permanent,
        }
    }

    /// Records the lock of a position.
    pub fn initialize(
        &mut self,
        position: Address,
        position_owner: Address,
        solve: Address,
        locked_timestamp: u64,
        lock_type: LockType,
    ) -> (r: Result<(), ErrorCode>)
        ensures
            r is Ok,
            *final(self) == (LockConfig {
                position,
                position_owner,
                solve,
                locked_timestamp,
                lock_type: LockTypeLabel::Permanent,
            }),
    {
        self.position = position;
        self.position_owner = position_owner;
        self.solve = solve;
        self.locked_timestamp = locked_timestamp;
        match lock_type {
            LockType::Permanent => {
                self.lock_type = LockTypeLabel::Permanent;
            },
        }
        Ok(())
    }

    /// Hands the locked position to a new owner.
    pub fn update_position_owner(&mut self, position_owner: Address)
        ensures
            *final(self) == (LockConfig { position_owner, ..*old(self) }),
    {
        self.position_owner = position_owner;
    }
}

} // verus!
