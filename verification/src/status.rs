use crate::cell::Payload;
use vstd::prelude::*;

verus! {

/// Whether the device currently has network connectivity.
#[derive(Clone, Copy, Debug, PartialEq, Eq, Structural)]
pub enum WifiState {
    Disconnected,
    Connected,
}

impl WifiState {
    /// True exactly for `Connected`.
    pub fn is_connected(self) -> (r: bool)
        ensures
            r == (self == WifiState::Connected),
    {
        match self {
            WifiState::Connected => true,
            WifiState::Disconnected => false,
        }
    }
}

impl Payload for WifiState {
    open spec fn pack_spec(&self) -> u32 {
        match *self {
            WifiState::Disconnected => 0,
            WifiState::Connected => 1,
        }
    }

    open spec fn unpack_spec(word: u32) -> Self {
        if word == 1 {
            WifiState::Connected
        } else {
            WifiState::Disconnected
        }
    }

    fn pack(&self) -> (word: u32) {
        match self {
            WifiState::Disconnected => 0,
            WifiState::Connected => 1,
        }
    }

    fn unpack(word: u32) -> (value: Self) {
        if word == 1 {
            WifiState::Connected
        } else {
            WifiState::Disconnected
        }
    }

    proof fn lemma_unpack_pack(value: Self) {
    }
}

} // verus!
