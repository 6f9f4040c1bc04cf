//! The market actor: telling the versions of its code apart, and reading the
//! locked funds from its state.

use vstd::prelude::*;
use std::marker::PhantomData;
use crate::bigint::Natural;
use crate::cid::{cid_of_text, Cid};
use crate::init_actor::LoadError;

verus! {

/// Whether `code` is one of the identifiers under which version 8 of the
/// market actor is deployed: on the calibration network, on the main network
/// or on a development network.
pub open spec fn v8_market_code(code: Seq<u8>) -> bool {
    ||| cid_of_text("bafk2bzacebotg5coqnglzsdrqxtkqk2eq4krxt6zvds3i3vb2yejgxhexl2n6"@) == Some(code)
    ||| cid_of_text("bafk2bzacediohrxkp2fbsl4yj4jlupjdkgsiwqb4zuezvinhdo2j5hrxco62q"@) == Some(code)
    ||| cid_of_text("bafk2bzacecw57fpkqesfhi5g3nr4csy4oy7oc42wmwjuis6l7ijniolo4rt2k"@) == Some(code)
}

/// Whether `code` is one of the identifiers under which version 9 of the
/// market actor is deployed: on the calibration network or on the main
/// network.
pub open spec fn v9_market_code(code: Seq<u8>) -> bool {
    ||| cid_of_text("bafk2bzacebkfcnc27d3agm2bhzzbvvtbqahmvy2b2nf5xyj4aoxehow3bules"@) == Some(code)
    ||| cid_of_text("bafk2bzacec3j7p6gklk64stax5px3xxd7hdtejaepnd4nw7s2adihde6emkcu"@) == Some(code)
}

pub fn is_v8_market_cid(cid: &Cid) -> (known: bool)
    ensures
        known == v8_market_code(cid@),
{
    cid.is_named_by("bafk2bzacebotg5coqnglzsdrqxtkqk2eq4krxt6zvds3i3vb2yejgxhexl2n6")
        || cid.is_named_by("bafk2bzacediohrxkp2fbsl4yj4jlupjdkgsiwqb4zuezvinhdo2j5hrxco62q")
        || cid.is_named_by("bafk2bzacecw57fpkqesfhi5g3nr4csy4oy7oc42wmwjuis6l7ijniolo4rt2k")
}

pub fn is_v9_market_cid(cid: &Cid) -> (known: bool)
    ensures
        known == v9_market_code(cid@),
{
    cid.is_named_by("bafk2bzacebkfcnc27d3agm2bhzzbvvtbqahmvy2b2nf5xyj4aoxehow3bules")
        || cid.is_named_by("bafk2bzacec3j7p6gklk64stax5px3xxd7hdtejaepnd4nw7s2adihde6emkcu")
}

/// What this crate reads from the state of a market actor, of either
/// version.
#[derive(Debug)]
pub struct MarketState {
    /// All funds that the actor holds locked, in the smallest unit of the
    /// token.
    pub total_locked: Natural,
}

/// Market actor state.
#[derive(Debug)]
pub enum State {
    V8(MarketState),
    V9(MarketState),
}

impl State {
    /// The state of the market actor whose code is `code`, given what the
    /// store holds under the actor's state root. The version is decided by
    /// the code alone, version 8 being tried first.
    pub fn load(code: &Cid, stored: Option<MarketState>) -> (loaded: Result<State, LoadError>)
        ensures
            loaded == if v8_market_code(code@) {
                match stored {
                    Some(st) => Ok::<State, LoadError>(State::V8(st)),
                    None => Err(LoadError::MissingState),
                }
            } else if v9_market_code(code@) {
                match stored {
                    Some(st) => Ok(State::V9(st)),
                    None => Err(LoadError::MissingState),
                }
            } else {
                Err(LoadError::UnknownCode)
            },
    {
        if is_v8_market_cid(code) {
            return match stored {
                Some(st) => Ok(State::V8(st)),
                None => Err(LoadError::MissingState),
            };
        }
        if is_v9_market_cid(code) {
            return match stored {
                Some(st) => Ok(State::V9(st)),
                None => Err(LoadError::MissingState),
            };
        }
        Err(LoadError::UnknownCode)
    }

    /// The total of the funds locked, whichever the version.
    pub open spec fn locked(&self) -> nat {
        match *self {
            State::V8(st) => st.total_locked@,
            State::V9(st) => st.total_locked@,
        }
    }

    /// Consume state to return just total funds locked.
    pub fn total_locked(&self) -> (total: Natural)
        ensures
            total@ == self.locked(),
    {
        match self {
            State::V8(st) => st.total_locked.duplicate(),
            State::V9(st) => st.total_locked.duplicate(),
        }
    }
}

/// Table of balances by address. No table is held in this form yet.
pub enum BalanceTable<'a, BS> {
    UnusedBalanceTable(PhantomData<&'a BS>),
}

/// The deal proposals of the market. None is held in this form yet.
pub enum DealProposals<'a, BS> {
    UnusedDealProposal(PhantomData<&'a BS>),
}

/// The states of the deals of the market. None is held in this form yet.
pub enum DealStates<'a, BS> {
    DealStates(PhantomData<&'a BS>),
}

/// A deal as it was proposed.
#[derive(Debug)]
pub struct DealProposal {
    pub piece_cid: Cid,
    /// Size of the piece in bytes, padding included.
    pub piece_size: u64,
    pub verified_deal: bool,
    /// Address of the client, in binary form.
    pub client: Vec<u8>,
    /// Address of the provider, in binary form.
    pub provider: Vec<u8>,
    pub label: String,
    pub start_epoch: i64,
    pub end_epoch: i64,
    pub storage_price_per_epoch: Natural,
    pub provider_collateral: Natural,
    pub client_collateral: Natural,
}

/// The epochs that mark the life of a deal; `-1` where the event has not
/// happened.
#[derive(Clone, Copy, Debug)]
pub struct DealState {
    /// -1 if not yet included in proven sector.
    pub sector_start_epoch: i64,
    /// -1 if deal state never updated.
    pub last_updated_epoch: i64,
    /// -1 if deal never slashed.
    pub slash_epoch: i64,
}

} // verus!
