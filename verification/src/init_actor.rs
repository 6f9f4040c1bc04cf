//! The init actor: telling the versions of its code apart, and reading the
//! network name from its state.

use vstd::prelude::*;
use crate::cid::{cid_of_text, Cid};

verus! {

/// Whether `code` is one of the identifiers under which version 8 of the
/// init actor is deployed: on the calibration network, on the main network
/// or on a development network.
pub open spec fn v8_init_code(code: Seq<u8>) -> bool {
    ||| cid_of_text("bafk2bzaceadyfilb22bcvzvnpzbg2lyg6npmperyq6es2brvzjdh5rmywc4ry"@) == Some(code)
    ||| cid_of_text("bafk2bzaceaipvjhoxmtofsnv3aj6gj5ida4afdrxa4ewku2hfipdlxpaektlw"@) == Some(code)
    ||| cid_of_text("bafk2bzacedarbnovmucppbjkcwsxopludrj5ttmtm7mzfqsugmxdnqevqso7o"@) == Some(code)
}

/// Whether `code` is one of the identifiers under which version 9 of the
/// init actor is deployed: on the calibration network or on the main
/// network.
pub open spec fn v9_init_code(code: Seq<u8>) -> bool {
    ||| cid_of_text("bafk2bzaceczqxpivlxifdo5ohr2rx5ny4uyvssm6tkf7am357xm47x472yxu2"@) == Some(code)
    ||| cid_of_text("bafk2bzacebtdq4zyuxk2fzbdkva6kc4mx75mkbfmldplfntayhbl5wkqou33i"@) == Some(code)
}

pub fn is_v8_init_cid(cid: &Cid) -> (known: bool)
    ensures
        known == v8_init_code(cid@),
{
    cid.is_named_by("bafk2bzaceadyfilb22bcvzvnpzbg2lyg6npmperyq6es2brvzjdh5rmywc4ry")
        || cid.is_named_by("bafk2bzaceaipvjhoxmtofsnv3aj6gj5ida4afdrxa4ewku2hfipdlxpaektlw")
        || cid.is_named_by("bafk2bzacedarbnovmucppbjkcwsxopludrj5ttmtm7mzfqsugmxdnqevqso7o")
}

pub fn is_v9_init_cid(cid: &Cid) -> (known: bool)
    ensures
        known == v9_init_code(cid@),
{
    cid.is_named_by("bafk2bzaceczqxpivlxifdo5ohr2rx5ny4uyvssm6tkf7am357xm47x472yxu2")
        || cid.is_named_by("bafk2bzacebtdq4zyuxk2fzbdkva6kc4mx75mkbfmldplfntayhbl5wkqou33i")
}

/// What this crate reads from the state of an init actor, of either version.
#[derive(Debug)]
pub struct InitState {
    pub network_name: String,
}

/// Init actor state.
#[derive(Debug)]
pub enum State {
    V8(InitState),
    V9(InitState),
}

/// Why the state of an actor could not be loaded.
#[derive(Clone, Copy, Debug, PartialEq, Eq, Structural)]
pub enum LoadError {
    /// Actor state doesn't exist in store.
    MissingState,
    /// The code of the actor is of no known version.
    UnknownCode,
}

impl State {
    /// The state of the init actor whose code is `code`, given what the store
    /// holds under the actor's state root. The version is decided by the code
    /// alone, version 8 being tried first.
    pub fn load(code: &Cid, stored: Option<InitState>) -> (loaded: Result<State, LoadError>)
        ensures
            loaded == if v8_init_code(code@) {
                match stored {
                    Some(st) => Ok::<State, LoadError>(State::V8(st)),
                    None => Err(LoadError::MissingState),
                }
            } else if v9_init_code(code@) {
                match stored {
                    Some(st) => Ok(State::V9(st)),
                    None => Err(LoadError::MissingState),
                }
            } else {
                Err(LoadError::UnknownCode)
            },
    {
        if is_v8_init_cid(code) {
            return match stored {
                Some(st) => Ok(State::V8(st)),
                None => Err(LoadError::MissingState),
            };
        }
        if is_v9_init_cid(code) {
            return match stored {
                Some(st) => Ok(State::V9(st)),
                None => Err(LoadError::MissingState),
            };
        }
        Err(LoadError::UnknownCode)
    }

    pub fn into_network_name(self) -> (name: String)
        ensures
            name == match self {
                State::V8(st) => st.network_name,
                State::V9(st) => st.network_name,
            },
    {
        match self {
            State::V8(st) => st.network_name,
            State::V9(st) => st.network_name,
        }
    }
}

} // verus!
