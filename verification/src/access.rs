//! Access levels of the JSON-RPC surface and the check of a level against the
//! claims carried by a token.

use vstd::prelude::*;
use crate::text::same_text;

verus! {

/// Access levels to be checked against token claims.
#[derive(Clone, Copy, Debug, PartialEq, Eq, Structural)]
pub enum Access {
    Admin,
    Sign,
    Write,
    Read,
}

/// What a caller gives to have a new token made.
#[derive(Debug)]
pub struct AuthNewParams {
    /// The claims that the token is to carry.
    pub perms: Vec<String>,
    /// Seconds for which the token is to be valid.
    pub token_exp: i64,
}

/// The claim that grants `access`, as text.
pub open spec fn claim_name(access: Access) -> Seq<char> {
    match access {
        Access::Admin => "admin"@,
        Access::Sign => "sign"@,
        Access::Write => "write"@,
        Access::Read => "read"@,
    }
}

/// Whether some claim in `claims` reads exactly `name`.
pub open spec fn has_claim(claims: Seq<String>, name: Seq<char>) -> bool {
    exists|i: int| 0 <= i < claims.len() && (#[trigger] claims[i])@ == name
}

/// The claim that grants `access`, as an owned string.
pub fn claim_for(access: &Access) -> (name: String)
    ensures
        name@ == claim_name(*access),
{
    match access {
        Access::Admin => "admin".to_owned(),
        Access::Sign => "sign".to_owned(),
        Access::Write => "write".to_owned(),
        Access::Read => "read".to_owned(),
    }
}

/// Checks an access level against the claims of a token: the level is granted
/// exactly when the claim of that name is among them. Levels do not imply one
/// another.
pub fn check_access(access: &Access, claims: &[String]) -> (granted: bool)
    ensures
        granted == has_claim(claims@, claim_name(*access)),
{
    let needed = claim_for(access);
    let mut i: usize = 0;
    while i < claims.len()
        invariant
            i <= claims@.len(),
            needed@ == claim_name(*access),
            forall|j: int| 0 <= j < i ==> (#[trigger] claims@[j])@ != needed@,
        decreases claims@.len() - i,
    {
        if claims[i] == needed {
            return true;
        }
        i += 1;
    }
    false
}

/// The methods that only an administrator may call.
pub open spec fn admin_method(method: Seq<char>) -> bool {
    ||| method == "Filecoin.AuthNew"@
    ||| method == "Filecoin.SyncMarkBad"@
    ||| method == "Filecoin.WalletExport"@
    ||| method == "Filecoin.WalletImport"@
}

/// The methods that need the right to sign.
pub open spec fn sign_method(method: Seq<char>) -> bool {
    ||| method == "Filecoin.MpoolPushMessage"@
    ||| method == "Filecoin.WalletSign"@
}

/// The methods that need the right to write.
pub open spec fn write_method(method: Seq<char>) -> bool {
    ||| method == "Filecoin.MpoolPush"@
    ||| method == "Filecoin.WalletBalance"@
    ||| method == "Filecoin.WalletDefaultAddress"@
    ||| method == "Filecoin.WalletHas"@
    ||| method == "Filecoin.WalletList"@
    ||| method == "Filecoin.WalletNew"@
    ||| method == "Filecoin.WalletSetDefault"@
    ||| method == "Filecoin.NetConnect"@
    ||| method == "Filecoin.NetDisconnect"@
}

/// The methods that need the right to read.
pub open spec fn read_method(method: Seq<char>) -> bool {
    ||| method == "Filecoin.AuthVerify"@
    ||| method == "Filecoin.BeaconGetEntry"@
    ||| method == "Filecoin.ChainGetMessage"@
    ||| method == "Filecoin.ChainExport"@
    ||| method == "Filecoin.ChainReadObj"@
    ||| method == "Filecoin.ChainHasObj"@
    ||| method == "Filecoin.ChainGetBlockMessages"@
    ||| method == "Filecoin.ChainGetTipsetByHeight"@
    ||| method == "Filecoin.ChainGetGenesis"@
    ||| method == "Filecoin.ChainHead"@
    ||| method == "Filecoin.ChainGetBlock"@
    ||| method == "Filecoin.ChainGetTipSet"@
    ||| method == "Filecoin.ChainGetTipSetHash"@
    ||| method == "Filecoin.ChainValidateTipSetCheckpoints"@
    ||| method == "Filecoin.ChainGetName"@
    ||| method == "Filecoin.MpoolPending"@
    ||| method == "Filecoin.SyncCheckBad"@
    ||| method == "Filecoin.SyncState"@
    ||| method == "Filecoin.WalletVerify"@
    ||| method == "Filecoin.StateCall"@
    ||| method == "Filecoin.StateReplay"@
    ||| method == "Filecoin.StateMarketBalance"@
    ||| method == "Filecoin.StateMarketDeals"@
    ||| method == "Filecoin.StateGetReceipt"@
    ||| method == "Filecoin.StateWaitMsg"@
    ||| method == "Filecoin.StateNetworkName"@
    ||| method == "Filecoin.StateNetworkVersion"@
    ||| method == "Filecoin.GasEstimateGasLimit"@
    ||| method == "Filecoin.GasEstimateGasPremium"@
    ||| method == "Filecoin.GasEstimateFeeCap"@
    ||| method == "Filecoin.GasEstimateMessageGas"@
    ||| method == "Filecoin.Version"@
    ||| method == "Filecoin.NetAddrsListen"@
    ||| method == "Filecoin.NetPeers"@
}

/// The access level that a method of the API demands. A method that is not
/// listed demands none.
pub open spec fn access_of(method: Seq<char>) -> Option<Access> {
    if admin_method(method) {
        Some(Access::Admin)
    } else if sign_method(method) {
        Some(Access::Sign)
    } else if write_method(method) {
        Some(Access::Write)
    } else if read_method(method) {
        Some(Access::Read)
    } else {
        None
    }
}

fn is_admin_method(method: &str) -> (listed: bool)
    ensures
        listed == admin_method(method@),
{
    same_text(method, "Filecoin.AuthNew")
        || same_text(method, "Filecoin.SyncMarkBad")
        || same_text(method, "Filecoin.WalletExport")
        || same_text(method, "Filecoin.WalletImport")
}

fn is_sign_method(method: &str) -> (listed: bool)
    ensures
        listed == sign_method(method@),
{
    same_text(method, "Filecoin.MpoolPushMessage")
        || same_text(method, "Filecoin.WalletSign")
}

fn is_write_method(method: &str) -> (listed: bool)
    ensures
        listed == write_method(method@),
{
    same_text(method, "Filecoin.MpoolPush")
        || same_text(method, "Filecoin.WalletBalance")
        || same_text(method, "Filecoin.WalletDefaultAddress")
        || same_text(method, "Filecoin.WalletHas")
        || same_text(method, "Filecoin.WalletList")
        || same_text(method, "Filecoin.WalletNew")
        || same_text(method, "Filecoin.WalletSetDefault")
        || same_text(method, "Filecoin.NetConnect")
        || same_text(method, "Filecoin.NetDisconnect")
}

fn is_read_method(method: &str) -> (listed: bool)
    ensures
        listed == read_method(method@),
{
    same_text(method, "Filecoin.AuthVerify")
        || same_text(method, "Filecoin.BeaconGetEntry")
        || same_text(method, "Filecoin.ChainGetMessage")
        || same_text(method, "Filecoin.ChainExport")
        || same_text(method, "Filecoin.ChainReadObj")
        || same_text(method, "Filecoin.ChainHasObj")
        || same_text(method, "Filecoin.ChainGetBlockMessages")
        || same_text(method, "Filecoin.ChainGetTipsetByHeight")
        || same_text(method, "Filecoin.ChainGetGenesis")
        || same_text(method, "Filecoin.ChainHead")
        || same_text(method, "Filecoin.ChainGetBlock")
        || same_text(method, "Filecoin.ChainGetTipSet")
        || same_text(method, "Filecoin.ChainGetTipSetHash")
        || same_text(method, "Filecoin.ChainValidateTipSetCheckpoints")
        || same_text(method, "Filecoin.ChainGetName")
        || same_text(method, "Filecoin.MpoolPending")
        || same_text(method, "Filecoin.SyncCheckBad")
        || same_text(method, "Filecoin.SyncState")
        || same_text(method, "Filecoin.WalletVerify")
        || same_text(method, "Filecoin.StateCall")
        || same_text(method, "Filecoin.StateReplay")
        || same_text(method, "Filecoin.StateMarketBalance")
        || same_text(method, "Filecoin.StateMarketDeals")
        || same_text(method, "Filecoin.StateGetReceipt")
        || same_text(method, "Filecoin.StateWaitMsg")
        || same_text(method, "Filecoin.StateNetworkName")
        || same_text(method, "Filecoin.StateNetworkVersion")
        || same_text(method, "Filecoin.GasEstimateGasLimit")
        || same_text(method, "Filecoin.GasEstimateGasPremium")
        || same_text(method, "Filecoin.GasEstimateFeeCap")
        || same_text(method, "Filecoin.GasEstimateMessageGas")
        || same_text(method, "Filecoin.Version")
        || same_text(method, "Filecoin.NetAddrsListen")
        || same_text(method, "Filecoin.NetPeers")
}

/// The access level that a method of the API demands, if it is listed.
pub fn required_access(method: &str) -> (access: Option<Access>)
    ensures
        access == access_of(method@),
{
    if is_admin_method(method) {
        Some(Access::Admin)
    } else if is_sign_method(method) {
        Some(Access::Sign)
    } else if is_write_method(method) {
        Some(Access::Write)
    } else if is_read_method(method) {
        Some(Access::Read)
    } else {
        None
    }
}

/// Whether a token with these claims may call `method`: the method must be
/// listed, and the claim of its access level must be among the claims.
pub fn may_call(method: &str, claims: &[String]) -> (allowed: bool)
    ensures
        allowed == match access_of(method@) {
            Some(access) => has_claim(claims@, claim_name(access)),
            None => false,
        },
{
    match required_access(method) {
        Some(access) => check_access(&access, claims),
        None => false,
    }
}

} // verus!
