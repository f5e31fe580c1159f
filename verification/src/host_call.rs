//! The host-call registry: a fixed, bijective map from an import's
//! `(module, field)` name to a reserved index in the high range
//! `0xEE01..=0xEE2A`, covering the EVM-style host functions. Every import a
//! module may call must resolve here; anything else is unsupported.

use vstd::prelude::*;

use crate::utils::Index;
use crate::{WazmError, WazmResult};

verus! {

/// Character-wise string equality, decided executably.
pub fn str_eq(a: &str, b: &str) -> (r: bool)
    ensures
        r <==> a@ == b@,
{
    let n = a.unicode_len();
    let m = b.unicode_len();
    if n != m {
        return false;
    }
    let mut i: usize = 0;
    while i < n
        invariant
            i <= n,
            n == a@.len(),
            n == b@.len(),
            forall|k: int| 0 <= k < i ==> a@[k] == b@[k],
        decreases n - i,
    {
        if a.get_char(i) != b.get_char(i) {
            return false;
        }
        i = i + 1;
    }
    proof {
        assert(a@ =~= b@);
    }
    true
}

/// The registry as a function: the reserved index a fully qualified import
/// name maps to, or `None` when the name is not a known host call.
pub open spec fn spec_host_call_index(module: Seq<char>, name: Seq<char>) -> Option<u32> {
    if module != "env"@ {
        None
    } else {
        if name == "_evm_stop"@ {
            Some(0xEE01u32)
        } else if name == "_evm_return"@ {
            Some(0xEE02u32)
        } else if name == "_evm_keccak256"@ {
            Some(0xEE03u32)
        } else if name == "_evm_address"@ {
            Some(0xEE04u32)
        } else if name == "_evm_balance"@ {
            Some(0xEE05u32)
        } else if name == "_evm_origin"@ {
            Some(0xEE06u32)
        } else if name == "_evm_caller"@ {
            Some(0xEE07u32)
        } else if name == "_evm_callvalue"@ {
            Some(0xEE08u32)
        } else if name == "_evm_calldataload"@ {
            Some(0xEE09u32)
        } else if name == "_evm_calldatasize"@ {
            Some(0xEE0Au32)
        } else if name == "_evm_calldatacopy"@ {
            Some(0xEE0Bu32)
        } else if name == "_evm_codesize"@ {
            Some(0xEE0Cu32)
        } else if name == "_evm_codecopy"@ {
            Some(0xEE0Du32)
        } else if name == "_evm_gasprice"@ {
            Some(0xEE0Eu32)
        } else if name == "_evm_extcodesize"@ {
            Some(0xEE0Fu32)
        } else if name == "_evm_extcodecopy"@ {
            Some(0xEE10u32)
        } else if name == "_evm_extcodehash"@ {
            Some(0xEE11u32)
        } else if name == "_evm_returndatasize"@ {
            Some(0xEE12u32)
        } else if name == "_evm_returndatacopy"@ {
            Some(0xEE13u32)
        } else if name == "_evm_blockhash"@ {
            Some(0xEE14u32)
        } else if name == "_evm_coinbase"@ {
            Some(0xEE15u32)
        } else if name == "_evm_timestamp"@ {
            Some(0xEE16u32)
        } else if name == "_evm_number"@ {
            Some(0xEE17u32)
        } else if name == "_evm_difficulty"@ {
            Some(0xEE18u32)
        } else if name == "_evm_gaslimit"@ {
            Some(0xEE19u32)
        } else if name == "_evm_chainid"@ {
            Some(0xEE1Au32)
        } else if name == "_evm_basefee"@ {
            Some(0xEE1Bu32)
        } else if name == "_evm_sload"@ {
            Some(0xEE1Cu32)
        } else if name == "_evm_sstore"@ {
            Some(0xEE1Du32)
        } else if name == "_evm_log0"@ {
            Some(0xEE1Eu32)
        } else if name == "_evm_log1"@ {
            Some(0xEE1Fu32)
        } else if name == "_evm_log2"@ {
            Some(0xEE20u32)
        } else if name == "_evm_log3"@ {
            Some(0xEE21u32)
        } else if name == "_evm_log4"@ {
            Some(0xEE22u32)
        } else if name == "_evm_create"@ {
            Some(0xEE23u32)
        } else if name == "_evm_call"@ {
            Some(0xEE24u32)
        } else if name == "_evm_callcode"@ {
            Some(0xEE25u32)
        } else if name == "_evm_delegatecall"@ {
            Some(0xEE26u32)
        } else if name == "_evm_create2"@ {
            Some(0xEE27u32)
        } else if name == "_evm_staticcall"@ {
            Some(0xEE28u32)
        } else if name == "_evm_revert"@ {
            Some(0xEE29u32)
        } else if name == "_evm_selfdestruct"@ {
            Some(0xEE2Au32)
        } else {
            None
        }
    }
}

/// Looks an import's `(module, field)` name up in the registry; an unknown
/// name fails with `NotSupportedImport`.
pub fn resolve_host_call(module: &str, name: &str) -> (r: WazmResult<Index>)
    ensures
        spec_host_call_index(module@, name@) is Some ==> r is Ok && r->Ok_0.0
            == spec_host_call_index(module@, name@).unwrap(),
        spec_host_call_index(module@, name@) is None ==> r is Err && r->Err_0
            is NotSupportedImport,
{
    if !str_eq(module, "env") {
        return Err(WazmError::NotSupportedImport);
    }
    if str_eq(name, "_evm_stop") {
        return Ok(Index(0xEE01));
    }
    if str_eq(name, "_evm_return") {
        return Ok(Index(0xEE02));
    }
    if str_eq(name, "_evm_keccak256") {
        return Ok(Index(0xEE03));
    }
    if str_eq(name, "_evm_address") {
        return Ok(Index(0xEE04));
    }
    if str_eq(name, "_evm_balance") {
        return Ok(Index(0xEE05));
    }
    if str_eq(name, "_evm_origin") {
        return Ok(Index(0xEE06));
    }
    if str_eq(name, "_evm_caller") {
        return Ok(Index(0xEE07));
    }
    if str_eq(name, "_evm_callvalue") {
        return Ok(Index(0xEE08));
    }
    if str_eq(name, "_evm_calldataload") {
        return Ok(Index(0xEE09));
    }
    if str_eq(name, "_evm_calldatasize") {
        return Ok(Index(0xEE0A));
    }
    if str_eq(name, "_evm_calldatacopy") {
        return Ok(Index(0xEE0B));
    }
    if str_eq(name, "_evm_codesize") {
        return Ok(Index(0xEE0C));
    }
    if str_eq(name, "_evm_codecopy") {
        return Ok(Index(0xEE0D));
    }
    if str_eq(name, "_evm_gasprice") {
        return Ok(Index(0xEE0E));
    }
    if str_eq(name, "_evm_extcodesize") {
        return Ok(Index(0xEE0F));
    }
    if str_eq(name, "_evm_extcodecopy") {
        return Ok(Index(0xEE10));
    }
    if str_eq(name, "_evm_extcodehash") {
        return Ok(Index(0xEE11));
    }
    if str_eq(name, "_evm_returndatasize") {
        return Ok(Index(0xEE12));
    }
    if str_eq(name, "_evm_returndatacopy") {
        return Ok(Index(0xEE13));
    }
    if str_eq(name, "_evm_blockhash") {
        return Ok(Index(0xEE14));
    }
    if str_eq(name, "_evm_coinbase") {
        return Ok(Index(0xEE15));
    }
    if str_eq(name, "_evm_timestamp") {
        return Ok(Index(0xEE16));
    }
    if str_eq(name, "_evm_number") {
        return Ok(Index(0xEE17));
    }
    if str_eq(name, "_evm_difficulty") {
        return Ok(Index(0xEE18));
    }
    if str_eq(name, "_evm_gaslimit") {
        return Ok(Index(0xEE19));
    }
    if str_eq(name, "_evm_chainid") {
        return Ok(Index(0xEE1A));
    }
    if str_eq(name, "_evm_basefee") {
        return Ok(Index(0xEE1B));
    }
    if str_eq(name, "_evm_sload") {
        return Ok(Index(0xEE1C));
    }
    if str_eq(name, "_evm_sstore") {
        return Ok(Index(0xEE1D));
    }
    if str_eq(name, "_evm_log0") {
        return Ok(Index(0xEE1E));
    }
    if str_eq(name, "_evm_log1") {
        return Ok(Index(0xEE1F));
    }
    if str_eq(name, "_evm_log2") {
        return Ok(Index(0xEE20));
    }
    if str_eq(name, "_evm_log3") {
        return Ok(Index(0xEE21));
    }
    if str_eq(name, "_evm_log4") {
        return Ok(Index(0xEE22));
    }
    if str_eq(name, "_evm_create") {
        return Ok(Index(0xEE23));
    }
    if str_eq(name, "_evm_call") {
        return Ok(Index(0xEE24));
    }
    if str_eq(name, "_evm_callcode") {
        return Ok(Index(0xEE25));
    }
    if str_eq(name, "_evm_delegatecall") {
        return Ok(Index(0xEE26));
    }
    if str_eq(name, "_evm_create2") {
        return Ok(Index(0xEE27));
    }
    if str_eq(name, "_evm_staticcall") {
        return Ok(Index(0xEE28));
    }
    if str_eq(name, "_evm_revert") {
        return Ok(Index(0xEE29));
    }
    if str_eq(name, "_evm_selfdestruct") {
        return Ok(Index(0xEE2A));
    }
    Err(WazmError::NotSupportedImport)
}

} // verus!
