use vstd::prelude::*;

verus! {

/// The JSON body that asks the Bitcoin faucet for 100000 sats to `address`.
pub fn btc_faucet_body(address: &String) -> (r: String)
    ensures
        r@ == "{ \"address\": \""@ + address@ + "\", \"sats\": 100000 }"@,
{
    String::from_str("{ \"address\": \"").concat(address.as_str()).concat("\", \"sats\": 100000 }")
}

/// The JSON body that asks the Solana faucet to fund `pubkey`.
pub fn sol_faucet_body(pubkey: &String) -> (r: String)
    ensures
        r@ == "{ \"pubkey\": \""@ + pubkey@ + "\" }"@,
{
    String::from_str("{ \"pubkey\": \"").concat(pubkey.as_str()).concat("\" }")
}

} // verus!
