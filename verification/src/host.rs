//! What the host chain hands to a contract call: who sent it, which coins
//! came with it, and the time of the block.

use crate::utils::Timestamp;
use vstd::prelude::*;

verus! {

/// An account or contract address, already validated by the host.
pub type Addr = String;

/// An amount of one denomination of native coin.
#[derive(Clone, Debug, PartialEq, Eq)]
pub struct Coin {
    pub denom: String,
    pub amount: u128,
}

/// Sender of a call and the funds attached to it.
#[derive(Clone, Debug, PartialEq, Eq)]
pub struct MessageInfo {
    pub sender: Addr,
    pub funds: Vec<Coin>,
}

/// An instruction to the host, carried out together with the state write
/// of the call that returns it.
#[derive(Clone, Debug, PartialEq, Eq)]
#[allow(inconsistent_fields)]
pub enum CosmosMsg {
    /// Send `amount` of native coin to `to_address`.
    BankSend { to_address: Addr, amount: Coin },
    /// Call the deposit entry of the collector at `contract_addr` with
    /// `funds` attached.
    CollectorDeposit { contract_addr: Addr, funds: Coin },
    /// Have the token contract at `contract_addr` transfer `amount` tokens
    /// to `recipient`.
    TokenTransfer { contract_addr: Addr, recipient: Addr, amount: u128 },
}

/// The block in which a call executes.
#[derive(Copy, Clone, Debug, PartialEq, Eq, Structural)]
pub struct Env {
    pub time: Timestamp,
}

/// Helper trait for modifying Env
pub trait EnvBuilder: Sized {
    spec fn spec_at_time(self, timestamp: u64) -> Self;

    fn at_time(self, timestamp: u64) -> (r: Self)
        ensures
            r == self.spec_at_time(timestamp),
    ;
}

impl EnvBuilder for Env {
    open spec fn spec_at_time(self, timestamp: u64) -> Env {
        Env { time: Timestamp(timestamp) }
    }

    /// Set block time for Env
    fn at_time(self, timestamp: u64) -> (r: Env) {
        Env { time: Timestamp::from_seconds(timestamp) }
    }
}

/// The amount of the first coin of `denom` among `funds`, zero if there is
/// none.
pub open spec fn sent_funds(funds: Seq<Coin>, denom: Seq<char>) -> u128
    decreases funds.len(),
{
    if funds.len() == 0 {
        0
    } else if funds[0].denom@ == denom {
        funds[0].amount
    } else {
        sent_funds(funds.skip(1), denom)
    }
}

/// Return the funds of type denom attached in the request.
pub fn get_sent_funds(info: &MessageInfo, denom: &String) -> (r: u128)
    ensures
        r == sent_funds(info.funds@, denom@),
{
    let mut i: usize = 0;
    assert(info.funds@.skip(0) =~= info.funds@);
    while i < info.funds.len()
        invariant
            i <= info.funds.len(),
            sent_funds(info.funds@, denom@) == sent_funds(info.funds@.skip(i as int), denom@),
        decreases info.funds.len() - i,
    {
        if info.funds[i].denom == *denom {
            assert(info.funds@.skip(i as int)[0] == info.funds@[i as int]);
            return info.funds[i].amount;
        }
        assert(info.funds@.skip(i as int).skip(1) =~= info.funds@.skip(i + 1));
        i += 1;
    }
    0
}

/// The message info of a call from `sender` with `funds` attached.
pub fn mock_info(sender: &str, funds: Vec<Coin>) -> (r: MessageInfo)
    ensures
        r.sender@ == sender@,
        r.funds == funds,
{
    MessageInfo { sender: sender.to_owned(), funds }
}

/// A single coin of `denom`, as the funds of a call.
pub fn coins(amount: u128, denom: &str) -> (r: Vec<Coin>)
    ensures
        r@.len() == 1,
        r@[0].amount == amount,
        r@[0].denom@ == denom@,
{
    let mut funds: Vec<Coin> = Vec::new();
    funds.push(Coin { denom: denom.to_owned(), amount });
    funds
}

} // verus!
