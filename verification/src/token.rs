//! Token accounts as the program reads them, and the account operations an
//! instruction asks the runtime to carry out once it has decided.

use vstd::prelude::*;
use crate::pubkey::Pubkey;

verus! {

/// The parts of an SPL token account that the program's checks read.
#[derive(Clone, Copy, Debug, PartialEq, Eq)]
pub struct TokenAccount {
    /// Address of the token account.
    pub key: Pubkey,
    pub mint: Pubkey,
    pub owner: Pubkey,
    pub amount: u64,
}

/// The seeds `["escrow_auth", order, [bump]]` with which an order's escrow
/// authority PDA signs.
#[derive(Clone, Copy, Debug, PartialEq, Eq)]
pub struct EscrowSeeds {
    pub order: Pubkey,
    pub bump: u8,
}

/// An operation on accounts that an instruction hands to the token program or
/// to the runtime. The instruction fails as a whole if any of them fails.
#[derive(Clone, Copy, Debug, PartialEq, Eq)]
pub enum Action {
    /// SPL `transfer` of `amount` from `from` to `to`, authorized by
    /// `authority`, which is a wallet that signed the transaction
    /// (`signer_seeds` is `None`) or an escrow authority PDA signing with
    /// the given seeds.
    Transfer { from: Pubkey, to: Pubkey, authority: Pubkey, amount: u64, signer_seeds: Option<EscrowSeeds> },
    /// SPL `close_account` of `account`, rent to `destination`, signed by an
    /// escrow authority PDA.
    CloseTokenAccount { account: Pubkey, destination: Pubkey, authority: Pubkey, signer_seeds: EscrowSeeds },
    /// Close the program-owned account `account`, rent to `destination`.
    CloseProgramAccount { account: Pubkey, destination: Pubkey },
}

/// The change that one action makes to the balance of `account`.
pub open spec fn flow(a: Action, account: Pubkey) -> int {
    match a {
        Action::Transfer { from, to, amount, .. } => {
            (if to == account { amount as int } else { 0 }) - (if from == account { amount as int } else { 0 })
        },
        _ => 0,
    }
}

/// The change that a list of actions makes to the balance of `account`.
pub open spec fn net_flow(actions: Seq<Action>, account: Pubkey) -> int
    decreases actions.len(),
{
    if actions.len() == 0 {
        0
    } else {
        net_flow(actions.drop_last(), account) + flow(actions.last(), account)
    }
}

/// A plain transfer signed by a wallet.
pub open spec fn wallet_transfer(from: Pubkey, to: Pubkey, authority: Pubkey, amount: u64) -> Action {
    Action::Transfer { from, to, authority, amount, signer_seeds: None }
}

/// A transfer out of an order's escrow, signed by its escrow authority.
pub open spec fn escrow_transfer(from: Pubkey, to: Pubkey, authority: Pubkey, amount: u64, order: Pubkey, bump: u8) -> Action {
    Action::Transfer { from, to, authority, amount, signer_seeds: Some(EscrowSeeds { order, bump }) }
}

/// The net flow of one to three actions, spelled out.
pub proof fn lemma_net_flow_small(actions: Seq<Action>, account: Pubkey)
    ensures
        actions.len() == 1 ==> net_flow(actions, account) == flow(actions[0], account),
        actions.len() == 2 ==> net_flow(actions, account) == flow(actions[0], account) + flow(actions[1], account),
        actions.len() == 3 ==> net_flow(actions, account)
            == flow(actions[0], account) + flow(actions[1], account) + flow(actions[2], account),
{
    if actions.len() >= 1 {
        reveal_with_fuel(net_flow, 4);
        if actions.len() == 2 {
            assert(actions.drop_last().drop_last().len() == 0);
        }
        if actions.len() == 3 {
            assert(actions.drop_last().drop_last().drop_last().len() == 0);
        }
    }
}

} // verus!
