use vstd::prelude::*;

use crate::math::{
    compute_invariant, invariant_spec, quote_spec, quote_swap, scale, scale_spec, AmmError,
};

verus! {

/// The name of an account on the host: a user, this pool, or a token ledger.
pub type AccountId = String;

/// An amount of a token in base units.
pub type Balance = u128;

/// An operation that the pool asks a token ledger to perform.
#[derive(Clone, Debug, PartialEq, Eq)]
pub enum LedgerCall {
    /// Return the token's symbol and number of decimals.
    GetTokenContractMetaInfo,
    /// Register the calling account with the ledger.
    AccountRegister,
    /// Move `amount` from `sender` to `receiver`.
    TransferFrom { sender: AccountId, receiver: AccountId, amount: Balance },
}

/// The entry point of the pool to run once a ledger call has resolved.
#[derive(Clone, Debug, PartialEq, Eq)]
pub enum Continuation {
    /// `callback_get_info` for the ledger `contract_id`, with the metadata
    /// that the call returned.
    CallbackGetInfo { contract_id: AccountId },
    /// `callback_ft_deposit`: the second leg of a swap.
    CallbackFtDeposit {
        a_vault_after: Balance,
        b_vault_after: Balance,
        contract_id: AccountId,
        receiver_id: AccountId,
        amount: Balance,
    },
    /// `callback_update_vaults`: settlement.
    CallbackUpdateVaults { a_vault_after: Balance, b_vault_after: Balance },
}

/// One asynchronous call to the ledger `token_id`, followed by the pool's
/// own continuation, if any, once it resolves.
#[derive(Clone, Debug, PartialEq, Eq)]
pub struct PromiseCall {
    pub token_id: AccountId,
    pub call: LedgerCall,
    pub then: Option<Continuation>,
}

/// What the pool records of one token.
pub struct AssetState {
    pub contract_id: AccountId,
    pub name: String,
    pub vault: Balance,
    pub decimals: u8,
}

/// The abstract state of a pool.
pub struct ContractState {
    pub owner_id: AccountId,
    pub ratio: u128,
    pub a: AssetState,
    pub b: AssetState,
}

/// A transfer of `amount` of the token `token_id` from `sender` to `receiver`.
pub open spec fn transfer_spec(
    token_id: AccountId,
    sender: AccountId,
    receiver: AccountId,
    amount: Balance,
    then: Option<Continuation>,
) -> PromiseCall {
    PromiseCall { token_id, call: LedgerCall::TransferFrom { sender, receiver, amount }, then }
}

/// A pool of two tokens, A and B, priced on the curve `a_vault * b_vault = K`.
pub struct Contract {
    owner_id: AccountId,
    ratio: u128,
    a_vault: Balance,
    a_contract_id: AccountId,
    a_contract_name: String,
    a_contract_decimals: u8,
    b_vault: Balance,
    b_contract_id: AccountId,
    b_contract_name: String,
    b_contract_decimals: u8,
}

impl View for Contract {
    type V = ContractState;

    closed spec fn view(&self) -> ContractState {
        ContractState {
            owner_id: self.owner_id,
            ratio: self.ratio,
            a: AssetState {
                contract_id: self.a_contract_id,
                name: self.a_contract_name,
                vault: self.a_vault,
                decimals: self.a_contract_decimals,
            },
            b: AssetState {
                contract_id: self.b_contract_id,
                name: self.b_contract_name,
                vault: self.b_vault,
                decimals: self.b_contract_decimals,
            },
        }
    }
}

impl Contract {
    /// `K` is either the sentinel `0` left by construction, before any
    /// metadata arrived, or the product of the two vaults.
    pub open spec fn wf(&self) -> bool {
        self@.ratio == 0 || self@.ratio == self@.a.vault * self@.b.vault
    }

    /// A pool owned by `owner_id` over the ledgers `a_contract_id` and
    /// `b_contract_id`, with the vaults set to the initial amounts, no
    /// metadata yet (empty symbols, one decimal) and `K` at `0`.
    pub fn new(
        owner_id: AccountId,
        a_contract_id: AccountId,
        b_contract_id: AccountId,
        a_init_amount: u128,
        b_init_amount: u128,
    ) -> (r: Self)
        ensures
            r.wf(),
            r@.owner_id == owner_id,
            r@.ratio == 0,
            r@.a.contract_id == a_contract_id,
            r@.a.name@ == Seq::<char>::empty(),
            r@.a.vault == a_init_amount,
            r@.a.decimals == 1,
            r@.b.contract_id == b_contract_id,
            r@.b.name@ == Seq::<char>::empty(),
            r@.b.vault == b_init_amount,
            r@.b.decimals == 1,
    {
        Contract {
            owner_id,
            ratio: 0,
            a_vault: a_init_amount,
            a_contract_id,
            a_contract_name: String::new(),
            a_contract_decimals: 1,
            b_vault: b_init_amount,
            b_contract_id,
            b_contract_name: String::new(),
            b_contract_decimals: 1,
        }
    }
    /// The calls that construction issues on `current_id`'s behalf: for each
    /// ledger a metadata fetch continued by `callback_get_info`, then a
    /// registration of the pool with each ledger, then a transfer of each
    /// initial amount from the owner to the pool. None but the fetches has a
    /// continuation.
    pub fn init_calls(&self, current_id: &AccountId) -> (r: Vec<PromiseCall>)
        ensures
            r@ == seq![
                PromiseCall {
                    token_id: self@.a.contract_id,
                    call: LedgerCall::GetTokenContractMetaInfo,
                    then: Some(Continuation::CallbackGetInfo { contract_id: self@.a.contract_id }),
                },
                PromiseCall {
                    token_id: self@.b.contract_id,
                    call: LedgerCall::GetTokenContractMetaInfo,
                    then: Some(Continuation::CallbackGetInfo { contract_id: self@.b.contract_id }),
                },
                PromiseCall { token_id: self@.a.contract_id, call: LedgerCall::AccountRegister, then: None },
                PromiseCall { token_id: self@.b.contract_id, call: LedgerCall::AccountRegister, then: None },
                transfer_spec(self@.a.contract_id, self@.owner_id, *current_id, self@.a.vault, None),
                transfer_spec(self@.b.contract_id, self@.owner_id, *current_id, self@.b.vault, None),
            ],
    {
        let mut calls: Vec<PromiseCall> = Vec::new();
        calls.push(
            PromiseCall {
                token_id: self.a_contract_id.clone(),
                call: LedgerCall::GetTokenContractMetaInfo,
                then: Some(Continuation::CallbackGetInfo { contract_id: self.a_contract_id.clone() }),
            },
        );
        calls.push(
            PromiseCall {
                token_id: self.b_contract_id.clone(),
                call: LedgerCall::GetTokenContractMetaInfo,
                then: Some(Continuation::CallbackGetInfo { contract_id: self.b_contract_id.clone() }),
            },
        );
        calls.push(
            PromiseCall { token_id: self.a_contract_id.clone(), call: LedgerCall::AccountRegister, then: None },
        );
        calls.push(
            PromiseCall { token_id: self.b_contract_id.clone(), call: LedgerCall::AccountRegister, then: None },
        );
        calls.push(
            PromiseCall {
                token_id: self.a_contract_id.clone(),
                call: LedgerCall::TransferFrom {
                    sender: self.owner_id.clone(),
                    receiver: current_id.clone(),
                    amount: self.a_vault,
                },
                then: None,
            },
        );
        calls.push(
            PromiseCall {
                token_id: self.b_contract_id.clone(),
                call: LedgerCall::TransferFrom {
                    sender: self.owner_id.clone(),
                    receiver: current_id.clone(),
                    amount: self.b_vault,
                },
                then: None,
            },
        );
        calls
    }

    /// Swaps `amount` display units of A paid by `sender_id` for B. Nothing
    /// changes yet: the result is the first leg, a transfer of the scaled
    /// amount from the sender to the pool (`current_id`), continued by
    /// `callback_ft_deposit` with the quoted vaults and the payout of B.
    pub fn swap_from_a(&self, sender_id: &AccountId, current_id: &AccountId, amount: Balance) -> (r: Result<PromiseCall, AmmError>)
        ensures
            match quote_spec(self@.a.vault, self@.b.vault, self@.ratio, self@.a.decimals, amount) {
                Err(e) => r == Err::<PromiseCall, AmmError>(e),
                Ok(q) => r == Ok::<PromiseCall, AmmError>(transfer_spec(
                    self@.a.contract_id,
                    *sender_id,
                    *current_id,
                    q.in_amount,
                    Some(Continuation::CallbackFtDeposit {
                        a_vault_after: q.source_after,
                        b_vault_after: q.dest_after,
                        contract_id: self@.b.contract_id,
                        receiver_id: *sender_id,
                        amount: q.out_amount,
                    }),
                )),
            },
    {
        let q = match quote_swap(self.a_vault, self.b_vault, self.ratio, self.a_contract_decimals, amount) {
            Err(e) => return Err(e),
            Ok(q) => q,
        };
        Ok(
            PromiseCall {
                token_id: self.a_contract_id.clone(),
                call: LedgerCall::TransferFrom {
                    sender: sender_id.clone(),
                    receiver: current_id.clone(),
                    amount: q.in_amount,
                },
                then: Some(
                    Continuation::CallbackFtDeposit {
                        a_vault_after: q.source_after,
                        b_vault_after: q.dest_after,
                        contract_id: self.b_contract_id.clone(),
                        receiver_id: sender_id.clone(),
                        amount: q.out_amount,
                    },
                ),
            },
        )
    }

    /// Swaps `amount` display units of B paid by `sender_id` for A; the
    /// mirror image of `swap_from_a`.
    pub fn swap_from_b(&self, sender_id: &AccountId, current_id: &AccountId, amount: Balance) -> (r: Result<PromiseCall, AmmError>)
        ensures
            match quote_spec(self@.b.vault, self@.a.vault, self@.ratio, self@.b.decimals, amount) {
                Err(e) => r == Err::<PromiseCall, AmmError>(e),
                Ok(q) => r == Ok::<PromiseCall, AmmError>(transfer_spec(
                    self@.b.contract_id,
                    *sender_id,
                    *current_id,
                    q.in_amount,
                    Some(Continuation::CallbackFtDeposit {
                        a_vault_after: q.dest_after,
                        b_vault_after: q.source_after,
                        contract_id: self@.a.contract_id,
                        receiver_id: *sender_id,
                        amount: q.out_amount,
                    }),
                )),
            },
    {
        let q = match quote_swap(self.b_vault, self.a_vault, self.ratio, self.b_contract_decimals, amount) {
            Err(e) => return Err(e),
            Ok(q) => q,
        };
        Ok(
            PromiseCall {
                token_id: self.b_contract_id.clone(),
                call: LedgerCall::TransferFrom {
                    sender: sender_id.clone(),
                    receiver: current_id.clone(),
                    amount: q.in_amount,
                },
                then: Some(
                    Continuation::CallbackFtDeposit {
                        a_vault_after: q.dest_after,
                        b_vault_after: q.source_after,
                        contract_id: self.a_contract_id.clone(),
                        receiver_id: sender_id.clone(),
                        amount: q.out_amount,
                    },
                ),
            },
        )
    }
    /// The owner pays `amount` display units of A into the pool. Any other
    /// caller is refused. The result is a transfer of the scaled amount from
    /// the owner to the pool, continued by settlement of the grown A vault
    /// beside the B vault as it stands.
    pub fn deposit_a_by_owner(&self, predecessor_id: &AccountId, current_id: &AccountId, amount: Balance) -> (r: Result<PromiseCall, AmmError>)
        ensures
            predecessor_id@ != self@.owner_id@ ==> r == Err::<PromiseCall, AmmError>(AmmError::Unauthorized),
            predecessor_id@ == self@.owner_id@ ==> match scale_spec(amount, self@.a.decimals) {
                Err(e) => r == Err::<PromiseCall, AmmError>(e),
                Ok(v) => if v + self@.a.vault > u128::MAX {
                    r == Err::<PromiseCall, AmmError>(AmmError::Overflow)
                } else {
                    r == Ok::<PromiseCall, AmmError>(transfer_spec(
                        self@.a.contract_id,
                        self@.owner_id,
                        *current_id,
                        v,
                        Some(Continuation::CallbackUpdateVaults {
                            a_vault_after: (v + self@.a.vault) as u128,
                            b_vault_after: self@.b.vault,
                        }),
                    ))
                },
            },
    {
        if *predecessor_id != self.owner_id {
            return Err(AmmError::Unauthorized);
        }
        let a_amount = match scale(amount, self.a_contract_decimals) {
            Err(e) => return Err(e),
            Ok(v) => v,
        };
        let a_vault_after = match a_amount.checked_add(self.a_vault) {
            None => return Err(AmmError::Overflow),
            Some(v) => v,
        };
        Ok(
            PromiseCall {
                token_id: self.a_contract_id.clone(),
                call: LedgerCall::TransferFrom {
                    sender: self.owner_id.clone(),
                    receiver: current_id.clone(),
                    amount: a_amount,
                },
                then: Some(Continuation::CallbackUpdateVaults { a_vault_after, b_vault_after: self.b_vault }),
            },
        )
    }

    /// The owner pays `amount` display units of B into the pool; the mirror
    /// image of `deposit_a_by_owner`.
    pub fn deposit_b_by_owner(&self, predecessor_id: &AccountId, current_id: &AccountId, amount: Balance) -> (r: Result<PromiseCall, AmmError>)
        ensures
            predecessor_id@ != self@.owner_id@ ==> r == Err::<PromiseCall, AmmError>(AmmError::Unauthorized),
            predecessor_id@ == self@.owner_id@ ==> match scale_spec(amount, self@.b.decimals) {
                Err(e) => r == Err::<PromiseCall, AmmError>(e),
                Ok(v) => if v + self@.b.vault > u128::MAX {
                    r == Err::<PromiseCall, AmmError>(AmmError::Overflow)
                } else {
                    r == Ok::<PromiseCall, AmmError>(transfer_spec(
                        self@.b.contract_id,
                        self@.owner_id,
                        *current_id,
                        v,
                        Some(Continuation::CallbackUpdateVaults {
                            a_vault_after: self@.a.vault,
                            b_vault_after: (v + self@.b.vault) as u128,
                        }),
                    ))
                },
            },
    {
        if *predecessor_id != self.owner_id {
            return Err(AmmError::Unauthorized);
        }
        let b_amount = match scale(amount, self.b_contract_decimals) {
            Err(e) => return Err(e),
            Ok(v) => v,
        };
        let b_vault_after = match b_amount.checked_add(self.b_vault) {
            None => return Err(AmmError::Overflow),
            Some(v) => v,
        };
        Ok(
            PromiseCall {
                token_id: self.b_contract_id.clone(),
                call: LedgerCall::TransferFrom {
                    sender: self.owner_id.clone(),
                    receiver: current_id.clone(),
                    amount: b_amount,
                },
                then: Some(Continuation::CallbackUpdateVaults { a_vault_after: self.a_vault, b_vault_after }),
            },
        )
    }

    /// Continuation of the metadata fetch from the ledger `contract_id`: only
    /// the pool itself may call it. Records the symbol and decimals for the
    /// matching token (nothing for a ledger of neither token) and sets `K` to
    /// the product of the vaults. Refused, with nothing changed, when the
    /// caller is not the pool or the product overflows.
    pub fn callback_get_info(
        &mut self,
        predecessor_id: &AccountId,
        current_id: &AccountId,
        contract_id: &AccountId,
        info: (String, u8),
    ) -> (r: Result<(), AmmError>)
        requires
            old(self).wf(),
        ensures
            predecessor_id@ != current_id@ ==> r == Err::<(), AmmError>(AmmError::Unauthorized),
            predecessor_id@ == current_id@ && old(self)@.a.vault * old(self)@.b.vault > u128::MAX
                ==> r == Err::<(), AmmError>(AmmError::Overflow),
            predecessor_id@ == current_id@ && old(self)@.a.vault * old(self)@.b.vault <= u128::MAX
                ==> r == Ok::<(), AmmError>(()),
            r is Err ==> final(self)@ == old(self)@,
            r is Ok ==> {
                &&& predecessor_id@ == current_id@
                &&& final(self)@.ratio == old(self)@.a.vault * old(self)@.b.vault
                &&& final(self)@.owner_id == old(self)@.owner_id
                &&& final(self)@.a.contract_id == old(self)@.a.contract_id
                &&& final(self)@.a.vault == old(self)@.a.vault
                &&& final(self)@.b.contract_id == old(self)@.b.contract_id
                &&& final(self)@.b.vault == old(self)@.b.vault
                &&& if contract_id@ == old(self)@.a.contract_id@ {
                    &&& final(self)@.a.name == info.0
                    &&& final(self)@.a.decimals == info.1
                    &&& final(self)@.b.name == old(self)@.b.name
                    &&& final(self)@.b.decimals == old(self)@.b.decimals
                } else if contract_id@ == old(self)@.b.contract_id@ {
                    &&& final(self)@.a.name == old(self)@.a.name
                    &&& final(self)@.a.decimals == old(self)@.a.decimals
                    &&& final(self)@.b.name == info.0
                    &&& final(self)@.b.decimals == info.1
                } else {
                    &&& final(self)@.a.name == old(self)@.a.name
                    &&& final(self)@.a.decimals == old(self)@.a.decimals
                    &&& final(self)@.b.name == old(self)@.b.name
                    &&& final(self)@.b.decimals == old(self)@.b.decimals
                }
            },
            final(self).wf(),
    {
        if *predecessor_id != *current_id {
            return Err(AmmError::Unauthorized);
        }
        let k = match compute_invariant(self.a_vault, self.b_vault) {
            Err(e) => return Err(e),
            Ok(k) => k,
        };
        if *contract_id == self.a_contract_id {
            self.a_contract_name = info.0;
            self.a_contract_decimals = info.1;
        } else if *contract_id == self.b_contract_id {
            self.b_contract_name = info.0;
            self.b_contract_decimals = info.1;
        }
        self.ratio = k;
        Ok(())
    }

    /// The second leg of a swap, run when the first leg has resolved
    /// (`leg_succeeded` tells how): only the pool itself may call it. Nothing
    /// changes. After a failed first leg there is no next call; otherwise the
    /// next call is a transfer of `amount` of the token `contract_id` from
    /// the pool to `receiver_id`, continued by settlement of the quoted
    /// vaults.
    pub fn callback_ft_deposit(
        &self,
        predecessor_id: &AccountId,
        current_id: &AccountId,
        leg_succeeded: bool,
        a_vault_after: Balance,
        b_vault_after: Balance,
        contract_id: AccountId,
        receiver_id: AccountId,
        amount: Balance,
    ) -> (r: Result<Option<PromiseCall>, AmmError>)
        ensures
            predecessor_id@ != current_id@ ==> r == Err::<Option<PromiseCall>, AmmError>(AmmError::Unauthorized),
            predecessor_id@ == current_id@ && !leg_succeeded ==> r == Ok::<Option<PromiseCall>, AmmError>(None),
            predecessor_id@ == current_id@ && leg_succeeded ==> r == Ok::<Option<PromiseCall>, AmmError>(Some(transfer_spec(
                contract_id,
                *current_id,
                receiver_id,
                amount,
                Some(Continuation::CallbackUpdateVaults { a_vault_after, b_vault_after }),
            ))),
    {
        if *predecessor_id != *current_id {
            return Err(AmmError::Unauthorized);
        }
        if !leg_succeeded {
            return Ok(None);
        }
        Ok(
            Some(
                PromiseCall {
                    token_id: contract_id,
                    call: LedgerCall::TransferFrom { sender: current_id.clone(), receiver: receiver_id, amount },
                    then: Some(Continuation::CallbackUpdateVaults { a_vault_after, b_vault_after }),
                },
            ),
        )
    }

    /// Settlement, the last step of every swap and deposit, run when the
    /// transfer before it has resolved (`leg_succeeded` tells how): only the
    /// pool itself may call it. After a failed transfer nothing changes;
    /// otherwise it commits both vaults and sets `K` to their product.
    /// Refused, with nothing changed, when the caller is not the pool or the
    /// product overflows.
    pub fn callback_update_vaults(
        &mut self,
        predecessor_id: &AccountId,
        current_id: &AccountId,
        leg_succeeded: bool,
        a_vault_after: Balance,
        b_vault_after: Balance,
    ) -> (r: Result<(), AmmError>)
        requires
            old(self).wf(),
        ensures
            predecessor_id@ != current_id@ ==> r == Err::<(), AmmError>(AmmError::Unauthorized),
            predecessor_id@ == current_id@ && !leg_succeeded ==> r == Ok::<(), AmmError>(()) && final(self)@
                == old(self)@,
            predecessor_id@ == current_id@ && leg_succeeded ==> match invariant_spec(a_vault_after, b_vault_after) {
                Err(e) => r == Err::<(), AmmError>(e),
                Ok(k) => r == Ok::<(), AmmError>(()) && final(self)@.ratio == k,
            },
            r is Err ==> final(self)@ == old(self)@,
            r is Ok && leg_succeeded ==> {
                &&& final(self)@.a.vault == a_vault_after
                &&& final(self)@.b.vault == b_vault_after
                &&& final(self)@.owner_id == old(self)@.owner_id
                &&& final(self)@.a.contract_id == old(self)@.a.contract_id
                &&& final(self)@.a.name == old(self)@.a.name
                &&& final(self)@.a.decimals == old(self)@.a.decimals
                &&& final(self)@.b.contract_id == old(self)@.b.contract_id
                &&& final(self)@.b.name == old(self)@.b.name
                &&& final(self)@.b.decimals == old(self)@.b.decimals
            },
            final(self).wf(),
    {
        if *predecessor_id != *current_id {
            return Err(AmmError::Unauthorized);
        }
        if !leg_succeeded {
            return Ok(());
        }
        let k = match compute_invariant(a_vault_after, b_vault_after) {
            Err(e) => return Err(e),
            Ok(k) => k,
        };
        self.a_vault = a_vault_after;
        self.b_vault = b_vault_after;
        self.ratio = k;
        Ok(())
    }

    /// Each token's ledger, symbol, vault and decimals, A first.
    pub fn get_info(&self) -> (r: ((AccountId, String, Balance, u8), (AccountId, String, Balance, u8)))
        ensures
            r == (
                (self@.a.contract_id, self@.a.name, self@.a.vault, self@.a.decimals),
                (self@.b.contract_id, self@.b.name, self@.b.vault, self@.b.decimals),
            ),
    {
        (
            (self.a_contract_id.clone(), self.a_contract_name.clone(), self.a_vault, self.a_contract_decimals),
            (self.b_contract_id.clone(), self.b_contract_name.clone(), self.b_vault, self.b_contract_decimals),
        )
    }

    /// The curve's constant `K`.
    pub fn get_ratio(&self) -> (r: u128)
        ensures
            r == self@.ratio,
    {
        self.ratio
    }
    /// Rebuilds a pool from its recorded parts: owner, `K`, and each token's
    /// ledger, symbol, vault and decimals. `None` when `K` is neither `0` nor
    /// the product of the vaults.
    pub fn from_parts(
        owner_id: AccountId,
        ratio: u128,
        a: (AccountId, String, Balance, u8),
        b: (AccountId, String, Balance, u8),
    ) -> (r: Option<Self>)
        ensures
            r is Some <==> (ratio == 0 || ratio == a.2 * b.2),
            r is Some ==> {
                &&& r->Some_0.wf()
                &&& r->Some_0@ == ContractState {
                    owner_id,
                    ratio,
                    a: AssetState { contract_id: a.0, name: a.1, vault: a.2, decimals: a.3 },
                    b: AssetState { contract_id: b.0, name: b.1, vault: b.2, decimals: b.3 },
                }
            },
    {
        if ratio != 0 {
            match compute_invariant(a.2, b.2) {
                Ok(k) if k == ratio => {},
                _ => return None,
            }
        }
        Some(
            Contract {
                owner_id,
                ratio,
                a_vault: a.2,
                a_contract_id: a.0,
                a_contract_name: a.1,
                a_contract_decimals: a.3,
                b_vault: b.2,
                b_contract_id: b.0,
                b_contract_name: b.1,
                b_contract_decimals: b.3,
            },
        )
    }

    /// The account allowed to deposit into the vaults.
    pub fn owner_id(&self) -> (r: AccountId)
        ensures
            r == self@.owner_id,
    {
        self.owner_id.clone()
    }
}

} // verus!
