//! The user façade: it owns the wallet's view of the remote program,
//! derives and caches the per-user account address, keeps the per-user
//! record cached, and turns intents into atomic submissions.
//!
//! Builders read the façade's caches rather than forcing refreshes; a
//! caller that needs freshness forces the relevant cache explicitly
//! before building.

use vstd::prelude::*;
use crate::address::{Address, spec_address_from_bytes};
use crate::accounts::DefaultClearingHouseAccount;
use crate::compose::{Submission, compose};
use crate::errors::DriftError;
use crate::ops::{Operation, ProgramSet, PositionDirection, build_initialize_user,
    build_deposit_collateral, build_withdraw_collateral, build_open_position,
    build_close_position, build_delete_user, spec_initialize_user_payload,
    spec_initialize_user_accounts, spec_deposit_collateral_payload,
    spec_deposit_collateral_accounts, spec_withdraw_collateral_payload,
    spec_withdraw_collateral_accounts, spec_open_position_payload, spec_close_position_payload,
    spec_manage_position_accounts, spec_delete_user_payload, spec_delete_user_accounts,
    spec_zero_address, spec_initialize_user_ok};
use crate::pda::{pda_of, user_seed, user_seed_bytes, derive_address};
use crate::records::{StateRecord, MarketsRecord, UserRecord, Record, MARKET_SLOT_COUNT,
    USER_BYTES, USER_TAG, spec_user_from_bytes, decode_user};
use vstd::bytes::spec_u64_from_le_bytes;

verus! {

/// The user-side view of the clearing house: the program identities, the
/// signing wallet's address, the tracked account handles, and the lazily
/// derived and cached per-user account.
#[derive(Debug)]
pub struct ClearingHouseUser {
    pub programs: ProgramSet,
    pub wallet: Address,
    pub accounts: DefaultClearingHouseAccount,
    pub user_pubkey_and_nonce: Option<(Address, u8)>,
    pub user_account: Option<UserRecord>,
}

impl ClearingHouseUser {
    pub open spec fn wf(self) -> bool {
        self.accounts.wf()
    }

    /// Whether the root configuration record is cached.
    pub open spec fn has_state(self) -> bool {
        self.accounts.state.cached is Some
    }

    /// The cached root configuration record.
    pub open spec fn spec_state_rec(self) -> StateRecord {
        self.accounts.state.cached->Some_0->State_0
    }

    /// Whether the market list is cached.
    pub open spec fn has_markets(self) -> bool {
        self.accounts.markets.cached is Some
    }

    /// The cached market list.
    pub open spec fn spec_markets_rec(self) -> MarketsRecord {
        self.accounts.markets.cached->Some_0->Markets_0
    }

    /// The user account key this façade works under, after the lazy
    /// derivation has run: the cached pair when one exists, otherwise
    /// what derivation yields for the seeds (user seed, wallet bytes).
    pub open spec fn spec_user_key_after(self) -> Option<(Address, u8)> {
        if self.user_pubkey_and_nonce is Some {
            self.user_pubkey_and_nonce
        } else {
            match pda_of(
                seq![user_seed(), self.wallet.byte_seq()],
                self.programs.program.byte_seq(),
            ) {
                Some(p) => Some((spec_address_from_bytes(p.0), p.1)),
                None => None,
            }
        }
    }

    /// A fresh façade: nothing derived, nothing cached.
    pub fn new(programs: ProgramSet, wallet: Address, accounts: DefaultClearingHouseAccount)
        -> (r: ClearingHouseUser)
        requires
            accounts.wf(),
        ensures
            r.wf(),
            r.programs == programs,
            r.wallet == wallet,
            r.accounts == accounts,
            r.user_pubkey_and_nonce is None,
            r.user_account is None,
    {
        ClearingHouseUser {
            programs,
            wallet,
            accounts,
            user_pubkey_and_nonce: None,
            user_account: None,
        }
    }

    /// The per-user account address and nonce, derived once from the user
    /// seed and the wallet's bytes and cached thereafter. Exhaustion of
    /// the derivation search space is surfaced, never ignored.
    pub fn user_account_pubkey_and_nonce(&mut self) -> (r: Result<(Address, u8), DriftError>)
        ensures
            r is Ok <==> old(self).spec_user_key_after() is Some,
            r is Ok ==> r->Ok_0 == old(self).spec_user_key_after()->Some_0 && *final(self) == (
            ClearingHouseUser {
                user_pubkey_and_nonce: Some(r->Ok_0),
                ..*old(self)
            }),
            r is Err ==> r->Err_0 == DriftError::DerivationExhausted && *final(self) == *old(
                self,
            ),
    {
        match &self.user_pubkey_and_nonce {
            Some(p) => {
                let r = *p;
                proof {
                    assert(*self =~= (ClearingHouseUser {
                        user_pubkey_and_nonce: Some(r),
                        ..*old(self)
                    }));
                }
                Ok(r)
            },
            None => {
                let mut seeds: Vec<Vec<u8>> = Vec::new();
                seeds.push(user_seed_bytes());
                seeds.push(self.wallet.to_byte_vec());
                proof {
                    assert(crate::pda::seeds_view(seeds@) =~= seq![
                        user_seed(),
                        self.wallet.byte_seq(),
                    ]);
                }
                match derive_address(&seeds, &self.programs.program) {
                    Ok(p) => {
                        self.user_pubkey_and_nonce = Some(p);
                        Ok(p)
                    },
                    Err(e) => Err(e),
                }
            },
        }
    }

    /// The per-user record under `get(force)` semantics, with the remote
    /// read's outcome handed in: a read is consumed exactly when forced or
    /// when nothing is cached; fetched bytes that decode replace the
    /// cache; failures leave it untouched.
    pub fn user_account(&mut self, force: bool, fetched: Option<Result<Vec<u8>, DriftError>>)
        -> (r: Result<UserRecord, DriftError>)
        requires
            fetched is Some <==> (force || old(self).user_account is None),
        ensures
            *final(self) == (ClearingHouseUser {
                user_account: final(self).user_account,
                ..*old(self)
            }),
            !(force || old(self).user_account is None) ==> *final(self) == *old(self) && r is Ok
                && r->Ok_0 == old(self).user_account->Some_0,
            (match fetched {
                Some(Ok(bytes)) => {
                    if bytes@.len() == USER_BYTES && spec_u64_from_le_bytes(bytes@.subrange(0, 8))
                        == USER_TAG {
                        &&& r is Ok
                        &&& r->Ok_0 == spec_user_from_bytes(bytes@)
                        &&& final(self).user_account == Some(r->Ok_0)
                    } else {
                        &&& r is Err
                        &&& r->Err_0 == DriftError::DecodeError
                        &&& final(self).user_account == old(self).user_account
                    }
                },
                Some(Err(e)) => r is Err && r->Err_0 == e && final(self).user_account == old(
                    self,
                ).user_account,
                None => true,
            }),
    {
        match fetched {
            Some(Ok(bytes)) => {
                match decode_user(bytes.as_slice()) {
                    Ok(u) => {
                        self.user_account = Some(u);
                        Ok(u)
                    },
                    Err(e) => Err(e),
                }
            },
            Some(Err(e)) => Err(e),
            None => {
                match &self.user_account {
                    Some(u) => Ok(*u),
                    None => vstd::pervasive::unreached(),
                }
            },
        }
    }

    /// The cached root configuration record. The builders below read the
    /// cache; they never force a refresh.
    fn cached_state(&self) -> (r: StateRecord)
        requires
            self.wf(),
            self.has_state(),
        ensures
            r == self.spec_state_rec(),
    {
        match self.accounts.state.cached_record() {
            Some(rec) => match rec.as_state() {
                Some(s) => *s,
                None => vstd::pervasive::unreached(),
            },
            None => vstd::pervasive::unreached(),
        }
    }

    /// The cached market list, cloned out of the handle.
    fn cached_markets(&self) -> (r: MarketsRecord)
        requires
            self.wf(),
            self.has_markets(),
        ensures
            r.slots@ == self.spec_markets_rec().slots@,
            r.wf(),
    {
        match self.accounts.markets.cached_record() {
            Some(rec) => match rec.as_markets() {
                Some(m) => {
                    let mut slots: Vec<crate::records::MarketSlot> = Vec::new();
                    let n: usize = m.slots.len();
                    let mut i: usize = 0;
                    while i < n
                        invariant
                            n == m.slots@.len(),
                            i <= n,
                            slots@.len() == i,
                            forall|k: int| 0 <= k < i ==> slots@[k] == m.slots@[k],
                        decreases n - i,
                    {
                        slots.push(m.slots[i]);
                        i += 1;
                    }
                    let out = MarketsRecord { slots };
                    proof {
                        assert(out.slots@ =~= m.slots@);
                    }
                    out
                },
                None => vstd::pervasive::unreached(),
            },
            None => vstd::pervasive::unreached(),
        }
    }

    /// Build the user-initialization operation from the cached root
    /// configuration, deriving (and caching) the user account address.
    /// `user_positions` is the freshly generated identity that will own
    /// the positions list; it must co-sign the submission that carries
    /// this operation.
    pub fn initialize_user_ix(&mut self, user_positions: Address) -> (r: Result<
        (Address, Operation),
        DriftError,
    >)
        requires
            old(self).wf(),
            old(self).has_state(),
        ensures
            final(self).wf(),
            *final(self) == (ClearingHouseUser {
                user_pubkey_and_nonce: final(self).user_pubkey_and_nonce,
                ..*old(self)
            }),
            r is Ok <==> (old(self).spec_user_key_after() is Some && spec_initialize_user_ok(
                old(self).spec_state_rec(),
                old(self).wallet,
            )),
            r is Err ==> r->Err_0 == DriftError::DerivationExhausted,
            r is Ok ==> {
                &&& final(self).user_pubkey_and_nonce == Some(
                    old(self).spec_user_key_after()->Some_0,
                )
                &&& r->Ok_0.0 == old(self).spec_user_key_after()->Some_0.0
                &&& r->Ok_0.1.program == old(self).programs.program
                &&& r->Ok_0.1.payload@ == spec_initialize_user_payload(
                    old(self).spec_user_key_after()->Some_0.1,
                    old(self).spec_state_rec().whitelist_mint != spec_zero_address(),
                )
                &&& r->Ok_0.1.accounts@ == spec_initialize_user_accounts(
                    old(self).programs,
                    old(self).accounts.state.address,
                    old(self).spec_state_rec(),
                    old(self).wallet,
                    r->Ok_0.0,
                    user_positions,
                )
            },
    {
        let (user_pubkey, user_nonce) = match self.user_account_pubkey_and_nonce() {
            Ok(p) => p,
            Err(e) => {
                return Err(e);
            },
        };
        let state = self.cached_state();
        let op = match build_initialize_user(
            &self.programs,
            self.accounts.state.address,
            &state,
            self.wallet,
            user_pubkey,
            user_nonce,
            user_positions,
        ) {
            Ok(op) => op,
            Err(e) => {
                return Err(e);
            },
        };
        Ok((user_pubkey, op))
    }

    /// Build the collateral-deposit operation from the cached root
    /// configuration. When no positions address is supplied, the cached
    /// per-user record's positions list is used.
    pub fn deposit_collateral_ix(
        &mut self,
        amount: u64,
        collateral_acc_pub: Address,
        user_pos_acc_pub: Option<Address>,
    ) -> (r: Result<Operation, DriftError>)
        requires
            old(self).wf(),
            old(self).has_state(),
            user_pos_acc_pub is None ==> old(self).user_account is Some,
        ensures
            final(self).wf(),
            *final(self) == (ClearingHouseUser {
                user_pubkey_and_nonce: final(self).user_pubkey_and_nonce,
                ..*old(self)
            }),
            r is Ok <==> old(self).spec_user_key_after() is Some,
            r is Err ==> r->Err_0 == DriftError::DerivationExhausted && *final(self) == *old(
                self,
            ),
            r is Ok ==> {
                &&& final(self).user_pubkey_and_nonce == Some(
                    old(self).spec_user_key_after()->Some_0,
                )
                &&& r->Ok_0.program == old(self).programs.program
                &&& r->Ok_0.payload@ == spec_deposit_collateral_payload(amount)
                &&& r->Ok_0.accounts@ == spec_deposit_collateral_accounts(
                    old(self).programs,
                    old(self).accounts.state.address,
                    old(self).spec_state_rec(),
                    old(self).spec_user_key_after()->Some_0.0,
                    old(self).wallet,
                    collateral_acc_pub,
                    old(self).accounts.markets.address,
                    (match user_pos_acc_pub {
                        Some(p) => p,
                        None => old(self).user_account->Some_0.positions,
                    }),
                )
            },
    {
        let (user_pubkey, _user_nonce) = match self.user_account_pubkey_and_nonce() {
            Ok(p) => p,
            Err(e) => {
                return Err(e);
            },
        };
        let positions = match user_pos_acc_pub {
            Some(p) => p,
            None => match &self.user_account {
                Some(u) => u.positions,
                None => vstd::pervasive::unreached(),
            },
        };
        let state = self.cached_state();
        let op = build_deposit_collateral(
            &self.programs,
            self.accounts.state.address,
            &state,
            user_pubkey,
            self.wallet,
            amount,
            collateral_acc_pub,
            self.accounts.markets.address,
            positions,
        );
        Ok(op)
    }

    /// The atomic action "create the user account": one submission holding
    /// the user-initialization operation, co-signed by the positions
    /// identity. Returns the submission and the user account's address.
    pub fn initialize_user_account_submission(&mut self, user_positions: Address) -> (r: Result<
        (Submission, Address),
        DriftError,
    >)
        requires
            old(self).wf(),
            old(self).has_state(),
        ensures
            final(self).wf(),
            r is Ok <==> (old(self).spec_user_key_after() is Some && spec_initialize_user_ok(
                old(self).spec_state_rec(),
                old(self).wallet,
            )),
            r is Err ==> r->Err_0 == DriftError::DerivationExhausted,
            r is Ok ==> {
                &&& r->Ok_0.1 == old(self).spec_user_key_after()->Some_0.0
                &&& r->Ok_0.0.fee_payer == old(self).wallet
                &&& r->Ok_0.0.signers@ == seq![old(self).wallet, user_positions]
                &&& r->Ok_0.0.operations@.len() == 1
                &&& r->Ok_0.0.operations@[0].payload@ == spec_initialize_user_payload(
                    old(self).spec_user_key_after()->Some_0.1,
                    old(self).spec_state_rec().whitelist_mint != spec_zero_address(),
                )
                &&& r->Ok_0.0.operations@[0].accounts@ == spec_initialize_user_accounts(
                    old(self).programs,
                    old(self).accounts.state.address,
                    old(self).spec_state_rec(),
                    old(self).wallet,
                    r->Ok_0.1,
                    user_positions,
                )
            },
    {
        let (user_pubkey, op) = match self.initialize_user_ix(user_positions) {
            Ok(p) => p,
            Err(e) => {
                return Err(e);
            },
        };
        let mut extra: Vec<Address> = Vec::new();
        extra.push(user_positions);
        let mut operations: Vec<Operation> = Vec::new();
        operations.push(op);
        let s = compose(self.wallet, extra, operations);
        proof {
            assert(s.signers@ =~= seq![old(self).wallet, user_positions]);
        }
        Ok((s, user_pubkey))
    }

    /// The atomic action "create the user account and fund it": a single
    /// submission holding the user-initialization operation and then the
    /// collateral deposit into the same freshly created positions list —
    /// never two submissions, so both effects land or neither does.
    pub fn initialize_user_account_and_deposit_collateral_submission(
        &mut self,
        user_positions: Address,
        amount: u64,
        collateral_acc_pub: Address,
    ) -> (r: Result<(Submission, Address), DriftError>)
        requires
            old(self).wf(),
            old(self).has_state(),
        ensures
            final(self).wf(),
            *final(self) == (ClearingHouseUser {
                user_pubkey_and_nonce: final(self).user_pubkey_and_nonce,
                ..*old(self)
            }),
            r is Ok <==> (old(self).spec_user_key_after() is Some && spec_initialize_user_ok(
                old(self).spec_state_rec(),
                old(self).wallet,
            )),
            r is Err ==> r->Err_0 == DriftError::DerivationExhausted,
            r is Ok ==> {
                &&& r->Ok_0.1 == old(self).spec_user_key_after()->Some_0.0
                &&& r->Ok_0.0.fee_payer == old(self).wallet
                &&& r->Ok_0.0.signers@ == seq![old(self).wallet, user_positions]
                &&& r->Ok_0.0.operations@.len() == 2
                &&& r->Ok_0.0.operations@[0].payload@ == spec_initialize_user_payload(
                    old(self).spec_user_key_after()->Some_0.1,
                    old(self).spec_state_rec().whitelist_mint != spec_zero_address(),
                )
                &&& r->Ok_0.0.operations@[0].accounts@ == spec_initialize_user_accounts(
                    old(self).programs,
                    old(self).accounts.state.address,
                    old(self).spec_state_rec(),
                    old(self).wallet,
                    r->Ok_0.1,
                    user_positions,
                )
                &&& r->Ok_0.0.operations@[1].payload@ == spec_deposit_collateral_payload(amount)
                &&& r->Ok_0.0.operations@[1].accounts@ == spec_deposit_collateral_accounts(
                    old(self).programs,
                    old(self).accounts.state.address,
                    old(self).spec_state_rec(),
                    old(self).spec_user_key_after()->Some_0.0,
                    old(self).wallet,
                    collateral_acc_pub,
                    old(self).accounts.markets.address,
                    user_positions,
                )
            },
    {
        let (user_pubkey, init_op) = match self.initialize_user_ix(user_positions) {
            Ok(p) => p,
            Err(e) => {
                return Err(e);
            },
        };
        let deposit_op = match self.deposit_collateral_ix(
            amount,
            collateral_acc_pub,
            Some(user_positions),
        ) {
            Ok(op) => op,
            Err(e) => {
                return Err(e);
            },
        };
        let mut extra: Vec<Address> = Vec::new();
        extra.push(user_positions);
        let mut operations: Vec<Operation> = Vec::new();
        operations.push(init_op);
        operations.push(deposit_op);
        let s = compose(self.wallet, extra, operations);
        proof {
            assert(s.signers@ =~= seq![old(self).wallet, user_positions]);
            assert(s.operations@.len() == 2);
        }
        Ok((s, user_pubkey))
    }

    /// One submission that deposits collateral.
    pub fn deposit_collateral_submission(
        &mut self,
        amount: u64,
        collateral_acc_pub: Address,
        user_pos_acc_pub: Option<Address>,
    ) -> (r: Result<Submission, DriftError>)
        requires
            old(self).wf(),
            old(self).has_state(),
            user_pos_acc_pub is None ==> old(self).user_account is Some,
        ensures
            final(self).wf(),
            r is Ok <==> old(self).spec_user_key_after() is Some,
            r is Err ==> r->Err_0 == DriftError::DerivationExhausted,
            r is Ok ==> {
                &&& r->Ok_0.fee_payer == old(self).wallet
                &&& r->Ok_0.signers@ == seq![old(self).wallet]
                &&& r->Ok_0.operations@.len() == 1
                &&& r->Ok_0.operations@[0].payload@ == spec_deposit_collateral_payload(amount)
                &&& r->Ok_0.operations@[0].accounts@ == spec_deposit_collateral_accounts(
                    old(self).programs,
                    old(self).accounts.state.address,
                    old(self).spec_state_rec(),
                    old(self).spec_user_key_after()->Some_0.0,
                    old(self).wallet,
                    collateral_acc_pub,
                    old(self).accounts.markets.address,
                    (match user_pos_acc_pub {
                        Some(p) => p,
                        None => old(self).user_account->Some_0.positions,
                    }),
                )
            },
    {
        let op = match self.deposit_collateral_ix(amount, collateral_acc_pub, user_pos_acc_pub) {
            Ok(op) => op,
            Err(e) => {
                return Err(e);
            },
        };
        let extra: Vec<Address> = Vec::new();
        let mut operations: Vec<Operation> = Vec::new();
        operations.push(op);
        let s = compose(self.wallet, extra, operations);
        proof {
            assert(s.signers@ =~= seq![old(self).wallet]);
        }
        Ok(s)
    }

    /// One submission that withdraws collateral, built from the cached
    /// root configuration and the cached per-user record.
    pub fn withdraw_collateral_submission(&mut self, amount: u64, collateral_acc_pub: Address)
        -> (r: Result<Submission, DriftError>)
        requires
            old(self).wf(),
            old(self).has_state(),
            old(self).user_account is Some,
        ensures
            final(self).wf(),
            r is Ok <==> old(self).spec_user_key_after() is Some,
            r is Err ==> r->Err_0 == DriftError::DerivationExhausted,
            r is Ok ==> {
                &&& r->Ok_0.fee_payer == old(self).wallet
                &&& r->Ok_0.signers@ == seq![old(self).wallet]
                &&& r->Ok_0.operations@.len() == 1
                &&& r->Ok_0.operations@[0].payload@ == spec_withdraw_collateral_payload(amount)
                &&& r->Ok_0.operations@[0].accounts@ == spec_withdraw_collateral_accounts(
                    old(self).programs,
                    old(self).accounts.state.address,
                    old(self).spec_state_rec(),
                    old(self).spec_user_key_after()->Some_0.0,
                    old(self).wallet,
                    collateral_acc_pub,
                    old(self).user_account->Some_0.positions,
                )
            },
    {
        let (user_pubkey, _user_nonce) = match self.user_account_pubkey_and_nonce() {
            Ok(p) => p,
            Err(e) => {
                return Err(e);
            },
        };
        let positions = match &self.user_account {
            Some(u) => u.positions,
            None => vstd::pervasive::unreached(),
        };
        let state = self.cached_state();
        let op = build_withdraw_collateral(
            &self.programs,
            self.accounts.state.address,
            &state,
            user_pubkey,
            self.wallet,
            amount,
            collateral_acc_pub,
            positions,
        );
        let extra: Vec<Address> = Vec::new();
        let mut operations: Vec<Operation> = Vec::new();
        operations.push(op);
        let s = compose(self.wallet, extra, operations);
        proof {
            assert(s.signers@ =~= seq![old(self).wallet]);
        }
        Ok(s)
    }

    /// One submission that opens a position. The market index is
    /// bounds-checked against the cached market list before any other
    /// work; the slot's price reference joins the account list; the
    /// optional discount-token and referrer accounts travel with their
    /// payload flags.
    pub fn open_position_submission(
        &mut self,
        direction: PositionDirection,
        quote_asset_amount: u128,
        market_index: u64,
        limit_price: Option<u128>,
        discount_token: Option<Address>,
        referrer: Option<Address>,
    ) -> (r: Result<Submission, DriftError>)
        requires
            old(self).wf(),
            old(self).has_state(),
            old(self).has_markets(),
            old(self).user_account is Some,
        ensures
            final(self).wf(),
            r is Ok <==> (old(self).spec_user_key_after() is Some && market_index
                < MARKET_SLOT_COUNT),
            old(self).spec_user_key_after() is None ==> r is Err && r->Err_0
                == DriftError::DerivationExhausted,
            old(self).spec_user_key_after() is Some && market_index >= MARKET_SLOT_COUNT ==> r
                is Err && r->Err_0 == DriftError::InvalidMarketIndex,
            r is Ok ==> {
                &&& r->Ok_0.fee_payer == old(self).wallet
                &&& r->Ok_0.signers@ == seq![old(self).wallet]
                &&& r->Ok_0.operations@.len() == 1
                &&& r->Ok_0.operations@[0].payload@ == spec_open_position_payload(
                    direction,
                    quote_asset_amount,
                    market_index,
                    (match limit_price {
                        Some(p) => p,
                        None => 0u128,
                    }),
                    discount_token is Some,
                    referrer is Some,
                )
                &&& r->Ok_0.operations@[0].accounts@ == spec_manage_position_accounts(
                    old(self).accounts.state.address,
                    old(self).spec_state_rec(),
                    old(self).spec_user_key_after()->Some_0.0,
                    old(self).wallet,
                    old(self).user_account->Some_0.positions,
                    old(self).spec_markets_rec().slots@[market_index as int].oracle,
                    discount_token,
                    referrer,
                )
            },
    {
        let (user_pubkey, _user_nonce) = match self.user_account_pubkey_and_nonce() {
            Ok(p) => p,
            Err(e) => {
                return Err(e);
            },
        };
        let positions = match &self.user_account {
            Some(u) => u.positions,
            None => vstd::pervasive::unreached(),
        };
        let state = self.cached_state();
        let markets = self.cached_markets();
        let op = match build_open_position(
            &self.programs,
            self.accounts.state.address,
            &state,
            &markets,
            user_pubkey,
            self.wallet,
            positions,
            direction,
            quote_asset_amount,
            market_index,
            limit_price,
            discount_token,
            referrer,
        ) {
            Ok(op) => op,
            Err(e) => {
                return Err(e);
            },
        };
        let extra: Vec<Address> = Vec::new();
        let mut operations: Vec<Operation> = Vec::new();
        operations.push(op);
        let s = compose(self.wallet, extra, operations);
        proof {
            assert(s.signers@ =~= seq![old(self).wallet]);
        }
        Ok(s)
    }

    /// One submission that closes a position, under the same bounds check
    /// and optional-account discipline as opening one.
    pub fn close_position_submission(
        &mut self,
        market_index: u64,
        discount_token: Option<Address>,
        referrer: Option<Address>,
    ) -> (r: Result<Submission, DriftError>)
        requires
            old(self).wf(),
            old(self).has_state(),
            old(self).has_markets(),
            old(self).user_account is Some,
        ensures
            final(self).wf(),
            r is Ok <==> (old(self).spec_user_key_after() is Some && market_index
                < MARKET_SLOT_COUNT),
            old(self).spec_user_key_after() is None ==> r is Err && r->Err_0
                == DriftError::DerivationExhausted,
            old(self).spec_user_key_after() is Some && market_index >= MARKET_SLOT_COUNT ==> r
                is Err && r->Err_0 == DriftError::InvalidMarketIndex,
            r is Ok ==> {
                &&& r->Ok_0.fee_payer == old(self).wallet
                &&& r->Ok_0.signers@ == seq![old(self).wallet]
                &&& r->Ok_0.operations@.len() == 1
                &&& r->Ok_0.operations@[0].payload@ == spec_close_position_payload(
                    market_index,
                    discount_token is Some,
                    referrer is Some,
                )
                &&& r->Ok_0.operations@[0].accounts@ == spec_manage_position_accounts(
                    old(self).accounts.state.address,
                    old(self).spec_state_rec(),
                    old(self).spec_user_key_after()->Some_0.0,
                    old(self).wallet,
                    old(self).user_account->Some_0.positions,
                    old(self).spec_markets_rec().slots@[market_index as int].oracle,
                    discount_token,
                    referrer,
                )
            },
    {
        let (user_pubkey, _user_nonce) = match self.user_account_pubkey_and_nonce() {
            Ok(p) => p,
            Err(e) => {
                return Err(e);
            },
        };
        let positions = match &self.user_account {
            Some(u) => u.positions,
            None => vstd::pervasive::unreached(),
        };
        let state = self.cached_state();
        let markets = self.cached_markets();
        let op = match build_close_position(
            &self.programs,
            self.accounts.state.address,
            &state,
            &markets,
            user_pubkey,
            self.wallet,
            positions,
            market_index,
            discount_token,
            referrer,
        ) {
            Ok(op) => op,
            Err(e) => {
                return Err(e);
            },
        };
        let extra: Vec<Address> = Vec::new();
        let mut operations: Vec<Operation> = Vec::new();
        operations.push(op);
        let s = compose(self.wallet, extra, operations);
        proof {
            assert(s.signers@ =~= seq![old(self).wallet]);
        }
        Ok(s)
    }

    /// One submission that deletes the user account, built from the
    /// cached per-user record's positions list.
    pub fn delete_user_submission(&mut self) -> (r: Result<Submission, DriftError>)
        requires
            old(self).wf(),
            old(self).user_account is Some,
        ensures
            final(self).wf(),
            r is Ok <==> old(self).spec_user_key_after() is Some,
            r is Err ==> r->Err_0 == DriftError::DerivationExhausted,
            r is Ok ==> {
                &&& r->Ok_0.fee_payer == old(self).wallet
                &&& r->Ok_0.signers@ == seq![old(self).wallet]
                &&& r->Ok_0.operations@.len() == 1
                &&& r->Ok_0.operations@[0].payload@ == spec_delete_user_payload()
                &&& r->Ok_0.operations@[0].accounts@ == spec_delete_user_accounts(
                    old(self).spec_user_key_after()->Some_0.0,
                    old(self).user_account->Some_0.positions,
                    old(self).wallet,
                )
            },
    {
        let (user_pubkey, _user_nonce) = match self.user_account_pubkey_and_nonce() {
            Ok(p) => p,
            Err(e) => {
                return Err(e);
            },
        };
        let positions = match &self.user_account {
            Some(u) => u.positions,
            None => vstd::pervasive::unreached(),
        };
        let op = build_delete_user(&self.programs, user_pubkey, positions, self.wallet);
        let extra: Vec<Address> = Vec::new();
        let mut operations: Vec<Operation> = Vec::new();
        operations.push(op);
        let s = compose(self.wallet, extra, operations);
        proof {
            assert(s.signers@ =~= seq![old(self).wallet]);
        }
        Ok(s)
    }
}

} // verus!
