//! The admin façade: initializing the program state and its markets.

use vstd::prelude::*;
use crate::address::{Address, spec_address_from_bytes};
use crate::compose::{Submission, compose};
use crate::errors::DriftError;
use crate::ops::{Operation, ProgramSet, build_initialize, build_initialize_history,
    build_initialize_market, build_create_account, spec_initialize_payload,
    spec_initialize_accounts, spec_initialize_history_payload, spec_initialize_history_accounts,
    spec_initialize_market_payload, spec_initialize_market_accounts,
    spec_create_account_payload, spec_create_account_accounts};
use crate::pda::{pda_of, state_seed, collateral_vault_seed, insurance_vault_seed,
    state_seed_bytes, collateral_vault_seed_bytes, insurance_vault_seed_bytes, derive_address,
    seeds_view};
use crate::records::{StateRecord, MarketsRecord, MARKET_SLOT_COUNT};
use crate::trade::{MARKETS_SIZE, FUNDING_RATE_HISTORY_SIZE, FUNDING_PAYMENT_HISTORY_SIZE,
    TRADE_HISTORY_SIZE, LIQUIDATION_HISTORY_SIZE, DEPOSIT_HISTORY_SIZE, CURVE_HISTORY_SIZE};

verus! {

/// What derivation yields for a seed list, as an address/nonce pair.
pub open spec fn spec_pda_addr(seeds: Seq<Seq<u8>>, program: Address) -> Option<(Address, u8)> {
    match pda_of(seeds, program.byte_seq()) {
        Some(p) => Some((spec_address_from_bytes(p.0), p.1)),
        None => None,
    }
}

/// The derived funds-custody account of a program.
pub open spec fn spec_collateral_vault(program: Address) -> Option<(Address, u8)> {
    spec_pda_addr(seq![collateral_vault_seed()], program)
}

/// The derived reserve-custody account of a program.
pub open spec fn spec_insurance_vault(program: Address) -> Option<(Address, u8)> {
    spec_pda_addr(seq![insurance_vault_seed()], program)
}

/// The authority derived from a custody account's own bytes.
pub open spec fn spec_vault_authority(vault: Address, program: Address) -> Option<
    (Address, u8),
> {
    spec_pda_addr(seq![vault.byte_seq()], program)
}

/// The derived root configuration account of a program.
pub open spec fn spec_state_key(program: Address) -> Option<(Address, u8)> {
    spec_pda_addr(seq![state_seed()], program)
}

/// Whether every address the initialization needs can be derived.
pub open spec fn spec_init_derivations_ok(program: Address) -> bool {
    &&& spec_collateral_vault(program) is Some
    &&& spec_vault_authority(spec_collateral_vault(program)->Some_0.0, program) is Some
    &&& spec_insurance_vault(program) is Some
    &&& spec_vault_authority(spec_insurance_vault(program)->Some_0.0, program) is Some
    &&& spec_state_key(program) is Some
}

/// The freshly generated identities of the accounts that initialization
/// creates: the market list and the six history logs. Each must co-sign
/// the submission that creates it.
#[derive(Clone, Copy, PartialEq, Eq, Structural, Debug)]
pub struct InitIdentities {
    pub markets: Address,
    pub deposit_history: Address,
    pub funding_payment_history: Address,
    pub trade_history: Address,
    pub liquidation_history: Address,
    pub funding_rate_history: Address,
    pub curve_history: Address,
}

/// The lamports that make each created account rent-exempt at its
/// externally-specified size, quoted by the transport beforehand.
#[derive(Clone, Copy, PartialEq, Eq, Structural, Debug)]
pub struct RentCosts {
    pub markets: u64,
    pub deposit_history: u64,
    pub funding_payment_history: u64,
    pub trade_history: u64,
    pub liquidation_history: u64,
    pub funding_rate_history: u64,
    pub curve_history: u64,
}

/// The admin-side view of the clearing house: the program identities and
/// the administrator's signing wallet.
#[derive(Clone, Copy, PartialEq, Eq, Structural, Debug)]
pub struct DefaultClearingHouseAdmin {
    pub programs: ProgramSet,
    pub wallet: Address,
}

impl DefaultClearingHouseAdmin {
    pub fn new(programs: ProgramSet, wallet: Address) -> (r: DefaultClearingHouseAdmin)
        ensures
            r == (DefaultClearingHouseAdmin { programs, wallet }),
    {
        DefaultClearingHouseAdmin { programs, wallet }
    }

    /// Plan the initialization of the program state as two submissions:
    /// first the market list is created and the state initialized over
    /// the derived custody accounts and authorities; then the six history
    /// accounts are created, each at its externally-specified size, and
    /// registered. `state_exists` is the pre-check read's answer: an
    /// existing state account is refused before anything is built.
    pub fn initialize_clearing_house_submissions(
        &self,
        usdc_mint: Address,
        admin_controls_prices: bool,
        state_exists: bool,
        identities: &InitIdentities,
        rents: &RentCosts,
    ) -> (r: Result<(Submission, Submission), DriftError>)
        ensures
            state_exists ==> r is Err && r->Err_0 == DriftError::AlreadyInitialized,
            !state_exists && !spec_init_derivations_ok(self.programs.program) ==> r is Err
                && r->Err_0 == DriftError::DerivationExhausted,
            r is Ok <==> (!state_exists && spec_init_derivations_ok(self.programs.program)),
            r is Ok ==> ({
                let cv = spec_collateral_vault(self.programs.program)->Some_0;
                let cv_auth = spec_vault_authority(cv.0, self.programs.program)->Some_0.0;
                let iv = spec_insurance_vault(self.programs.program)->Some_0;
                let iv_auth = spec_vault_authority(iv.0, self.programs.program)->Some_0.0;
                let st = spec_state_key(self.programs.program)->Some_0;
                &&& r->Ok_0.0.fee_payer == self.wallet
                &&& r->Ok_0.0.signers@ == seq![self.wallet, identities.markets]
                &&& r->Ok_0.0.operations@.len() == 2
                &&& r->Ok_0.0.operations@[0].program == self.programs.system_program
                &&& r->Ok_0.0.operations@[0].payload@ == spec_create_account_payload(
                    rents.markets,
                    MARKETS_SIZE,
                    self.programs.program,
                )
                &&& r->Ok_0.0.operations@[0].accounts@ == spec_create_account_accounts(
                    self.wallet,
                    identities.markets,
                )
                &&& r->Ok_0.0.operations@[1].program == self.programs.program
                &&& r->Ok_0.0.operations@[1].payload@ == spec_initialize_payload(
                    st.1,
                    cv.1,
                    iv.1,
                    admin_controls_prices,
                )
                &&& r->Ok_0.0.operations@[1].accounts@ == spec_initialize_accounts(
                    self.programs,
                    self.wallet,
                    st.0,
                    usdc_mint,
                    cv.0,
                    cv_auth,
                    iv.0,
                    iv_auth,
                    identities.markets,
                )
                &&& r->Ok_0.1.fee_payer == self.wallet
                &&& r->Ok_0.1.signers@ == seq![
                    self.wallet,
                    identities.deposit_history,
                    identities.funding_payment_history,
                    identities.trade_history,
                    identities.liquidation_history,
                    identities.funding_rate_history,
                    identities.curve_history,
                ]
                &&& r->Ok_0.1.operations@.len() == 7
                &&& r->Ok_0.1.operations@[0].payload@ == spec_create_account_payload(
                    rents.funding_rate_history,
                    FUNDING_RATE_HISTORY_SIZE,
                    self.programs.program,
                )
                &&& r->Ok_0.1.operations@[0].accounts@ == spec_create_account_accounts(
                    self.wallet,
                    identities.funding_rate_history,
                )
                &&& r->Ok_0.1.operations@[1].payload@ == spec_create_account_payload(
                    rents.funding_payment_history,
                    FUNDING_PAYMENT_HISTORY_SIZE,
                    self.programs.program,
                )
                &&& r->Ok_0.1.operations@[1].accounts@ == spec_create_account_accounts(
                    self.wallet,
                    identities.funding_payment_history,
                )
                &&& r->Ok_0.1.operations@[2].payload@ == spec_create_account_payload(
                    rents.trade_history,
                    TRADE_HISTORY_SIZE,
                    self.programs.program,
                )
                &&& r->Ok_0.1.operations@[2].accounts@ == spec_create_account_accounts(
                    self.wallet,
                    identities.trade_history,
                )
                &&& r->Ok_0.1.operations@[3].payload@ == spec_create_account_payload(
                    rents.liquidation_history,
                    LIQUIDATION_HISTORY_SIZE,
                    self.programs.program,
                )
                &&& r->Ok_0.1.operations@[3].accounts@ == spec_create_account_accounts(
                    self.wallet,
                    identities.liquidation_history,
                )
                &&& r->Ok_0.1.operations@[4].payload@ == spec_create_account_payload(
                    rents.deposit_history,
                    DEPOSIT_HISTORY_SIZE,
                    self.programs.program,
                )
                &&& r->Ok_0.1.operations@[4].accounts@ == spec_create_account_accounts(
                    self.wallet,
                    identities.deposit_history,
                )
                &&& r->Ok_0.1.operations@[5].payload@ == spec_create_account_payload(
                    rents.curve_history,
                    CURVE_HISTORY_SIZE,
                    self.programs.program,
                )
                &&& r->Ok_0.1.operations@[5].accounts@ == spec_create_account_accounts(
                    self.wallet,
                    identities.curve_history,
                )
                &&& r->Ok_0.1.operations@[6].program == self.programs.program
                &&& r->Ok_0.1.operations@[6].payload@ == spec_initialize_history_payload()
                &&& r->Ok_0.1.operations@[6].accounts@ == spec_initialize_history_accounts(
                    self.wallet,
                    st.0,
                    identities.funding_payment_history,
                    identities.trade_history,
                    identities.liquidation_history,
                    identities.deposit_history,
                    identities.funding_rate_history,
                    identities.curve_history,
                )
            }),
    {
        if state_exists {
            return Err(DriftError::AlreadyInitialized);
        }
        let mut cv_seeds: Vec<Vec<u8>> = Vec::new();
        cv_seeds.push(collateral_vault_seed_bytes());
        proof {
            assert(seeds_view(cv_seeds@) =~= seq![collateral_vault_seed()]);
        }
        let (collateral_vault, collateral_vault_nonce) = match derive_address(
            &cv_seeds,
            &self.programs.program,
        ) {
            Ok(p) => p,
            Err(e) => {
                return Err(e);
            },
        };
        let mut cva_seeds: Vec<Vec<u8>> = Vec::new();
        cva_seeds.push(collateral_vault.to_byte_vec());
        proof {
            assert(seeds_view(cva_seeds@) =~= seq![collateral_vault.byte_seq()]);
        }
        let (collateral_vault_authority, _cva_nonce) = match derive_address(
            &cva_seeds,
            &self.programs.program,
        ) {
            Ok(p) => p,
            Err(e) => {
                return Err(e);
            },
        };
        let mut iv_seeds: Vec<Vec<u8>> = Vec::new();
        iv_seeds.push(insurance_vault_seed_bytes());
        proof {
            assert(seeds_view(iv_seeds@) =~= seq![insurance_vault_seed()]);
        }
        let (insurance_vault, insurance_vault_nonce) = match derive_address(
            &iv_seeds,
            &self.programs.program,
        ) {
            Ok(p) => p,
            Err(e) => {
                return Err(e);
            },
        };
        let mut iva_seeds: Vec<Vec<u8>> = Vec::new();
        iva_seeds.push(insurance_vault.to_byte_vec());
        proof {
            assert(seeds_view(iva_seeds@) =~= seq![insurance_vault.byte_seq()]);
        }
        let (insurance_vault_authority, _iva_nonce) = match derive_address(
            &iva_seeds,
            &self.programs.program,
        ) {
            Ok(p) => p,
            Err(e) => {
                return Err(e);
            },
        };
        let mut st_seeds: Vec<Vec<u8>> = Vec::new();
        st_seeds.push(state_seed_bytes());
        proof {
            assert(seeds_view(st_seeds@) =~= seq![state_seed()]);
        }
        let (state_pubkey, clearing_house_nonce) = match derive_address(
            &st_seeds,
            &self.programs.program,
        ) {
            Ok(p) => p,
            Err(e) => {
                return Err(e);
            },
        };
        let create_markets = build_create_account(
            &self.programs,
            self.wallet,
            identities.markets,
            rents.markets,
            MARKETS_SIZE,
            self.programs.program,
        );
        let initialize = build_initialize(
            &self.programs,
            self.wallet,
            state_pubkey,
            clearing_house_nonce,
            usdc_mint,
            collateral_vault,
            collateral_vault_nonce,
            collateral_vault_authority,
            insurance_vault,
            insurance_vault_nonce,
            insurance_vault_authority,
            identities.markets,
            admin_controls_prices,
        );
        let mut extra_one: Vec<Address> = Vec::new();
        extra_one.push(identities.markets);
        let mut ops_one: Vec<Operation> = Vec::new();
        ops_one.push(create_markets);
        ops_one.push(initialize);
        let first = compose(self.wallet, extra_one, ops_one);
        let mut ops_two: Vec<Operation> = Vec::new();
        ops_two.push(
            build_create_account(
                &self.programs,
                self.wallet,
                identities.funding_rate_history,
                rents.funding_rate_history,
                FUNDING_RATE_HISTORY_SIZE,
                self.programs.program,
            ),
        );
        ops_two.push(
            build_create_account(
                &self.programs,
                self.wallet,
                identities.funding_payment_history,
                rents.funding_payment_history,
                FUNDING_PAYMENT_HISTORY_SIZE,
                self.programs.program,
            ),
        );
        ops_two.push(
            build_create_account(
                &self.programs,
                self.wallet,
                identities.trade_history,
                rents.trade_history,
                TRADE_HISTORY_SIZE,
                self.programs.program,
            ),
        );
        ops_two.push(
            build_create_account(
                &self.programs,
                self.wallet,
                identities.liquidation_history,
                rents.liquidation_history,
                LIQUIDATION_HISTORY_SIZE,
                self.programs.program,
            ),
        );
        ops_two.push(
            build_create_account(
                &self.programs,
                self.wallet,
                identities.deposit_history,
                rents.deposit_history,
                DEPOSIT_HISTORY_SIZE,
                self.programs.program,
            ),
        );
        ops_two.push(
            build_create_account(
                &self.programs,
                self.wallet,
                identities.curve_history,
                rents.curve_history,
                CURVE_HISTORY_SIZE,
                self.programs.program,
            ),
        );
        ops_two.push(
            build_initialize_history(
                &self.programs,
                self.wallet,
                state_pubkey,
                identities.funding_payment_history,
                identities.trade_history,
                identities.liquidation_history,
                identities.deposit_history,
                identities.funding_rate_history,
                identities.curve_history,
            ),
        );
        let mut extra_two: Vec<Address> = Vec::new();
        extra_two.push(identities.deposit_history);
        extra_two.push(identities.funding_payment_history);
        extra_two.push(identities.trade_history);
        extra_two.push(identities.liquidation_history);
        extra_two.push(identities.funding_rate_history);
        extra_two.push(identities.curve_history);
        let second = compose(self.wallet, extra_two, ops_two);
        proof {
            assert(first.signers@ =~= seq![self.wallet, identities.markets]);
            assert(second.signers@ =~= seq![
                self.wallet,
                identities.deposit_history,
                identities.funding_payment_history,
                identities.trade_history,
                identities.liquidation_history,
                identities.funding_rate_history,
                identities.curve_history,
            ]);
        }
        Ok((first, second))
    }

    /// Plan the initialization of one market: the index is bounds-checked
    /// and the slot refused when already configured, then a single
    /// submission carries the market-initialization operation.
    pub fn initialize_market_submission(
        &self,
        state_pubkey: Address,
        state: &StateRecord,
        markets: &MarketsRecord,
        market_index: u64,
        oracle: Address,
        base_asset_reserve: u128,
        quote_asset_reserve: u128,
        periodicity: u64,
        peg_multiplier: u128,
    ) -> (r: Result<Submission, DriftError>)
        requires
            markets.wf(),
        ensures
            r is Ok <==> (market_index < MARKET_SLOT_COUNT && !markets.slots@[
                market_index as int
            ].initialized),
            market_index >= MARKET_SLOT_COUNT ==> r is Err && r->Err_0
                == DriftError::InvalidMarketIndex,
            market_index < MARKET_SLOT_COUNT && markets.slots@[market_index as int].initialized
                ==> r is Err && r->Err_0 == DriftError::AlreadyInitialized,
            r is Ok ==> {
                &&& r->Ok_0.fee_payer == self.wallet
                &&& r->Ok_0.signers@ == seq![self.wallet]
                &&& r->Ok_0.operations@.len() == 1
                &&& r->Ok_0.operations@[0].program == self.programs.program
                &&& r->Ok_0.operations@[0].payload@ == spec_initialize_market_payload(
                    market_index,
                    base_asset_reserve,
                    quote_asset_reserve,
                    periodicity,
                    peg_multiplier,
                )
                &&& r->Ok_0.operations@[0].accounts@ == spec_initialize_market_accounts(
                    self.wallet,
                    state_pubkey,
                    state.markets,
                    oracle,
                )
            },
    {
        let op = match build_initialize_market(
            &self.programs,
            self.wallet,
            state_pubkey,
            state,
            markets,
            market_index,
            oracle,
            base_asset_reserve,
            quote_asset_reserve,
            periodicity,
            peg_multiplier,
        ) {
            Ok(op) => op,
            Err(e) => {
                return Err(e);
            },
        };
        let extra: Vec<Address> = Vec::new();
        let mut operations: Vec<Operation> = Vec::new();
        operations.push(op);
        let s = compose(self.wallet, extra, operations);
        proof {
            assert(s.signers@ =~= seq![self.wallet]);
        }
        Ok(s)
    }
}

} // verus!
