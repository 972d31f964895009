//! Well-formed operations against the remote program: one opcode, an
//! ordered account list, and an argument payload.
//!
//! Optional accompanying accounts and their payload flags are set
//! together, atomically, from the same optional input — the inconsistent
//! intermediate states are unrepresentable.

use vstd::prelude::*;
use vstd::bytes::*;
use crate::address::{Address, spec_address_from_bytes};
use crate::codec::{push_u8, push_u64_le, push_u128_le, push_address};
use crate::errors::DriftError;
use crate::pda::{ata_of, associated_token_address, token_program_address, rent_sysvar_address};
use crate::records::{StateRecord, MarketsRecord, MARKET_SLOT_COUNT};

verus! {

/// Opcode of the program-initialization operation.
pub const INITIALIZE_OP: u64 = 0x101;

/// Opcode of the history-initialization operation.
pub const INITIALIZE_HISTORY_OP: u64 = 0x102;

/// Opcode of the market-initialization operation.
pub const INITIALIZE_MARKET_OP: u64 = 0x103;

/// Opcode of the user-initialization operation.
pub const INITIALIZE_USER_OP: u64 = 0x104;

/// Opcode of the user-deletion operation.
pub const DELETE_USER_OP: u64 = 0x105;

/// Opcode of the collateral-deposit operation.
pub const DEPOSIT_COLLATERAL_OP: u64 = 0x106;

/// Opcode of the collateral-withdrawal operation.
pub const WITHDRAW_COLLATERAL_OP: u64 = 0x107;

/// Opcode of the position-opening operation.
pub const OPEN_POSITION_OP: u64 = 0x108;

/// Opcode of the position-closing operation.
pub const CLOSE_POSITION_OP: u64 = 0x109;

/// Opcode of the base ledger's account-creation operation.
pub const CREATE_ACCOUNT_OP: u64 = 0x10a;

/// One entry of an operation's account list.
#[derive(Clone, Copy, PartialEq, Eq, Structural, Debug)]
pub struct AccountEntry {
    pub address: Address,
    pub is_signer: bool,
    pub is_writable: bool,
}

/// One unit of program invocation: the program to invoke, the ordered
/// account list it reads, and the argument payload. Immutable once
/// constructed.
#[derive(Clone, PartialEq, Eq, Debug)]
pub struct Operation {
    pub program: Address,
    pub accounts: Vec<AccountEntry>,
    pub payload: Vec<u8>,
}

/// An operation's account list before assembly: the primary accounts and
/// the optional accompanying ones, kept in order.
#[derive(Debug)]
pub struct Context {
    pub accounts: Vec<AccountEntry>,
    pub remaining_accounts: Vec<AccountEntry>,
}

impl Context {
    /// Flatten the context: primary accounts first, accompanying ones
    /// after, each group in its own order.
    pub fn to_account_metas(self) -> (r: Vec<AccountEntry>)
        ensures
            r@ == self.accounts@ + self.remaining_accounts@,
    {
        let Context { mut accounts, mut remaining_accounts } = self;
        accounts.append(&mut remaining_accounts);
        accounts
    }
}

/// Assemble one operation from its program, payload, and account context.
pub fn ix(program_id: &Address, payload: Vec<u8>, accounts: Context) -> (r: Operation)
    ensures
        r.program == *program_id,
        r.payload == payload,
        r.accounts@ == accounts.accounts@ + accounts.remaining_accounts@,
{
    Operation { program: *program_id, accounts: accounts.to_account_metas(), payload }
}

/// The well-known program addresses an operation builder needs besides
/// the clearing-house program itself.
#[derive(Clone, Copy, PartialEq, Eq, Structural, Debug)]
pub struct ProgramSet {
    pub program: Address,
    pub token_program: Address,
    pub rent_sysvar: Address,
    pub system_program: Address,
}

impl ProgramSet {
    /// The standard set: the given clearing-house program, the ledger's
    /// token program and rent sysvar, and the base program, whose
    /// address is the zero address by definition.
    pub fn standard(program: Address) -> (r: ProgramSet)
        ensures
            r.program == program,
            r.system_program == (Address { w0: 0, w1: 0, w2: 0, w3: 0 }),
    {
        ProgramSet {
            program,
            token_program: token_program_address(),
            rent_sysvar: rent_sysvar_address(),
            system_program: Address::zero(),
        }
    }
}

/// Which way a position is opened.
#[derive(Clone, Copy, PartialEq, Eq, Structural, Debug)]
pub enum PositionDirection {
    Long,
    Short,
}

impl PositionDirection {
    /// The byte this direction is encoded as.
    pub open spec fn spec_byte(self) -> u8 {
        match self {
            PositionDirection::Long => 0,
            PositionDirection::Short => 1,
        }
    }

    pub fn byte(&self) -> (r: u8)
        ensures
            r == self.spec_byte(),
    {
        match self {
            PositionDirection::Long => 0,
            PositionDirection::Short => 1,
        }
    }
}

/// The flag byte an optional input sets.
pub open spec fn spec_flag_byte(present: bool) -> u8 {
    if present {
        1u8
    } else {
        0u8
    }
}

/// Payload of the user-initialization operation: the user account's
/// derivation nonce and the whitelist flag.
pub open spec fn spec_initialize_user_payload(nonce: u8, whitelist: bool) -> Seq<u8> {
    spec_u64_to_le_bytes(INITIALIZE_USER_OP) + seq![nonce, spec_flag_byte(whitelist)]
}

/// Payload of the user-deletion operation.
pub open spec fn spec_delete_user_payload() -> Seq<u8> {
    spec_u64_to_le_bytes(DELETE_USER_OP)
}

/// Payload of the collateral-deposit operation.
pub open spec fn spec_deposit_collateral_payload(amount: u64) -> Seq<u8> {
    spec_u64_to_le_bytes(DEPOSIT_COLLATERAL_OP) + spec_u64_to_le_bytes(amount)
}

/// Payload of the collateral-withdrawal operation.
pub open spec fn spec_withdraw_collateral_payload(amount: u64) -> Seq<u8> {
    spec_u64_to_le_bytes(WITHDRAW_COLLATERAL_OP) + spec_u64_to_le_bytes(amount)
}

/// Payload of the position-opening operation: direction, notional amount,
/// market index, limit price, then one flag byte per optional
/// accompanying account.
pub open spec fn spec_open_position_payload(
    direction: PositionDirection,
    quote_asset_amount: u128,
    market_index: u64,
    limit_price: u128,
    discount: bool,
    referrer: bool,
) -> Seq<u8> {
    spec_u64_to_le_bytes(OPEN_POSITION_OP) + seq![direction.spec_byte()]
        + spec_u128_to_le_bytes(quote_asset_amount) + spec_u64_to_le_bytes(market_index)
        + spec_u128_to_le_bytes(limit_price) + seq![
        spec_flag_byte(discount),
        spec_flag_byte(referrer),
    ]
}

/// Payload of the position-closing operation.
pub open spec fn spec_close_position_payload(
    market_index: u64,
    discount: bool,
    referrer: bool,
) -> Seq<u8> {
    spec_u64_to_le_bytes(CLOSE_POSITION_OP) + spec_u64_to_le_bytes(market_index) + seq![
        spec_flag_byte(discount),
        spec_flag_byte(referrer),
    ]
}

/// Payload of the program-initialization operation: the three derivation
/// nonces and the price-control flag.
pub open spec fn spec_initialize_payload(
    clearing_house_nonce: u8,
    collateral_vault_nonce: u8,
    insurance_vault_nonce: u8,
    admin_controls_prices: bool,
) -> Seq<u8> {
    spec_u64_to_le_bytes(INITIALIZE_OP) + seq![
        clearing_house_nonce,
        collateral_vault_nonce,
        insurance_vault_nonce,
        spec_flag_byte(admin_controls_prices),
    ]
}

/// Payload of the history-initialization operation.
pub open spec fn spec_initialize_history_payload() -> Seq<u8> {
    spec_u64_to_le_bytes(INITIALIZE_HISTORY_OP)
}

/// Payload of the market-initialization operation.
pub open spec fn spec_initialize_market_payload(
    market_index: u64,
    base_asset_reserve: u128,
    quote_asset_reserve: u128,
    periodicity: u64,
    peg_multiplier: u128,
) -> Seq<u8> {
    spec_u64_to_le_bytes(INITIALIZE_MARKET_OP) + spec_u64_to_le_bytes(market_index)
        + spec_u128_to_le_bytes(base_asset_reserve) + spec_u128_to_le_bytes(quote_asset_reserve)
        + spec_u64_to_le_bytes(periodicity) + spec_u128_to_le_bytes(peg_multiplier)
}

/// Payload of the base ledger's account-creation operation: the funding
/// lamports, the exact byte size to reserve, and the owning program.
pub open spec fn spec_create_account_payload(lamports: u64, space: u64, owner: Address) -> Seq<
    u8,
> {
    spec_u64_to_le_bytes(CREATE_ACCOUNT_OP) + spec_u64_to_le_bytes(lamports)
        + spec_u64_to_le_bytes(space) + owner.byte_seq()
}

/// The zero address, which the remote program uses for "absent".
pub open spec fn spec_zero_address() -> Address {
    Address { w0: 0, w1: 0, w2: 0, w3: 0 }
}

/// The account list of the user-initialization operation. The whitelist
/// token account accompanies the list exactly when the root configuration
/// names a whitelist mint.
pub open spec fn spec_initialize_user_accounts(
    programs: ProgramSet,
    state_pubkey: Address,
    state: StateRecord,
    wallet: Address,
    user: Address,
    user_positions: Address,
) -> Seq<AccountEntry> {
    let base = seq![
        AccountEntry { address: user, is_signer: false, is_writable: true },
        AccountEntry { address: state_pubkey, is_signer: false, is_writable: false },
        AccountEntry { address: user_positions, is_signer: true, is_writable: true },
        AccountEntry { address: wallet, is_signer: true, is_writable: false },
        AccountEntry { address: programs.rent_sysvar, is_signer: false, is_writable: false },
        AccountEntry { address: programs.system_program, is_signer: false, is_writable: false },
    ];
    if state.whitelist_mint == spec_zero_address() {
        base
    } else {
        base + seq![
            AccountEntry {
                address: spec_address_from_bytes(
                    ata_of(wallet.byte_seq(), state.whitelist_mint.byte_seq())->Some_0,
                ),
                is_signer: false,
                is_writable: false,
            },
        ]
    }
}

/// Whether the user-initialization operation can be built: with a
/// whitelist mint configured, the wallet's whitelist token account must
/// be derivable.
pub open spec fn spec_initialize_user_ok(state: StateRecord, wallet: Address) -> bool {
    state.whitelist_mint == spec_zero_address() || ata_of(
        wallet.byte_seq(),
        state.whitelist_mint.byte_seq(),
    ) is Some
}

/// Build the user-initialization operation. The whitelist flag in the
/// payload and the whitelist token account in the account list are set
/// together from the root configuration's whitelist mint.
pub fn build_initialize_user(
    programs: &ProgramSet,
    state_pubkey: Address,
    state: &StateRecord,
    wallet: Address,
    user: Address,
    user_nonce: u8,
    user_positions: Address,
) -> (r: Result<Operation, DriftError>)
    ensures
        r is Ok <==> spec_initialize_user_ok(*state, wallet),
        r is Err ==> r->Err_0 == DriftError::DerivationExhausted,
        r is Ok ==> {
            &&& r->Ok_0.program == programs.program
            &&& r->Ok_0.payload@ == spec_initialize_user_payload(
                user_nonce,
                state.whitelist_mint != spec_zero_address(),
            )
            &&& r->Ok_0.accounts@ == spec_initialize_user_accounts(
                *programs,
                state_pubkey,
                *state,
                wallet,
                user,
                user_positions,
            )
        },
{
    let mut payload: Vec<u8> = Vec::new();
    push_u64_le(&mut payload, INITIALIZE_USER_OP);
    push_u8(&mut payload, user_nonce);
    let whitelist = !state.whitelist_mint.is_zero();
    push_u8(&mut payload, if whitelist { 1 } else { 0 });
    let mut accounts: Vec<AccountEntry> = Vec::new();
    accounts.push(AccountEntry { address: user, is_signer: false, is_writable: true });
    accounts.push(AccountEntry { address: state_pubkey, is_signer: false, is_writable: false });
    accounts.push(AccountEntry { address: user_positions, is_signer: true, is_writable: true });
    accounts.push(AccountEntry { address: wallet, is_signer: true, is_writable: false });
    accounts.push(
        AccountEntry { address: programs.rent_sysvar, is_signer: false, is_writable: false },
    );
    accounts.push(
        AccountEntry { address: programs.system_program, is_signer: false, is_writable: false },
    );
    let mut remaining_accounts: Vec<AccountEntry> = Vec::new();
    if whitelist {
        let ata = match associated_token_address(&wallet, &state.whitelist_mint) {
            Ok(a) => a,
            Err(e) => {
                return Err(e);
            },
        };
        remaining_accounts.push(
            AccountEntry { address: ata, is_signer: false, is_writable: false },
        );
    }
    let r = ix(&programs.program, payload, Context { accounts, remaining_accounts });
    proof {
        assert(r.payload@ =~= spec_initialize_user_payload(
            user_nonce,
            state.whitelist_mint != spec_zero_address(),
        ));
        assert(r.accounts@ =~= spec_initialize_user_accounts(
            *programs,
            state_pubkey,
            *state,
            wallet,
            user,
            user_positions,
        ));
    }
    Ok(r)
}

/// The account list of the user-deletion operation.
pub open spec fn spec_delete_user_accounts(
    user: Address,
    user_positions: Address,
    wallet: Address,
) -> Seq<AccountEntry> {
    seq![
        AccountEntry { address: user, is_signer: false, is_writable: true },
        AccountEntry { address: user_positions, is_signer: false, is_writable: true },
        AccountEntry { address: wallet, is_signer: true, is_writable: false },
    ]
}

/// Build the user-deletion operation.
pub fn build_delete_user(
    programs: &ProgramSet,
    user: Address,
    user_positions: Address,
    wallet: Address,
) -> (r: Operation)
    ensures
        r.program == programs.program,
        r.payload@ == spec_delete_user_payload(),
        r.accounts@ == spec_delete_user_accounts(user, user_positions, wallet),
{
    let mut payload: Vec<u8> = Vec::new();
    push_u64_le(&mut payload, DELETE_USER_OP);
    let mut accounts: Vec<AccountEntry> = Vec::new();
    accounts.push(AccountEntry { address: user, is_signer: false, is_writable: true });
    accounts.push(AccountEntry { address: user_positions, is_signer: false, is_writable: true });
    accounts.push(AccountEntry { address: wallet, is_signer: true, is_writable: false });
    let remaining_accounts: Vec<AccountEntry> = Vec::new();
    let r = ix(&programs.program, payload, Context { accounts, remaining_accounts });
    proof {
        assert(r.payload@ =~= spec_delete_user_payload());
        assert(r.accounts@ =~= spec_delete_user_accounts(user, user_positions, wallet));
    }
    r
}

/// The account list of the collateral-deposit operation.
pub open spec fn spec_deposit_collateral_accounts(
    programs: ProgramSet,
    state_pubkey: Address,
    state: StateRecord,
    user: Address,
    wallet: Address,
    collateral_account: Address,
    markets_pubkey: Address,
    user_positions: Address,
) -> Seq<AccountEntry> {
    seq![
        AccountEntry { address: state_pubkey, is_signer: false, is_writable: false },
        AccountEntry { address: user, is_signer: false, is_writable: true },
        AccountEntry { address: wallet, is_signer: true, is_writable: false },
        AccountEntry { address: state.collateral_vault, is_signer: false, is_writable: true },
        AccountEntry { address: collateral_account, is_signer: false, is_writable: true },
        AccountEntry { address: programs.token_program, is_signer: false, is_writable: false },
        AccountEntry { address: markets_pubkey, is_signer: false, is_writable: false },
        AccountEntry { address: user_positions, is_signer: false, is_writable: true },
        AccountEntry {
            address: state.funding_payment_history,
            is_signer: false,
            is_writable: true,
        },
        AccountEntry { address: state.deposit_history, is_signer: false, is_writable: true },
    ]
}

/// Build the collateral-deposit operation.
pub fn build_deposit_collateral(
    programs: &ProgramSet,
    state_pubkey: Address,
    state: &StateRecord,
    user: Address,
    wallet: Address,
    amount: u64,
    collateral_account: Address,
    markets_pubkey: Address,
    user_positions: Address,
) -> (r: Operation)
    ensures
        r.program == programs.program,
        r.payload@ == spec_deposit_collateral_payload(amount),
        r.accounts@ == spec_deposit_collateral_accounts(
            *programs,
            state_pubkey,
            *state,
            user,
            wallet,
            collateral_account,
            markets_pubkey,
            user_positions,
        ),
{
    let mut payload: Vec<u8> = Vec::new();
    push_u64_le(&mut payload, DEPOSIT_COLLATERAL_OP);
    push_u64_le(&mut payload, amount);
    let mut accounts: Vec<AccountEntry> = Vec::new();
    accounts.push(AccountEntry { address: state_pubkey, is_signer: false, is_writable: false });
    accounts.push(AccountEntry { address: user, is_signer: false, is_writable: true });
    accounts.push(AccountEntry { address: wallet, is_signer: true, is_writable: false });
    accounts.push(
        AccountEntry { address: state.collateral_vault, is_signer: false, is_writable: true },
    );
    accounts.push(
        AccountEntry { address: collateral_account, is_signer: false, is_writable: true },
    );
    accounts.push(
        AccountEntry { address: programs.token_program, is_signer: false, is_writable: false },
    );
    accounts.push(AccountEntry { address: markets_pubkey, is_signer: false, is_writable: false });
    accounts.push(AccountEntry { address: user_positions, is_signer: false, is_writable: true });
    accounts.push(
        AccountEntry {
            address: state.funding_payment_history,
            is_signer: false,
            is_writable: true,
        },
    );
    accounts.push(
        AccountEntry { address: state.deposit_history, is_signer: false, is_writable: true },
    );
    let remaining_accounts: Vec<AccountEntry> = Vec::new();
    let r = ix(&programs.program, payload, Context { accounts, remaining_accounts });
    proof {
        assert(r.payload@ =~= spec_deposit_collateral_payload(amount));
        assert(r.accounts@ =~= spec_deposit_collateral_accounts(
            *programs,
            state_pubkey,
            *state,
            user,
            wallet,
            collateral_account,
            markets_pubkey,
            user_positions,
        ));
    }
    r
}

/// The account list of the collateral-withdrawal operation.
pub open spec fn spec_withdraw_collateral_accounts(
    programs: ProgramSet,
    state_pubkey: Address,
    state: StateRecord,
    user: Address,
    wallet: Address,
    collateral_account: Address,
    user_positions: Address,
) -> Seq<AccountEntry> {
    seq![
        AccountEntry { address: state_pubkey, is_signer: false, is_writable: false },
        AccountEntry { address: user, is_signer: false, is_writable: true },
        AccountEntry { address: wallet, is_signer: true, is_writable: false },
        AccountEntry { address: state.collateral_vault, is_signer: false, is_writable: true },
        AccountEntry {
            address: state.collateral_vault_authority,
            is_signer: false,
            is_writable: false,
        },
        AccountEntry { address: state.insurance_vault, is_signer: false, is_writable: true },
        AccountEntry {
            address: state.insurance_vault_authority,
            is_signer: false,
            is_writable: false,
        },
        AccountEntry { address: collateral_account, is_signer: false, is_writable: true },
        AccountEntry { address: programs.token_program, is_signer: false, is_writable: false },
        AccountEntry { address: state.markets, is_signer: false, is_writable: false },
        AccountEntry { address: user_positions, is_signer: false, is_writable: true },
        AccountEntry {
            address: state.funding_payment_history,
            is_signer: false,
            is_writable: true,
        },
        AccountEntry { address: state.deposit_history, is_signer: false, is_writable: true },
    ]
}

/// Build the collateral-withdrawal operation.
pub fn build_withdraw_collateral(
    programs: &ProgramSet,
    state_pubkey: Address,
    state: &StateRecord,
    user: Address,
    wallet: Address,
    amount: u64,
    collateral_account: Address,
    user_positions: Address,
) -> (r: Operation)
    ensures
        r.program == programs.program,
        r.payload@ == spec_withdraw_collateral_payload(amount),
        r.accounts@ == spec_withdraw_collateral_accounts(
            *programs,
            state_pubkey,
            *state,
            user,
            wallet,
            collateral_account,
            user_positions,
        ),
{
    let mut payload: Vec<u8> = Vec::new();
    push_u64_le(&mut payload, WITHDRAW_COLLATERAL_OP);
    push_u64_le(&mut payload, amount);
    let mut accounts: Vec<AccountEntry> = Vec::new();
    accounts.push(AccountEntry { address: state_pubkey, is_signer: false, is_writable: false });
    accounts.push(AccountEntry { address: user, is_signer: false, is_writable: true });
    accounts.push(AccountEntry { address: wallet, is_signer: true, is_writable: false });
    accounts.push(
        AccountEntry { address: state.collateral_vault, is_signer: false, is_writable: true },
    );
    accounts.push(
        AccountEntry {
            address: state.collateral_vault_authority,
            is_signer: false,
            is_writable: false,
        },
    );
    accounts.push(
        AccountEntry { address: state.insurance_vault, is_signer: false, is_writable: true },
    );
    accounts.push(
        AccountEntry {
            address: state.insurance_vault_authority,
            is_signer: false,
            is_writable: false,
        },
    );
    accounts.push(
        AccountEntry { address: collateral_account, is_signer: false, is_writable: true },
    );
    accounts.push(
        AccountEntry { address: programs.token_program, is_signer: false, is_writable: false },
    );
    accounts.push(AccountEntry { address: state.markets, is_signer: false, is_writable: false });
    accounts.push(AccountEntry { address: user_positions, is_signer: false, is_writable: true });
    accounts.push(
        AccountEntry {
            address: state.funding_payment_history,
            is_signer: false,
            is_writable: true,
        },
    );
    accounts.push(
        AccountEntry { address: state.deposit_history, is_signer: false, is_writable: true },
    );
    let remaining_accounts: Vec<AccountEntry> = Vec::new();
    let r = ix(&programs.program, payload, Context { accounts, remaining_accounts });
    proof {
        assert(r.payload@ =~= spec_withdraw_collateral_payload(amount));
        assert(r.accounts@ =~= spec_withdraw_collateral_accounts(
            *programs,
            state_pubkey,
            *state,
            user,
            wallet,
            collateral_account,
            user_positions,
        ));
    }
    r
}

/// The account list shared by the position-management operations. The
/// optional discount-token and referrer accounts accompany the list
/// exactly when the caller supplies them, in that order, the referrer
/// writable.
pub open spec fn spec_manage_position_accounts(
    state_pubkey: Address,
    state: StateRecord,
    user: Address,
    wallet: Address,
    user_positions: Address,
    oracle: Address,
    discount_token: Option<Address>,
    referrer: Option<Address>,
) -> Seq<AccountEntry> {
    seq![
        AccountEntry { address: state_pubkey, is_signer: false, is_writable: false },
        AccountEntry { address: user, is_signer: false, is_writable: true },
        AccountEntry { address: wallet, is_signer: true, is_writable: false },
        AccountEntry { address: state.markets, is_signer: false, is_writable: true },
        AccountEntry { address: user_positions, is_signer: false, is_writable: true },
        AccountEntry { address: state.trade_history, is_signer: false, is_writable: true },
        AccountEntry {
            address: state.funding_payment_history,
            is_signer: false,
            is_writable: true,
        },
        AccountEntry { address: state.funding_rate_history, is_signer: false, is_writable: true },
        AccountEntry { address: oracle, is_signer: false, is_writable: false },
    ] + (match discount_token {
        Some(a) => seq![AccountEntry { address: a, is_signer: false, is_writable: false }],
        None => Seq::<AccountEntry>::empty(),
    }) + (match referrer {
        Some(a) => seq![AccountEntry { address: a, is_signer: false, is_writable: true }],
        None => Seq::<AccountEntry>::empty(),
    })
}

/// Push the optional position-management accounts, in order.
fn push_optional_position_accounts(
    remaining: &mut Vec<AccountEntry>,
    discount_token: &Option<Address>,
    referrer: &Option<Address>,
)
    ensures
        final(remaining)@ == old(remaining)@ + (match *discount_token {
            Some(a) => seq![AccountEntry { address: a, is_signer: false, is_writable: false }],
            None => Seq::<AccountEntry>::empty(),
        }) + (match *referrer {
            Some(a) => seq![AccountEntry { address: a, is_signer: false, is_writable: true }],
            None => Seq::<AccountEntry>::empty(),
        }),
{
    let ghost mid = old(remaining)@ + (match *discount_token {
        Some(a) => seq![AccountEntry { address: a, is_signer: false, is_writable: false }],
        None => Seq::<AccountEntry>::empty(),
    });
    match discount_token {
        Some(a) => remaining.push(
            AccountEntry { address: *a, is_signer: false, is_writable: false },
        ),
        None => {},
    }
    proof {
        assert(remaining@ =~= mid);
    }
    match referrer {
        Some(a) => remaining.push(
            AccountEntry { address: *a, is_signer: false, is_writable: true },
        ),
        None => {},
    }
    proof {
        assert(remaining@ =~= mid + (match *referrer {
            Some(a) => seq![AccountEntry { address: a, is_signer: false, is_writable: true }],
            None => Seq::<AccountEntry>::empty(),
        }));
    }
}

/// Build the position-opening operation. The market index is
/// bounds-checked against the configured slots before anything else; the
/// slot's price-reference address joins the account list. An absent limit
/// price is encoded as zero.
pub fn build_open_position(
    programs: &ProgramSet,
    state_pubkey: Address,
    state: &StateRecord,
    markets: &MarketsRecord,
    user: Address,
    wallet: Address,
    user_positions: Address,
    direction: PositionDirection,
    quote_asset_amount: u128,
    market_index: u64,
    limit_price: Option<u128>,
    discount_token: Option<Address>,
    referrer: Option<Address>,
) -> (r: Result<Operation, DriftError>)
    requires
        markets.wf(),
    ensures
        r is Ok <==> market_index < MARKET_SLOT_COUNT,
        r is Err ==> r->Err_0 == DriftError::InvalidMarketIndex,
        r is Ok ==> r->Ok_0.program == programs.program && r->Ok_0.payload@
            == spec_open_position_payload(
            direction,
            quote_asset_amount,
            market_index,
            (match limit_price {
                Some(p) => p,
                None => 0u128,
            }),
            discount_token is Some,
            referrer is Some,
        ) && r->Ok_0.accounts@ == spec_manage_position_accounts(
            state_pubkey,
            *state,
            user,
            wallet,
            user_positions,
            markets.slots@[market_index as int].oracle,
            discount_token,
            referrer,
        ),
{
    let slot = match markets.market_slot(market_index) {
        Ok(s) => s,
        Err(e) => {
            return Err(e);
        },
    };
    let limit = match limit_price {
        Some(p) => p,
        None => 0u128,
    };
    let mut payload: Vec<u8> = Vec::new();
    push_u64_le(&mut payload, OPEN_POSITION_OP);
    push_u8(&mut payload, direction.byte());
    push_u128_le(&mut payload, quote_asset_amount);
    push_u64_le(&mut payload, market_index);
    push_u128_le(&mut payload, limit);
    push_u8(&mut payload, if discount_token.is_some() { 1 } else { 0 });
    push_u8(&mut payload, if referrer.is_some() { 1 } else { 0 });
    let mut accounts: Vec<AccountEntry> = Vec::new();
    accounts.push(AccountEntry { address: state_pubkey, is_signer: false, is_writable: false });
    accounts.push(AccountEntry { address: user, is_signer: false, is_writable: true });
    accounts.push(AccountEntry { address: wallet, is_signer: true, is_writable: false });
    accounts.push(AccountEntry { address: state.markets, is_signer: false, is_writable: true });
    accounts.push(AccountEntry { address: user_positions, is_signer: false, is_writable: true });
    accounts.push(
        AccountEntry { address: state.trade_history, is_signer: false, is_writable: true },
    );
    accounts.push(
        AccountEntry {
            address: state.funding_payment_history,
            is_signer: false,
            is_writable: true,
        },
    );
    accounts.push(
        AccountEntry { address: state.funding_rate_history, is_signer: false, is_writable: true },
    );
    accounts.push(AccountEntry { address: slot.oracle, is_signer: false, is_writable: false });
    let mut remaining_accounts: Vec<AccountEntry> = Vec::new();
    push_optional_position_accounts(&mut remaining_accounts, &discount_token, &referrer);
    let r = ix(&programs.program, payload, Context { accounts, remaining_accounts });
    proof {
        assert(r.payload@ =~= spec_open_position_payload(
            direction,
            quote_asset_amount,
            market_index,
            (match limit_price {
                Some(p) => p,
                None => 0u128,
            }),
            discount_token is Some,
            referrer is Some,
        ));
        assert(r.accounts@ =~= spec_manage_position_accounts(
            state_pubkey,
            *state,
            user,
            wallet,
            user_positions,
            markets.slots@[market_index as int].oracle,
            discount_token,
            referrer,
        ));
    }
    Ok(r)
}

/// Build the position-closing operation. Bounds and optional accounts are
/// handled exactly as in `build_open_position`.
pub fn build_close_position(
    programs: &ProgramSet,
    state_pubkey: Address,
    state: &StateRecord,
    markets: &MarketsRecord,
    user: Address,
    wallet: Address,
    user_positions: Address,
    market_index: u64,
    discount_token: Option<Address>,
    referrer: Option<Address>,
) -> (r: Result<Operation, DriftError>)
    requires
        markets.wf(),
    ensures
        r is Ok <==> market_index < MARKET_SLOT_COUNT,
        r is Err ==> r->Err_0 == DriftError::InvalidMarketIndex,
        r is Ok ==> r->Ok_0.program == programs.program && r->Ok_0.payload@
            == spec_close_position_payload(
            market_index,
            discount_token is Some,
            referrer is Some,
        ) && r->Ok_0.accounts@ == spec_manage_position_accounts(
            state_pubkey,
            *state,
            user,
            wallet,
            user_positions,
            markets.slots@[market_index as int].oracle,
            discount_token,
            referrer,
        ),
{
    let slot = match markets.market_slot(market_index) {
        Ok(s) => s,
        Err(e) => {
            return Err(e);
        },
    };
    let mut payload: Vec<u8> = Vec::new();
    push_u64_le(&mut payload, CLOSE_POSITION_OP);
    push_u64_le(&mut payload, market_index);
    push_u8(&mut payload, if discount_token.is_some() { 1 } else { 0 });
    push_u8(&mut payload, if referrer.is_some() { 1 } else { 0 });
    let mut accounts: Vec<AccountEntry> = Vec::new();
    accounts.push(AccountEntry { address: state_pubkey, is_signer: false, is_writable: false });
    accounts.push(AccountEntry { address: user, is_signer: false, is_writable: true });
    accounts.push(AccountEntry { address: wallet, is_signer: true, is_writable: false });
    accounts.push(AccountEntry { address: state.markets, is_signer: false, is_writable: true });
    accounts.push(AccountEntry { address: user_positions, is_signer: false, is_writable: true });
    accounts.push(
        AccountEntry { address: state.trade_history, is_signer: false, is_writable: true },
    );
    accounts.push(
        AccountEntry {
            address: state.funding_payment_history,
            is_signer: false,
            is_writable: true,
        },
    );
    accounts.push(
        AccountEntry { address: state.funding_rate_history, is_signer: false, is_writable: true },
    );
    accounts.push(AccountEntry { address: slot.oracle, is_signer: false, is_writable: false });
    let mut remaining_accounts: Vec<AccountEntry> = Vec::new();
    push_optional_position_accounts(&mut remaining_accounts, &discount_token, &referrer);
    let r = ix(&programs.program, payload, Context { accounts, remaining_accounts });
    proof {
        assert(r.payload@ =~= spec_close_position_payload(
            market_index,
            discount_token is Some,
            referrer is Some,
        ));
        assert(r.accounts@ =~= spec_manage_position_accounts(
            state_pubkey,
            *state,
            user,
            wallet,
            user_positions,
            markets.slots@[market_index as int].oracle,
            discount_token,
            referrer,
        ));
    }
    Ok(r)
}

/// Law: an optional accompanying account and its payload flag are set
/// together, atomically, from the same optional input. The referrer
/// appears in the account list (writable, last) exactly when supplied,
/// and its payload flag is set exactly then; likewise the discount token;
/// no mixed state exists.
pub proof fn lemma_optional_account_flag_consistency(
    state_pubkey: Address,
    state: StateRecord,
    user: Address,
    wallet: Address,
    user_positions: Address,
    oracle: Address,
    direction: PositionDirection,
    quote_asset_amount: u128,
    market_index: u64,
    limit_price: u128,
    discount_token: Option<Address>,
    referrer: Option<Address>,
)
    ensures
        spec_open_position_payload(
            direction,
            quote_asset_amount,
            market_index,
            limit_price,
            discount_token is Some,
            referrer is Some,
        )[49] == spec_flag_byte(discount_token is Some),
        spec_open_position_payload(
            direction,
            quote_asset_amount,
            market_index,
            limit_price,
            discount_token is Some,
            referrer is Some,
        )[50] == spec_flag_byte(referrer is Some),
        spec_manage_position_accounts(
            state_pubkey,
            state,
            user,
            wallet,
            user_positions,
            oracle,
            discount_token,
            referrer,
        ).len() == 9 + (if discount_token is Some {
            1int
        } else {
            0int
        }) + (if referrer is Some {
            1int
        } else {
            0int
        }),
        referrer is Some ==> spec_manage_position_accounts(
            state_pubkey,
            state,
            user,
            wallet,
            user_positions,
            oracle,
            discount_token,
            referrer,
        ).last() == (AccountEntry {
            address: referrer->Some_0,
            is_signer: false,
            is_writable: true,
        }),
        discount_token is Some ==> spec_manage_position_accounts(
            state_pubkey,
            state,
            user,
            wallet,
            user_positions,
            oracle,
            discount_token,
            referrer,
        )[9] == (AccountEntry {
            address: discount_token->Some_0,
            is_signer: false,
            is_writable: false,
        }),
{
    lemma_auto_spec_u64_to_from_le_bytes();
    lemma_auto_spec_u128_to_from_le_bytes();
}

/// The account list of the program-initialization operation.
pub open spec fn spec_initialize_accounts(
    programs: ProgramSet,
    admin: Address,
    state_pubkey: Address,
    collateral_mint: Address,
    collateral_vault: Address,
    collateral_vault_authority: Address,
    insurance_vault: Address,
    insurance_vault_authority: Address,
    markets_pubkey: Address,
) -> Seq<AccountEntry> {
    seq![
        AccountEntry { address: admin, is_signer: true, is_writable: true },
        AccountEntry { address: state_pubkey, is_signer: false, is_writable: true },
        AccountEntry { address: collateral_mint, is_signer: false, is_writable: false },
        AccountEntry { address: collateral_vault, is_signer: false, is_writable: true },
        AccountEntry {
            address: collateral_vault_authority,
            is_signer: false,
            is_writable: false,
        },
        AccountEntry { address: insurance_vault, is_signer: false, is_writable: true },
        AccountEntry { address: insurance_vault_authority, is_signer: false, is_writable: false },
        AccountEntry { address: markets_pubkey, is_signer: true, is_writable: true },
        AccountEntry { address: programs.rent_sysvar, is_signer: false, is_writable: false },
        AccountEntry { address: programs.system_program, is_signer: false, is_writable: false },
        AccountEntry { address: programs.token_program, is_signer: false, is_writable: false },
    ]
}

/// Build the program-initialization operation from the admin wallet, the
/// collateral mint, and the derived custody addresses, authorities and
/// nonces.
pub fn build_initialize(
    programs: &ProgramSet,
    admin: Address,
    state_pubkey: Address,
    clearing_house_nonce: u8,
    collateral_mint: Address,
    collateral_vault: Address,
    collateral_vault_nonce: u8,
    collateral_vault_authority: Address,
    insurance_vault: Address,
    insurance_vault_nonce: u8,
    insurance_vault_authority: Address,
    markets_pubkey: Address,
    admin_controls_prices: bool,
) -> (r: Operation)
    ensures
        r.program == programs.program,
        r.payload@ == spec_initialize_payload(
            clearing_house_nonce,
            collateral_vault_nonce,
            insurance_vault_nonce,
            admin_controls_prices,
        ),
        r.accounts@ == spec_initialize_accounts(
            *programs,
            admin,
            state_pubkey,
            collateral_mint,
            collateral_vault,
            collateral_vault_authority,
            insurance_vault,
            insurance_vault_authority,
            markets_pubkey,
        ),
{
    let mut payload: Vec<u8> = Vec::new();
    push_u64_le(&mut payload, INITIALIZE_OP);
    push_u8(&mut payload, clearing_house_nonce);
    push_u8(&mut payload, collateral_vault_nonce);
    push_u8(&mut payload, insurance_vault_nonce);
    push_u8(&mut payload, if admin_controls_prices { 1 } else { 0 });
    let mut accounts: Vec<AccountEntry> = Vec::new();
    accounts.push(AccountEntry { address: admin, is_signer: true, is_writable: true });
    accounts.push(AccountEntry { address: state_pubkey, is_signer: false, is_writable: true });
    accounts.push(AccountEntry { address: collateral_mint, is_signer: false, is_writable: false });
    accounts.push(AccountEntry { address: collateral_vault, is_signer: false, is_writable: true });
    accounts.push(
        AccountEntry {
            address: collateral_vault_authority,
            is_signer: false,
            is_writable: false,
        },
    );
    accounts.push(AccountEntry { address: insurance_vault, is_signer: false, is_writable: true });
    accounts.push(
        AccountEntry {
            address: insurance_vault_authority,
            is_signer: false,
            is_writable: false,
        },
    );
    accounts.push(AccountEntry { address: markets_pubkey, is_signer: true, is_writable: true });
    accounts.push(
        AccountEntry { address: programs.rent_sysvar, is_signer: false, is_writable: false },
    );
    accounts.push(
        AccountEntry { address: programs.system_program, is_signer: false, is_writable: false },
    );
    accounts.push(
        AccountEntry { address: programs.token_program, is_signer: false, is_writable: false },
    );
    let remaining_accounts: Vec<AccountEntry> = Vec::new();
    let r = ix(&programs.program, payload, Context { accounts, remaining_accounts });
    proof {
        assert(r.payload@ =~= spec_initialize_payload(
            clearing_house_nonce,
            collateral_vault_nonce,
            insurance_vault_nonce,
            admin_controls_prices,
        ));
        assert(r.accounts@ =~= spec_initialize_accounts(
            *programs,
            admin,
            state_pubkey,
            collateral_mint,
            collateral_vault,
            collateral_vault_authority,
            insurance_vault,
            insurance_vault_authority,
            markets_pubkey,
        ));
    }
    r
}

/// The account list of the history-initialization operation.
pub open spec fn spec_initialize_history_accounts(
    admin: Address,
    state_pubkey: Address,
    funding_payment_history: Address,
    trade_history: Address,
    liquidation_history: Address,
    deposit_history: Address,
    funding_rate_history: Address,
    curve_history: Address,
) -> Seq<AccountEntry> {
    seq![
        AccountEntry { address: admin, is_signer: true, is_writable: true },
        AccountEntry { address: state_pubkey, is_signer: false, is_writable: true },
        AccountEntry { address: funding_payment_history, is_signer: false, is_writable: true },
        AccountEntry { address: trade_history, is_signer: false, is_writable: true },
        AccountEntry { address: liquidation_history, is_signer: false, is_writable: true },
        AccountEntry { address: deposit_history, is_signer: false, is_writable: true },
        AccountEntry { address: funding_rate_history, is_signer: false, is_writable: true },
        AccountEntry { address: curve_history, is_signer: false, is_writable: true },
    ]
}

/// Build the history-initialization operation over the six freshly
/// generated history account identities.
pub fn build_initialize_history(
    programs: &ProgramSet,
    admin: Address,
    state_pubkey: Address,
    funding_payment_history: Address,
    trade_history: Address,
    liquidation_history: Address,
    deposit_history: Address,
    funding_rate_history: Address,
    curve_history: Address,
) -> (r: Operation)
    ensures
        r.program == programs.program,
        r.payload@ == spec_initialize_history_payload(),
        r.accounts@ == spec_initialize_history_accounts(
            admin,
            state_pubkey,
            funding_payment_history,
            trade_history,
            liquidation_history,
            deposit_history,
            funding_rate_history,
            curve_history,
        ),
{
    let mut payload: Vec<u8> = Vec::new();
    push_u64_le(&mut payload, INITIALIZE_HISTORY_OP);
    let mut accounts: Vec<AccountEntry> = Vec::new();
    accounts.push(AccountEntry { address: admin, is_signer: true, is_writable: true });
    accounts.push(AccountEntry { address: state_pubkey, is_signer: false, is_writable: true });
    accounts.push(
        AccountEntry { address: funding_payment_history, is_signer: false, is_writable: true },
    );
    accounts.push(AccountEntry { address: trade_history, is_signer: false, is_writable: true });
    accounts.push(
        AccountEntry { address: liquidation_history, is_signer: false, is_writable: true },
    );
    accounts.push(AccountEntry { address: deposit_history, is_signer: false, is_writable: true });
    accounts.push(
        AccountEntry { address: funding_rate_history, is_signer: false, is_writable: true },
    );
    accounts.push(AccountEntry { address: curve_history, is_signer: false, is_writable: true });
    let remaining_accounts: Vec<AccountEntry> = Vec::new();
    let r = ix(&programs.program, payload, Context { accounts, remaining_accounts });
    proof {
        assert(r.payload@ =~= spec_initialize_history_payload());
        assert(r.accounts@ =~= spec_initialize_history_accounts(
            admin,
            state_pubkey,
            funding_payment_history,
            trade_history,
            liquidation_history,
            deposit_history,
            funding_rate_history,
            curve_history,
        ));
    }
    r
}

/// The account list of the market-initialization operation.
pub open spec fn spec_initialize_market_accounts(
    admin: Address,
    state_pubkey: Address,
    markets_pubkey: Address,
    oracle: Address,
) -> Seq<AccountEntry> {
    seq![
        AccountEntry { address: admin, is_signer: true, is_writable: false },
        AccountEntry { address: state_pubkey, is_signer: false, is_writable: false },
        AccountEntry { address: markets_pubkey, is_signer: false, is_writable: true },
        AccountEntry { address: oracle, is_signer: false, is_writable: false },
    ]
}

/// Build the market-initialization operation. The index is bounds-checked
/// against the configured slots, and a slot that is already initialized is
/// refused before any network work.
pub fn build_initialize_market(
    programs: &ProgramSet,
    admin: Address,
    state_pubkey: Address,
    state: &StateRecord,
    markets: &MarketsRecord,
    market_index: u64,
    oracle: Address,
    base_asset_reserve: u128,
    quote_asset_reserve: u128,
    periodicity: u64,
    peg_multiplier: u128,
) -> (r: Result<Operation, DriftError>)
    requires
        markets.wf(),
    ensures
        r is Ok <==> (market_index < MARKET_SLOT_COUNT && !markets.slots@[market_index as int]
            .initialized),
        market_index >= MARKET_SLOT_COUNT ==> r == Err::<Operation, DriftError>(
            DriftError::InvalidMarketIndex,
        ),
        market_index < MARKET_SLOT_COUNT && markets.slots@[market_index as int].initialized ==> r
            == Err::<Operation, DriftError>(DriftError::AlreadyInitialized),
        r is Ok ==> r->Ok_0.program == programs.program && r->Ok_0.payload@
            == spec_initialize_market_payload(
            market_index,
            base_asset_reserve,
            quote_asset_reserve,
            periodicity,
            peg_multiplier,
        ) && r->Ok_0.accounts@ == spec_initialize_market_accounts(
            admin,
            state_pubkey,
            state.markets,
            oracle,
        ),
{
    let slot = match markets.market_slot(market_index) {
        Ok(s) => s,
        Err(e) => {
            return Err(e);
        },
    };
    if slot.initialized {
        return Err(DriftError::AlreadyInitialized);
    }
    let mut payload: Vec<u8> = Vec::new();
    push_u64_le(&mut payload, INITIALIZE_MARKET_OP);
    push_u64_le(&mut payload, market_index);
    push_u128_le(&mut payload, base_asset_reserve);
    push_u128_le(&mut payload, quote_asset_reserve);
    push_u64_le(&mut payload, periodicity);
    push_u128_le(&mut payload, peg_multiplier);
    let mut accounts: Vec<AccountEntry> = Vec::new();
    accounts.push(AccountEntry { address: admin, is_signer: true, is_writable: false });
    accounts.push(AccountEntry { address: state_pubkey, is_signer: false, is_writable: false });
    accounts.push(AccountEntry { address: state.markets, is_signer: false, is_writable: true });
    accounts.push(AccountEntry { address: oracle, is_signer: false, is_writable: false });
    let remaining_accounts: Vec<AccountEntry> = Vec::new();
    let r = ix(&programs.program, payload, Context { accounts, remaining_accounts });
    proof {
        assert(r.payload@ =~= spec_initialize_market_payload(
            market_index,
            base_asset_reserve,
            quote_asset_reserve,
            periodicity,
            peg_multiplier,
        ));
        assert(r.accounts@ =~= spec_initialize_market_accounts(
            admin,
            state_pubkey,
            state.markets,
            oracle,
        ));
    }
    Ok(r)
}

/// The account list of the base ledger's account-creation operation: the
/// funding wallet and the new account, both signing.
pub open spec fn spec_create_account_accounts(from: Address, new_account: Address) -> Seq<
    AccountEntry,
> {
    seq![
        AccountEntry { address: from, is_signer: true, is_writable: true },
        AccountEntry { address: new_account, is_signer: true, is_writable: true },
    ]
}

/// Build the base ledger operation that creates `new_account` with
/// exactly `space` bytes owned by `owner`, funded with `lamports` from
/// `from`. Sizes are the externally-specified constants; the remote
/// program rejects any other size.
pub fn build_create_account(
    programs: &ProgramSet,
    from: Address,
    new_account: Address,
    lamports: u64,
    space: u64,
    owner: Address,
) -> (r: Operation)
    ensures
        r.program == programs.system_program,
        r.payload@ == spec_create_account_payload(lamports, space, owner),
        r.accounts@ == spec_create_account_accounts(from, new_account),
{
    let mut payload: Vec<u8> = Vec::new();
    push_u64_le(&mut payload, CREATE_ACCOUNT_OP);
    push_u64_le(&mut payload, lamports);
    push_u64_le(&mut payload, space);
    push_address(&mut payload, &owner);
    let mut accounts: Vec<AccountEntry> = Vec::new();
    accounts.push(AccountEntry { address: from, is_signer: true, is_writable: true });
    accounts.push(AccountEntry { address: new_account, is_signer: true, is_writable: true });
    let remaining_accounts: Vec<AccountEntry> = Vec::new();
    let r = ix(&programs.system_program, payload, Context { accounts, remaining_accounts });
    proof {
        assert(r.payload@ =~= spec_create_account_payload(lamports, space, owner));
        assert(r.accounts@ =~= spec_create_account_accounts(from, new_account));
    }
    r
}

} // verus!
