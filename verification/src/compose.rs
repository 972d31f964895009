//! The transaction composer: one or more operations plus their signing
//! identities, combined into a single all-or-nothing submission.

use vstd::prelude::*;
use crate::address::Address;
use crate::ops::Operation;

verus! {

/// An atomic batch: the operations in the exact order they will execute,
/// the signing identities, and the fee payer. The ledger applies all of
/// its operations or none; the composer never splits a logically atomic
/// action across two submissions.
#[derive(PartialEq, Eq, Debug)]
pub struct Submission {
    pub fee_payer: Address,
    pub signers: Vec<Address>,
    pub operations: Vec<Operation>,
}

/// Compose a submission. The façade's primary wallet is always prepended
/// as fee payer and first signer; the additional signing identities
/// follow; the operations keep exactly the order given — callers rely on
/// this for create-then-use sequences within one batch.
pub fn compose(
    fee_payer: Address,
    additional_signers: Vec<Address>,
    operations: Vec<Operation>,
) -> (r: Submission)
    ensures
        r.fee_payer == fee_payer,
        r.signers@ == seq![fee_payer] + additional_signers@,
        r.signers@[0] == fee_payer,
        r.operations@ == operations@,
{
    let mut signers: Vec<Address> = Vec::new();
    signers.push(fee_payer);
    let mut rest = additional_signers;
    signers.append(&mut rest);
    proof {
        assert(signers@ =~= seq![fee_payer] + additional_signers@);
    }
    Submission { fee_payer, signers, operations }
}

/// Law: composing preserves operation order exactly and never drops or
/// reorders an operation; the fee payer always signs first.
pub proof fn lemma_compose_preserves_order(
    fee_payer: Address,
    additional: Seq<Address>,
    operations: Seq<Operation>,
)
    ensures
        (seq![fee_payer] + additional)[0] == fee_payer,
        (seq![fee_payer] + additional).len() == 1 + additional.len(),
        forall|i: int| 0 <= i < additional.len() ==> (seq![fee_payer] + additional)[i + 1]
            == additional[i],
{
}

} // verus!
