//! The one operation of the registry: issuing a diploma into a fresh slot.

use crate::host::read_clock;
use crate::layout::{fits_text_field, text_fits};
use crate::record::{Diploma, DiplomaView, Slot};
use anchor_lang::prelude::Pubkey;
use vstd::prelude::*;

verus! {

/// Why an issuance was rejected. A rejected issuance changes nothing.
#[derive(Clone, Copy, Debug, PartialEq, Eq, Structural)]
pub enum IssueError {
    /// The issuer did not sign, or is not the payer of the new slot.
    Unauthorized,
    /// The target slot already holds a record.
    AlreadyInitialized,
    /// A text field needs more bytes than the slot reserves for it.
    InsufficientStorage,
    /// The ledger supplied no timestamp.
    ClockUnavailable,
}

/// The issuer as the transaction presents it.
#[derive(Debug, PartialEq, Eq)]
pub struct IssuerAccount {
    pub key: Pubkey,
    /// Whether this identity signed the transaction.
    pub is_signer: bool,
    /// Whether this identity funds the allocation of the new slot.
    pub is_payer: bool,
}

impl IssuerAccount {
    /// The sole authorization rule: whoever signs and pays may issue.
    pub open spec fn authorized(&self) -> bool {
        self.is_signer && self.is_payer
    }
}

/// The accounts of one issuance request.
#[derive(Debug, PartialEq, Eq)]
pub struct IssueDiploma {
    /// The slot that is to receive the record.
    pub diploma: Slot,
    pub issuer: IssuerAccount,
    /// The recipient. This party neither signs nor consents.
    pub student: Pubkey,
}

impl Clone for IssuerAccount {
    fn clone(&self) -> (copy: IssuerAccount)
        ensures
            copy == *self,
    {
        IssuerAccount { key: self.key, is_signer: self.is_signer, is_payer: self.is_payer }
    }
}

impl Copy for IssuerAccount {}

impl Clone for IssueDiploma {
    fn clone(&self) -> (copy: IssueDiploma)
        ensures
            copy == *self,
    {
        IssueDiploma {
            diploma: self.diploma.clone(),
            issuer: self.issuer,
            student: self.student,
        }
    }
}

/// The verdict on a request, given what the clock returned.
///
/// Authorization is judged first, then the slot's freshness, then the clock,
/// and the size of the text fields last.
pub open spec fn issue_verdict(
    issuer: IssuerAccount,
    slot: Option<DiplomaView>,
    student_name: Seq<char>,
    degree: Seq<char>,
    clock: Option<i64>,
) -> Result<(), IssueError> {
    if !issuer.authorized() {
        Err(IssueError::Unauthorized)
    } else if slot is Some {
        Err(IssueError::AlreadyInitialized)
    } else if clock is None {
        Err(IssueError::ClockUnavailable)
    } else if !(text_fits(student_name) && text_fits(degree)) {
        Err(IssueError::InsufficientStorage)
    } else {
        Ok(())
    }
}

/// The slot after a request: the new record where the verdict is `Ok`, the
/// slot as it was where it is not.
pub open spec fn slot_after(
    issuer: IssuerAccount,
    student: Pubkey,
    slot: Option<DiplomaView>,
    student_name: Seq<char>,
    degree: Seq<char>,
    graduation_year: u16,
    clock: Option<i64>,
) -> Option<DiplomaView> {
    if issue_verdict(issuer, slot, student_name, degree, clock) is Ok {
        Some(
            DiplomaView {
                issuer: issuer.key,
                student,
                student_name,
                degree,
                graduation_year,
                issued_at: clock->Some_0,
            },
        )
    } else {
        slot
    }
}

/// Issues a diploma given the outcome of reading the ledger's clock
/// (`None` where the ledger supplied no timestamp).
///
/// On success the slot holds a record made of the issuer's and the
/// student's identities, the text and the year exactly as supplied, and the
/// clock's reading. On failure nothing is changed.
pub fn issue_diploma_at(
    ctx: &mut IssueDiploma,
    student_name: String,
    degree: String,
    graduation_year: u16,
    clock: Option<i64>,
) -> (result: Result<(), IssueError>)
    ensures
        result == issue_verdict(
            old(ctx).issuer,
            old(ctx).diploma@,
            student_name@,
            degree@,
            clock,
        ),
        final(ctx).diploma@ == slot_after(
            old(ctx).issuer,
            old(ctx).student,
            old(ctx).diploma@,
            student_name@,
            degree@,
            graduation_year,
            clock,
        ),
        final(ctx).issuer == old(ctx).issuer,
        final(ctx).student == old(ctx).student,
        result is Err ==> *final(ctx) == *old(ctx),
{
    if !(ctx.issuer.is_signer && ctx.issuer.is_payer) {
        return Err(IssueError::Unauthorized);
    }
    if ctx.diploma.is_initialized() {
        return Err(IssueError::AlreadyInitialized);
    }
    let issued_at = match clock {
        Some(now) => now,
        None => {
            return Err(IssueError::ClockUnavailable);
        },
    };
    if !(fits_text_field(student_name.as_str()) && fits_text_field(degree.as_str())) {
        return Err(IssueError::InsufficientStorage);
    }
    ctx.diploma = Slot::Issued(
        Diploma {
            issuer: ctx.issuer.key,
            student: ctx.student,
            student_name,
            degree,
            graduation_year,
            issued_at,
        },
    );
    Ok(())
}

/// Issues a diploma: checks the issuer and the slot, reads the ledger's
/// clock, and commits the record through `issue_diploma_at`.
///
/// An unauthorized issuer and an occupied slot are rejected whatever the
/// clock says. Beyond that the outcome is the one that `issue_diploma_at`
/// gives for some reading of the clock: it is `Ok` only where both text
/// fields fit, and then the record carries that reading.
pub fn issue_diploma(
    ctx: &mut IssueDiploma,
    student_name: String,
    degree: String,
    graduation_year: u16,
) -> (result: Result<(), IssueError>)
    ensures
        !old(ctx).issuer.authorized() ==> result == Err::<(), IssueError>(IssueError::Unauthorized),
        old(ctx).issuer.authorized() && old(ctx).diploma@ is Some ==> result == Err::<
            (),
            IssueError,
        >(IssueError::AlreadyInitialized),
        old(ctx).issuer.authorized() && old(ctx).diploma@ is None && !(text_fits(student_name@)
            && text_fits(degree@)) ==> result == Err::<(), IssueError>(
            IssueError::InsufficientStorage,
        ) || result == Err::<(), IssueError>(IssueError::ClockUnavailable),
        old(ctx).issuer.authorized() && old(ctx).diploma@ is None && text_fits(student_name@)
            && text_fits(degree@) ==> result is Ok || result == Err::<(), IssueError>(
            IssueError::ClockUnavailable,
        ),
        result is Ok ==> {
            &&& final(ctx).diploma@ is Some
            &&& final(ctx).diploma@->Some_0.issuer == old(ctx).issuer.key
            &&& final(ctx).diploma@->Some_0.student == old(ctx).student
            &&& final(ctx).diploma@->Some_0.student_name == student_name@
            &&& final(ctx).diploma@->Some_0.degree == degree@
            &&& final(ctx).diploma@->Some_0.graduation_year == graduation_year
        },
        exists|clock: Option<i64>|
            {
                &&& result == issue_verdict(
                    old(ctx).issuer,
                    old(ctx).diploma@,
                    student_name@,
                    degree@,
                    clock,
                )
                &&& final(ctx).diploma@ == #[trigger] slot_after(
                    old(ctx).issuer,
                    old(ctx).student,
                    old(ctx).diploma@,
                    student_name@,
                    degree@,
                    graduation_year,
                    clock,
                )
            },
        final(ctx).issuer == old(ctx).issuer,
        final(ctx).student == old(ctx).student,
        result is Err ==> *final(ctx) == *old(ctx),
{
    if !(ctx.issuer.is_signer && ctx.issuer.is_payer) || ctx.diploma.is_initialized() {
        // Rejected before the clock is consulted: any reading gives this verdict.
        return issue_diploma_at(ctx, student_name, degree, graduation_year, None);
    }
    let clock = match read_clock() {
        Ok(now) => Some(now),
        Err(_) => None,
    };
    issue_diploma_at(ctx, student_name, degree, graduation_year, clock)
}

} // verus!
