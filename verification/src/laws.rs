//! What holds of every issuance, stated over `issue_verdict` and
//! `slot_after`, the two functions in which `issue_diploma_at` and
//! `issue_diploma` state their results.

use crate::issuance::{issue_verdict, slot_after, IssueError, IssuerAccount};
use crate::layout::{lemma_fitting_record_within_slot, record_encoded_len, text_fits, DIPLOMA_SPACE};
use crate::record::DiplomaView;
use anchor_lang::prelude::Pubkey;
use vstd::prelude::*;

verus! {

/// A request by an authorized issuer, on a fresh slot, with a clock reading
/// and text that fits, is accepted, and the slot then holds exactly one
/// record: the six fields are the issuer's key, the student, the two texts,
/// the year and the reading.
pub proof fn lemma_valid_request_commits(
    issuer: IssuerAccount,
    student: Pubkey,
    student_name: Seq<char>,
    degree: Seq<char>,
    graduation_year: u16,
    now: i64,
)
    requires
        issuer.authorized(),
        text_fits(student_name),
        text_fits(degree),
    ensures
        issue_verdict(issuer, None, student_name, degree, Some(now)) is Ok,
        slot_after(issuer, student, None, student_name, degree, graduation_year, Some(now))
            == Some(
            DiplomaView {
                issuer: issuer.key,
                student,
                student_name,
                degree,
                graduation_year,
                issued_at: now,
            },
        ),
{
}

/// A request whose issuer did not sign, or does not pay, is rejected as
/// unauthorized whatever else it holds, and the slot stays as it was.
pub proof fn lemma_unauthorized_rejected(
    issuer: IssuerAccount,
    student: Pubkey,
    slot: Option<DiplomaView>,
    student_name: Seq<char>,
    degree: Seq<char>,
    graduation_year: u16,
    clock: Option<i64>,
)
    requires
        !issuer.authorized(),
    ensures
        issue_verdict(issuer, slot, student_name, degree, clock) == Err::<(), IssueError>(
            IssueError::Unauthorized,
        ),
        slot_after(issuer, student, slot, student_name, degree, graduation_year, clock) == slot,
{
}

/// A request by an authorized issuer on a slot that already holds a record
/// is rejected as already initialized.
pub proof fn lemma_occupied_slot_rejected(
    issuer: IssuerAccount,
    held: DiplomaView,
    student_name: Seq<char>,
    degree: Seq<char>,
    clock: Option<i64>,
)
    requires
        issuer.authorized(),
    ensures
        issue_verdict(issuer, Some(held), student_name, degree, clock) == Err::<(), IssueError>(
            IssueError::AlreadyInitialized,
        ),
{
}

/// A committed record is immutable: no request, accepted or not, by any
/// issuer, changes a slot that holds one.
pub proof fn lemma_record_immutable(
    issuer: IssuerAccount,
    student: Pubkey,
    held: DiplomaView,
    student_name: Seq<char>,
    degree: Seq<char>,
    graduation_year: u16,
    clock: Option<i64>,
)
    ensures
        issue_verdict(issuer, Some(held), student_name, degree, clock) is Err,
        slot_after(issuer, student, Some(held), student_name, degree, graduation_year, clock)
            == Some(held),
{
}

/// A request by an authorized issuer on a fresh slot, with a clock reading,
/// is rejected for want of storage exactly when one of the two texts
/// outgrows its field; the slot then stays uninitialized.
pub proof fn lemma_oversized_text_rejected(
    issuer: IssuerAccount,
    student: Pubkey,
    student_name: Seq<char>,
    degree: Seq<char>,
    graduation_year: u16,
    now: i64,
)
    requires
        issuer.authorized(),
    ensures
        !(text_fits(student_name) && text_fits(degree)) <==> issue_verdict(
            issuer,
            None,
            student_name,
            degree,
            Some(now),
        ) == Err::<(), IssueError>(IssueError::InsufficientStorage),
        !(text_fits(student_name) && text_fits(degree)) ==> slot_after(
            issuer,
            student,
            None,
            student_name,
            degree,
            graduation_year,
            Some(now),
        ) is None,
{
}

/// The timestamp of a record that a request commits is the clock reading
/// handed to that request: without a reading nothing is committed, and no
/// other value ever takes the reading's place.
pub proof fn lemma_issued_at_is_clock_reading(
    issuer: IssuerAccount,
    student: Pubkey,
    slot: Option<DiplomaView>,
    student_name: Seq<char>,
    degree: Seq<char>,
    graduation_year: u16,
    clock: Option<i64>,
)
    requires
        issue_verdict(issuer, slot, student_name, degree, clock) is Ok,
    ensures
        clock is Some,
        slot_after(issuer, student, slot, student_name, degree, graduation_year, clock) is Some,
        slot_after(
            issuer,
            student,
            slot,
            student_name,
            degree,
            graduation_year,
            clock,
        )->Some_0.issued_at == clock->Some_0,
{
}

/// The slot never needs resizing: whatever record a request commits takes
/// no more bytes than were reserved when the slot was allocated.
pub proof fn lemma_committed_record_within_slot(
    issuer: IssuerAccount,
    student: Pubkey,
    slot: Option<DiplomaView>,
    student_name: Seq<char>,
    degree: Seq<char>,
    graduation_year: u16,
    clock: Option<i64>,
)
    requires
        issue_verdict(issuer, slot, student_name, degree, clock) is Ok,
    ensures
        ({
            let committed = slot_after(
                issuer,
                student,
                slot,
                student_name,
                degree,
                graduation_year,
                clock,
            )->Some_0;
            record_encoded_len(committed.student_name, committed.degree) <= DIPLOMA_SPACE
        }),
{
    lemma_fitting_record_within_slot(student_name, degree);
}

/// A slot is issued into once. After an accepted request, a second request
/// by the same issuer on the same slot is rejected as already initialized,
/// whatever it asks for, and the first record stays as it was committed.
pub proof fn lemma_slot_issued_once(
    issuer: IssuerAccount,
    student: Pubkey,
    slot: Option<DiplomaView>,
    first_name: Seq<char>,
    first_degree: Seq<char>,
    first_year: u16,
    first_clock: Option<i64>,
    second_student: Pubkey,
    second_name: Seq<char>,
    second_degree: Seq<char>,
    second_year: u16,
    second_clock: Option<i64>,
)
    requires
        issue_verdict(issuer, slot, first_name, first_degree, first_clock) is Ok,
    ensures
        ({
            let committed = slot_after(
                issuer,
                student,
                slot,
                first_name,
                first_degree,
                first_year,
                first_clock,
            );
            &&& issue_verdict(issuer, committed, second_name, second_degree, second_clock)
                == Err::<(), IssueError>(IssueError::AlreadyInitialized)
            &&& slot_after(
                issuer,
                second_student,
                committed,
                second_name,
                second_degree,
                second_year,
                second_clock,
            ) == committed
        }),
{
}

} // verus!
