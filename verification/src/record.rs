//! The diploma record and the storage slot that holds it.

use anchor_lang::prelude::Pubkey;
use vstd::prelude::*;

verus! {

/// A committed credential: who issued it, to whom, for what, and when.
#[derive(Debug, PartialEq, Eq)]
pub struct Diploma {
    /// Identity of the signer who created the record.
    pub issuer: Pubkey,
    /// Identity of the recipient, as the caller supplied it.
    pub student: Pubkey,
    pub student_name: String,
    pub degree: String,
    pub graduation_year: u16,
    /// Seconds since the epoch, by the ledger's clock at commit time.
    pub issued_at: i64,
}

/// What a `Diploma` says, with its text as sequences of characters.
pub struct DiplomaView {
    pub issuer: Pubkey,
    pub student: Pubkey,
    pub student_name: Seq<char>,
    pub degree: Seq<char>,
    pub graduation_year: u16,
    pub issued_at: i64,
}

impl View for Diploma {
    type V = DiplomaView;

    open spec fn view(&self) -> DiplomaView {
        DiplomaView {
            issuer: self.issuer,
            student: self.student,
            student_name: self.student_name@,
            degree: self.degree@,
            graduation_year: self.graduation_year,
            issued_at: self.issued_at,
        }
    }
}

impl Clone for Diploma {
    fn clone(&self) -> (copy: Diploma)
        ensures
            copy == *self,
    {
        Diploma {
            issuer: self.issuer,
            student: self.student,
            student_name: self.student_name.clone(),
            degree: self.degree.clone(),
            graduation_year: self.graduation_year,
            issued_at: self.issued_at,
        }
    }
}

/// A storage slot for one record. `Issued` is terminal: nothing leads back
/// to `Uninitialized`, and nothing replaces the record.
#[derive(Debug, PartialEq, Eq)]
pub enum Slot {
    Uninitialized,
    Issued(Diploma),
}

impl View for Slot {
    type V = Option<DiplomaView>;

    open spec fn view(&self) -> Option<DiplomaView> {
        match self {
            Slot::Uninitialized => None,
            Slot::Issued(diploma) => Some(diploma@),
        }
    }
}

impl Clone for Slot {
    fn clone(&self) -> (copy: Slot)
        ensures
            copy == *self,
    {
        match self {
            Slot::Uninitialized => Slot::Uninitialized,
            Slot::Issued(diploma) => Slot::Issued(diploma.clone()),
        }
    }
}

impl Slot {
    /// Whether the slot already holds a record.
    pub fn is_initialized(&self) -> (held: bool)
        ensures
            held == (self@ is Some),
    {
        match self {
            Slot::Uninitialized => false,
            Slot::Issued(_) => true,
        }
    }
}

} // verus!
