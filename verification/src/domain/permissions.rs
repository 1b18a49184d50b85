//! Les permissions que ce module garde : des chaînes lues en base.

use vstd::prelude::*;

verus! {

pub const PROPOSAL_SUBMIT: &'static str = "programme.proposal.submit";
pub const PROPOSAL_READ_ALL: &'static str = "programme.proposal.read_all";
pub const REVIEW_WRITE: &'static str = "programme.review.write";
pub const PROPOSAL_DECIDE: &'static str = "programme.proposal.decide";
/// Permission d'un autre module : elle garde l'affectation d'un membre du
/// comité à un dossier.
pub const CALL_MANAGE: &'static str = "event.call.manage";
/// Détenir l'une des deux permissions de programmation n'accorde pas l'autre.
pub const SESSION_SCHEDULE: &'static str = "programme.session.schedule";
pub const REGISTRATION_MANAGE: &'static str = "programme.registration.manage";

/// Une permission désignée par son code.
pub trait PermissionSpec {
    fn code() -> (r: &'static str);
}

pub struct ProposalSubmit;

impl PermissionSpec for ProposalSubmit {
    fn code() -> (r: &'static str)
        ensures
            r@ == PROPOSAL_SUBMIT@,
    {
        PROPOSAL_SUBMIT
    }
}

pub struct ProposalReadAll;

impl PermissionSpec for ProposalReadAll {
    fn code() -> (r: &'static str)
        ensures
            r@ == PROPOSAL_READ_ALL@,
    {
        PROPOSAL_READ_ALL
    }
}

pub struct ReviewWrite;

impl PermissionSpec for ReviewWrite {
    fn code() -> (r: &'static str)
        ensures
            r@ == REVIEW_WRITE@,
    {
        REVIEW_WRITE
    }
}

pub struct ProposalDecide;

impl PermissionSpec for ProposalDecide {
    fn code() -> (r: &'static str)
        ensures
            r@ == PROPOSAL_DECIDE@,
    {
        PROPOSAL_DECIDE
    }
}

pub struct CallManage;

impl PermissionSpec for CallManage {
    fn code() -> (r: &'static str)
        ensures
            r@ == CALL_MANAGE@,
    {
        CALL_MANAGE
    }
}

pub struct SessionSchedule;

impl PermissionSpec for SessionSchedule {
    fn code() -> (r: &'static str)
        ensures
            r@ == SESSION_SCHEDULE@,
    {
        SESSION_SCHEDULE
    }
}

pub struct RegistrationManage;

impl PermissionSpec for RegistrationManage {
    fn code() -> (r: &'static str)
        ensures
            r@ == REGISTRATION_MANAGE@,
    {
        REGISTRATION_MANAGE
    }
}

} // verus!
