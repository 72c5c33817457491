//! Policy enforcement for mutations: who may propose and approve, how many
//! approvals a mutation needs, and how long it waits before it can run.
//!
//! Time is handed in by the caller, in seconds since the epoch, and so are
//! the identifiers of new proposals.

use crate::text::{clone_texts, contains_text, spec_texts, str_eq};
use vstd::prelude::*;

verus! {

/// A policy as loaded from configuration.
#[derive(Debug, Clone)]
pub struct Policy {
    pub version: String,
    pub capabilities: Vec<(String, String)>,
    pub mutations: Vec<MutationPolicy>,
    pub roles: Vec<Role>,
    pub routes: Vec<Route>,
    pub consent_bindings: Vec<ConsentBinding>,
    pub constraints: Constraints,
}

/// What one kind of mutation requires.
#[derive(Debug, Clone)]
pub struct MutationPolicy {
    pub name: String,
    pub description: String,
    pub approvals: u32,
    pub timelock_hours: u32,
}

/// A role: its members and what they may do.
#[derive(Debug, Clone)]
pub struct Role {
    pub name: String,
    pub members: Vec<String>,
    pub privileges: Vec<String>,
}

/// A route and its guards.
#[derive(Debug, Clone)]
pub struct Route {
    pub path: String,
    pub plane: String,
    pub methods: Vec<String>,
    pub guards: Vec<String>,
}

/// A binding to a consent manifest.
#[derive(Debug, Clone)]
pub struct ConsentBinding {
    pub name: String,
    pub manifest_ref: String,
    pub required: bool,
    pub defaults: ConsentDefaults,
}

/// Defaults where no consent was recorded.
#[derive(Debug, Clone)]
pub struct ConsentDefaults {
    pub telemetry: String,
    pub indexing: String,
}

/// Constraints on the service as a whole.
#[derive(Debug, Clone, Copy, PartialEq, Eq, Structural)]
pub struct Constraints {
    pub require_mtls: bool,
    pub log_all_mutations: bool,
    pub max_rate_rpm: u32,
}

/// Where a proposal stands.
#[derive(Debug, Clone, Copy, PartialEq, Eq, Structural)]
pub enum ProposalStatus {
    Pending,
    TimelockActive,
    Approved,
    Rejected,
    Executed,
}

/// A proposed mutation on its way to execution. The payload is carried as
/// JSON text and never looked into.
#[derive(Debug, Clone)]
pub struct MutationProposal {
    pub id: String,
    pub mutation_name: String,
    pub proposer: String,
    pub proposed_at: u64,
    pub timelock_until: u64,
    pub approvals: Vec<String>,
    pub required_approvals: u32,
    pub status: ProposalStatus,
    pub payload: String,
}

/// A proposal as plain values.
pub struct ProposalView {
    pub id: Seq<char>,
    pub mutation_name: Seq<char>,
    pub proposer: Seq<char>,
    pub proposed_at: u64,
    pub timelock_until: u64,
    pub approvals: Seq<Seq<char>>,
    pub required_approvals: u32,
    pub status: ProposalStatus,
    pub payload: Seq<char>,
}

/// Why the enforcer refused.
#[derive(Debug, Clone, Copy, PartialEq, Eq, Structural)]
pub enum PolicyError {
    /// The identity has no privilege for the mutation.
    LacksPrivilege,
    /// The policy knows no mutation of that name.
    UnknownMutation,
    /// There is no proposal with that identifier.
    ProposalNotFound,
    /// The identity has approved the proposal before.
    AlreadyApproved,
    /// The proposal cannot be executed yet, or any more.
    NotExecutable,
}

/// Holds a policy and the proposals made under it.
pub struct PolicyEnforcer {
    pub policy: Policy,
    pub proposals: Vec<MutationProposal>,
}

impl View for MutationProposal {
    type V = ProposalView;

    open spec fn view(&self) -> ProposalView {
        ProposalView {
            id: self.id@,
            mutation_name: self.mutation_name@,
            proposer: self.proposer@,
            proposed_at: self.proposed_at,
            timelock_until: self.timelock_until,
            approvals: spec_texts(self.approvals@),
            required_approvals: self.required_approvals,
            status: self.status,
            payload: self.payload@,
        }
    }
}

/// The proposals of a list as plain values.
pub open spec fn spec_proposals(list: Seq<MutationProposal>) -> Seq<ProposalView> {
    list.map_values(|p: MutationProposal| p@)
}

/// Whether `identity` belongs to a role that holds `privilege`.
pub open spec fn spec_has_privilege(roles: Seq<Role>, identity: Seq<char>, privilege: Seq<char>) -> bool {
    exists|i: int|
        0 <= i < roles.len() && spec_texts((#[trigger] roles[i]).members@).contains(identity)
            && spec_texts(roles[i].privileges@).contains(privilege)
}

/// The position of the first mutation policy named `name` at or after
/// `from`; the length of the list if there is none.
pub open spec fn spec_mutation_position(mutations: Seq<MutationPolicy>, name: Seq<char>, from: int) -> int
    decreases mutations.len() - from,
{
    if from < 0 || from >= mutations.len() {
        mutations.len() as int
    } else if mutations[from].name@ == name {
        from
    } else {
        spec_mutation_position(mutations, name, from + 1)
    }
}

/// The position of the first proposal with identifier `id` at or after
/// `from`; the length of the list if there is none.
pub open spec fn spec_proposal_position(proposals: Seq<ProposalView>, id: Seq<char>, from: int) -> int
    decreases proposals.len() - from,
{
    if from < 0 || from >= proposals.len() {
        proposals.len() as int
    } else if proposals[from].id == id {
        from
    } else {
        spec_proposal_position(proposals, id, from + 1)
    }
}

/// The end of a time lock of `hours` hours that starts at `now`, held at
/// the largest time that 64 bits can count.
pub open spec fn spec_timelock_until(now: u64, hours: u32) -> u64 {
    if now + hours * 3600 > u64::MAX {
        u64::MAX
    } else {
        (now + hours * 3600) as u64
    }
}

/// The status a proposal starts out with: under a time lock if the policy
/// has one; else approved if the proposer's own approval is enough; else
/// pending.
pub open spec fn spec_initial_status(approvals: u32, timelock_hours: u32) -> ProposalStatus {
    if timelock_hours > 0 {
        ProposalStatus::TimelockActive
    } else if approvals <= 1 {
        ProposalStatus::Approved
    } else {
        ProposalStatus::Pending
    }
}

/// The proposal that proposing makes. The proposer approves by proposing.
pub open spec fn spec_new_proposal(
    policy: MutationPolicy,
    mutation_name: Seq<char>,
    proposer: Seq<char>,
    payload: Seq<char>,
    id: Seq<char>,
    now: u64,
) -> ProposalView {
    ProposalView {
        id,
        mutation_name,
        proposer,
        proposed_at: now,
        timelock_until: spec_timelock_until(now, policy.timelock_hours),
        approvals: seq![proposer],
        required_approvals: policy.approvals,
        status: spec_initial_status(policy.approvals, policy.timelock_hours),
        payload,
    }
}

/// `proposals` with `proposal` stored under its identifier: in place of the
/// first proposal that has it, else at the end.
pub open spec fn spec_stored(proposals: Seq<ProposalView>, proposal: ProposalView) -> Seq<ProposalView> {
    let at = spec_proposal_position(proposals, proposal.id, 0);
    if at < proposals.len() {
        proposals.update(at, proposal)
    } else {
        proposals.push(proposal)
    }
}

/// A proposal after one more approval: the approver is added, and a pending
/// proposal that has enough approvals with it is approved.
pub open spec fn spec_approved(proposal: ProposalView, approver: Seq<char>) -> ProposalView {
    ProposalView {
        approvals: proposal.approvals.push(approver),
        status: if proposal.approvals.len() + 1 >= proposal.required_approvals && proposal.status
            == ProposalStatus::Pending {
            ProposalStatus::Approved
        } else {
            proposal.status
        },
        ..proposal
    }
}

/// Whether a proposal can be executed at `now`: it is approved or under a
/// time lock, has the approvals it needs, and its time lock has run out.
pub open spec fn spec_executable(proposal: ProposalView, now: u64) -> bool {
    &&& (proposal.status == ProposalStatus::Approved || proposal.status
        == ProposalStatus::TimelockActive)
    &&& proposal.approvals.len() >= proposal.required_approvals
    &&& now >= proposal.timelock_until
}

/// Copies a proposal.
pub fn copy_proposal(proposal: &MutationProposal) -> (copy: MutationProposal)
    ensures
        copy@ == proposal@,
{
    MutationProposal {
        id: proposal.id.clone(),
        mutation_name: proposal.mutation_name.clone(),
        proposer: proposal.proposer.clone(),
        proposed_at: proposal.proposed_at,
        timelock_until: proposal.timelock_until,
        approvals: clone_texts(&proposal.approvals),
        required_approvals: proposal.required_approvals,
        status: proposal.status,
        payload: proposal.payload.clone(),
    }
}

impl PolicyEnforcer {
    /// An enforcer for `policy` with no proposals yet.
    pub fn new(policy: Policy) -> (enforcer: PolicyEnforcer)
        ensures
            enforcer.policy == policy,
            enforcer.proposals@.len() == 0,
    {
        PolicyEnforcer { policy, proposals: Vec::new() }
    }

    /// Checks whether an identity has a privilege.
    pub fn has_privilege(&self, identity: &str, privilege: &str) -> (has: bool)
        ensures
            has == spec_has_privilege(self.policy.roles@, identity@, privilege@),
    {
        let mut at: usize = 0;
        while at < self.policy.roles.len()
            invariant
                at <= self.policy.roles.len(),
                forall|i: int|
                    0 <= i < at ==> !(spec_texts(
                        (#[trigger] self.policy.roles@[i]).members@,
                    ).contains(identity@) && spec_texts(self.policy.roles@[i].privileges@).contains(
                        privilege@,
                    )),
            decreases self.policy.roles.len() - at,
        {
            let role: &Role = &self.policy.roles[at];
            if contains_text(&role.members, identity) && contains_text(&role.privileges, privilege) {
                return true;
            }
            at = at + 1;
        }
        false
    }

    fn mutation_position(&self, name: &str) -> (at: usize)
        ensures
            at == spec_mutation_position(self.policy.mutations@, name@, 0),
            at <= self.policy.mutations@.len(),
            at < self.policy.mutations@.len() ==> self.policy.mutations@[at as int].name@ == name@,
    {
        let mut at: usize = 0;
        while at < self.policy.mutations.len()
            invariant
                at <= self.policy.mutations.len(),
                spec_mutation_position(self.policy.mutations@, name@, 0) == spec_mutation_position(
                    self.policy.mutations@,
                    name@,
                    at as int,
                ),
            decreases self.policy.mutations.len() - at,
        {
            if str_eq(self.policy.mutations[at].name.as_str(), name) {
                return at;
            }
            at = at + 1;
        }
        at
    }

    fn proposal_position(&self, id: &str) -> (at: usize)
        ensures
            at == spec_proposal_position(spec_proposals(self.proposals@), id@, 0),
            at <= self.proposals@.len(),
            at < self.proposals@.len() ==> self.proposals@[at as int].id@ == id@,
    {
        let ghost views = spec_proposals(self.proposals@);
        let mut at: usize = 0;
        while at < self.proposals.len()
            invariant
                at <= self.proposals.len(),
                views == spec_proposals(self.proposals@),
                spec_proposal_position(views, id@, 0) == spec_proposal_position(
                    views,
                    id@,
                    at as int,
                ),
            decreases self.proposals.len() - at,
        {
            assert(views[at as int] == self.proposals@[at as int]@);
            if str_eq(self.proposals[at].id.as_str(), id) {
                return at;
            }
            at = at + 1;
        }
        at
    }

    /// Looks up the policy of a mutation by name.
    pub fn get_mutation_policy(&self, mutation_name: &str) -> (found: Option<&MutationPolicy>)
        ensures
            match found {
                Some(policy) => spec_mutation_position(self.policy.mutations@, mutation_name@, 0)
                    < self.policy.mutations@.len() && *policy == self.policy.mutations@[spec_mutation_position(
                    self.policy.mutations@,
                    mutation_name@,
                    0,
                )],
                None => spec_mutation_position(self.policy.mutations@, mutation_name@, 0)
                    == self.policy.mutations@.len(),
            },
    {
        let at: usize = self.mutation_position(mutation_name);
        if at < self.policy.mutations.len() {
            Some(&self.policy.mutations[at])
        } else {
            None
        }
    }

    /// Proposes a mutation. The proposer must hold the privilege named like
    /// the mutation, and the policy must know the mutation. The new
    /// proposal is stored under `id` and returned.
    pub fn propose_mutation(
        &mut self,
        mutation_name: &str,
        proposer: &str,
        payload: String,
        id: String,
        now: u64,
    ) -> (result: Result<MutationProposal, PolicyError>)
        ensures
            final(self).policy == old(self).policy,
            match result {
                Ok(proposal) => {
                    &&& spec_has_privilege(old(self).policy.roles@, proposer@, mutation_name@)
                    &&& spec_mutation_position(old(self).policy.mutations@, mutation_name@, 0) < old(
                        self,
                    ).policy.mutations@.len()
                    &&& proposal@ == spec_new_proposal(
                        old(self).policy.mutations@[spec_mutation_position(
                            old(self).policy.mutations@,
                            mutation_name@,
                            0,
                        )],
                        mutation_name@,
                        proposer@,
                        payload@,
                        id@,
                        now,
                    )
                    &&& spec_proposals(final(self).proposals@) == spec_stored(
                        spec_proposals(old(self).proposals@),
                        proposal@,
                    )
                },
                Err(e) => {
                    &&& final(self).proposals@ == old(self).proposals@
                    &&& if !spec_has_privilege(old(self).policy.roles@, proposer@, mutation_name@) {
                        e == PolicyError::LacksPrivilege
                    } else {
                        e == PolicyError::UnknownMutation && spec_mutation_position(
                            old(self).policy.mutations@,
                            mutation_name@,
                            0,
                        ) == old(self).policy.mutations@.len()
                    }
                },
            },
    {
        if !self.has_privilege(proposer, mutation_name) {
            return Err(PolicyError::LacksPrivilege);
        }
        let at: usize = self.mutation_position(mutation_name);
        if at >= self.policy.mutations.len() {
            return Err(PolicyError::UnknownMutation);
        }
        let approvals_needed: u32 = self.policy.mutations[at].approvals;
        let timelock_hours: u32 = self.policy.mutations[at].timelock_hours;
        let wait: u64 = (timelock_hours as u64) * 3600;
        let timelock_until: u64 = if now > u64::MAX - wait {
            u64::MAX
        } else {
            now + wait
        };
        let status: ProposalStatus = if timelock_hours > 0 {
            ProposalStatus::TimelockActive
        } else if approvals_needed <= 1 {
            ProposalStatus::Approved
        } else {
            ProposalStatus::Pending
        };
        let mut approvals: Vec<String> = Vec::new();
        approvals.push(proposer.to_owned());
        assert(spec_texts(approvals@) =~= seq![proposer@]);
        let proposal = MutationProposal {
            id,
            mutation_name: mutation_name.to_owned(),
            proposer: proposer.to_owned(),
            proposed_at: now,
            timelock_until,
            approvals,
            required_approvals: approvals_needed,
            status,
            payload,
        };
        let copy: MutationProposal = copy_proposal(&proposal);
        let stored_at: usize = self.proposal_position(proposal.id.as_str());
        let ghost before = spec_proposals(self.proposals@);
        if stored_at < self.proposals.len() {
            self.proposals.set(stored_at, proposal);
            assert(spec_proposals(self.proposals@) =~= before.update(stored_at as int, copy@));
        } else {
            self.proposals.push(proposal);
            assert(spec_proposals(self.proposals@) =~= before.push(copy@));
        }
        Ok(copy)
    }

    /// Approves a proposal. The approver must hold the privilege named like
    /// the proposal's mutation, and must not have approved before.
    pub fn approve_proposal(&mut self, proposal_id: &str, approver: &str) -> (result: Result<
        MutationProposal,
        PolicyError,
    >)
        ensures
            final(self).policy == old(self).policy,
            ({
                let before = spec_proposals(old(self).proposals@);
                let at = spec_proposal_position(before, proposal_id@, 0);
                match result {
                    Ok(proposal) => {
                        &&& at < before.len()
                        &&& spec_has_privilege(
                            old(self).policy.roles@,
                            approver@,
                            before[at].mutation_name,
                        )
                        &&& !before[at].approvals.contains(approver@)
                        &&& proposal@ == spec_approved(before[at], approver@)
                        &&& spec_proposals(final(self).proposals@) == before.update(at, proposal@)
                    },
                    Err(e) => {
                        &&& final(self).proposals@ == old(self).proposals@
                        &&& if at >= before.len() {
                            e == PolicyError::ProposalNotFound
                        } else if !spec_has_privilege(
                            old(self).policy.roles@,
                            approver@,
                            before[at].mutation_name,
                        ) {
                            e == PolicyError::LacksPrivilege
                        } else {
                            e == PolicyError::AlreadyApproved && before[at].approvals.contains(
                                approver@,
                            )
                        }
                    },
                }
            }),
    {
        let at: usize = self.proposal_position(proposal_id);
        if at >= self.proposals.len() {
            return Err(PolicyError::ProposalNotFound);
        }
        let ghost before = spec_proposals(self.proposals@);
        assert(before[at as int] == self.proposals@[at as int]@);
        if !self.has_privilege(approver, self.proposals[at].mutation_name.as_str()) {
            return Err(PolicyError::LacksPrivilege);
        }
        if contains_text(&self.proposals[at].approvals, approver) {
            return Err(PolicyError::AlreadyApproved);
        }
        let mut updated: MutationProposal = copy_proposal(&self.proposals[at]);
        let ghost earlier = spec_texts(updated.approvals@);
        updated.approvals.push(approver.to_owned());
        assert(spec_texts(updated.approvals@) =~= earlier.push(approver@));
        if updated.approvals.len() >= updated.required_approvals as usize {
            match updated.status {
                ProposalStatus::Pending => {
                    updated.status = ProposalStatus::Approved;
                },
                _ => {},
            }
        }
        let copy: MutationProposal = copy_proposal(&updated);
        self.proposals.set(at, updated);
        assert(spec_proposals(self.proposals@) =~= before.update(at as int, copy@));
        Ok(copy)
    }

    /// Checks whether a proposal can be executed at `now`.
    pub fn can_execute_proposal(&self, proposal_id: &str, now: u64) -> (result: Result<
        bool,
        PolicyError,
    >)
        ensures
            ({
                let proposals = spec_proposals(self.proposals@);
                let at = spec_proposal_position(proposals, proposal_id@, 0);
                match result {
                    Ok(yes) => at < proposals.len() && yes == spec_executable(proposals[at], now),
                    Err(e) => at >= proposals.len() && e == PolicyError::ProposalNotFound,
                }
            }),
    {
        let at: usize = self.proposal_position(proposal_id);
        if at >= self.proposals.len() {
            return Err(PolicyError::ProposalNotFound);
        }
        assert(spec_proposals(self.proposals@)[at as int] == self.proposals@[at as int]@);
        let proposal: &MutationProposal = &self.proposals[at];
        let status_fits: bool = match proposal.status {
            ProposalStatus::Approved => true,
            ProposalStatus::TimelockActive => true,
            _ => false,
        };
        if !status_fits {
            return Ok(false);
        }
        if proposal.approvals.len() < proposal.required_approvals as usize {
            return Ok(false);
        }
        if now < proposal.timelock_until {
            return Ok(false);
        }
        Ok(true)
    }

    /// Executes a proposal: marks it as executed, if it can be executed at
    /// `now`.
    pub fn execute_proposal(&mut self, proposal_id: &str, now: u64) -> (result: Result<
        MutationProposal,
        PolicyError,
    >)
        ensures
            final(self).policy == old(self).policy,
            ({
                let before = spec_proposals(old(self).proposals@);
                let at = spec_proposal_position(before, proposal_id@, 0);
                match result {
                    Ok(proposal) => {
                        &&& at < before.len()
                        &&& spec_executable(before[at], now)
                        &&& proposal@ == (ProposalView {
                            status: ProposalStatus::Executed,
                            ..before[at]
                        })
                        &&& spec_proposals(final(self).proposals@) == before.update(at, proposal@)
                    },
                    Err(e) => {
                        &&& final(self).proposals@ == old(self).proposals@
                        &&& if at >= before.len() {
                            e == PolicyError::ProposalNotFound
                        } else {
                            e == PolicyError::NotExecutable && !spec_executable(before[at], now)
                        }
                    },
                }
            }),
    {
        match self.can_execute_proposal(proposal_id, now) {
            Ok(true) => {},
            Ok(false) => {
                return Err(PolicyError::NotExecutable);
            },
            Err(e) => {
                return Err(e);
            },
        }
        let at: usize = self.proposal_position(proposal_id);
        let ghost before = spec_proposals(self.proposals@);
        assert(before[at as int] == self.proposals@[at as int]@);
        let mut updated: MutationProposal = copy_proposal(&self.proposals[at]);
        updated.status = ProposalStatus::Executed;
        let copy: MutationProposal = copy_proposal(&updated);
        self.proposals.set(at, updated);
        assert(spec_proposals(self.proposals@) =~= before.update(at as int, copy@));
        Ok(copy)
    }

    /// All proposals, in the order in which their identifiers were first
    /// used.
    pub fn get_proposals(&self) -> (all: Vec<MutationProposal>)
        ensures
            spec_proposals(all@) == spec_proposals(self.proposals@),
    {
        let mut all: Vec<MutationProposal> = Vec::new();
        let mut at: usize = 0;
        while at < self.proposals.len()
            invariant
                at <= self.proposals.len(),
                all@.len() == at,
                forall|i: int| 0 <= i < at ==> all@[i]@ == self.proposals@[i]@,
            decreases self.proposals.len() - at,
        {
            all.push(copy_proposal(&self.proposals[at]));
            at = at + 1;
        }
        assert(spec_proposals(all@) =~= spec_proposals(self.proposals@));
        all
    }

    /// Looks up a proposal by its identifier.
    pub fn get_proposal(&self, proposal_id: &str) -> (found: Option<&MutationProposal>)
        ensures
            ({
                let proposals = spec_proposals(self.proposals@);
                let at = spec_proposal_position(proposals, proposal_id@, 0);
                match found {
                    Some(proposal) => at < proposals.len() && proposal@ == proposals[at],
                    None => at >= proposals.len(),
                }
            }),
    {
        let at: usize = self.proposal_position(proposal_id);
        if at < self.proposals.len() {
            assert(spec_proposals(self.proposals@)[at as int] == self.proposals@[at as int]@);
            Some(&self.proposals[at])
        } else {
            None
        }
    }

    /// Checks the number of requests an identity made in the current window
    /// against the policy's rate. The rate is the same for every identity.
    pub fn check_rate_limit(&self, identity: &str, requests_in_window: u32) -> (within: bool)
        ensures
            within == (requests_in_window <= self.policy.constraints.max_rate_rpm),
    {
        requests_in_window <= self.policy.constraints.max_rate_rpm
    }

    /// The policy in force.
    pub fn policy(&self) -> (policy: &Policy)
        ensures
            *policy == self.policy,
    {
        &self.policy
    }
}

} // verus!
