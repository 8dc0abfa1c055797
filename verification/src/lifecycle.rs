use vstd::prelude::*;

use crate::events::{Event, ProjectCreated, ProjectStateUpdated};
use crate::keys::AccountId;
use crate::ledger::{TokenAccount, TokenLedger, TokenMint};
use crate::project::Project;
use crate::state::{ProjectError, ProjectState};
use crate::table::Table;

verus! {

/// The decimal precision every project mint is initialized with.
pub const MINT_DECIMALS: u8 = 9;

/// The storage-rent schedule of the host: what one byte of allocation costs
/// the payer.
#[derive(Clone, Copy, Debug)]
pub struct Rent {
    pub lamports_per_byte: u64,
}

/// The capability-checked account bindings of a creation call, as the host
/// hands them over: the fresh record slot, the signing and paying caller,
/// the fresh mint identity and the fresh custody account identity.
#[derive(Clone, Copy, Debug)]
pub struct CreateProject {
    /// The fresh storage slot the record will live at; also the record's id.
    pub project: AccountId,
    /// The authorizing principal.
    pub creator: AccountId,
    /// Whether the host verified the creator's signature on this call.
    pub creator_signed: bool,
    /// The creator's balance available to pay for storage allocation.
    pub creator_lamports: u64,
    /// The fresh identity of the project's fungible-asset type.
    pub token_mint: AccountId,
    /// The fresh identity of the project's custody account.
    pub project_vault: AccountId,
}

/// The account bindings of a transition call: the existing record and the
/// signing caller.
#[derive(Clone, Copy, Debug)]
pub struct UpdateProjectState {
    /// The storage slot of the existing project record.
    pub project: AccountId,
    /// The principal submitting the transition.
    pub creator: AccountId,
    /// Whether the host verified the caller's signature on this call.
    pub creator_signed: bool,
}

/// The durable world the two operations act on: the project records, the
/// asset-ledger model, and the append-only event log.
pub struct Registry {
    pub projects: Table<Project>,
    pub ledger: TokenLedger,
    pub events: Vec<Event>,
}

impl Registry {
    /// Well-formed: slots are keyed uniquely, and every stored record's `id`
    /// is the slot it lives at.
    pub open spec fn wf(&self) -> bool {
        &&& self.projects.wf()
        &&& self.ledger.wf()
        &&& forall|i: int|
            0 <= i < self.projects.entries@.len() ==> (#[trigger] self.projects.entries@[i]).1.id
                == self.projects.entries@[i].0
    }

    /// An empty registry.
    pub fn new() -> (r: Registry)
        ensures
            r.wf(),
            r.projects.entries@.len() == 0,
            r.ledger.mints.entries@.len() == 0,
            r.ledger.accounts.entries@.len() == 0,
            r.events@.len() == 0,
            forall|k: AccountId| r.projects.lookup(k) is None,
    {
        Registry { projects: Table::new(), ledger: TokenLedger::new(), events: Vec::new() }
    }
}

/// What storage allocation for a record with these text lengths costs the
/// payer under `rent`.
pub open spec fn create_cost(rent: Rent, name_len: nat, description_len: nat) -> int {
    rent.lamports_per_byte * Project::spec_space(name_len, description_len)
}

/// Whether the three caller-designated slots of a creation call are all
/// still uninitialized in `reg`.
pub open spec fn create_fresh(reg: Registry, accounts: CreateProject) -> bool {
    &&& !reg.projects.contains_key(accounts.project)
    &&& !reg.ledger.mints.contains_key(accounts.token_mint)
    &&& !reg.ledger.accounts.contains_key(accounts.project_vault)
}

/// Whether a creation call succeeds: signed, every designated slot fresh,
/// and the payer able to cover the allocation cost.
pub open spec fn create_ok(
    reg: Registry,
    accounts: CreateProject,
    name_len: nat,
    description_len: nat,
    rent: Rent,
) -> bool {
    &&& accounts.creator_signed
    &&& create_fresh(reg, accounts)
    &&& accounts.creator_lamports >= create_cost(rent, name_len, description_len)
}

/// What a record looks like right after creation: id bound to its slot,
/// texts as supplied, state `Active`, and the creation-time inputs captured.
pub open spec fn is_new_record(
    p: Project,
    slot: AccountId,
    name: Seq<u8>,
    description: Seq<u8>,
    token_mint: AccountId,
    creator: AccountId,
    total_allocation: u64,
    now: i64,
) -> bool {
    &&& p.id == slot
    &&& p.name@ == name
    &&& p.description@ == description
    &&& p.state == ProjectState::Active
    &&& p.token_mint == token_mint
    &&& p.creator == creator
    &&& p.total_allocation == total_allocation
    &&& p.created_at == now
}

/// Creates a project: allocates the record at the designated fresh slot,
/// populates it (capturing `now` from the trusted clock), initializes the
/// mint with authority and freeze authority bound to the creator,
/// initializes the custody account with spending authority bound to the
/// record itself, mints exactly `total_allocation` units into custody, and
/// emits one creation event. Any failure leaves the registry unchanged.
pub fn create_project(
    registry: &mut Registry,
    accounts: CreateProject,
    name: Vec<u8>,
    description: Vec<u8>,
    total_allocation: u64,
    now: i64,
    rent: Rent,
) -> (r: Result<(), ProjectError>)
    requires
        old(registry).wf(),
        name@.len() <= u32::MAX,
        description@.len() <= u32::MAX,
        Project::spec_space(name@.len(), description@.len()) <= usize::MAX,
    ensures
        final(registry).wf(),
        r == Err::<(), ProjectError>(ProjectError::MissingSignature) <==> !accounts.creator_signed,
        r == Err::<(), ProjectError>(ProjectError::AlreadyInitialized) <==> accounts.creator_signed
            && !create_fresh(*old(registry), accounts),
        r == Err::<(), ProjectError>(ProjectError::InsufficientFunds) <==> accounts.creator_signed
            && create_fresh(*old(registry), accounts) && (accounts.creator_lamports as int)
            < create_cost(rent, name@.len(), description@.len()),
        r == Ok::<(), ProjectError>(()) <==> create_ok(
            *old(registry),
            accounts,
            name@.len(),
            description@.len(),
            rent,
        ),
        r is Err ==> *final(registry) == *old(registry),
        r is Ok ==> {
            &&& final(registry).projects.entries@.len() == old(registry).projects.entries@.len()
                + 1
            &&& final(registry).projects.lookup(accounts.project) matches Some(p)
                && is_new_record(
                p,
                accounts.project,
                name@,
                description@,
                accounts.token_mint,
                accounts.creator,
                total_allocation,
                now,
            )
            &&& forall|k: AccountId|
                k != accounts.project ==> final(registry).projects.lookup(k) == old(
                    registry,
                ).projects.lookup(k)
            &&& final(registry).ledger.mints.lookup(accounts.token_mint) == Some(
                TokenMint {
                    decimals: MINT_DECIMALS,
                    mint_authority: Some(accounts.creator),
                    freeze_authority: Some(accounts.creator),
                    supply: total_allocation,
                },
            )
            &&& forall|k: AccountId|
                k != accounts.token_mint ==> final(registry).ledger.mints.lookup(k) == old(
                    registry,
                ).ledger.mints.lookup(k)
            &&& final(registry).ledger.mints.entries@.len() == old(
                registry,
            ).ledger.mints.entries@.len() + 1
            &&& final(registry).ledger.accounts.lookup(accounts.project_vault) == Some(
                TokenAccount {
                    mint: accounts.token_mint,
                    owner: accounts.project,
                    amount: total_allocation,
                },
            )
            &&& forall|k: AccountId|
                k != accounts.project_vault ==> final(registry).ledger.accounts.lookup(k) == old(
                    registry,
                ).ledger.accounts.lookup(k)
            &&& final(registry).ledger.accounts.entries@.len() == old(
                registry,
            ).ledger.accounts.entries@.len() + 1
            &&& final(registry).events@.len() == old(registry).events@.len() + 1
            &&& forall|i: int|
                0 <= i < old(registry).events@.len() ==> final(registry).events@[i] == old(
                    registry,
                ).events@[i]
            &&& final(registry).events@.last() matches Event::Created(e) && e.project_id
                == accounts.project && e.creator == accounts.creator && e.name@ == name@
                && e.total_allocation == total_allocation
        },
{
    if !accounts.creator_signed {
        return Err(ProjectError::MissingSignature);
    }
    if registry.projects.has(accounts.project) {
        return Err(ProjectError::AlreadyInitialized);
    }
    if registry.ledger.mints.has(accounts.token_mint) {
        return Err(ProjectError::AlreadyInitialized);
    }
    if registry.ledger.accounts.has(accounts.project_vault) {
        return Err(ProjectError::AlreadyInitialized);
    }
    let size = Project::space(&name, &description);
    proof {
        assert(rent.lamports_per_byte * size <= 0xffffffffffffffff * 0xffffffffffffffffu128)
            by (nonlinear_arith)
            requires
                rent.lamports_per_byte <= 0xffffffffffffffffu64,
                size <= 0xffffffffffffffffu64,
        ;
    }
    let cost: u128 = (rent.lamports_per_byte as u128) * (size as u128);
    if (accounts.creator_lamports as u128) < cost {
        return Err(ProjectError::InsufficientFunds);
    }
    let event_name = crate::project::copy_bytes(&name);
    let record = Project {
        id: accounts.project,
        name,
        description,
        state: ProjectState::Active,
        token_mint: accounts.token_mint,
        creator: accounts.creator,
        total_allocation,
        created_at: now,
    };
    let ghost projects0 = registry.projects.entries@;
    registry.projects.insert_new(accounts.project, record);
    proof {
        assert forall|i: int|
            0 <= i < registry.projects.entries@.len() implies (
        #[trigger] registry.projects.entries@[i]).1.id == registry.projects.entries@[i].0 by {
            if i < projects0.len() {
                assert(registry.projects.entries@[i] == projects0[i]);
            }
        }
    }
    let r1 = registry.ledger.initialize_mint(
        accounts.token_mint,
        MINT_DECIMALS,
        accounts.creator,
        Some(accounts.creator),
    );
    if r1.is_err() {
        // ruled out: the mint slot was checked fresh above
        proof {
            assert(false);
        }
        return Err(ProjectError::AlreadyInitialized);
    }
    let r2 = registry.ledger.initialize_account(
        accounts.project_vault,
        accounts.token_mint,
        accounts.project,
    );
    if r2.is_err() {
        // ruled out: the vault slot was checked fresh and the mint just created
        proof {
            assert(false);
        }
        return Err(ProjectError::AlreadyInitialized);
    }
    let r3 = registry.ledger.mint_to(
        accounts.token_mint,
        accounts.project_vault,
        accounts.creator,
        total_allocation,
    );
    if r3.is_err() {
        // ruled out: the mint is fresh with zero supply and the creator holds
        // its minting authority
        proof {
            assert(false);
        }
        return Err(ProjectError::AlreadyInitialized);
    }
    registry.events.push(
        Event::Created(
            ProjectCreated {
                project_id: accounts.project,
                creator: accounts.creator,
                name: event_name,
                total_allocation,
            },
        ),
    );
    Ok(())
}

/// Applies a state transition: the caller must have signed and be the
/// record's creator, and the target must differ from the current state; then
/// the state is overwritten and one transition event emitted. No other field
/// and no other record changes, and any failure leaves the registry
/// unchanged.
pub fn update_project_state(
    registry: &mut Registry,
    accounts: UpdateProjectState,
    new_state: ProjectState,
) -> (r: Result<(), ProjectError>)
    requires
        old(registry).wf(),
    ensures
        final(registry).wf(),
        r == Err::<(), ProjectError>(ProjectError::MissingSignature) <==> !accounts.creator_signed,
        r == Err::<(), ProjectError>(ProjectError::NotInitialized) <==> accounts.creator_signed
            && old(registry).projects.lookup(accounts.project) is None,
        r == Err::<(), ProjectError>(ProjectError::UnauthorizedCaller) <==> accounts.creator_signed
            && (old(registry).projects.lookup(accounts.project) matches Some(p) && p.creator
            != accounts.creator),
        r == Err::<(), ProjectError>(ProjectError::InvalidStateTransition)
            <==> accounts.creator_signed && (old(registry).projects.lookup(accounts.project)
            matches Some(p) && p.creator == accounts.creator && p.state == new_state),
        r == Ok::<(), ProjectError>(()) <==> accounts.creator_signed && (old(
            registry,
        ).projects.lookup(accounts.project) matches Some(p) && p.creator == accounts.creator
            && p.state != new_state),
        r is Err ==> *final(registry) == *old(registry),
        r is Ok ==> {
            &&& old(registry).projects.lookup(accounts.project) matches Some(p) && {
                &&& final(registry).projects.lookup(accounts.project) matches Some(q)
                &&& q.state == new_state
                &&& q.id == p.id
                &&& q.name == p.name
                &&& q.description == p.description
                &&& q.token_mint == p.token_mint
                &&& q.creator == p.creator
                &&& q.total_allocation == p.total_allocation
                &&& q.created_at == p.created_at
            }
            &&& forall|k: AccountId|
                k != accounts.project ==> final(registry).projects.lookup(k) == old(
                    registry,
                ).projects.lookup(k)
            &&& final(registry).projects.entries@.len() == old(registry).projects.entries@.len()
            &&& final(registry).ledger == old(registry).ledger
            &&& final(registry).events@.len() == old(registry).events@.len() + 1
            &&& forall|i: int|
                0 <= i < old(registry).events@.len() ==> final(registry).events@[i] == old(
                    registry,
                ).events@[i]
            &&& final(registry).events@.last() matches Event::StateUpdated(e) && e.project_id
                == accounts.project && e.new_state == new_state
        },
{
    if !accounts.creator_signed {
        return Err(ProjectError::MissingSignature);
    }
    let i = match registry.projects.index_of(accounts.project) {
        None => {
            return Err(ProjectError::NotInitialized);
        },
        Some(i) => i,
    };
    if registry.projects.entries[i].1.creator != accounts.creator {
        return Err(ProjectError::UnauthorizedCaller);
    }
    if registry.projects.entries[i].1.state == new_state {
        return Err(ProjectError::InvalidStateTransition);
    }
    let ghost s0 = registry.projects.entries@;
    let kv = registry.projects.take_at(i);
    let updated = Project { state: new_state, ..kv.1 };
    let ghost upd = updated;
    registry.projects.put_at(i, (kv.0, updated));
    proof {
        assert(registry.projects.entries@ =~= s0.update(i as int, (s0[i as int].0, upd)));
        assert(forall|j: int| 0 <= j < i ==> (#[trigger] s0[j]).0 != s0[i as int].0);
        assert forall|k2: AccountId| k2 != accounts.project implies Table::<
            Project,
        >::spec_lookup(registry.projects.entries@, k2) == Table::<Project>::spec_lookup(
            s0,
            k2,
        ) by {
            Table::<Project>::lemma_lookup_update(s0, i as int, upd, k2);
        }
        Table::<Project>::lemma_lookup_update(s0, i as int, upd, accounts.project);
        assert(crate::table::unique_keys(registry.projects.entries@)) by {
            assert forall|a: int, b: int|
                0 <= a < b < registry.projects.entries@.len() implies (
            #[trigger] registry.projects.entries@[a]).0 != (
            #[trigger] registry.projects.entries@[b]).0 by {
                assert(registry.projects.entries@[a].0 == s0[a].0);
                assert(registry.projects.entries@[b].0 == s0[b].0);
            }
        }
        assert forall|j: int|
            0 <= j < registry.projects.entries@.len() implies (
        #[trigger] registry.projects.entries@[j]).1.id == registry.projects.entries@[j].0 by {
            if j != i as int {
                assert(registry.projects.entries@[j] == s0[j]);
            }
        }
    }
    registry.events.push(
        Event::StateUpdated(ProjectStateUpdated { project_id: accounts.project, new_state }),
    );
    Ok(())
}

} // verus!
