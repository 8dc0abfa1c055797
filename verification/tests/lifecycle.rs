use supercollab::events::Event;
use supercollab::keys::AccountId;
use supercollab::lifecycle::{
    create_project, update_project_state, CreateProject, Registry, Rent, UpdateProjectState,
};
use supercollab::state::{ProjectError, ProjectState};

fn key(n: u64) -> AccountId {
    AccountId::from_words(n, 0, 0, 0)
}

fn creation(signed: bool, lamports: u64) -> CreateProject {
    CreateProject {
        project: key(1),
        creator: key(2),
        creator_signed: signed,
        creator_lamports: lamports,
        token_mint: key(3),
        project_vault: key(4),
    }
}

fn transition(caller: AccountId, signed: bool) -> UpdateProjectState {
    UpdateProjectState { project: key(1), creator: caller, creator_signed: signed }
}

fn state_of(reg: &Registry) -> ProjectState {
    reg.projects.entries[0].1.state
}

#[test]
fn end_to_end_alpha() {
    let mut reg = Registry::new();
    let rent = Rent { lamports_per_byte: 10 };
    let r = create_project(
        &mut reg,
        creation(true, 1_000_000),
        b"Alpha".to_vec(),
        b"first project".to_vec(),
        1_000_000,
        1_700_000_000,
        rent,
    );
    assert_eq!(r, Ok(()));

    // record fields captured exactly
    let (slot, p) = &reg.projects.entries[0];
    assert_eq!(*slot, key(1));
    assert_eq!(p.id, key(1));
    assert_eq!(p.name, b"Alpha".to_vec());
    assert_eq!(p.description, b"first project".to_vec());
    assert_eq!(p.state, ProjectState::Active);
    assert_eq!(p.token_mint, key(3));
    assert_eq!(p.creator, key(2));
    assert_eq!(p.total_allocation, 1_000_000);
    assert_eq!(p.created_at, 1_700_000_000);

    // custody holds exactly the allocation; the mint's supply equals it
    assert_eq!(reg.ledger.accounts.entries[0].0, key(4));
    assert_eq!(reg.ledger.accounts.entries[0].1.amount, 1_000_000);
    assert_eq!(reg.ledger.accounts.entries[0].1.mint, key(3));
    assert_eq!(reg.ledger.accounts.entries[0].1.owner, key(1));
    assert_eq!(reg.ledger.mints.entries[0].1.supply, 1_000_000);
    assert_eq!(reg.ledger.mints.entries[0].1.decimals, 9);
    assert_eq!(reg.ledger.mints.entries[0].1.mint_authority, Some(key(2)));
    assert_eq!(reg.ledger.mints.entries[0].1.freeze_authority, Some(key(2)));

    // one creation event
    assert_eq!(reg.events.len(), 1);
    match &reg.events[0] {
        Event::Created(e) => {
            assert_eq!(e.project_id, key(1));
            assert_eq!(e.creator, key(2));
            assert_eq!(e.name, b"Alpha".to_vec());
            assert_eq!(e.total_allocation, 1_000_000);
        }
        other => panic!("unexpected event {:?}", other),
    }

    // transition to Completed succeeds and emits exactly one event
    let r = update_project_state(&mut reg, transition(key(2), true), ProjectState::Completed);
    assert_eq!(r, Ok(()));
    assert_eq!(state_of(&reg), ProjectState::Completed);
    assert_eq!(reg.events.len(), 2);
    match &reg.events[1] {
        Event::StateUpdated(e) => {
            assert_eq!(e.project_id, key(1));
            assert_eq!(e.new_state, ProjectState::Completed);
        }
        other => panic!("unexpected event {:?}", other),
    }

    // transitioning to Completed again fails and changes nothing
    let r = update_project_state(&mut reg, transition(key(2), true), ProjectState::Completed);
    assert_eq!(r, Err(ProjectError::InvalidStateTransition));
    assert_eq!(state_of(&reg), ProjectState::Completed);
    assert_eq!(reg.events.len(), 2);
}

#[test]
fn every_distinct_transition_is_permitted() {
    let mut reg = Registry::new();
    let rent = Rent { lamports_per_byte: 0 };
    let r = create_project(&mut reg, creation(true, 0), Vec::new(), Vec::new(), 0, 0, rent);
    assert_eq!(r, Ok(()));
    // walks every ordered pair of distinct states
    let path = [
        ProjectState::Completed,
        ProjectState::Cancelled,
        ProjectState::Completed,
        ProjectState::Active,
        ProjectState::Cancelled,
        ProjectState::Active,
    ];
    for (step, target) in path.iter().enumerate() {
        let r = update_project_state(&mut reg, transition(key(2), true), *target);
        assert_eq!(r, Ok(()));
        assert_eq!(state_of(&reg), *target);
        assert_eq!(reg.events.len(), step + 2);
    }
}

#[test]
fn self_transition_is_rejected_in_every_state() {
    let mut reg = Registry::new();
    let rent = Rent { lamports_per_byte: 1 };
    let r = create_project(&mut reg, creation(true, 200), Vec::new(), Vec::new(), 5, 0, rent);
    assert_eq!(r, Ok(()));
    let cases = [
        (ProjectState::Active, ProjectState::Completed),
        (ProjectState::Completed, ProjectState::Cancelled),
        (ProjectState::Cancelled, ProjectState::Active),
    ];
    for (held, next) in cases.iter() {
        assert_eq!(state_of(&reg), *held);
        let events_before = reg.events.len();
        let r = update_project_state(&mut reg, transition(key(2), true), *held);
        assert_eq!(r, Err(ProjectError::InvalidStateTransition));
        assert_eq!(state_of(&reg), *held);
        assert_eq!(reg.events.len(), events_before);
        // move on to the next state so all three are exercised
        assert_eq!(update_project_state(&mut reg, transition(key(2), true), *next), Ok(()));
    }
}

#[test]
fn only_the_creator_may_transition() {
    let mut reg = Registry::new();
    let rent = Rent { lamports_per_byte: 1 };
    let r = create_project(&mut reg, creation(true, 200), Vec::new(), Vec::new(), 5, 0, rent);
    assert_eq!(r, Ok(()));
    // a valid target is still rejected for a stranger
    let r = update_project_state(&mut reg, transition(key(9), true), ProjectState::Completed);
    assert_eq!(r, Err(ProjectError::UnauthorizedCaller));
    // so is an invalid (identical) target: authorization is checked first
    let r = update_project_state(&mut reg, transition(key(9), true), ProjectState::Active);
    assert_eq!(r, Err(ProjectError::UnauthorizedCaller));
    assert_eq!(state_of(&reg), ProjectState::Active);
    assert_eq!(reg.events.len(), 1);
}

#[test]
fn unsigned_calls_are_rejected() {
    let mut reg = Registry::new();
    let rent = Rent { lamports_per_byte: 1 };
    let r = create_project(&mut reg, creation(false, 200), Vec::new(), Vec::new(), 5, 0, rent);
    assert_eq!(r, Err(ProjectError::MissingSignature));
    assert_eq!(reg.projects.entries.len(), 0);
    let r = create_project(&mut reg, creation(true, 200), Vec::new(), Vec::new(), 5, 0, rent);
    assert_eq!(r, Ok(()));
    let r = update_project_state(&mut reg, transition(key(2), false), ProjectState::Completed);
    assert_eq!(r, Err(ProjectError::MissingSignature));
    assert_eq!(state_of(&reg), ProjectState::Active);
}

#[test]
fn transitioning_a_missing_record_fails() {
    let mut reg = Registry::new();
    let r = update_project_state(&mut reg, transition(key(2), true), ProjectState::Completed);
    assert_eq!(r, Err(ProjectError::NotInitialized));
    assert_eq!(reg.events.len(), 0);
}

#[test]
fn creating_at_an_initialized_slot_fails_and_preserves_the_record() {
    let mut reg = Registry::new();
    let rent = Rent { lamports_per_byte: 1 };
    let r = create_project(
        &mut reg,
        creation(true, 500),
        b"Alpha".to_vec(),
        b"genuine".to_vec(),
        42,
        7,
        rent,
    );
    assert_eq!(r, Ok(()));
    let before = reg.projects.entries[0].1.encode();

    let r = create_project(
        &mut reg,
        creation(true, 500),
        b"Intruder".to_vec(),
        b"overwrite attempt".to_vec(),
        9999,
        8,
        rent,
    );
    assert_eq!(r, Err(ProjectError::AlreadyInitialized));
    assert_eq!(reg.projects.entries.len(), 1);
    // the existing record is byte-for-byte unchanged
    assert_eq!(reg.projects.entries[0].1.encode(), before);
    assert_eq!(reg.ledger.mints.entries[0].1.supply, 42);
    assert_eq!(reg.events.len(), 1);
}

#[test]
fn creation_fails_when_rent_cannot_be_paid() {
    let mut reg = Registry::new();
    // an empty record costs 129 bytes at 2 lamports each
    let rent = Rent { lamports_per_byte: 2 };
    let r = create_project(&mut reg, creation(true, 257), Vec::new(), Vec::new(), 5, 0, rent);
    assert_eq!(r, Err(ProjectError::InsufficientFunds));
    assert_eq!(reg.projects.entries.len(), 0);
    let r = create_project(&mut reg, creation(true, 258), Vec::new(), Vec::new(), 5, 0, rent);
    assert_eq!(r, Ok(()));
}

#[test]
fn the_largest_allocation_is_minted_whole() {
    let mut reg = Registry::new();
    let rent = Rent { lamports_per_byte: 0 };
    let r = create_project(
        &mut reg,
        creation(true, 0),
        b"big".to_vec(),
        Vec::new(),
        u64::MAX,
        0,
        rent,
    );
    assert_eq!(r, Ok(()));
    assert_eq!(reg.ledger.mints.entries[0].1.supply, u64::MAX);
    assert_eq!(reg.ledger.accounts.entries[0].1.amount, u64::MAX);
    assert_eq!(reg.projects.entries[0].1.total_allocation, u64::MAX);
}

#[test]
fn error_messages_name_the_violated_precondition() {
    assert_eq!(ProjectError::InvalidStateTransition.message(), "Invalid state transition");
    assert_eq!(ProjectError::MissingSignature.message(), "Missing required signature");
    assert_eq!(ProjectError::UnauthorizedCaller.message(), "Caller is not the project creator");
    assert_eq!(ProjectError::AlreadyInitialized.message(), "Account is already initialized");
    assert_eq!(ProjectError::NotInitialized.message(), "Project record is not initialized");
    assert_eq!(
        ProjectError::InsufficientFunds.message(),
        "Payer cannot cover the allocation cost"
    );
}
