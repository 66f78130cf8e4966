use axionvera::resources::{
    action_symbol_for_transition, resource_created_event, resource_retired_event,
    resource_transition_event, ResourceAction, ResourceError, ResourceState, EVENT_VERSION,
};

#[test]
fn test_pure_state_machine_transitions() {
    // Valid transitions
    assert_eq!(
        ResourceState::Created.transition(ResourceState::Active),
        Ok(ResourceState::Active)
    );
    assert_eq!(
        ResourceState::Active.transition(ResourceState::Suspended),
        Ok(ResourceState::Suspended)
    );
    assert_eq!(
        ResourceState::Active.transition(ResourceState::Archived),
        Ok(ResourceState::Archived)
    );
    assert_eq!(
        ResourceState::Suspended.transition(ResourceState::Active),
        Ok(ResourceState::Active)
    );
    assert_eq!(
        ResourceState::Suspended.transition(ResourceState::Archived),
        Ok(ResourceState::Archived)
    );
    assert_eq!(
        ResourceState::Archived.transition(ResourceState::Retired),
        Ok(ResourceState::Retired)
    );

    // Invalid transitions
    assert_eq!(
        ResourceState::Created.transition(ResourceState::Archived),
        Err(ResourceError::InvalidTransition)
    );
    assert_eq!(
        ResourceState::Created.transition(ResourceState::Retired),
        Err(ResourceError::InvalidTransition)
    );
    assert_eq!(
        ResourceState::Active.transition(ResourceState::Retired),
        Err(ResourceError::InvalidTransition)
    );
    assert_eq!(
        ResourceState::Suspended.transition(ResourceState::Retired),
        Err(ResourceError::InvalidTransition)
    );
    assert_eq!(
        ResourceState::Archived.transition(ResourceState::Active),
        Err(ResourceError::InvalidTransition)
    );
    assert_eq!(
        ResourceState::Archived.transition(ResourceState::Created),
        Err(ResourceError::InvalidTransition)
    );
    assert_eq!(
        ResourceState::Retired.transition(ResourceState::Active),
        Err(ResourceError::InvalidTransition)
    );
    assert_eq!(
        ResourceState::Retired.transition(ResourceState::Archived),
        Err(ResourceError::InvalidTransition)
    );

    // Self transitions
    assert_eq!(
        ResourceState::Created.transition(ResourceState::Created),
        Err(ResourceError::AlreadyInState)
    );
    assert_eq!(
        ResourceState::Active.transition(ResourceState::Active),
        Err(ResourceError::AlreadyInState)
    );
    assert_eq!(
        ResourceState::Retired.transition(ResourceState::Retired),
        Err(ResourceError::AlreadyInState)
    );
}

#[test]
fn test_transition_chain() {
    // Full lifecycle chain: Created -> Active -> Suspended -> Active -> Archived -> Retired
    let mut state = ResourceState::Created;

    state = state.transition(ResourceState::Active).unwrap();
    assert_eq!(state, ResourceState::Active);

    state = state.transition(ResourceState::Suspended).unwrap();
    assert_eq!(state, ResourceState::Suspended);

    state = state.transition(ResourceState::Active).unwrap();
    assert_eq!(state, ResourceState::Active);

    state = state.transition(ResourceState::Archived).unwrap();
    assert_eq!(state, ResourceState::Archived);

    state = state.transition(ResourceState::Retired).unwrap();
    assert_eq!(state, ResourceState::Retired);
}

#[test]
fn test_alternative_path_suspended_to_archived() {
    let mut state = ResourceState::Created;
    state = state.transition(ResourceState::Active).unwrap();
    state = state.transition(ResourceState::Suspended).unwrap();
    state = state.transition(ResourceState::Archived).unwrap();
    assert_eq!(state, ResourceState::Archived);
}

#[test]
fn test_is_terminal() {
    assert!(!ResourceState::Created.is_terminal());
    assert!(!ResourceState::Active.is_terminal());
    assert!(!ResourceState::Suspended.is_terminal());
    assert!(!ResourceState::Archived.is_terminal());
    assert!(ResourceState::Retired.is_terminal());
}

#[test]
fn test_from_u32() {
    assert_eq!(ResourceState::from(0u32), ResourceState::Created);
    assert_eq!(ResourceState::from(1u32), ResourceState::Active);
    assert_eq!(ResourceState::from(2u32), ResourceState::Suspended);
    assert_eq!(ResourceState::from(3u32), ResourceState::Archived);
    assert_eq!(ResourceState::from(4u32), ResourceState::Retired);
}

const ALL_STATES: [ResourceState; 5] = [
    ResourceState::Created,
    ResourceState::Active,
    ResourceState::Suspended,
    ResourceState::Archived,
    ResourceState::Retired,
];

#[test]
fn retired_admits_no_transition() {
    for next in ALL_STATES {
        assert!(ResourceState::Retired.transition(next).is_err());
    }
}

#[test]
fn created_is_never_reentered() {
    for from in ALL_STATES {
        assert!(from.transition(ResourceState::Created).is_err());
    }
}

#[test]
fn every_self_transition_is_already_in_state() {
    for s in ALL_STATES {
        assert_eq!(s.transition(s), Err(ResourceError::AlreadyInState));
    }
}

#[test]
fn state_codes_round_trip() {
    for (i, s) in ALL_STATES.iter().enumerate() {
        assert_eq!(s.code(), i as u32);
        assert_eq!(ResourceState::from(s.code()), *s);
        assert_eq!(ResourceState::try_from_code(s.code()), Some(*s));
    }
    assert_eq!(ResourceState::try_from_code(5), None);
    assert_eq!(ResourceState::try_from_code(99), None);
}

#[test]
fn resource_error_codes() {
    assert_eq!(ResourceError::InvalidTransition.code(), 2001);
    assert_eq!(ResourceError::AlreadyInState.code(), 2002);
    assert_eq!(ResourceError::Unauthorized.code(), 2003);
    assert_eq!(ResourceError::NotFound.code(), 2004);
    assert_eq!(ResourceError::AlreadyExists.code(), 2005);
    assert_eq!(ResourceError::from_code(2004), Some(ResourceError::NotFound));
    assert_eq!(ResourceError::from_code(2000), None);
    assert_eq!(ResourceError::from_code(2006), None);
}

#[test]
fn action_symbols_follow_the_transition_matrix() {
    assert_eq!(action_symbol_for_transition(ResourceState::Created, ResourceState::Active), ResourceAction::Activate);
    assert_eq!(action_symbol_for_transition(ResourceState::Active, ResourceState::Suspended), ResourceAction::Suspend);
    assert_eq!(action_symbol_for_transition(ResourceState::Suspended, ResourceState::Active), ResourceAction::Resume);
    assert_eq!(action_symbol_for_transition(ResourceState::Active, ResourceState::Archived), ResourceAction::Archive);
    assert_eq!(action_symbol_for_transition(ResourceState::Suspended, ResourceState::Archived), ResourceAction::Archive);
    assert_eq!(action_symbol_for_transition(ResourceState::Archived, ResourceState::Retired), ResourceAction::Retire);
    assert_eq!(action_symbol_for_transition(ResourceState::Retired, ResourceState::Created), ResourceAction::Activate);
    assert_eq!(ResourceAction::Create.symbol(), "rsrc_new");
    assert_eq!(ResourceAction::Activate.symbol(), "rsrc_act");
    assert_eq!(ResourceAction::Suspend.symbol(), "rsrc_susp");
    assert_eq!(ResourceAction::Resume.symbol(), "rsrc_res");
    assert_eq!(ResourceAction::Archive.symbol(), "rsrc_arch");
    assert_eq!(ResourceAction::Retire.symbol(), "rsrc_ret");
}

#[test]
fn transition_event_payload() {
    let (action, event) = resource_transition_event(
        ResourceState::Active,
        ResourceState::Archived,
        "pool_a",
        7u32,
        1_000,
    );
    assert_eq!(action, ResourceAction::Archive);
    assert_eq!(EVENT_VERSION, 1);
    assert_eq!(event.event_version, 1);
    assert_eq!(event.resource_id, "pool_a");
    assert_eq!(event.old_state, 1);
    assert_eq!(event.new_state, 3);
    assert_eq!(event.caller, 7);
    assert_eq!(event.timestamp, 1_000);
}

#[test]
fn created_and_retired_event_payloads() {
    let (action, event) = resource_created_event("pool_b", 3u32, 55);
    assert_eq!(action, ResourceAction::Create);
    assert_eq!((event.event_version, event.resource_id, event.caller, event.timestamp), (1, "pool_b", 3, 55));
    let (action, event) = resource_retired_event("pool_b", 4u32, 66);
    assert_eq!(action, ResourceAction::Retire);
    assert_eq!((event.event_version, event.resource_id, event.caller, event.timestamp), (1, "pool_b", 4, 66));
}
