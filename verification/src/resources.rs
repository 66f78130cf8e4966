//! The resource lifecycle: states, the transition rules between them,
//! the action that each transition announces and the event payloads.

use vstd::prelude::*;

verus! {

/// Errors reported by the resource lifecycle.
#[derive(Clone, Copy, Debug, PartialEq, Eq, PartialOrd, Ord, Structural)]
pub enum ResourceError {
    InvalidTransition,
    AlreadyInState,
    Unauthorized,
    NotFound,
    AlreadyExists,
}

/// The contract error code of each resource error.
pub open spec fn resource_error_code(e: ResourceError) -> u32 {
    match e {
        ResourceError::InvalidTransition => 2001,
        ResourceError::AlreadyInState => 2002,
        ResourceError::Unauthorized => 2003,
        ResourceError::NotFound => 2004,
        ResourceError::AlreadyExists => 2005,
    }
}

impl ResourceError {
    /// The contract error code under which this error is reported.
    pub fn code(&self) -> (code: u32)
        ensures
            code == resource_error_code(*self),
            *self == ResourceError::InvalidTransition ==> code == 2001,
            *self == ResourceError::AlreadyInState ==> code == 2002,
            *self == ResourceError::Unauthorized ==> code == 2003,
            *self == ResourceError::NotFound ==> code == 2004,
            *self == ResourceError::AlreadyExists ==> code == 2005,
    {
        match self {
            ResourceError::InvalidTransition => 2001,
            ResourceError::AlreadyInState => 2002,
            ResourceError::Unauthorized => 2003,
            ResourceError::NotFound => 2004,
            ResourceError::AlreadyExists => 2005,
        }
    }

    /// The resource error reported under `code`, if any.
    pub fn from_code(code: u32) -> (e: Option<ResourceError>)
        ensures
            match e {
                Some(e) => resource_error_code(e) == code,
                None => !(2001 <= code <= 2005),
            },
    {
        if code == 2001 {
            Some(ResourceError::InvalidTransition)
        } else if code == 2002 {
            Some(ResourceError::AlreadyInState)
        } else if code == 2003 {
            Some(ResourceError::Unauthorized)
        } else if code == 2004 {
            Some(ResourceError::NotFound)
        } else if code == 2005 {
            Some(ResourceError::AlreadyExists)
        } else {
            None
        }
    }
}

/// The lifecycle state of a protocol-managed resource.
#[derive(Clone, Copy, Debug, PartialEq, Eq, Structural)]
pub enum ResourceState {
    Created,
    Active,
    Suspended,
    Archived,
    Retired,
}

/// The numeric code under which a state is stored and reported.
pub open spec fn state_code(s: ResourceState) -> u32 {
    match s {
        ResourceState::Created => 0,
        ResourceState::Active => 1,
        ResourceState::Suspended => 2,
        ResourceState::Archived => 3,
        ResourceState::Retired => 4,
    }
}

/// The state stored under `v`; meaningful for `v < 5`.
pub open spec fn state_of_code(v: u32) -> ResourceState
    recommends
        v < 5,
{
    if v == 0 {
        ResourceState::Created
    } else if v == 1 {
        ResourceState::Active
    } else if v == 2 {
        ResourceState::Suspended
    } else if v == 3 {
        ResourceState::Archived
    } else {
        ResourceState::Retired
    }
}

/// The edges of the lifecycle: the only moves between two distinct states
/// that are allowed.
pub open spec fn is_lifecycle_edge(from: ResourceState, to: ResourceState) -> bool {
    ||| from == ResourceState::Created && to == ResourceState::Active
    ||| from == ResourceState::Active && to == ResourceState::Suspended
    ||| from == ResourceState::Active && to == ResourceState::Archived
    ||| from == ResourceState::Suspended && to == ResourceState::Active
    ||| from == ResourceState::Suspended && to == ResourceState::Archived
    ||| from == ResourceState::Archived && to == ResourceState::Retired
}

/// What a request to move from `from` to `to` is answered.
pub open spec fn transition_outcome(from: ResourceState, to: ResourceState) -> Result<
    ResourceState,
    ResourceError,
> {
    if from == to {
        Err(ResourceError::AlreadyInState)
    } else if is_lifecycle_edge(from, to) {
        Ok(to)
    } else {
        Err(ResourceError::InvalidTransition)
    }
}

impl ResourceState {
    /// Validates a move to `next`: the next state, or why it is refused.
    pub fn transition(&self, next: ResourceState) -> (r: Result<ResourceState, ResourceError>)
        ensures
            r == transition_outcome(*self, next),
            *self == next ==> r == Err::<ResourceState, ResourceError>(ResourceError::AlreadyInState),
            r matches Ok(n) ==> n == next,
            r is Ok <==> ({
                let from = *self;
                let to = next;
                ((from == ResourceState::Created && to == ResourceState::Active)
            || (from == ResourceState::Active && to == ResourceState::Suspended)
            || (from == ResourceState::Active && to == ResourceState::Archived)
            || (from == ResourceState::Suspended && to == ResourceState::Active)
            || (from == ResourceState::Suspended && to == ResourceState::Archived)
            || (from == ResourceState::Archived && to == ResourceState::Retired))
            }),
            *self != next && r is Err ==> r == Err::<ResourceState, ResourceError>(
                ResourceError::InvalidTransition,
            ),
    {
        if *self == next {
            return Err(ResourceError::AlreadyInState);
        }
        match (*self, next) {
            (ResourceState::Created, ResourceState::Active) => Ok(next),
            (ResourceState::Active, ResourceState::Suspended) => Ok(next),
            (ResourceState::Active, ResourceState::Archived) => Ok(next),
            (ResourceState::Suspended, ResourceState::Active) => Ok(next),
            (ResourceState::Suspended, ResourceState::Archived) => Ok(next),
            (ResourceState::Archived, ResourceState::Retired) => Ok(next),
            _ => Err(ResourceError::InvalidTransition),
        }
    }

    /// Whether no further transition leaves this state.
    pub fn is_terminal(&self) -> (r: bool)
        ensures
            r == (*self == ResourceState::Retired),
    {
        match self {
            ResourceState::Retired => true,
            _ => false,
        }
    }

    /// The numeric code of this state.
    pub fn code(&self) -> (v: u32)
        ensures
            v == state_code(*self),
            *self == ResourceState::Created ==> v == 0,
            *self == ResourceState::Active ==> v == 1,
            *self == ResourceState::Suspended ==> v == 2,
            *self == ResourceState::Archived ==> v == 3,
            *self == ResourceState::Retired ==> v == 4,
    {
        match self {
            ResourceState::Created => 0,
            ResourceState::Active => 1,
            ResourceState::Suspended => 2,
            ResourceState::Archived => 3,
            ResourceState::Retired => 4,
        }
    }

    /// The state stored under code `v`. Codes from 5 on name no state.
    pub fn from(v: u32) -> (s: ResourceState)
        requires
            v < 5,
        ensures
            s == state_of_code(v),
            state_code(s) == v,
            v == 0 ==> s == ResourceState::Created,
            v == 1 ==> s == ResourceState::Active,
            v == 2 ==> s == ResourceState::Suspended,
            v == 3 ==> s == ResourceState::Archived,
            v == 4 ==> s == ResourceState::Retired,
    {
        if v == 0 {
            ResourceState::Created
        } else if v == 1 {
            ResourceState::Active
        } else if v == 2 {
            ResourceState::Suspended
        } else if v == 3 {
            ResourceState::Archived
        } else {
            ResourceState::Retired
        }
    }

    /// The state stored under code `v`, or `None` where `v` names no state.
    pub fn try_from_code(v: u32) -> (s: Option<ResourceState>)
        ensures
            match s {
                Some(s) => v < 5 && s == state_of_code(v),
                None => v >= 5,
            },
    {
        if v < 5 {
            Some(ResourceState::from(v))
        } else {
            None
        }
    }
}


/// Whether every step of `p` is a move that `transition` accepts.
pub open spec fn is_lifecycle_path(p: Seq<ResourceState>) -> bool {
    forall|i: int| 0 <= i < p.len() - 1 ==> #[trigger] transition_outcome(p[i], p[i + 1]) == Ok::<
        ResourceState,
        ResourceError,
    >(p[i + 1])
}

/// Retired is terminal: every move out of it is refused.
pub proof fn lemma_retired_admits_no_transition(next: ResourceState)
    ensures
        transition_outcome(ResourceState::Retired, next) is Err,
{
}

/// A move to the current state is refused with `AlreadyInState`.
pub proof fn lemma_self_transition_rejected(s: ResourceState)
    ensures
        transition_outcome(s, s) == Err::<ResourceState, ResourceError>(
            ResourceError::AlreadyInState,
        ),
{
}

/// A move between two distinct states that is no lifecycle edge is
/// refused with `InvalidTransition`; an accepted move yields its target.
pub proof fn lemma_transition_answers(from: ResourceState, to: ResourceState)
    ensures
        from != to && !is_lifecycle_edge(from, to) ==> transition_outcome(from, to) == Err::<
            ResourceState,
            ResourceError,
        >(ResourceError::InvalidTransition),
        transition_outcome(from, to) matches Ok(n) ==> n == to && from != to,
{
}

/// No move leads back into `Created`.
pub proof fn lemma_created_never_reentered(from: ResourceState)
    ensures
        transition_outcome(from, ResourceState::Created) is Err,
{
}

/// Every state lies on one accepted path from `Created` to `Retired`:
/// Created, Active, Suspended, Active, Archived, Retired.
pub proof fn lemma_every_state_on_full_lifecycle(s: ResourceState)
    ensures
        exists|p: Seq<ResourceState>|
            #![trigger is_lifecycle_path(p)]
            is_lifecycle_path(p) && p.len() > 0 && p[0] == ResourceState::Created && p.last()
                == ResourceState::Retired && p.contains(s),
{
    let p = seq![
        ResourceState::Created,
        ResourceState::Active,
        ResourceState::Suspended,
        ResourceState::Active,
        ResourceState::Archived,
        ResourceState::Retired,
    ];
    assert(transition_outcome(p[0], p[1]) == Ok::<ResourceState, ResourceError>(p[1]));
    assert(transition_outcome(p[1], p[2]) == Ok::<ResourceState, ResourceError>(p[2]));
    assert(transition_outcome(p[2], p[3]) == Ok::<ResourceState, ResourceError>(p[3]));
    assert(transition_outcome(p[3], p[4]) == Ok::<ResourceState, ResourceError>(p[4]));
    assert(transition_outcome(p[4], p[5]) == Ok::<ResourceState, ResourceError>(p[5]));
    assert(is_lifecycle_path(p));
    match s {
        ResourceState::Created => assert(p[0] == s),
        ResourceState::Active => assert(p[1] == s),
        ResourceState::Suspended => assert(p[2] == s),
        ResourceState::Archived => assert(p[4] == s),
        ResourceState::Retired => assert(p[5] == s),
    }
}

/// State codes are below 5 and decode back to the state they encode.
pub proof fn lemma_state_code_round_trip(s: ResourceState, v: u32)
    ensures
        state_code(s) < 5,
        state_of_code(state_code(s)) == s,
        v < 5 ==> state_code(state_of_code(v)) == v,
{
}

/// Resource error codes lie in 2001..=2005 and tell the errors apart.
pub proof fn lemma_resource_error_codes(a: ResourceError, b: ResourceError)
    ensures
        2001 <= resource_error_code(a) <= 2005,
        resource_error_code(a) == resource_error_code(b) ==> a == b,
{
}

/// Schema version carried by every resource lifecycle event.
pub const EVENT_VERSION: u32 = 1;

/// The action that a resource lifecycle event announces, published as
/// the second topic beside the protocol identifier.
#[derive(Clone, Copy, Debug, PartialEq, Eq, Structural)]
pub enum ResourceAction {
    Create,
    Activate,
    Suspend,
    Resume,
    Archive,
    Retire,
}

/// The short symbol under which each action is published.
pub open spec fn action_symbol(a: ResourceAction) -> Seq<char> {
    match a {
        ResourceAction::Create => "rsrc_new"@,
        ResourceAction::Activate => "rsrc_act"@,
        ResourceAction::Suspend => "rsrc_susp"@,
        ResourceAction::Resume => "rsrc_res"@,
        ResourceAction::Archive => "rsrc_arch"@,
        ResourceAction::Retire => "rsrc_ret"@,
    }
}

/// The action announced for a move from `from` to `to`. Each lifecycle
/// edge has its own action; any other pair falls back to `Activate`.
pub open spec fn transition_action(from: ResourceState, to: ResourceState) -> ResourceAction {
    if from == ResourceState::Created && to == ResourceState::Active {
        ResourceAction::Activate
    } else if from == ResourceState::Active && to == ResourceState::Suspended {
        ResourceAction::Suspend
    } else if from == ResourceState::Suspended && to == ResourceState::Active {
        ResourceAction::Resume
    } else if (from == ResourceState::Active || from == ResourceState::Suspended) && to
        == ResourceState::Archived {
        ResourceAction::Archive
    } else if from == ResourceState::Archived && to == ResourceState::Retired {
        ResourceAction::Retire
    } else {
        ResourceAction::Activate
    }
}

impl ResourceAction {
    /// The symbol text under which this action is published.
    pub fn symbol(&self) -> (name: &'static str)
        ensures
            name@ == action_symbol(*self),
    {
        match self {
            ResourceAction::Create => "rsrc_new",
            ResourceAction::Activate => "rsrc_act",
            ResourceAction::Suspend => "rsrc_susp",
            ResourceAction::Resume => "rsrc_res",
            ResourceAction::Archive => "rsrc_arch",
            ResourceAction::Retire => "rsrc_ret",
        }
    }
}

/// The action symbol to publish for a given transition.
pub fn action_symbol_for_transition(from: ResourceState, to: ResourceState) -> (a: ResourceAction)
    ensures
        a == transition_action(from, to),
        from == ResourceState::Created && to == ResourceState::Active ==> a == ResourceAction::Activate,
        from == ResourceState::Active && to == ResourceState::Suspended ==> a == ResourceAction::Suspend,
        from == ResourceState::Suspended && to == ResourceState::Active ==> a == ResourceAction::Resume,
        from == ResourceState::Active && to == ResourceState::Archived ==> a == ResourceAction::Archive,
        from == ResourceState::Suspended && to == ResourceState::Archived ==> a == ResourceAction::Archive,
        from == ResourceState::Archived && to == ResourceState::Retired ==> a == ResourceAction::Retire,
{
    match (from, to) {
        (ResourceState::Created, ResourceState::Active) => ResourceAction::Activate,
        (ResourceState::Active, ResourceState::Suspended) => ResourceAction::Suspend,
        (ResourceState::Suspended, ResourceState::Active) => ResourceAction::Resume,
        (ResourceState::Active, ResourceState::Archived) => ResourceAction::Archive,
        (ResourceState::Suspended, ResourceState::Archived) => ResourceAction::Archive,
        (ResourceState::Archived, ResourceState::Retired) => ResourceAction::Retire,
        _ => ResourceAction::Activate,
    }
}

/// Payload of a lifecycle transition event. `I` identifies the resource
/// and `A` the caller; both are carried through unchanged.
#[derive(Clone, Debug, PartialEq, Eq)]
pub struct ResourceLifecycleEvent<I, A> {
    pub event_version: u32,
    pub resource_id: I,
    pub old_state: u32,
    pub new_state: u32,
    pub caller: A,
    pub timestamp: u64,
}

/// Payload of the event announcing that a resource was created.
#[derive(Clone, Debug, PartialEq, Eq)]
pub struct ResourceCreatedEvent<I, A> {
    pub event_version: u32,
    pub resource_id: I,
    pub caller: A,
    pub timestamp: u64,
}

/// Payload of the event announcing that a resource was retired.
#[derive(Clone, Debug, PartialEq, Eq)]
pub struct ResourceRetiredEvent<I, A> {
    pub event_version: u32,
    pub resource_id: I,
    pub caller: A,
    pub timestamp: u64,
}

/// The action topic and the payload of the event that announces a move
/// from `from` to `to`, made by `caller` at ledger time `timestamp`.
pub fn resource_transition_event<I, A>(
    from: ResourceState,
    to: ResourceState,
    resource_id: I,
    caller: A,
    timestamp: u64,
) -> (r: (ResourceAction, ResourceLifecycleEvent<I, A>))
    ensures
        r.0 == transition_action(from, to),
        r.1.event_version == EVENT_VERSION,
        r.1.event_version == 1,
        from == ResourceState::Created ==> r.1.old_state == 0,
        from == ResourceState::Active ==> r.1.old_state == 1,
        from == ResourceState::Suspended ==> r.1.old_state == 2,
        from == ResourceState::Archived ==> r.1.old_state == 3,
        from == ResourceState::Retired ==> r.1.old_state == 4,
        to == ResourceState::Created ==> r.1.new_state == 0,
        to == ResourceState::Active ==> r.1.new_state == 1,
        to == ResourceState::Suspended ==> r.1.new_state == 2,
        to == ResourceState::Archived ==> r.1.new_state == 3,
        to == ResourceState::Retired ==> r.1.new_state == 4,
        r.1.resource_id == resource_id,
        r.1.old_state == state_code(from),
        r.1.new_state == state_code(to),
        r.1.caller == caller,
        r.1.timestamp == timestamp,
{
    let action = action_symbol_for_transition(from, to);
    let event = ResourceLifecycleEvent {
        event_version: EVENT_VERSION,
        resource_id,
        old_state: from.code(),
        new_state: to.code(),
        caller,
        timestamp,
    };
    (action, event)
}

/// The action topic and the payload of the event that announces the
/// creation of a resource.
pub fn resource_created_event<I, A>(resource_id: I, caller: A, timestamp: u64) -> (r: (
    ResourceAction,
    ResourceCreatedEvent<I, A>,
))
    ensures
        r.0 == ResourceAction::Create,
        r.1 == (ResourceCreatedEvent { event_version: EVENT_VERSION, resource_id, caller, timestamp }),
        r.1.event_version == 1,
{
    (ResourceAction::Create, ResourceCreatedEvent { event_version: EVENT_VERSION, resource_id, caller, timestamp })
}

/// The action topic and the payload of the event that announces the
/// retirement of a resource.
pub fn resource_retired_event<I, A>(resource_id: I, caller: A, timestamp: u64) -> (r: (
    ResourceAction,
    ResourceRetiredEvent<I, A>,
))
    ensures
        r.0 == ResourceAction::Retire,
        r.1 == (ResourceRetiredEvent { event_version: EVENT_VERSION, resource_id, caller, timestamp }),
        r.1.event_version == 1,
{
    (ResourceAction::Retire, ResourceRetiredEvent { event_version: EVENT_VERSION, resource_id, caller, timestamp })
}

/// The transition matrix: between two distinct states, a move is
/// accepted exactly for the six moves Created to Active, Active to
/// Suspended, Active to Archived, Suspended to Active, Suspended to
/// Archived and Archived to Retired; every accepted move yields its
/// target, a move to the current state is refused with `AlreadyInState`,
/// and every other move with `InvalidTransition`.
pub proof fn lemma_transition_matrix(from: ResourceState, to: ResourceState)
    ensures
        from == to ==> transition_outcome(from, to) == Err::<ResourceState, ResourceError>(
            ResourceError::AlreadyInState,
        ),
        from != to ==> (transition_outcome(from, to) is Ok <==> ((from == ResourceState::Created && to == ResourceState::Active)
            || (from == ResourceState::Active && to == ResourceState::Suspended)
            || (from == ResourceState::Active && to == ResourceState::Archived)
            || (from == ResourceState::Suspended && to == ResourceState::Active)
            || (from == ResourceState::Suspended && to == ResourceState::Archived)
            || (from == ResourceState::Archived && to == ResourceState::Retired))),
        transition_outcome(from, to) matches Ok(n) ==> n == to,
        from != to && transition_outcome(from, to) is Err ==> transition_outcome(from, to) == Err::<
            ResourceState,
            ResourceError,
        >(ResourceError::InvalidTransition),
{
}

/// Each state has exactly its listed ways out: Created only to Active,
/// Active only to Suspended or Archived, Suspended only to Active or
/// Archived, Archived only to Retired, and Retired none.
pub proof fn lemma_moves_out_of_each_state(to: ResourceState)
    ensures
        transition_outcome(ResourceState::Created, to) is Ok <==> to == ResourceState::Active,
        transition_outcome(ResourceState::Active, to) is Ok <==> (to == ResourceState::Suspended
            || to == ResourceState::Archived),
        transition_outcome(ResourceState::Suspended, to) is Ok <==> (to == ResourceState::Active
            || to == ResourceState::Archived),
        transition_outcome(ResourceState::Archived, to) is Ok <==> to == ResourceState::Retired,
        !(transition_outcome(ResourceState::Retired, to) is Ok),
{
}

/// The stored code of each state: Created 0, Active 1, Suspended 2,
/// Archived 3, Retired 4; and the state each code decodes to.
pub proof fn lemma_state_codes()
    ensures
        state_code(ResourceState::Created) == 0,
        state_code(ResourceState::Active) == 1,
        state_code(ResourceState::Suspended) == 2,
        state_code(ResourceState::Archived) == 3,
        state_code(ResourceState::Retired) == 4,
        state_of_code(0) == ResourceState::Created,
        state_of_code(1) == ResourceState::Active,
        state_of_code(2) == ResourceState::Suspended,
        state_of_code(3) == ResourceState::Archived,
        state_of_code(4) == ResourceState::Retired,
{
}

/// The contract code of each resource error: InvalidTransition 2001,
/// AlreadyInState 2002, Unauthorized 2003, NotFound 2004, AlreadyExists 2005.
pub proof fn lemma_resource_error_code_values()
    ensures
        resource_error_code(ResourceError::InvalidTransition) == 2001,
        resource_error_code(ResourceError::AlreadyInState) == 2002,
        resource_error_code(ResourceError::Unauthorized) == 2003,
        resource_error_code(ResourceError::NotFound) == 2004,
        resource_error_code(ResourceError::AlreadyExists) == 2005,
{
}

/// The action announced for each accepted move: Activate for Created to
/// Active, Suspend for Active to Suspended, Resume for Suspended to
/// Active, Archive for Active or Suspended to Archived, Retire for
/// Archived to Retired; and the symbol of each action.
pub proof fn lemma_action_table()
    ensures
        transition_action(ResourceState::Created, ResourceState::Active) == ResourceAction::Activate,
        transition_action(ResourceState::Active, ResourceState::Suspended) == ResourceAction::Suspend,
        transition_action(ResourceState::Suspended, ResourceState::Active) == ResourceAction::Resume,
        transition_action(ResourceState::Active, ResourceState::Archived) == ResourceAction::Archive,
        transition_action(ResourceState::Suspended, ResourceState::Archived) == ResourceAction::Archive,
        transition_action(ResourceState::Archived, ResourceState::Retired) == ResourceAction::Retire,
        action_symbol(ResourceAction::Create) == "rsrc_new"@,
        action_symbol(ResourceAction::Activate) == "rsrc_act"@,
        action_symbol(ResourceAction::Suspend) == "rsrc_susp"@,
        action_symbol(ResourceAction::Resume) == "rsrc_res"@,
        action_symbol(ResourceAction::Archive) == "rsrc_arch"@,
        action_symbol(ResourceAction::Retire) == "rsrc_ret"@,
{
}

/// A state is terminal, as `is_terminal` reports, exactly when no move
/// out of it is accepted.
pub proof fn lemma_terminal_iff_no_way_out(s: ResourceState)
    ensures
        (s == ResourceState::Retired) <==> (forall|t: ResourceState|
            !(#[trigger] transition_outcome(s, t) is Ok)),
{
    match s {
        ResourceState::Created => assert(transition_outcome(s, ResourceState::Active) is Ok),
        ResourceState::Active => assert(transition_outcome(s, ResourceState::Archived) is Ok),
        ResourceState::Suspended => assert(transition_outcome(s, ResourceState::Archived) is Ok),
        ResourceState::Archived => assert(transition_outcome(s, ResourceState::Retired) is Ok),
        ResourceState::Retired => {},
    }
}

} // verus!
