//! The sync orchestrator: a verified state machine over the
//! list -> delete -> create protocol.
//!
//! The machine never touches the network itself. The surrounding program
//! performs one remote round trip per [`SyncAction`], hands the outcome back
//! as a [`SyncEvent`], and [`step`] decides the next state and action. Every
//! transition is pinned by the spec functions [`sync_next`] and
//! [`sync_action`]: deletes are issued strictly in list order, all of them
//! before any create; creates follow the fixed canonical order; and the first
//! failure of any kind halts the run with no further remote action.

use vstd::prelude::*;
use vstd::string::StrSliceExecFns;

use crate::default_labels::Label;
use crate::default_labels::LabelView;
use crate::default_labels::canonical_label_at;
use crate::default_labels::canonical_labels;

verus! {

/// The error kinds a sync run can fail with.
#[derive(Debug)]
pub enum SyncError {
    /// The credential is malformed: no authorization header can be built.
    Config { message: String },
    /// A request could not be sent, or no response was received.
    Transport { message: String },
    /// A response was received with a non-success status; carries the status
    /// code and the response body text.
    Protocol { status: u16, body: String },
    /// A response body was not valid JSON, or not of the expected shape.
    Parse { message: String },
}

/// The model of a [`SyncError`].
pub ghost enum ErrorModel {
    Config { message: Seq<char> },
    Transport { message: Seq<char> },
    Protocol { status: u16, body: Seq<char> },
    Parse { message: Seq<char> },
}

impl View for SyncError {
    type V = ErrorModel;

    open spec fn view(&self) -> ErrorModel {
        match self {
            SyncError::Config { message } => ErrorModel::Config { message: message@ },
            SyncError::Transport { message } => ErrorModel::Transport { message: message@ },
            SyncError::Protocol { status, body } => ErrorModel::Protocol {
                status: *status,
                body: body@,
            },
            SyncError::Parse { message } => ErrorModel::Parse { message: message@ },
        }
    }
}

/// What the orchestrator reads from one entry of the remote listing: the
/// entry's `name` field, if the remote supplied one.
pub struct ListedLabel {
    pub name: Option<String>,
}

impl View for ListedLabel {
    type V = Option<Seq<char>>;

    open spec fn view(&self) -> Option<Seq<char>> {
        match self.name {
            Some(n) => Some(n@),
            None => None,
        }
    }
}

/// The names of the listed entries that carry one, in list order; entries
/// without a name are skipped.
pub open spec fn names_of(entries: Seq<Option<Seq<char>>>) -> Seq<Seq<char>>
    decreases entries.len(),
{
    if entries.len() == 0 {
        Seq::empty()
    } else {
        let rest = names_of(entries.drop_last());
        match entries.last() {
            Some(n) => rest.push(n),
            None => rest,
        }
    }
}

/// Collects the names to delete from the listed entries, in list order.
/// An entry missing its `name` field contributes nothing.
pub fn names_to_delete(entries: &Vec<ListedLabel>) -> (r: Vec<String>)
    ensures
        r@.map_values(|s: String| s@) == names_of(entries@.map_values(|e: ListedLabel| e@)),
{
    let ghost models = entries@.map_values(|e: ListedLabel| e@);
    let mut names: Vec<String> = Vec::new();
    let mut i: usize = 0;
    while i < entries.len()
        invariant
            i <= entries.len(),
            models == entries@.map_values(|e: ListedLabel| e@),
            models.len() == entries@.len(),
            names@.map_values(|s: String| s@) == names_of(models.take(i as int)),
        decreases entries.len() - i,
    {
        match &entries[i].name {
            Some(n) => {
                names.push(n.clone());
            },
            None => {
            },
        }
        i += 1;
        proof {
            assert(models.take(i as int).drop_last() =~= models.take(i - 1));
            assert(models.take(i as int).last() == models[i - 1]);
            assert(names@.map_values(|s: String| s@) =~= names_of(models.take(i as int)));
        }
    }
    proof {
        assert(models.take(entries@.len() as int) =~= models);
    }
    names
}

/// A nameless entry is skipped outright: removing it from the listing leaves
/// the delete list unchanged, so it is neither deleted nor able to abort the
/// run.
pub proof fn lemma_nameless_entry_skipped(entries: Seq<Option<Seq<char>>>, i: int)
    requires
        0 <= i < entries.len(),
        entries[i] is None,
    ensures
        names_of(entries.remove(i)) == names_of(entries),
    decreases entries.len(),
{
    if i == entries.len() - 1 {
        assert(entries.remove(i) =~= entries.drop_last());
    } else {
        lemma_nameless_entry_skipped(entries.drop_last(), i);
        assert(entries.remove(i).drop_last() =~= entries.drop_last().remove(i));
        assert(entries.remove(i).last() == entries.last());
    }
}

/// The states of one sync run.
pub enum SyncState {
    /// No remote work begun.
    Idle,
    /// The listing request is in flight.
    Listing,
    /// Deleting the listed names in list order; the delete of
    /// `pending[next]` is in flight.
    Deleting { pending: Vec<String>, next: usize },
    /// Creating the canonical set in its fixed order; the create of the
    /// canonical label at `next` is in flight.
    Creating { next: usize },
    /// Every delete and all 21 creates succeeded.
    Done,
    /// The run halted on its first failure; `label` names the label being
    /// deleted or created when it failed, if any.
    Failed { error: SyncError, label: Option<String> },
}

/// The model of a [`SyncState`].
pub ghost enum StateModel {
    Idle,
    Listing,
    Deleting { pending: Seq<Seq<char>>, next: int },
    Creating { next: int },
    Done,
    Failed { error: ErrorModel, label: Option<Seq<char>> },
}

impl View for SyncState {
    type V = StateModel;

    open spec fn view(&self) -> StateModel {
        match self {
            SyncState::Idle => StateModel::Idle,
            SyncState::Listing => StateModel::Listing,
            SyncState::Deleting { pending, next } => StateModel::Deleting {
                pending: pending@.map_values(|s: String| s@),
                next: *next as int,
            },
            SyncState::Creating { next } => StateModel::Creating { next: *next as int },
            SyncState::Done => StateModel::Done,
            SyncState::Failed { error, label } => StateModel::Failed {
                error: error@,
                label: match label {
                    Some(n) => Some(n@),
                    None => None,
                },
            },
        }
    }
}

/// What the surrounding program reports back after performing one action.
pub enum SyncEvent {
    /// Begin the run.
    Started,
    /// The listing round trip ended: either the parsed entries, or the
    /// failure that ended the run.
    Listed { outcome: Result<Vec<ListedLabel>, SyncError> },
    /// The delete round trip ended.
    Deleted { outcome: Result<(), SyncError> },
    /// The create round trip ended.
    Created { outcome: Result<(), SyncError> },
}

/// The model of a [`SyncEvent`].
pub ghost enum EventModel {
    Started,
    Listed { outcome: Result<Seq<Option<Seq<char>>>, ErrorModel> },
    Deleted { outcome: Result<(), ErrorModel> },
    Created { outcome: Result<(), ErrorModel> },
}

impl View for SyncEvent {
    type V = EventModel;

    open spec fn view(&self) -> EventModel {
        match self {
            SyncEvent::Started => EventModel::Started,
            SyncEvent::Listed { outcome } => EventModel::Listed {
                outcome: match outcome {
                    Ok(entries) => Ok(entries@.map_values(|e: ListedLabel| e@)),
                    Err(e) => Err(e@),
                },
            },
            SyncEvent::Deleted { outcome } => EventModel::Deleted {
                outcome: match outcome {
                    Ok(_) => Ok(()),
                    Err(e) => Err(e@),
                },
            },
            SyncEvent::Created { outcome } => EventModel::Created {
                outcome: match outcome {
                    Ok(_) => Ok(()),
                    Err(e) => Err(e@),
                },
            },
        }
    }
}

/// The next remote action the surrounding program is to perform.
pub enum SyncAction {
    /// List the remote labels.
    List,
    /// Delete the named remote label.
    Delete { name: String },
    /// Create this label on the remote.
    Create { label: Label },
    /// The run is over: the state is `Done` or `Failed`.
    Stop,
}

/// The model of a [`SyncAction`].
pub ghost enum ActionModel {
    List,
    Delete { name: Seq<char> },
    Create { label: LabelView },
    Stop,
}

impl View for SyncAction {
    type V = ActionModel;

    open spec fn view(&self) -> ActionModel {
        match self {
            SyncAction::List => ActionModel::List,
            SyncAction::Delete { name } => ActionModel::Delete { name: name@ },
            SyncAction::Create { label } => ActionModel::Create { label: label@ },
            SyncAction::Stop => ActionModel::Stop,
        }
    }
}

/// A state whose indices are in range.
pub open spec fn state_wf(s: StateModel) -> bool {
    match s {
        StateModel::Deleting { pending, next } => 0 <= next < pending.len(),
        StateModel::Creating { next } => 0 <= next < canonical_labels().len(),
        _ => true,
    }
}

/// Whether the event answers the state: `Started` opens an idle run, and each
/// response answers the request the state has in flight.
pub open spec fn accepts(s: StateModel, e: EventModel) -> bool {
    match (s, e) {
        (StateModel::Idle, EventModel::Started) => true,
        (StateModel::Listing, EventModel::Listed { .. }) => true,
        (StateModel::Deleting { .. }, EventModel::Deleted { .. }) => true,
        (StateModel::Creating { .. }, EventModel::Created { .. }) => true,
        _ => false,
    }
}

/// The transition relation of the orchestrator, as a function.
pub open spec fn sync_next(s: StateModel, e: EventModel) -> StateModel
    recommends
        state_wf(s),
        accepts(s, e),
{
    match (s, e) {
        (StateModel::Idle, EventModel::Started) => StateModel::Listing,
        (StateModel::Listing, EventModel::Listed { outcome }) => match outcome {
            Ok(entries) => {
                let pending = names_of(entries);
                if pending.len() == 0 {
                    StateModel::Creating { next: 0 }
                } else {
                    StateModel::Deleting { pending, next: 0 }
                }
            },
            Err(error) => StateModel::Failed { error, label: None },
        },
        (StateModel::Deleting { pending, next }, EventModel::Deleted { outcome }) => match outcome {
            Ok(_) => {
                if next + 1 < pending.len() {
                    StateModel::Deleting { pending, next: next + 1 }
                } else {
                    StateModel::Creating { next: 0 }
                }
            },
            Err(error) => StateModel::Failed { error, label: Some(pending[next]) },
        },
        (StateModel::Creating { next }, EventModel::Created { outcome }) => match outcome {
            Ok(_) => {
                if next + 1 < canonical_labels().len() {
                    StateModel::Creating { next: next + 1 }
                } else {
                    StateModel::Done
                }
            },
            Err(error) => StateModel::Failed {
                error,
                label: Some(canonical_labels()[next].name),
            },
        },
        _ => s,
    }
}

/// The action each state asks for: the request it has in flight, or `Stop`
/// once the run is over.
pub open spec fn action_of(s: StateModel) -> ActionModel {
    match s {
        StateModel::Idle => ActionModel::Stop,
        StateModel::Listing => ActionModel::List,
        StateModel::Deleting { pending, next } => ActionModel::Delete { name: pending[next] },
        StateModel::Creating { next } => ActionModel::Create { label: canonical_labels()[next] },
        StateModel::Done => ActionModel::Stop,
        StateModel::Failed { .. } => ActionModel::Stop,
    }
}

/// The action issued on a transition: the one the next state asks for.
pub open spec fn sync_action(s: StateModel, e: EventModel) -> ActionModel {
    action_of(sync_next(s, e))
}

/// One step of the orchestrator: from the current state and the outcome of
/// the last remote round trip to the next state and the next remote action.
pub fn step(state: SyncState, event: SyncEvent) -> (r: (SyncState, SyncAction))
    requires
        state_wf(state@),
        accepts(state@, event@),
    ensures
        r.0@ == sync_next(state@, event@),
        r.1@ == sync_action(state@, event@),
        state_wf(r.0@),
{
    match (state, event) {
        (SyncState::Idle, SyncEvent::Started) => (SyncState::Listing, SyncAction::List),
        (SyncState::Listing, SyncEvent::Listed { outcome }) => match outcome {
            Ok(entries) => {
                let pending = names_to_delete(&entries);
                if pending.len() == 0 {
                    let label = canonical_label_at(0);
                    (SyncState::Creating { next: 0 }, SyncAction::Create { label })
                } else {
                    let name = pending[0].clone();
                    (SyncState::Deleting { pending, next: 0 }, SyncAction::Delete { name })
                }
            },
            Err(error) => (
                SyncState::Failed { error, label: None },
                SyncAction::Stop,
            ),
        },
        (SyncState::Deleting { pending, next }, SyncEvent::Deleted { outcome }) => match outcome {
            Ok(_) => {
                let n = pending.len();
                if next + 1 < n {
                    let name = pending[next + 1].clone();
                    (
                        SyncState::Deleting { pending, next: next + 1 },
                        SyncAction::Delete { name },
                    )
                } else {
                    let label = canonical_label_at(0);
                    (SyncState::Creating { next: 0 }, SyncAction::Create { label })
                }
            },
            Err(error) => {
                let label = Some(pending[next].clone());
                (SyncState::Failed { error, label }, SyncAction::Stop)
            },
        },
        (SyncState::Creating { next }, SyncEvent::Created { outcome }) => match outcome {
            Ok(_) => {
                if next + 1 < 21 {
                    let label = canonical_label_at(next + 1);
                    (SyncState::Creating { next: next + 1 }, SyncAction::Create { label })
                } else {
                    (SyncState::Done, SyncAction::Stop)
                }
            },
            Err(error) => {
                let failed = canonical_label_at(next);
                let label = Some(failed.name().to_owned());
                (SyncState::Failed { error, label }, SyncAction::Stop)
            },
        },
        (s, _) => {
            proof {
                assert(false);
            }
            (s, SyncAction::Stop)
        },
    }
}

/// Whether the event reports a failed round trip.
pub open spec fn event_failed(e: EventModel) -> bool {
    match e {
        EventModel::Started => false,
        EventModel::Listed { outcome } => outcome is Err,
        EventModel::Deleted { outcome } => outcome is Err,
        EventModel::Created { outcome } => outcome is Err,
    }
}

/// The first failure of any round trip halts the run: the machine moves to
/// `Failed` and asks for no further remote work. In particular a failed
/// delete leaves every later-listed name un-deleted and no create attempted,
/// and a failed create attempts no later create.
pub proof fn lemma_failure_halts(s: StateModel, e: EventModel)
    requires
        state_wf(s),
        accepts(s, e),
        event_failed(e),
    ensures
        sync_next(s, e) is Failed,
        sync_action(s, e) == ActionModel::Stop,
{
}

/// `Failed` and `Done` are terminal: neither accepts any further event, and
/// each asks only for `Stop`. Together with `lemma_failure_halts` this pins
/// the fail-fast policy: after the first failure no delete and no create is
/// ever attempted again.
pub proof fn lemma_run_over_is_terminal(s: StateModel, e: EventModel)
    requires
        s is Failed || s is Done,
    ensures
        !accepts(s, e),
        action_of(s) == ActionModel::Stop,
{
}

/// The state a run reaches: the machine folded over a sequence of events,
/// starting idle.
pub open spec fn run_state(events: Seq<EventModel>) -> StateModel
    decreases events.len(),
{
    if events.len() == 0 {
        StateModel::Idle
    } else {
        sync_next(run_state(events.drop_last()), events.last())
    }
}

/// A well-formed run: every event answers the state it meets.
pub open spec fn run_accepted(events: Seq<EventModel>) -> bool
    decreases events.len(),
{
    events.len() == 0 || (run_accepted(events.drop_last()) && accepts(
        run_state(events.drop_last()),
        events.last(),
    ))
}

/// Every state a well-formed run reaches is well formed.
pub proof fn lemma_run_state_wf(events: Seq<EventModel>)
    requires
        run_accepted(events),
    ensures
        state_wf(run_state(events)),
    decreases events.len(),
{
    if events.len() > 0 {
        lemma_run_state_wf(events.drop_last());
    }
}

/// A prefix of a well-formed run is itself well formed.
pub proof fn lemma_run_accepted_prefix(events: Seq<EventModel>, j: int)
    requires
        run_accepted(events),
        0 <= j <= events.len(),
    ensures
        run_accepted(events.take(j)),
    decreases events.len(),
{
    if j == events.len() {
        assert(events.take(j) =~= events);
    } else if events.len() > 0 {
        lemma_run_accepted_prefix(events.drop_last(), j);
        assert(events.drop_last().take(j) =~= events.take(j));
    }
}

/// Whether the machine is past its deleting phase.
pub open spec fn past_deleting(s: StateModel) -> bool {
    s is Creating || s is Done || s is Failed
}

/// Once a run is past deleting it never returns: no event after the first
/// create can make the machine ask for a delete. Every delete of a run
/// strictly precedes every create.
pub proof fn lemma_no_delete_after_create(events: Seq<EventModel>, k: int, m: int)
    requires
        run_accepted(events.take(m)),
        0 <= k <= m <= events.len(),
        past_deleting(run_state(events.take(k))),
    ensures
        past_deleting(run_state(events.take(m))),
        !(action_of(run_state(events.take(m))) is Delete),
    decreases m - k,
{
    if k < m {
        assert(events.take(m).drop_last() =~= events.take(m - 1));
        lemma_no_delete_after_create(events, k, m - 1);
    }
}

/// In a well-formed run only the final state can be `Done` or `Failed`: the
/// machine accepts no event once the run is over, so the first failure ends
/// the run with nothing further attempted.
pub proof fn lemma_first_failure_ends_the_run(events: Seq<EventModel>, k: int)
    requires
        run_accepted(events),
        0 <= k < events.len(),
    ensures
        !(run_state(events.take(k)) is Failed),
        !(run_state(events.take(k)) is Done),
{
    lemma_run_accepted_prefix(events, k + 1);
    assert(events.take(k + 1).drop_last() =~= events.take(k));
}

/// Classifies one delete or create response: a 2xx status is success, any
/// other status is a protocol failure carrying the status and the body text.
pub fn response_outcome(status: u16, body: String) -> (r: Result<(), SyncError>)
    ensures
        r is Ok <==> 200 <= status < 300,
        !(200 <= status < 300) ==> r == Result::<(), SyncError>::Err(
            SyncError::Protocol { status, body },
        ),
{
    if 200 <= status && status < 300 {
        Ok(())
    } else {
        Err(SyncError::Protocol { status, body })
    }
}

/// The model of a [`Config`].
pub ghost struct ConfigModel {
    pub owner: Seq<char>,
    pub repo: Seq<char>,
    pub token: Seq<char>,
}

/// A credential every character of which can stand in a header value: tab or
/// any character that is neither another control character nor delete.
/// Exactly these credentials build an authorization header.
pub open spec fn token_usable(s: Seq<char>) -> bool {
    forall|i: int|
        0 <= i < s.len() ==> {
            let code = (#[trigger] s[i]) as u32;
            code == 9 || (32 <= code && code != 127)
        }
}

/// The configuration a sync run needs from its caller: target owner, target
/// repository, and an authentication token, constructed once and checked.
pub struct Config {
    owner: String,
    repo: String,
    token: String,
}

impl Config {
    /// Every constructed configuration carries a usable credential.
    #[verifier::type_invariant]
    spec fn wf(self) -> bool {
        token_usable(self.token@)
    }
}

impl View for Config {
    type V = ConfigModel;

    closed spec fn view(&self) -> ConfigModel {
        ConfigModel { owner: self.owner@, repo: self.repo@, token: self.token@ }
    }
}

impl Config {
    /// Builds a configuration. Rejects a credential with a character that
    /// cannot stand in an authorization header.
    pub fn new(owner: String, repo: String, token: String) -> (r: Result<Config, SyncError>)
        ensures
            r is Ok <==> token_usable(token@),
            r matches Ok(c) ==> c@ == (ConfigModel { owner: owner@, repo: repo@, token: token@ }),
            r matches Err(e) ==> e@ == (ErrorModel::Config {
                message: "the credential cannot stand in an authorization header"@,
            }),
    {
        let n: usize = token.as_str().unicode_len();
        let mut i: usize = 0;
        while i < n
            invariant
                i <= n,
                n == token@.len(),
                forall|j: int|
                    0 <= j < i ==> {
                        let code = (#[trigger] token@[j]) as u32;
                        code == 9 || (32 <= code && code != 127)
                    },
            decreases n - i,
        {
            let c = token.as_str().get_char(i);
            let code = c as u32;
            if !(code == 9 || (code >= 32 && code != 127)) {
                proof {
                    assert(!token_usable(token@));
                }
                return Err(
                    SyncError::Config {
                        message: "the credential cannot stand in an authorization header"
                            .to_owned(),
                    },
                );
            }
            i += 1;
        }
        Ok(Config { owner, repo, token })
    }

    pub fn owner(&self) -> (r: &str)
        ensures
            r@ == self@.owner,
    {
        self.owner.as_str()
    }

    pub fn repo(&self) -> (r: &str)
        ensures
            r@ == self@.repo,
    {
        self.repo.as_str()
    }

    pub fn token(&self) -> (r: &str)
        ensures
            r@ == self@.token,
            token_usable(r@),
    {
        proof {
            use_type_invariant(self);
        }
        self.token.as_str()
    }
}

} // verus!
