use vstd::prelude::*;

verus! {

/// Why a run ends before the files are copied. Each is reported and ends the run cleanly.
#[derive(Clone, Copy, Debug, PartialEq, Eq, Structural)]
pub enum Failure {
    /// The metadata query could not be made, or brought no item back.
    QueryFailed,
    /// The user declined the download.
    Cancelled,
    /// The client would not start the download.
    DownloadRejected,
    /// The download finished but the client knows of no installed copy.
    InstallInfoMissing,
}

/// Where a run stands.
#[derive(Clone, Copy, Debug, PartialEq, Eq, Structural)]
pub enum Stage {
    /// Waiting for the item's metadata.
    Querying,
    /// Waiting to learn whether the owner's profile is cached.
    ResolvingOwner,
    /// Waiting for the owner's profile to arrive.
    AwaitingOwner,
    /// Waiting for the user's answer.
    Confirming,
    /// Waiting to learn whether the download started.
    StartingDownload,
    /// Waiting for the download to complete.
    Downloading,
    /// Waiting for the install location.
    Locating,
    /// The files are being copied and decoded; nothing more is asked of the client.
    Processing,
    /// The run ended early.
    Stopped(Failure),
}

/// What the surrounding program reports back after carrying out an action.
#[derive(Clone, Copy, Debug, PartialEq, Eq, Structural)]
pub enum Event {
    /// The metadata query could not be made or brought no item.
    QueryFailed,
    /// The metadata arrived; the item belongs to `owner`.
    MetadataReceived { owner: u64 },
    /// The profile lookup was issued; `cached` tells whether the profile was already there.
    OwnerLookedUp { cached: bool },
    /// The notification for the owner's profile fired.
    OwnerResolved,
    /// The user answered the download question.
    Answered { yes: bool },
    /// The download trigger was issued; `started` tells whether the client accepted it.
    DownloadTriggered { started: bool },
    /// The notification for the item's download fired.
    DownloadFinished,
    /// The install location was asked for; `found` tells whether the client had one.
    InstallLookedUp { found: bool },
}

/// What the surrounding program is to do next.
#[derive(Clone, Copy, Debug, PartialEq, Eq, Structural)]
pub enum Action {
    /// Query the metadata of `item`.
    FetchMetadata { item: u64 },
    /// Listen for changes to `owner`'s profile, then ask whether it is cached.
    LookUpOwner { owner: u64 },
    /// Wait for the notification about `owner`'s profile.
    AwaitOwner { owner: u64 },
    /// Show the item and ask the user whether to download it.
    AskConfirmation,
    /// Listen for the completion of `item`'s download, then trigger it.
    TriggerDownload { item: u64 },
    /// Wait for the notification about `item`'s download.
    AwaitDownload { item: u64 },
    /// Ask for the install location of `item`.
    LocateInstall { item: u64 },
    /// Copy the installed files to the destination and decode them.
    CopyAndDecode,
    /// Report the failure and end the run.
    Report(Failure),
    /// The event does not belong to this stage: nothing to do.
    Nothing,
}

/// The state of one run: the item, its owner once known, and the stage.
#[derive(Clone, Copy, Debug, PartialEq, Eq, Structural)]
pub struct Session {
    pub item: u64,
    pub owner: u64,
    pub stage: Stage,
}

/// The run's next state and action, given an event.
pub open spec fn next(s: Session, e: Event) -> (Session, Action) {
    match (s.stage, e) {
        (Stage::Querying, Event::QueryFailed) => (
            Session { stage: Stage::Stopped(Failure::QueryFailed), ..s },
            Action::Report(Failure::QueryFailed),
        ),
        (Stage::Querying, Event::MetadataReceived { owner }) => (
            Session { owner, stage: Stage::ResolvingOwner, ..s },
            Action::LookUpOwner { owner },
        ),
        (Stage::ResolvingOwner, Event::OwnerLookedUp { cached }) => if cached {
            (Session { stage: Stage::Confirming, ..s }, Action::AskConfirmation)
        } else {
            (Session { stage: Stage::AwaitingOwner, ..s }, Action::AwaitOwner { owner: s.owner })
        },
        (Stage::AwaitingOwner, Event::OwnerResolved) => (
            Session { stage: Stage::Confirming, ..s },
            Action::AskConfirmation,
        ),
        (Stage::Confirming, Event::Answered { yes }) => if yes {
            (Session { stage: Stage::StartingDownload, ..s }, Action::TriggerDownload { item: s.item })
        } else {
            (
                Session { stage: Stage::Stopped(Failure::Cancelled), ..s },
                Action::Report(Failure::Cancelled),
            )
        },
        (Stage::StartingDownload, Event::DownloadTriggered { started }) => if started {
            (Session { stage: Stage::Downloading, ..s }, Action::AwaitDownload { item: s.item })
        } else {
            (
                Session { stage: Stage::Stopped(Failure::DownloadRejected), ..s },
                Action::Report(Failure::DownloadRejected),
            )
        },
        (Stage::Downloading, Event::DownloadFinished) => (
            Session { stage: Stage::Locating, ..s },
            Action::LocateInstall { item: s.item },
        ),
        (Stage::Locating, Event::InstallLookedUp { found }) => if found {
            (Session { stage: Stage::Processing, ..s }, Action::CopyAndDecode)
        } else {
            (
                Session { stage: Stage::Stopped(Failure::InstallInfoMissing), ..s },
                Action::Report(Failure::InstallInfoMissing),
            )
        },
        _ => (s, Action::Nothing),
    }
}

/// The actions that a run of events brings about, one per event.
pub open spec fn run(s: Session, events: Seq<Event>) -> Seq<Action>
    decreases events.len(),
{
    if events.len() == 0 {
        Seq::empty()
    } else {
        let (t, a) = next(s, events[0]);
        seq![a] + run(t, events.drop_first())
    }
}

/// The stage has no event left that it answers.
pub open spec fn is_final(stage: Stage) -> bool {
    stage is Processing || stage is Stopped
}

impl Session {
    /// A run for `item`, and its first action: the metadata query.
    pub fn start(item: u64) -> (r: (Session, Action))
        ensures
            r.0 == (Session { item, owner: 0, stage: Stage::Querying }),
            r.1 == (Action::FetchMetadata { item }),
    {
        (Session { item, owner: 0, stage: Stage::Querying }, Action::FetchMetadata { item })
    }

    /// Moves the run on by one event and says what to do next. An event that does not belong
    /// to the current stage changes nothing.
    pub fn step(&mut self, event: Event) -> (r: Action)
        ensures
            (*final(self), r) == next(*old(self), event),
    {
        let s = *self;
        let (t, a) = match (s.stage, event) {
            (Stage::Querying, Event::QueryFailed) => (
                Session { stage: Stage::Stopped(Failure::QueryFailed), ..s },
                Action::Report(Failure::QueryFailed),
            ),
            (Stage::Querying, Event::MetadataReceived { owner }) => (
                Session { owner, stage: Stage::ResolvingOwner, ..s },
                Action::LookUpOwner { owner },
            ),
            (Stage::ResolvingOwner, Event::OwnerLookedUp { cached }) => if cached {
                (Session { stage: Stage::Confirming, ..s }, Action::AskConfirmation)
            } else {
                (Session { stage: Stage::AwaitingOwner, ..s }, Action::AwaitOwner { owner: s.owner })
            },
            (Stage::AwaitingOwner, Event::OwnerResolved) => (
                Session { stage: Stage::Confirming, ..s },
                Action::AskConfirmation,
            ),
            (Stage::Confirming, Event::Answered { yes }) => if yes {
                (Session { stage: Stage::StartingDownload, ..s }, Action::TriggerDownload { item: s.item })
            } else {
                (
                    Session { stage: Stage::Stopped(Failure::Cancelled), ..s },
                    Action::Report(Failure::Cancelled),
                )
            },
            (Stage::StartingDownload, Event::DownloadTriggered { started }) => if started {
                (Session { stage: Stage::Downloading, ..s }, Action::AwaitDownload { item: s.item })
            } else {
                (
                    Session { stage: Stage::Stopped(Failure::DownloadRejected), ..s },
                    Action::Report(Failure::DownloadRejected),
                )
            },
            (Stage::Downloading, Event::DownloadFinished) => (
                Session { stage: Stage::Locating, ..s },
                Action::LocateInstall { item: s.item },
            ),
            (Stage::Locating, Event::InstallLookedUp { found }) => if found {
                (Session { stage: Stage::Processing, ..s }, Action::CopyAndDecode)
            } else {
                (
                    Session { stage: Stage::Stopped(Failure::InstallInfoMissing), ..s },
                    Action::Report(Failure::InstallInfoMissing),
                )
            },
            _ => (s, Action::Nothing),
        };
        *self = t;
        a
    }

    /// Whether the run has nothing more to ask of the client.
    pub fn is_finished(&self) -> (r: bool)
        ensures
            r == is_final(self.stage),
    {
        match self.stage {
            Stage::Processing | Stage::Stopped(_) => true,
            _ => false,
        }
    }
}

/// A run of events brings about one action per event.
pub proof fn lemma_run_len(s: Session, events: Seq<Event>)
    ensures
        run(s, events).len() == events.len(),
    decreases events.len(),
{
    if events.len() > 0 {
        lemma_run_len(next(s, events[0]).0, events.drop_first());
    }
}

/// A run that has finished stays as it is and does nothing, whatever events follow.
pub proof fn lemma_final_is_inert(s: Session, events: Seq<Event>)
    requires
        is_final(s.stage),
    ensures
        forall|i: int| 0 <= i < events.len() ==> #[trigger] run(s, events)[i] == Action::Nothing,
    decreases events.len(),
{
    lemma_run_len(s, events);
    if events.len() > 0 {
        let rest = events.drop_first();
        lemma_final_is_inert(s, rest);
        lemma_run_len(s, rest);
        assert(next(s, events[0]) == (s, Action::Nothing));
        assert(run(s, events) == seq![Action::Nothing] + run(s, rest));
        assert forall|i: int| 0 <= i < events.len() implies #[trigger] run(s, events)[i]
            == Action::Nothing by {
            if i > 0 {
                assert(run(s, events)[i] == run(s, events.drop_first())[i - 1]);
            }
        }
    }
}

/// Declining the download reports the cancellation, and no later event leads to copying
/// anything to the destination.
pub proof fn lemma_declining_copies_nothing(s: Session, later: Seq<Event>)
    requires
        s.stage == Stage::Confirming,
    ensures
        next(s, Event::Answered { yes: false }).1 == Action::Report(Failure::Cancelled),
        !run(s, seq![Event::Answered { yes: false }] + later).contains(Action::CopyAndDecode),
{
    let events = seq![Event::Answered { yes: false }] + later;
    let t = next(s, Event::Answered { yes: false }).0;
    assert(events.drop_first() == later);
    lemma_final_is_inert(t, later);
    lemma_run_len(t, later);
    let actions = run(s, events);
    assert(actions == seq![Action::Report(Failure::Cancelled)] + run(t, later));
    if actions.contains(Action::CopyAndDecode) {
        let i = choose|i: int| 0 <= i < actions.len() && actions[i] == Action::CopyAndDecode;
        if i > 0 {
            assert(actions[i] == run(t, later)[i - 1]);
        }
    }
}

/// The files are copied only right after the install location was found, once the download
/// has finished; every earlier stage has to be passed through first.
pub proof fn lemma_copy_only_after_install_found(s: Session, e: Event)
    ensures
        next(s, e).1 == Action::CopyAndDecode <==> (s.stage == Stage::Locating && e
            == Event::InstallLookedUp { found: true }),
{
}

} // verus!
