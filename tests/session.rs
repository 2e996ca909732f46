use workshop_fetch::session::{Action, Event, Failure, Session, Stage};

#[test]
fn start_queries_the_item() {
    let (s, a) = Session::start(2785198049);
    assert_eq!(a, Action::FetchMetadata { item: 2785198049 });
    assert_eq!(s.stage, Stage::Querying);
    assert!(!s.is_finished());
}

#[test]
fn full_run_with_uncached_owner() {
    let (mut s, _) = Session::start(10);
    assert_eq!(s.step(Event::MetadataReceived { owner: 55 }), Action::LookUpOwner { owner: 55 });
    assert_eq!(s.step(Event::OwnerLookedUp { cached: false }), Action::AwaitOwner { owner: 55 });
    assert_eq!(s.step(Event::OwnerResolved), Action::AskConfirmation);
    assert_eq!(s.step(Event::Answered { yes: true }), Action::TriggerDownload { item: 10 });
    assert_eq!(s.step(Event::DownloadTriggered { started: true }), Action::AwaitDownload { item: 10 });
    assert_eq!(s.step(Event::DownloadFinished), Action::LocateInstall { item: 10 });
    assert_eq!(s.step(Event::InstallLookedUp { found: true }), Action::CopyAndDecode);
    assert_eq!(s.stage, Stage::Processing);
    assert!(s.is_finished());
}

#[test]
fn cached_owner_skips_waiting() {
    let (mut s, _) = Session::start(10);
    s.step(Event::MetadataReceived { owner: 55 });
    assert_eq!(s.step(Event::OwnerLookedUp { cached: true }), Action::AskConfirmation);
    assert_eq!(s.stage, Stage::Confirming);
}

#[test]
fn query_failure_ends_run() {
    let (mut s, _) = Session::start(10);
    assert_eq!(s.step(Event::QueryFailed), Action::Report(Failure::QueryFailed));
    assert!(s.is_finished());
}

#[test]
fn declining_copies_nothing() {
    let (mut s, _) = Session::start(10);
    s.step(Event::MetadataReceived { owner: 55 });
    s.step(Event::OwnerLookedUp { cached: true });
    assert_eq!(s.step(Event::Answered { yes: false }), Action::Report(Failure::Cancelled));
    assert_eq!(s.stage, Stage::Stopped(Failure::Cancelled));
    for e in [
        Event::Answered { yes: true },
        Event::DownloadTriggered { started: true },
        Event::DownloadFinished,
        Event::InstallLookedUp { found: true },
    ] {
        assert_eq!(s.step(e), Action::Nothing);
    }
    assert_eq!(s.stage, Stage::Stopped(Failure::Cancelled));
}

#[test]
fn rejected_download_ends_run() {
    let (mut s, _) = Session::start(10);
    s.step(Event::MetadataReceived { owner: 1 });
    s.step(Event::OwnerLookedUp { cached: true });
    s.step(Event::Answered { yes: true });
    assert_eq!(
        s.step(Event::DownloadTriggered { started: false }),
        Action::Report(Failure::DownloadRejected)
    );
}

#[test]
fn missing_install_ends_run() {
    let (mut s, _) = Session::start(10);
    s.step(Event::MetadataReceived { owner: 1 });
    s.step(Event::OwnerLookedUp { cached: true });
    s.step(Event::Answered { yes: true });
    s.step(Event::DownloadTriggered { started: true });
    s.step(Event::DownloadFinished);
    assert_eq!(
        s.step(Event::InstallLookedUp { found: false }),
        Action::Report(Failure::InstallInfoMissing)
    );
}

#[test]
fn out_of_order_event_changes_nothing() {
    let (mut s, _) = Session::start(10);
    let before = s;
    assert_eq!(s.step(Event::DownloadFinished), Action::Nothing);
    assert_eq!(s, before);
}
