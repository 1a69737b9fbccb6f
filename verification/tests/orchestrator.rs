use moprs_sync::error::SyncError;
use moprs_sync::orchestrator::{Directive, Kind, Orchestrator, Stage};

fn kind_of(directive: &Directive) -> Option<Kind> {
    match directive {
        Directive::Run(kind) => Some(*kind),
        _ => None,
    }
}

#[test]
fn kinds_follow_each_other() {
    assert_eq!(Kind::Music.successor(), Some(Kind::Album));
    assert_eq!(Kind::Album.successor(), Some(Kind::Artist));
    assert_eq!(Kind::Artist.successor(), None);
}

#[test]
fn kinds_announce_themselves() {
    assert_eq!(Kind::Music.start_message(), "Starting music sync");
    assert_eq!(Kind::Music.finish_message(), "Music sync finished");
    assert_eq!(Kind::Album.start_message(), "Starting album sync");
    assert_eq!(Kind::Album.finish_message(), "Album sync finished");
    assert_eq!(Kind::Artist.start_message(), "Starting artist sync");
    assert_eq!(Kind::Artist.finish_message(), "Artist sync finished");
}

#[test]
fn run_starts_with_music() {
    let (orchestrator, directive) = Orchestrator::start();
    assert_eq!(kind_of(&directive), Some(Kind::Music));
    assert_eq!(orchestrator.running(), Some(Kind::Music));
    assert_eq!(orchestrator.stage(), Stage::Running(Kind::Music));
    assert_eq!(directive.exit_status(), None);
}

#[test]
fn kinds_run_in_order_and_the_run_completes() {
    let (orchestrator, directive) = Orchestrator::start();
    let mut started = vec![kind_of(&directive).unwrap()];
    let (orchestrator, directive) = orchestrator.kind_ended(Ok(()));
    started.push(kind_of(&directive).unwrap());
    assert_eq!(orchestrator.running(), Some(Kind::Album));
    let (orchestrator, directive) = orchestrator.kind_ended(Ok(()));
    started.push(kind_of(&directive).unwrap());
    assert_eq!(orchestrator.running(), Some(Kind::Artist));
    let (orchestrator, directive) = orchestrator.kind_ended(Ok(()));
    assert!(matches!(directive, Directive::Complete));
    assert_eq!(directive.exit_status(), Some(0));
    assert_eq!(orchestrator.stage(), Stage::Complete);
    assert_eq!(orchestrator.running(), None);
    assert_eq!(started, vec![Kind::Music, Kind::Album, Kind::Artist]);
}

#[test]
fn failure_of_the_first_kind_aborts_the_run() {
    let (orchestrator, _) = Orchestrator::start();
    let failure = SyncError::Write("rejected".to_string());
    let (orchestrator, directive) = orchestrator.kind_ended(Err(failure.clone()));
    match &directive {
        Directive::Abort(error) => assert_eq!(error, &failure),
        _ => panic!("the run went on after a failure"),
    }
    assert_eq!(directive.exit_status(), Some(1));
    assert_eq!(orchestrator.stage(), Stage::Aborted);
    assert_eq!(orchestrator.running(), None);
}

#[test]
fn failure_of_the_second_kind_starts_no_third() {
    let (orchestrator, _) = Orchestrator::start();
    let (orchestrator, directive) = orchestrator.kind_ended(Ok(()));
    assert_eq!(kind_of(&directive), Some(Kind::Album));
    let failure = SyncError::Decode("bad album".to_string());
    let (orchestrator, directive) = orchestrator.kind_ended(Err(failure.clone()));
    match directive {
        Directive::Abort(error) => assert_eq!(error, failure),
        _ => panic!("the run went on after a failure"),
    }
    assert_eq!(orchestrator.stage(), Stage::Aborted);
}

#[test]
fn failure_of_the_last_kind_aborts_the_run() {
    let (orchestrator, _) = Orchestrator::start();
    let (orchestrator, _) = orchestrator.kind_ended(Ok(()));
    let (orchestrator, _) = orchestrator.kind_ended(Ok(()));
    let (orchestrator, directive) =
        orchestrator.kind_ended(Err(SyncError::Connection("lost".to_string())));
    assert_eq!(directive.exit_status(), Some(1));
    assert_eq!(orchestrator.stage(), Stage::Aborted);
}
