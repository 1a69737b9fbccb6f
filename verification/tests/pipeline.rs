use moprs_sync::error::SyncError;
use moprs_sync::music_struct::{
    Album, AlbumMeilisearch, Artist, ArtistMeilisearch, DeezerId, Music, MusicMeilisearch,
};
use moprs_sync::orchestrator::{Directive, Kind, Orchestrator, Stage};
use moprs_sync::pipeline::{Action, Event, Phase, Pipeline};
use moprs_sync::record::Record;
use std::collections::BTreeMap;

fn track(id: DeezerId) -> Music {
    Music {
        id,
        title: format!("Title {}", id),
        artist_name: format!("Artist of {}", id),
        published_date: 1_600_000_000_000 + id,
        track_number: Some(id % 20),
        disc_number: None,
        file_path: None,
        image_url: Some(format!("https://img.example/{}.jpg", id)),
        views: 0,
        likes: 0,
        rank: id * 3,
        last_view: 0,
    }
}

fn album(id: DeezerId) -> Album {
    Album {
        id,
        name: format!("Album {}", id),
        cover: format!("https://img.example/cover/{}.jpg", id),
        is_complete: id % 2 == 0,
        musics: None,
    }
}

fn artist(id: DeezerId) -> Artist {
    Artist {
        id,
        name: format!("Artist {}", id),
        picture: format!("https://img.example/artist/{}.jpg", id),
        albums: None,
        top_tracks: Some(vec![id, id + 1]),
        related_artists: None,
        last_update: 1_650_000_000_000,
    }
}

/// What one item of a cursor is: a record, or the failure to get one.
type Item<R> = Result<R, SyncError>;

/// A search service that keeps every index in memory and can be told to
/// refuse a write.
struct Service<P> {
    documents: BTreeMap<DeezerId, P>,
    writes: Vec<(String, Vec<P>)>,
    refuse_write: Option<usize>,
}

impl<P> Service<P> {
    fn new() -> Self {
        Service { documents: BTreeMap::new(), writes: Vec::new(), refuse_write: None }
    }

    fn sizes(&self) -> Vec<usize> {
        self.writes.iter().map(|(_, batch)| batch.len()).collect()
    }
}

/// What a run of one kind did.
struct Run {
    opened: Vec<String>,
    pulls: usize,
    notifications: Vec<String>,
    outcome: Result<(), SyncError>,
    phase: Phase,
    consumed: u64,
    indexed: u64,
    total: u64,
    buffered: usize,
}

/// Drives the pipeline of `R` over `source`: performs each action against
/// the items of the cursor and the service, and hands back the event.
fn drive<R: Record>(
    source: Vec<Item<R>>,
    total: u64,
    service: &mut Service<R::Projection>,
    key: fn(&R::Projection) -> DeezerId,
) -> Run
where
    R::Projection: Clone,
{
    let mut cursor = source.into_iter();
    let mut opened = Vec::new();
    let mut pulls = 0;
    let mut notifications = Vec::new();
    let (mut pipeline, mut action) = Pipeline::<R>::start();
    let outcome = loop {
        let event = match action {
            Action::Open { collection } => {
                opened.push(collection.to_string());
                Event::Opened { total }
            }
            Action::Pull => {
                pulls += 1;
                match cursor.next() {
                    Some(Ok(record)) => Event::Record(record),
                    Some(Err(error)) => Event::Failed(error),
                    None => Event::Exhausted,
                }
            }
            Action::Write { index, batch } => {
                assert!(!batch.is_empty());
                if service.refuse_write == Some(service.writes.len()) {
                    Event::Failed(SyncError::Write("refused".to_string()))
                } else {
                    for document in batch.iter() {
                        service.documents.insert(key(document), document.clone());
                    }
                    service.writes.push((index.to_string(), batch));
                    Event::Written
                }
            }
            Action::Finish => break Ok(()),
            Action::Abort(error) => break Err(error),
        };
        assert!(pipeline.accepts(&event));
        let (next, step) = pipeline.step(event);
        pipeline = next;
        if let Some(notification) = step.notification {
            notifications.push(notification);
        }
        action = step.action;
    };
    Run {
        opened,
        pulls,
        notifications,
        outcome,
        phase: pipeline.phase(),
        consumed: pipeline.consumed(),
        indexed: pipeline.indexed(),
        total: pipeline.total(),
        buffered: pipeline.buffered(),
    }
}

fn tracks(count: i64) -> Vec<Item<Music>> {
    (0..count).map(|id| Ok(track(id))).collect()
}

fn music_key(document: &MusicMeilisearch) -> DeezerId {
    document.id
}

fn album_key(document: &AlbumMeilisearch) -> DeezerId {
    document.id
}

fn artist_key(document: &ArtistMeilisearch) -> DeezerId {
    document.id
}

fn expected_sizes(count: usize) -> Vec<usize> {
    let mut sizes = vec![1000; count / 1000];
    if count % 1000 != 0 {
        sizes.push(count % 1000);
    }
    sizes
}

#[test]
fn pipeline_starts_by_opening_the_collection() {
    let (pipeline, action) = Pipeline::<Music>::start();
    assert!(matches!(action, Action::Open { collection: "Music" }));
    assert_eq!(pipeline.phase(), Phase::Init);
    assert_eq!(pipeline.indexed(), 0);
    assert_eq!(pipeline.buffered(), 0);
    let (_, action) = Pipeline::<Album>::start();
    assert!(matches!(action, Action::Open { collection: "Album" }));
    let (_, action) = Pipeline::<Artist>::start();
    assert!(matches!(action, Action::Open { collection: "Artist" }));
}

#[test]
fn opening_leads_to_streaming() {
    let (pipeline, _) = Pipeline::<Music>::start();
    let (pipeline, step) = pipeline.step(Event::Opened { total: 12 });
    assert!(matches!(step.action, Action::Pull));
    assert_eq!(step.notification, None);
    assert_eq!(pipeline.phase(), Phase::Streaming);
    assert_eq!(pipeline.total(), 12);
    assert_eq!(pipeline.indexed(), 0);
}

#[test]
fn records_are_buffered_until_the_batch_is_full() {
    let (pipeline, _) = Pipeline::<Album>::start();
    let (mut pipeline, _) = pipeline.step(Event::Opened { total: 1000 });
    for id in 0..999 {
        let (next, step) = pipeline.step(Event::Record(album(id)));
        assert!(matches!(step.action, Action::Pull));
        assert_eq!(step.notification, None);
        assert_eq!(next.phase(), Phase::Streaming);
        assert_eq!(next.buffered(), (id + 1) as usize);
        pipeline = next;
    }
    let (pipeline, step) = pipeline.step(Event::Record(album(999)));
    assert_eq!(pipeline.phase(), Phase::Flush);
    assert_eq!(pipeline.buffered(), 0);
    assert_eq!(pipeline.indexed(), 0);
    match step.action {
        Action::Write { index, batch } => {
            assert_eq!(index, "albums");
            assert_eq!(batch.len(), 1000);
            for (position, document) in batch.iter().enumerate() {
                assert_eq!(document, &AlbumMeilisearch::from(album(position as i64)));
            }
        }
        _ => panic!("a full batch was not written"),
    }
    let (pipeline, step) = pipeline.step(Event::Written);
    assert!(matches!(step.action, Action::Pull));
    assert_eq!(step.notification, Some("1000/1000".to_string()));
    assert_eq!(pipeline.phase(), Phase::Streaming);
    assert_eq!(pipeline.indexed(), 1000);
    let (pipeline, step) = pipeline.step(Event::Exhausted);
    assert!(matches!(step.action, Action::Finish));
    assert_eq!(step.notification, None);
    assert_eq!(pipeline.phase(), Phase::Done);
}

#[test]
fn two_thousand_five_hundred_tracks_are_written_in_three_batches() {
    let mut service = Service::new();
    let run = drive::<Music>(tracks(2500), 2500, &mut service, music_key);
    assert_eq!(run.outcome, Ok(()));
    assert_eq!(run.phase, Phase::Done);
    assert_eq!(service.sizes(), vec![1000, 1000, 500]);
    assert_eq!(
        run.notifications,
        vec!["1000/2500".to_string(), "2000/2500".to_string(), "2500/2500".to_string()]
    );
    assert_eq!(run.notifications.last().unwrap(), "2500/2500");
    assert_eq!(run.consumed, 2500);
    assert_eq!(run.indexed, 2500);
    assert_eq!(run.total, 2500);
    assert_eq!(run.buffered, 0);
    assert_eq!(run.opened, vec!["Music".to_string()]);
    assert_eq!(run.pulls, 2501);
    for (index, _) in service.writes.iter() {
        assert_eq!(index, "musics");
    }
    let written: Vec<MusicMeilisearch> =
        service.writes.iter().flat_map(|(_, batch)| batch.iter().cloned()).collect();
    let expected: Vec<MusicMeilisearch> =
        (0..2500).map(|id| MusicMeilisearch::from(track(id))).collect();
    assert_eq!(written, expected);
    assert_eq!(service.documents.len(), 2500);
}

#[test]
fn trailing_partial_batch_is_flushed() {
    let mut service = Service::new();
    let run = drive::<Music>(tracks(1001), 1001, &mut service, music_key);
    assert_eq!(run.outcome, Ok(()));
    assert_eq!(service.sizes(), vec![1000, 1]);
    assert_eq!(service.writes[1].1, vec![MusicMeilisearch::from(track(1000))]);
    assert_eq!(run.notifications.last().unwrap(), "1001/1001");
    assert!(service.documents.contains_key(&1000));
}

#[test]
fn batches_for_sources_of_many_sizes() {
    for count in [0usize, 1, 2, 999, 1000, 1001, 1999, 2000, 2001, 3000, 4321] {
        let mut service = Service::new();
        let run = drive::<Music>(tracks(count as i64), count as u64, &mut service, music_key);
        assert_eq!(run.outcome, Ok(()));
        assert_eq!(run.phase, Phase::Done);
        assert_eq!(service.sizes(), expected_sizes(count));
        let full = service.sizes().iter().filter(|size| **size == 1000).count();
        assert_eq!(full, count / 1000);
        assert_eq!(service.writes.len(), count / 1000 + usize::from(count % 1000 != 0));
        assert_eq!(run.indexed, count as u64);
        assert_eq!(run.notifications.len(), service.writes.len());
        assert_eq!(service.documents.len(), count);
    }
}

#[test]
fn empty_source_writes_nothing() {
    let mut service = Service::new();
    let run = drive::<Artist>(Vec::new(), 0, &mut service, artist_key);
    assert_eq!(run.outcome, Ok(()));
    assert_eq!(run.phase, Phase::Done);
    assert!(service.writes.is_empty());
    assert!(run.notifications.is_empty());
    assert_eq!(run.pulls, 1);
}

#[test]
fn source_smaller_than_a_batch_is_written_at_the_end() {
    let source: Vec<Item<Artist>> = (0..3).map(|id| Ok(artist(id))).collect();
    let mut service = Service::new();
    let run = drive::<Artist>(source, 3, &mut service, artist_key);
    assert_eq!(run.outcome, Ok(()));
    assert_eq!(service.writes.len(), 1);
    assert_eq!(service.writes[0].0, "artists");
    assert_eq!(
        service.writes[0].1,
        vec![
            ArtistMeilisearch::from(artist(0)),
            ArtistMeilisearch::from(artist(1)),
            ArtistMeilisearch::from(artist(2)),
        ]
    );
    assert_eq!(run.notifications, vec!["3/3".to_string()]);
}

#[test]
fn draining_goes_through_its_own_phase() {
    let (pipeline, _) = Pipeline::<Album>::start();
    let (pipeline, _) = pipeline.step(Event::Opened { total: 1 });
    let (pipeline, _) = pipeline.step(Event::Record(album(5)));
    let (pipeline, step) = pipeline.step(Event::Exhausted);
    assert_eq!(pipeline.phase(), Phase::Drain);
    assert_eq!(pipeline.buffered(), 0);
    match step.action {
        Action::Write { index, batch } => {
            assert_eq!(index, "albums");
            assert_eq!(batch, vec![AlbumMeilisearch::from(album(5))]);
        }
        _ => panic!("the partial batch was not written"),
    }
    let (pipeline, step) = pipeline.step(Event::Written);
    assert_eq!(pipeline.phase(), Phase::Done);
    assert!(matches!(step.action, Action::Finish));
    assert_eq!(step.notification, Some("1/1".to_string()));
    assert_eq!(pipeline.indexed(), 1);
}

#[test]
fn progress_counts_against_the_total_that_the_store_reported() {
    let mut service = Service::new();
    let run = drive::<Music>(tracks(1500), 1200, &mut service, music_key);
    assert_eq!(run.notifications, vec!["1000/1200".to_string(), "1500/1200".to_string()]);
}

#[test]
fn malformed_record_aborts_after_one_flushed_batch() {
    let mut source = tracks(2000);
    source[1500] = Err(SyncError::Decode("invalid type: string, expected i64".to_string()));
    let mut service = Service::new();
    let run = drive::<Music>(source, 2000, &mut service, music_key);
    assert_eq!(
        run.outcome,
        Err(SyncError::Decode("invalid type: string, expected i64".to_string()))
    );
    assert_eq!(run.phase, Phase::Failed);
    assert_eq!(service.sizes(), vec![1000]);
    assert_eq!(run.notifications, vec!["1000/2000".to_string()]);
    assert_eq!(run.consumed, 1500);
    assert_eq!(run.indexed, 1000);
    assert_eq!(run.buffered, 500);
    assert_eq!(run.pulls, 1501);
    assert_eq!(service.documents.len(), 1000);
    assert!(service.documents.contains_key(&999));
    assert!(!service.documents.contains_key(&1000));
    assert!(!service.documents.contains_key(&1999));
}

#[test]
fn malformed_record_ends_the_whole_run() {
    let mut source = tracks(2000);
    source[1500] = Err(SyncError::Decode("missing field `title`".to_string()));
    let mut musics = Service::new();
    let mut started = Vec::new();
    let (mut orchestrator, mut directive) = Orchestrator::start();
    let mut pending = Some(source);
    let status = loop {
        match directive {
            Directive::Run(kind) => {
                started.push(kind);
                assert_eq!(kind, Kind::Music);
                let run =
                    drive::<Music>(pending.take().unwrap(), 2000, &mut musics, music_key);
                assert_eq!(orchestrator.running(), Some(kind));
                let (next, following) = orchestrator.kind_ended(run.outcome);
                orchestrator = next;
                directive = following;
            }
            other => break other.exit_status(),
        }
    };
    assert_eq!(status, Some(1));
    assert_eq!(started, vec![Kind::Music]);
    assert_eq!(orchestrator.stage(), Stage::Aborted);
    assert_eq!(musics.sizes(), vec![1000]);
}

#[test]
fn rejected_first_write_leaves_the_index_empty() {
    let mut service = Service::new();
    service.refuse_write = Some(0);
    let run = drive::<Music>(tracks(2500), 2500, &mut service, music_key);
    assert_eq!(run.outcome, Err(SyncError::Write("refused".to_string())));
    assert_eq!(run.phase, Phase::Failed);
    assert!(service.documents.is_empty());
    assert!(service.writes.is_empty());
    assert!(run.notifications.is_empty());
    assert_eq!(run.consumed, 1000);
    assert_eq!(run.indexed, 0);
    assert_eq!(run.buffered, 0);
    assert_eq!(run.pulls, 1000);
}

#[test]
fn rejected_first_write_starts_no_other_kind() {
    let mut musics = Service::new();
    musics.refuse_write = Some(0);
    let mut started = Vec::new();
    let (mut orchestrator, mut directive) = Orchestrator::start();
    let status = loop {
        match directive {
            Directive::Run(kind) => {
                started.push(kind);
                assert_eq!(kind, Kind::Music);
                let run = drive::<Music>(tracks(1200), 1200, &mut musics, music_key);
                let (next, following) = orchestrator.kind_ended(run.outcome);
                orchestrator = next;
                directive = following;
            }
            other => break other.exit_status(),
        }
    };
    assert_eq!(status, Some(1));
    assert_eq!(started, vec![Kind::Music]);
    assert!(musics.documents.is_empty());
}

#[test]
fn rejected_later_write_keeps_the_earlier_batches() {
    let mut service = Service::new();
    service.refuse_write = Some(2);
    let run = drive::<Music>(tracks(2500), 2500, &mut service, music_key);
    assert_eq!(run.outcome, Err(SyncError::Write("refused".to_string())));
    assert_eq!(service.sizes(), vec![1000, 1000]);
    assert_eq!(run.indexed, 2000);
    assert_eq!(run.notifications.last().unwrap(), "2000/2500");
}

#[test]
fn failure_to_open_aborts_at_once() {
    let (pipeline, _) = Pipeline::<Album>::start();
    let failure = SyncError::Connection("no reachable servers".to_string());
    let (pipeline, step) = pipeline.step(Event::Failed(failure.clone()));
    assert_eq!(pipeline.phase(), Phase::Failed);
    assert_eq!(step.notification, None);
    match step.action {
        Action::Abort(error) => assert_eq!(error, failure),
        _ => panic!("the pipeline went on after a failure"),
    }
}

#[test]
fn lost_connection_while_streaming_aborts() {
    let mut source = tracks(10);
    source[4] = Err(SyncError::Connection("connection reset".to_string()));
    let mut service = Service::new();
    let run = drive::<Music>(source, 10, &mut service, music_key);
    assert_eq!(run.outcome, Err(SyncError::Connection("connection reset".to_string())));
    assert!(service.writes.is_empty());
    assert_eq!(run.buffered, 4);
}

#[test]
fn events_are_accepted_only_in_their_phase() {
    let opened: Event<Album> = Event::Opened { total: 1 };
    let record: Event<Album> = Event::Record(album(1));
    let exhausted: Event<Album> = Event::Exhausted;
    let written: Event<Album> = Event::Written;
    let failed: Event<Album> = Event::Failed(SyncError::Connection(String::new()));

    let (pipeline, _) = Pipeline::<Album>::start();
    assert!(pipeline.accepts(&opened));
    assert!(!pipeline.accepts(&record));
    assert!(!pipeline.accepts(&exhausted));
    assert!(!pipeline.accepts(&written));
    assert!(pipeline.accepts(&failed));

    let (pipeline, _) = pipeline.step(Event::Opened { total: 1 });
    assert!(!pipeline.accepts(&opened));
    assert!(pipeline.accepts(&record));
    assert!(pipeline.accepts(&exhausted));
    assert!(!pipeline.accepts(&written));
    assert!(pipeline.accepts(&failed));

    let (pipeline, _) = pipeline.step(Event::Record(album(1)));
    let (pipeline, _) = pipeline.step(Event::Exhausted);
    assert_eq!(pipeline.phase(), Phase::Drain);
    assert!(!pipeline.accepts(&opened));
    assert!(!pipeline.accepts(&record));
    assert!(!pipeline.accepts(&exhausted));
    assert!(pipeline.accepts(&written));
    assert!(pipeline.accepts(&failed));

    let (pipeline, _) = pipeline.step(Event::Written);
    assert_eq!(pipeline.phase(), Phase::Done);
    assert!(!pipeline.accepts(&opened));
    assert!(!pipeline.accepts(&record));
    assert!(!pipeline.accepts(&exhausted));
    assert!(!pipeline.accepts(&written));
    assert!(!pipeline.accepts(&failed));
}

#[test]
fn nothing_is_accepted_after_a_failure() {
    let (pipeline, _) = Pipeline::<Album>::start();
    let (pipeline, _) = pipeline.step(Event::Opened { total: 1 });
    let (pipeline, _) = pipeline.step(Event::Failed(SyncError::Decode(String::new())));
    assert_eq!(pipeline.phase(), Phase::Failed);
    assert!(!pipeline.accepts(&Event::Opened { total: 1 }));
    assert!(!pipeline.accepts(&Event::Record(album(1))));
    assert!(!pipeline.accepts(&Event::Exhausted));
    assert!(!pipeline.accepts(&Event::Written));
    assert!(!pipeline.accepts(&Event::Failed(SyncError::Write(String::new()))));
}

#[test]
fn second_run_leaves_the_index_unchanged() {
    let mut service = Service::new();
    let first = drive::<Music>(tracks(2500), 2500, &mut service, music_key);
    assert_eq!(first.outcome, Ok(()));
    let after_first = service.documents.clone();
    let second = drive::<Music>(tracks(2500), 2500, &mut service, music_key);
    assert_eq!(second.outcome, Ok(()));
    assert_eq!(service.documents, after_first);
    assert_eq!(service.documents.len(), 2500);
    assert_eq!(service.sizes(), vec![1000, 1000, 500, 1000, 1000, 500]);
}

#[test]
fn second_run_in_another_order_leaves_the_index_unchanged() {
    let mut service = Service::new();
    drive::<Music>(tracks(1500), 1500, &mut service, music_key);
    let after_first = service.documents.clone();
    let reversed: Vec<Item<Music>> = (0..1500).rev().map(|id| Ok(track(id))).collect();
    drive::<Music>(reversed, 1500, &mut service, music_key);
    assert_eq!(service.documents, after_first);
}

#[test]
fn run_replaces_documents_and_keeps_the_others() {
    let mut service = Service::new();
    let stale = AlbumMeilisearch { id: 1, name: "Old name".to_string(), cover: String::new() };
    let other = AlbumMeilisearch { id: 77, name: "Elsewhere".to_string(), cover: String::new() };
    service.documents.insert(1, stale);
    service.documents.insert(77, other.clone());
    let source: Vec<Item<Album>> = vec![Ok(album(1)), Ok(album(2))];
    let run = drive::<Album>(source, 2, &mut service, album_key);
    assert_eq!(run.outcome, Ok(()));
    assert_eq!(service.documents.len(), 3);
    assert_eq!(service.documents[&1], AlbumMeilisearch::from(album(1)));
    assert_eq!(service.documents[&2], AlbumMeilisearch::from(album(2)));
    assert_eq!(service.documents[&77], other);
}

#[test]
fn three_kinds_are_synchronised_in_order() {
    let mut musics = Service::new();
    let mut albums = Service::new();
    let mut artists = Service::new();
    let mut started = Vec::new();
    let mut lines = Vec::new();
    let (mut orchestrator, mut directive) = Orchestrator::start();
    let status = loop {
        match directive {
            Directive::Run(kind) => {
                started.push(kind);
                lines.push(kind.start_message().to_string());
                let run = match kind {
                    Kind::Music => drive::<Music>(tracks(1200), 1200, &mut musics, music_key),
                    Kind::Album => drive::<Album>(
                        (0..30).map(|id| Ok(album(id))).collect(),
                        30,
                        &mut albums,
                        album_key,
                    ),
                    Kind::Artist => drive::<Artist>(
                        (0..2000).map(|id| Ok(artist(id))).collect(),
                        2000,
                        &mut artists,
                        artist_key,
                    ),
                };
                lines.extend(run.notifications.iter().cloned());
                if run.outcome.is_ok() {
                    lines.push(kind.finish_message().to_string());
                }
                let (next, following) = orchestrator.kind_ended(run.outcome);
                orchestrator = next;
                directive = following;
            }
            other => break other.exit_status(),
        }
    };
    assert_eq!(status, Some(0));
    assert_eq!(started, vec![Kind::Music, Kind::Album, Kind::Artist]);
    assert_eq!(musics.sizes(), vec![1000, 200]);
    assert_eq!(albums.sizes(), vec![30]);
    assert_eq!(artists.sizes(), vec![1000, 1000]);
    assert_eq!(
        lines,
        vec![
            "Starting music sync",
            "1000/1200",
            "1200/1200",
            "Music sync finished",
            "Starting album sync",
            "30/30",
            "Album sync finished",
            "Starting artist sync",
            "1000/2000",
            "2000/2000",
            "Artist sync finished",
        ]
    );
}
