use bulk_import::algorithm::HashAlgorithm;
use bulk_import::catalog::{ImportCall, RunOptions, System};
use bulk_import::config::ConfigurationError;
use bulk_import::orchestrator::{Action, Event, Orchestrator, Phase, RunError};
use std::path::PathBuf;

/// A header as a catalog might hold it: the bytes to skip at a file's start.
#[derive(Clone, Debug, PartialEq, Eq)]
struct Header {
    skip: u64,
}

type Failure = String;

/// What the collaborators were asked to do, in order.
#[derive(Debug, PartialEq, Eq)]
enum Call {
    Setting,
    Systems,
    Header(i64),
    Notice(String),
    Import(ImportCall<Header>, Vec<PathBuf>),
}

/// Scripted collaborators: what the stores hold and which imports fail.
struct World {
    setting: Result<Option<String>, Failure>,
    systems: Result<Vec<System>, Failure>,
    headers: Vec<(i64, Result<Option<Header>, Failure>)>,
    failing: Vec<(i64, Failure)>,
}

fn system(id: i64, name: &str) -> System {
    System { id, name: String::from(name) }
}

fn three_systems() -> Vec<System> {
    vec![system(1, "S1"), system(2, "S2"), system(3, "S3")]
}

fn paths() -> Vec<PathBuf> {
    vec![PathBuf::from("roms/a.zip"), PathBuf::from("roms/more")]
}

fn world(systems: Vec<System>) -> World {
    World { setting: Ok(None), systems: Ok(systems), headers: vec![], failing: vec![] }
}

fn call(s: System, header: Option<Header>, algorithm: HashAlgorithm, no_trash: bool) -> Call {
    Call::Import(ImportCall { system: s, header, algorithm, no_trash }, paths())
}

/// Runs the loop that a driver runs: performs each action against `world`
/// and hands the answer back, until the run finishes.
fn drive(
    world: &World,
    explicit: Option<&str>,
    no_trash: bool,
) -> (Vec<Call>, Result<(), RunError<Failure>>) {
    let mut log = Vec::new();
    let (mut run, mut action) = Orchestrator::<Header, Failure>::begin(paths(), explicit, no_trash);
    for _ in 0..1000 {
        let event = match action {
            Action::LookupSetting => {
                log.push(Call::Setting);
                Event::Setting(world.setting.clone())
            }
            Action::ListSystems => {
                log.push(Call::Systems);
                Event::Systems(world.systems.clone())
            }
            Action::FetchHeader(s) => {
                log.push(Call::Header(s.id));
                let found = world.headers.iter().find(|(id, _)| *id == s.id);
                Event::Header(match found {
                    Some((_, answer)) => answer.clone(),
                    None => Ok(None),
                })
            }
            Action::Notify(s) => {
                log.push(Call::Notice(s.name.clone()));
                Event::Notified
            }
            Action::Import(arguments) => {
                let id = arguments.system.id;
                log.push(Call::Import(arguments, run.paths().clone()));
                Event::Imported(match world.failing.iter().find(|(failing, _)| *failing == id) {
                    Some((_, error)) => Err(error.clone()),
                    None => Ok(()),
                })
            }
            Action::Finish(result) => return (log, result),
        };
        action = run.step(event);
    }
    panic!("the run did not finish");
}

#[test]
fn all_three_systems_are_imported_in_order() {
    let world = world(three_systems());
    let (log, result) = drive(&world, Some("CRC"), false);
    assert_eq!(result, Ok(()));
    assert_eq!(
        log,
        vec![
            Call::Systems,
            Call::Header(1),
            Call::Notice(String::from("S1")),
            call(system(1, "S1"), None, HashAlgorithm::Crc, false),
            Call::Header(2),
            Call::Notice(String::from("S2")),
            call(system(2, "S2"), None, HashAlgorithm::Crc, false),
            Call::Header(3),
            Call::Notice(String::from("S3")),
            call(system(3, "S3"), None, HashAlgorithm::Crc, false),
        ]
    );
}

#[test]
fn three_imports_and_three_notices() {
    let world = world(three_systems());
    let (log, _) = drive(&world, Some("MD5"), true);
    let imports: Vec<i64> = log
        .iter()
        .filter_map(|c| match c {
            Call::Import(arguments, _) => Some(arguments.system.id),
            _ => None,
        })
        .collect();
    let notices: Vec<&str> = log
        .iter()
        .filter_map(|c| match c {
            Call::Notice(name) => Some(name.as_str()),
            _ => None,
        })
        .collect();
    assert_eq!(imports, vec![1, 2, 3]);
    assert_eq!(notices, vec!["S1", "S2", "S3"]);
}

#[test]
fn failure_on_the_second_system_stops_the_run() {
    let mut world = world(three_systems());
    world.failing = vec![(2, String::from("S2 is broken"))];
    let (log, result) = drive(&world, Some("CRC"), false);
    assert_eq!(result, Err(RunError::Import(String::from("S2 is broken"))));
    assert_eq!(
        log,
        vec![
            Call::Systems,
            Call::Header(1),
            Call::Notice(String::from("S1")),
            call(system(1, "S1"), None, HashAlgorithm::Crc, false),
            Call::Header(2),
            Call::Notice(String::from("S2")),
            call(system(2, "S2"), None, HashAlgorithm::Crc, false),
        ]
    );
}

#[test]
fn failure_on_the_first_system_leaves_the_rest_untouched() {
    let mut world = world(three_systems());
    world.failing = vec![(1, String::from("first")), (3, String::from("third"))];
    let (log, result) = drive(&world, Some("CRC"), false);
    assert_eq!(result, Err(RunError::Import(String::from("first"))));
    assert_eq!(log.len(), 4);
    assert!(!log.contains(&Call::Header(2)));
    assert!(!log.contains(&Call::Header(3)));
}

#[test]
fn failure_on_the_last_system_is_returned() {
    let mut world = world(three_systems());
    world.failing = vec![(3, String::from("third"))];
    let (log, result) = drive(&world, Some("CRC"), false);
    assert_eq!(result, Err(RunError::Import(String::from("third"))));
    assert_eq!(log.len(), 10);
}

#[test]
fn absent_header_is_no_error() {
    let mut world = world(vec![system(5, "Only")]);
    world.headers = vec![(5, Ok(None))];
    let (log, result) = drive(&world, Some("MD5"), false);
    assert_eq!(result, Ok(()));
    assert_eq!(
        log,
        vec![
            Call::Systems,
            Call::Header(5),
            Call::Notice(String::from("Only")),
            call(system(5, "Only"), None, HashAlgorithm::Md5, false),
        ]
    );
}

#[test]
fn each_system_gets_its_own_header() {
    let mut world = world(three_systems());
    world.headers = vec![(1, Ok(Some(Header { skip: 16 }))), (3, Ok(Some(Header { skip: 512 })))];
    let (log, result) = drive(&world, Some("CRC"), true);
    assert_eq!(result, Ok(()));
    assert_eq!(log[3], call(system(1, "S1"), Some(Header { skip: 16 }), HashAlgorithm::Crc, true));
    assert_eq!(log[6], call(system(2, "S2"), None, HashAlgorithm::Crc, true));
    assert_eq!(log[9], call(system(3, "S3"), Some(Header { skip: 512 }), HashAlgorithm::Crc, true));
}

#[test]
fn two_runs_make_the_same_calls() {
    let mut world = world(three_systems());
    world.setting = Ok(Some(String::from("MD5")));
    world.headers = vec![(2, Ok(Some(Header { skip: 4 })))];
    let first = drive(&world, None, true);
    let second = drive(&world, None, true);
    assert_eq!(first.1, Ok(()));
    assert_eq!(first, second);
}

#[test]
fn valid_override_never_reads_the_setting() {
    let mut world = world(three_systems());
    world.setting = Err(String::from("the settings cannot be read"));
    let (log, result) = drive(&world, Some("MD5"), false);
    assert_eq!(result, Ok(()));
    assert!(!log.contains(&Call::Setting));
    assert_eq!(log[3], call(system(1, "S1"), None, HashAlgorithm::Md5, false));
}

#[test]
fn valid_override_beats_a_different_persisted_value() {
    let mut world = world(vec![system(1, "S1")]);
    world.setting = Ok(Some(String::from("MD5")));
    let (log, result) = drive(&world, Some("CRC"), false);
    assert_eq!(result, Ok(()));
    assert_eq!(log[3], call(system(1, "S1"), None, HashAlgorithm::Crc, false));
}

#[test]
fn persisted_setting_is_used_without_an_override() {
    let mut world = world(vec![system(1, "S1")]);
    world.setting = Ok(Some(String::from("CRC")));
    let (log, result) = drive(&world, None, false);
    assert_eq!(result, Ok(()));
    assert_eq!(
        log,
        vec![
            Call::Setting,
            Call::Systems,
            Call::Header(1),
            Call::Notice(String::from("S1")),
            call(system(1, "S1"), None, HashAlgorithm::Crc, false),
        ]
    );
}

#[test]
fn unrecognized_override_falls_back_to_the_setting() {
    let mut world = world(vec![system(1, "S1")]);
    world.setting = Ok(Some(String::from("MD5")));
    let (log, result) = drive(&world, Some("SHA1"), false);
    assert_eq!(result, Ok(()));
    assert_eq!(log[0], Call::Setting);
    assert_eq!(log[4], call(system(1, "S1"), None, HashAlgorithm::Md5, false));
}

#[test]
fn unresolved_algorithm_touches_neither_catalog_nor_engine() {
    for setting in [None, Some(String::from("")), Some(String::from("sha256"))] {
        for explicit in [None, Some("crc"), Some("")] {
            let mut world = world(three_systems());
            world.setting = Ok(setting.clone());
            let (log, result) = drive(&world, explicit, false);
            assert_eq!(result, Err(RunError::Configuration(ConfigurationError)));
            assert_eq!(log, vec![Call::Setting]);
        }
    }
}

#[test]
fn failed_setting_lookup_is_a_catalog_error() {
    let mut world = world(three_systems());
    world.setting = Err(String::from("locked"));
    let (log, result) = drive(&world, None, false);
    assert_eq!(result, Err(RunError::Catalog(String::from("locked"))));
    assert_eq!(log, vec![Call::Setting]);
}

#[test]
fn failed_enumeration_is_a_catalog_error() {
    let mut world = world(vec![]);
    world.systems = Err(String::from("no such table"));
    let (log, result) = drive(&world, Some("CRC"), false);
    assert_eq!(result, Err(RunError::Catalog(String::from("no such table"))));
    assert_eq!(log, vec![Call::Systems]);
}

#[test]
fn failed_header_lookup_stops_before_the_notice() {
    let mut world = world(three_systems());
    world.headers = vec![(2, Err(String::from("corrupt")))];
    let (log, result) = drive(&world, Some("CRC"), false);
    assert_eq!(result, Err(RunError::Catalog(String::from("corrupt"))));
    assert_eq!(log.len(), 5);
    assert_eq!(log[4], Call::Header(2));
}

#[test]
fn empty_catalog_ends_well_at_once() {
    let world = world(vec![]);
    let (log, result) = drive(&world, Some("CRC"), false);
    assert_eq!(result, Ok(()));
    assert_eq!(log, vec![Call::Systems]);
}

#[test]
fn no_trash_reaches_every_call() {
    for no_trash in [false, true] {
        let world = world(three_systems());
        let (log, _) = drive(&world, Some("CRC"), no_trash);
        for entry in &log {
            if let Call::Import(arguments, _) = entry {
                assert_eq!(arguments.no_trash, no_trash);
            }
        }
    }
}

#[test]
fn begin_with_a_valid_override_asks_for_the_systems() {
    let (run, action) = Orchestrator::<Header, Failure>::begin(paths(), Some("MD5"), true);
    assert_eq!(action, Action::ListSystems);
    assert_eq!(run.phase(), Phase::AwaitSystems);
    assert_eq!(run.algorithm(), Some(HashAlgorithm::Md5));
    assert_eq!(run.options(), RunOptions { no_trash: true });
    assert_eq!(run.paths(), &paths());
    assert_eq!(run.imported(), 0);
}

#[test]
fn begin_without_an_override_asks_for_the_setting() {
    let (run, action) = Orchestrator::<Header, Failure>::begin(vec![], None, false);
    assert_eq!(action, Action::LookupSetting);
    assert_eq!(run.phase(), Phase::AwaitSetting);
    assert_eq!(run.algorithm(), None);
    assert_eq!(run.options(), RunOptions { no_trash: false });
    assert!(run.paths().is_empty());
}

#[test]
fn phases_follow_the_visit() {
    let (mut run, _) = Orchestrator::<Header, Failure>::begin(paths(), Some("CRC"), false);
    let action = run.step(Event::Systems(Ok(vec![system(1, "S1"), system(2, "S2")])));
    assert_eq!(action, Action::FetchHeader(system(1, "S1")));
    assert_eq!(run.phase(), Phase::AwaitHeader);
    let action = run.step(Event::Header(Ok(Some(Header { skip: 8 }))));
    assert_eq!(action, Action::Notify(system(1, "S1")));
    assert_eq!(run.phase(), Phase::AwaitNotice);
    let action = run.step(Event::Notified);
    assert_eq!(
        action,
        Action::Import(ImportCall {
            system: system(1, "S1"),
            header: Some(Header { skip: 8 }),
            algorithm: HashAlgorithm::Crc,
            no_trash: false,
        })
    );
    assert_eq!(run.phase(), Phase::AwaitImport);
    assert_eq!(run.imported(), 0);
    let action = run.step(Event::Imported(Ok(())));
    assert_eq!(action, Action::FetchHeader(system(2, "S2")));
    assert_eq!(run.phase(), Phase::AwaitHeader);
    assert_eq!(run.imported(), 1);
    run.step(Event::Header(Ok(None)));
    run.step(Event::Notified);
    let action = run.step(Event::Imported(Ok(())));
    assert_eq!(action, Action::Finish(Ok(())));
    assert_eq!(run.phase(), Phase::Done);
    assert_eq!(run.imported(), 2);
    assert_eq!(run.paths(), &paths());
    assert_eq!(run.algorithm(), Some(HashAlgorithm::Crc));
}

#[test]
fn event_out_of_turn_ends_the_run() {
    let (mut run, _) = Orchestrator::<Header, Failure>::begin(paths(), Some("CRC"), false);
    let action = run.step(Event::Imported(Ok(())));
    assert_eq!(action, Action::Finish(Err(RunError::Protocol)));
    assert_eq!(run.phase(), Phase::Done);
}

#[test]
fn setting_offered_after_an_override_is_out_of_turn() {
    let (mut run, _) = Orchestrator::<Header, Failure>::begin(paths(), Some("CRC"), false);
    let action = run.step(Event::Setting(Ok(Some(String::from("MD5")))));
    assert_eq!(action, Action::Finish(Err(RunError::Protocol)));
    assert_eq!(run.algorithm(), Some(HashAlgorithm::Crc));
}

#[test]
fn finished_run_stays_finished() {
    let (mut run, _) = Orchestrator::<Header, Failure>::begin(paths(), Some("CRC"), false);
    assert_eq!(run.step(Event::Systems(Ok(vec![]))), Action::Finish(Ok(())));
    assert_eq!(
        run.step(Event::Systems(Ok(three_systems()))),
        Action::Finish(Err(RunError::Protocol))
    );
    assert_eq!(run.step(Event::Notified), Action::Finish(Err(RunError::Protocol)));
    assert_eq!(run.phase(), Phase::Done);
}
