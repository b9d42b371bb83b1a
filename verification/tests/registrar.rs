use launch_agent::registrar::SERVICE_MANAGER;
use launch_agent::{
    plan, Effect, HostPath, LaunchConfig, LaunchDirs, Outcome, Plan, PlistFile, Registrar,
    RunError,
};

fn config() -> LaunchConfig {
    LaunchConfig {
        name: "backup".to_string(),
        program_path: HostPath::Text("/usr/local/bin/backup.sh".to_string()),
        start_interval: 3600,
        dirs: LaunchDirs {
            log_dir: HostPath::Text("/Users/ann/logs/backup".to_string()),
            plist_dir: HostPath::Text("/Users/ann/Library/LaunchAgents".to_string()),
        },
        args: Vec::new(),
        working_dir: "/Users/ann".to_string(),
    }
}

fn file() -> PlistFile {
    PlistFile { filepath: "/p/com.x.plist".to_string(), contents: "<plist/>".to_string() }
}

fn registrar() -> Registrar {
    Registrar::new("/h/logs/x".to_string(), "/p".to_string(), file())
}

fn create(path: &str) -> Option<Effect> {
    Some(Effect::CreateDir { path: path.to_string() })
}

fn write() -> Option<Effect> {
    Some(Effect::WriteFile { path: "/p/com.x.plist".to_string(), contents: "<plist/>".to_string() })
}

fn load() -> Option<Effect> {
    Some(Effect::Run {
        program: "launchctl".to_string(),
        args: vec!["load".to_string(), "-w".to_string(), "/p/com.x.plist".to_string()],
    })
}

fn refused(detail: &str) -> Outcome {
    Outcome::Refused { detail: detail.to_string() }
}

fn io_error(path: &str, detail: &str) -> Result<(), RunError> {
    Err(RunError::IoError { path: path.to_string(), detail: detail.to_string() })
}

#[test]
fn the_service_manager_is_launchctl() {
    assert_eq!(SERVICE_MANAGER, "launchctl");
}

#[test]
fn effects_come_in_order() {
    let mut registrar = registrar();
    assert_eq!(registrar.pending(), create("/h/logs/x"));
    assert_eq!(registrar.advance(Outcome::Done), Ok(()));
    assert_eq!(registrar.pending(), create("/p"));
    assert_eq!(registrar.advance(Outcome::Done), Ok(()));
    assert_eq!(registrar.pending(), write());
    assert_eq!(registrar.advance(Outcome::Done), Ok(()));
    assert_eq!(registrar.pending(), load());
    assert_eq!(registrar.advance(Outcome::Done), Ok(()));
    assert_eq!(registrar.pending(), None);
}

#[test]
fn pending_does_not_advance() {
    let registrar = registrar();
    assert_eq!(registrar.pending(), create("/h/logs/x"));
    assert_eq!(registrar.pending(), create("/h/logs/x"));
}

#[test]
fn answers_after_the_end_change_nothing() {
    let mut registrar = registrar();
    for _ in 0..4 {
        assert_eq!(registrar.advance(Outcome::Done), Ok(()));
    }
    assert_eq!(registrar.pending(), None);
    assert_eq!(registrar.advance(Outcome::Done), Ok(()));
    assert_eq!(registrar.advance(refused("late")), Ok(()));
    assert_eq!(registrar.advance(Outcome::Failed), Ok(()));
    assert_eq!(registrar.pending(), None);
}

#[test]
fn a_refused_log_dir_ends_the_registration() {
    let mut registrar = registrar();
    assert_eq!(registrar.advance(refused("permission denied")), io_error("/h/logs/x", "permission denied"));
    assert_eq!(registrar.pending(), None);
}

#[test]
fn a_refused_plist_dir_ends_the_registration() {
    let mut registrar = registrar();
    assert_eq!(registrar.advance(Outcome::Done), Ok(()));
    assert_eq!(registrar.advance(refused("read-only")), io_error("/p", "read-only"));
    assert_eq!(registrar.pending(), None);
}

#[test]
fn a_refused_write_ends_the_registration() {
    let mut registrar = registrar();
    assert_eq!(registrar.advance(Outcome::Done), Ok(()));
    assert_eq!(registrar.advance(Outcome::Done), Ok(()));
    assert_eq!(registrar.advance(refused("disk full")), io_error("/p/com.x.plist", "disk full"));
    assert_eq!(registrar.pending(), None);
}

#[test]
fn a_service_manager_that_cannot_start_is_an_io_error() {
    let mut registrar = registrar();
    for _ in 0..3 {
        assert_eq!(registrar.advance(Outcome::Done), Ok(()));
    }
    assert_eq!(registrar.advance(refused("not found")), io_error("launchctl", "not found"));
    assert_eq!(registrar.pending(), None);
}

#[test]
fn a_service_manager_that_fails_is_a_failed_registration() {
    let mut registrar = registrar();
    for _ in 0..3 {
        assert_eq!(registrar.advance(Outcome::Done), Ok(()));
    }
    assert_eq!(registrar.advance(Outcome::Failed), Err(RunError::RegistrationFailed));
    assert_eq!(registrar.pending(), None);
    assert_eq!(registrar.advance(Outcome::Done), Ok(()));
    assert_eq!(registrar.pending(), None);
}

#[test]
fn a_dry_run_holds_the_descriptor_and_nothing_to_do() {
    let config = config();
    match plan(&config, true) {
        Ok(Plan::DryRun(file)) => {
            assert_eq!(file, PlistFile::from(&config).unwrap());
            assert_eq!(file.filepath, "/Users/ann/Library/LaunchAgents/com.backup.plist");
        }
        other => panic!("unexpected: {:?}", other),
    }
}

#[test]
fn a_run_registers() {
    let config = config();
    let expected = PlistFile::from(&config).unwrap();
    let mut registrar = match plan(&config, false) {
        Ok(Plan::Register(registrar)) => registrar,
        other => panic!("unexpected: {:?}", other),
    };
    let mut effects: Vec<Effect> = Vec::new();
    while let Some(effect) = registrar.pending() {
        effects.push(effect);
        assert_eq!(registrar.advance(Outcome::Done), Ok(()));
    }
    assert_eq!(
        effects,
        vec![
            Effect::CreateDir { path: "/Users/ann/logs/backup".to_string() },
            Effect::CreateDir { path: "/Users/ann/Library/LaunchAgents".to_string() },
            Effect::WriteFile {
                path: expected.filepath.clone(),
                contents: expected.contents.clone()
            },
            Effect::Run {
                program: "launchctl".to_string(),
                args: vec!["load".to_string(), "-w".to_string(), expected.filepath.clone()],
            },
        ]
    );
}

#[test]
fn no_plan_without_a_descriptor() {
    let mut config = config();
    config.program_path = HostPath::Opaque;
    assert_eq!(plan(&config, false), Err(RunError::RenderError));
    assert_eq!(plan(&config, true), Err(RunError::RenderError));
    let mut config = self::config();
    config.dirs.plist_dir = HostPath::Opaque;
    assert_eq!(plan(&config, false), Err(RunError::InvalidFilepath));
    assert_eq!(plan(&config, true), Err(RunError::InvalidFilepath));
}
