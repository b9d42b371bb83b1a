//! From the command line and the host's answers to the agent's
//! configuration: which program, under which name, how often, and where
//! its files go.

use crate::error::{RunError, RunErrorView};
use crate::path::{file_stem, file_stem_of, joined, HostPath};
use crate::period::Period;
use crate::text::{split_words, words};
use vstd::prelude::*;
use vstd::string::*;

verus! {

/// The command line, parsed.
#[derive(Debug, Clone, PartialEq, Eq)]
pub struct Cli {
    /// How often the program runs.
    pub period: Period,
    /// The program: a path, or a name to look for on the search path.
    pub program: String,
    /// Show the descriptor and change nothing.
    pub dry_run: bool,
    /// The agent's name, where the program's own name will not do.
    pub name: Option<String>,
    /// Arguments for the program, separated by whitespace.
    pub args: Option<String>,
    /// Where the program runs, where that is not the current directory.
    pub working_dir: Option<String>,
}

/// Where a lookup found the program.
#[derive(Debug, Clone, PartialEq, Eq)]
pub enum ProgramPath {
    /// The program's path, which is text.
    Text(String),
    /// A path that cannot be decoded as text. Of such a path the host still
    /// knows the stem of the name that it ends in; `stem` is that stem,
    /// where there is one and it is text.
    Opaque { stem: Option<String> },
}

impl ProgramPath {
    /// The path's text, where it has one.
    pub open spec fn text(self) -> Option<Seq<char>> {
        match self {
            ProgramPath::Text(text) => Some(text@),
            ProgramPath::Opaque { .. } => None,
        }
    }

    /// The name that the path ends in, without its extension, where it ends
    /// in a name and that name is text.
    pub open spec fn stem(self) -> Option<Seq<char>> {
        match self {
            ProgramPath::Text(text) => file_stem(text@),
            ProgramPath::Opaque { stem } => stem.deep_view(),
        }
    }

    /// The name that the path ends in, without its extension.
    pub fn file_stem(&self) -> (stem: Option<String>)
        ensures
            stem.deep_view() == self.stem(),
    {
        match self {
            ProgramPath::Text(text) => file_stem_of(text.as_str()),
            ProgramPath::Opaque { stem } => match stem {
                Some(s) => Some(s.clone()),
                None => None,
            },
        }
    }

    /// The path itself, without what is known of its name.
    pub fn path(&self) -> (path: HostPath)
        ensures
            path@ == self.text(),
    {
        match self {
            ProgramPath::Text(text) => HostPath::Text(text.clone()),
            ProgramPath::Opaque { .. } => HostPath::Opaque,
        }
    }
}

/// What the host answered when it was asked about the program and the user.
/// Each field is `None` where the host had no answer.
#[derive(Debug, Clone, PartialEq, Eq)]
pub struct Environment {
    /// The program taken as a path to a file, in canonical form.
    pub canonical: Option<ProgramPath>,
    /// The program taken as a name and found on the search path. It is read
    /// only where `canonical` is `None`.
    pub searched: Option<ProgramPath>,
    /// The user's home directory.
    pub home: Option<HostPath>,
    /// The current directory. It is read only where the command line names
    /// no working directory.
    pub current_dir: Option<HostPath>,
}

/// The directory for the agent's logs: `<home>/logs/<name>`.
pub open spec fn log_dir_of(home: Seq<char>, name: Seq<char>) -> Seq<char> {
    joined(joined(home, "logs"@), name)
}

/// The directory that the service manager reads descriptors from:
/// `<home>/Library/LaunchAgents`.
pub open spec fn plist_dir_of(home: Seq<char>) -> Seq<char> {
    joined(joined(home, "Library"@), "LaunchAgents"@)
}

/// The descriptor's file name: `com.<name>.plist`.
pub open spec fn plist_name_of(name: Seq<char>) -> Seq<char> {
    "com."@ + name + ".plist"@
}

/// The directories of one agent.
#[derive(Debug, Clone, PartialEq, Eq)]
pub struct LaunchDirs {
    pub log_dir: HostPath,
    pub plist_dir: HostPath,
}

/// `LaunchDirs` with its paths as text, `None` for a path that has none.
pub struct LaunchDirsView {
    pub log_dir: Option<Seq<char>>,
    pub plist_dir: Option<Seq<char>>,
}

impl View for LaunchDirs {
    type V = LaunchDirsView;

    open spec fn view(&self) -> LaunchDirsView {
        LaunchDirsView { log_dir: self.log_dir@, plist_dir: self.plist_dir@ }
    }
}

/// The directories of the agent `name` for a user whose home directory has
/// the text `home`, or has none.
pub open spec fn launch_dirs(name: Seq<char>, home: Option<Seq<char>>) -> LaunchDirsView {
    match home {
        Some(h) => LaunchDirsView {
            log_dir: Some(log_dir_of(h, name)),
            plist_dir: Some(plist_dir_of(h)),
        },
        None => LaunchDirsView { log_dir: None, plist_dir: None },
    }
}

/// Where an agent's files go follows from its name and the home directory
/// alone: the logs to `<home>/logs/<name>`, the descriptor into
/// `<home>/Library/LaunchAgents`, as `com.<name>.plist`.
pub proof fn law_derived_paths(name: Seq<char>, home: Seq<char>)
    requires
        name.len() > 0,
    ensures
        launch_dirs(name, Some(home)).log_dir == Some(home + "/logs/"@ + name),
        launch_dirs(name, Some(home)).plist_dir == Some(home + "/Library/LaunchAgents"@),
        joined(plist_dir_of(home), plist_name_of(name)) == home
            + "/Library/LaunchAgents/com."@ + name + ".plist"@,
{
    reveal_strlit("logs");
    reveal_strlit("/logs/");
    reveal_strlit("Library");
    reveal_strlit("LaunchAgents");
    reveal_strlit("/Library/LaunchAgents");
    reveal_strlit("com.");
    reveal_strlit("/Library/LaunchAgents/com.");
    assert(joined(plist_dir_of(home), plist_name_of(name)) =~= home
        + "/Library/LaunchAgents/com."@ + name + ".plist"@);
}

impl LaunchDirs {
    /// The directories of the agent `name` below `home`. Nothing is created.
    ///
    /// Without a home directory there is no place for them.
    pub fn from(name: &str, home: Option<&HostPath>) -> (dirs: Result<LaunchDirs, RunError>)
        ensures
            match dirs {
                Ok(d) => home matches Some(h) && d@ == launch_dirs(name@, h@),
                Err(e) => home is None && e@ == RunErrorView::NoHomeDir,
            },
    {
        match home {
            Some(home) => Ok(
                LaunchDirs {
                    log_dir: home.join("logs").join(name),
                    plist_dir: home.join("Library").join("LaunchAgents"),
                },
            ),
            None => Err(RunError::NoHomeDir),
        }
    }
}

/// Everything that registering the agent needs to know.
#[derive(Debug, Clone, PartialEq, Eq)]
pub struct LaunchConfig {
    /// The agent's name.
    pub name: String,
    /// The program to run.
    pub program_path: HostPath,
    /// The seconds between two runs.
    pub start_interval: u64,
    /// Where the agent's files go.
    pub dirs: LaunchDirs,
    /// The program's arguments, in order.
    pub args: Vec<String>,
    /// Where the program runs.
    pub working_dir: String,
}

/// `LaunchConfig` with its strings as sequences of characters.
pub struct LaunchConfigView {
    pub name: Seq<char>,
    pub program_path: Option<Seq<char>>,
    pub start_interval: u64,
    pub dirs: LaunchDirsView,
    pub args: Seq<Seq<char>>,
    pub working_dir: Seq<char>,
}

impl View for LaunchConfig {
    type V = LaunchConfigView;

    open spec fn view(&self) -> LaunchConfigView {
        LaunchConfigView {
            name: self.name@,
            program_path: self.program_path@,
            start_interval: self.start_interval,
            dirs: self.dirs@,
            args: self.args.deep_view(),
            working_dir: self.working_dir@,
        }
    }
}

/// Where the program is: the file that it names wins, the search path comes
/// second.
pub open spec fn resolved(env: Environment) -> Option<ProgramPath> {
    match env.canonical {
        Some(path) => Some(path),
        None => env.searched,
    }
}

/// The agent's name: the one that was asked for, else the stem of the
/// program's file name.
pub open spec fn service_name(asked: Option<String>, program: ProgramPath) -> Option<Seq<char>> {
    match asked {
        Some(name) => Some(name@),
        None => program.stem(),
    }
}

/// The program's arguments: the words of what was given.
pub open spec fn program_args(given: Option<String>) -> Seq<Seq<char>> {
    match given {
        Some(text) => words(text@),
        None => Seq::empty(),
    }
}

/// Where the program runs: where the command line says, else in the current
/// directory, which must then be known and be text.
pub open spec fn working_dir_of(asked: Option<String>, current: Option<HostPath>) -> Result<
    Seq<char>,
    RunErrorView,
> {
    match asked {
        Some(dir) => Ok(dir@),
        None => match current {
            None => Err(RunErrorView::CurrentDirUnavailable),
            Some(HostPath::Opaque) => Err(RunErrorView::InvalidFilepath),
            Some(HostPath::Text(dir)) => Ok(dir@),
        },
    }
}

/// The configuration that a command line and the host's answers lead to,
/// or the first thing that stands in its way.
pub open spec fn launch_config(args: Cli, env: Environment) -> Result<
    LaunchConfigView,
    RunErrorView,
> {
    match resolved(env) {
        None => Err(RunErrorView::ProgramNotFound),
        Some(program) => match service_name(args.name, program) {
            None => Err(RunErrorView::InvalidFilepath),
            Some(name) => match env.home {
                None => Err(RunErrorView::NoHomeDir),
                Some(home) => match working_dir_of(args.working_dir, env.current_dir) {
                    Err(e) => Err(e),
                    Ok(working_dir) => Ok(
                        LaunchConfigView {
                            name,
                            program_path: program.text(),
                            start_interval: args.period.seconds() as u64,
                            dirs: launch_dirs(name, home@),
                            args: program_args(args.args),
                            working_dir,
                        },
                    ),
                },
            },
        },
    }
}

impl LaunchConfig {
    /// Puts the configuration together.
    ///
    /// The checks come in this order, and the first that fails decides the
    /// error: the program must be found, the agent must have a name, the
    /// user a home directory, and the program a directory to run in.
    pub fn from_cli(args: &Cli, env: &Environment) -> (config: Result<LaunchConfig, RunError>)
        requires
            args.period.seconds() <= u64::MAX,
        ensures
            match config {
                Ok(c) => launch_config(*args, *env) == Ok::<LaunchConfigView, RunErrorView>(c@),
                Err(e) => launch_config(*args, *env) == Err::<LaunchConfigView, RunErrorView>(
                    e@,
                ),
            },
    {
        let program: &ProgramPath = match &env.canonical {
            Some(path) => path,
            None => match &env.searched {
                Some(path) => path,
                None => {
                    return Err(RunError::ProgramNotFound);
                },
            },
        };
        let name: String = match &args.name {
            Some(name) => name.clone(),
            None => match program.file_stem() {
                Some(stem) => stem,
                None => {
                    return Err(RunError::InvalidFilepath);
                },
            },
        };
        let start_interval: u64 = args.period.to_seconds();
        let dirs = match LaunchDirs::from(name.as_str(), env.home.as_ref()) {
            Ok(dirs) => dirs,
            Err(e) => {
                return Err(e);
            },
        };
        let arguments: Vec<String> = match &args.args {
            Some(text) => split_words(text.as_str()),
            None => Vec::new(),
        };
        let working_dir: String = match &args.working_dir {
            Some(dir) => dir.clone(),
            None => match &env.current_dir {
                None => {
                    return Err(RunError::CurrentDirUnavailable);
                },
                Some(HostPath::Opaque) => {
                    return Err(RunError::InvalidFilepath);
                },
                Some(HostPath::Text(dir)) => dir.clone(),
            },
        };
        assert(arguments.deep_view() =~= program_args(args.args));
        Ok(
            LaunchConfig {
                name,
                program_path: program.path(),
                start_interval,
                dirs,
                args: arguments,
                working_dir,
            },
        )
    }

    /// The path of the file `filename` in the agent's log directory.
    pub fn log_path(&self, filename: &str) -> (path: Result<String, RunError>)
        ensures
            match path {
                Ok(p) => self.dirs.log_dir@ matches Some(dir) && p@ == joined(dir, filename@),
                Err(e) => self.dirs.log_dir@ is None && e@ == RunErrorView::InvalidFilepath,
            },
    {
        match self.dirs.log_dir.join(filename).to_text() {
            Some(path) => Ok(path),
            None => Err(RunError::InvalidFilepath),
        }
    }

    /// The path of the agent's descriptor: `com.<name>.plist` in the
    /// descriptor directory.
    pub fn plist_filepath(&self) -> (path: HostPath)
        ensures
            path@ == match self.dirs.plist_dir@ {
                Some(dir) => Some(joined(dir, plist_name_of(self.name@))),
                None => None,
            },
    {
        let mut filename: String = "com.".to_owned();
        filename.append(self.name.as_str());
        filename.append(".plist");
        self.dirs.plist_dir.join(filename.as_str())
    }
}

} // verus!
