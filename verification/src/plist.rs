//! The descriptor: a property list that tells the service manager what to
//! run, how often, and where its output goes.

use crate::config::{plist_name_of, LaunchConfig, LaunchConfigView};
use crate::error::{RunError, RunErrorView};
use crate::path::joined;
use crate::text::{decimal_digits, decimal_string};
use vstd::prelude::*;
use vstd::string::*;

verus! {

/// What stands in a document for the character `c`: an entity for each of
/// the seven characters that markup gives a meaning to, and `c` itself for
/// any other.
pub open spec fn escaped_char(c: char) -> Seq<char> {
    if c == '<' {
        seq!['&', 'l', 't', ';']
    } else if c == '>' {
        seq!['&', 'g', 't', ';']
    } else if c == '"' {
        seq!['&', 'q', 'u', 'o', 't', ';']
    } else if c == '&' {
        seq!['&', 'a', 'm', 'p', ';']
    } else if c == '\'' {
        seq!['&', '#', 'x', '2', '7', ';']
    } else if c == '`' {
        seq!['&', '#', 'x', '6', '0', ';']
    } else if c == '=' {
        seq!['&', '#', 'x', '3', 'D', ';']
    } else {
        seq![c]
    }
}

/// `text` with each of its characters escaped, in order.
pub open spec fn escaped(text: Seq<char>) -> Seq<char>
    decreases text.len(),
{
    if text.len() == 0 {
        Seq::empty()
    } else {
        escaped(text.drop_last()) + escaped_char(text.last())
    }
}

/// Whether `c` is one of the characters that begin or end a tag, an
/// attribute or its value.
pub open spec fn is_markup(c: char) -> bool {
    c == '<' || c == '>' || c == '"' || c == '\'' || c == '`' || c == '='
}

/// What has been escaped holds no character of markup, whatever the text
/// was: a value cannot end the element that it stands in.
pub proof fn law_escaped_has_no_markup(text: Seq<char>, i: int)
    requires
        0 <= i < escaped(text).len(),
    ensures
        !is_markup(escaped(text)[i]),
    decreases text.len(),
{
    if text.len() > 0 && i < escaped(text.drop_last()).len() {
        law_escaped_has_no_markup(text.drop_last(), i);
    }
}

/// Escapes `value` for use between tags.
///
/// This is `handlebars::html_escape`, the escape function that a template
/// registry starts with. It walks through the characters of its argument
/// and writes `&lt;` for `<`, `&gt;` for `>`, `&quot;` for `"`, `&amp;` for
/// `&`, `&#x27;` for `'`, `&#x60;` for a backtick, `&#x3D;` for `=`, and
/// any other character as it is. The contract says so and is not proved.
#[verifier::external_body]
fn escape_markup(value: &str) -> (text: String)
    ensures
        text@ == escaped(value@),
{
    handlebars::html_escape(value)
}

/// What a descriptor says.
pub struct PlistFields {
    /// The agent's label.
    pub label: Seq<char>,
    /// The program to run.
    pub program: Seq<char>,
    /// The program's arguments, in order.
    pub args: Seq<Seq<char>>,
    /// The seconds between two runs.
    pub interval: nat,
    /// The file that takes the program's standard output.
    pub stdout: Seq<char>,
    /// The file that takes the program's standard error.
    pub stderr: Seq<char>,
    /// The directory that the program runs in.
    pub working_dir: Seq<char>,
}

/// How every descriptor begins.
pub const PLIST_HEAD: &'static str =
    "<?xml version=\"1.0\" encoding=\"UTF-8\"?>\n<!DOCTYPE plist PUBLIC \"-//Apple//DTD PLIST 1.0//EN\"\n  \"http://www.apple.com/DTDs/PropertyList-1.0.dtd\">\n<plist version=\"1.0\">\n<dict>\n";

/// How every descriptor ends.
pub const PLIST_TAIL: &'static str = "</dict>\n</plist>";

/// The line that names the entry `key` of the dictionary.
pub open spec fn key_line(key: Seq<char>) -> Seq<char> {
    "    <key>"@ + key + "</key>\n"@
}

/// The element for the string `value`.
pub open spec fn string_element(value: Seq<char>) -> Seq<char> {
    "<string>"@ + escaped(value) + "</string>"@
}

/// The element for the number `n`.
pub open spec fn integer_element(n: nat) -> Seq<char> {
    "<integer>"@ + decimal_digits(n) + "</integer>"@
}

/// One element for each of `args`, in order, each on a line of its own.
pub open spec fn argument_lines(args: Seq<Seq<char>>) -> Seq<char>
    decreases args.len(),
{
    if args.len() == 0 {
        Seq::empty()
    } else {
        argument_lines(args.drop_last()) + "\n        "@ + string_element(args.last())
    }
}

/// The text of the descriptor that says `fields`.
pub open spec fn plist_text(fields: PlistFields) -> Seq<char> {
    PLIST_HEAD@
        + key_line("Label"@) + "    "@ + string_element(fields.label) + "\n"@
        + key_line("ProgramArguments"@) + "    <array>\n        "@
        + string_element(fields.program) + argument_lines(fields.args) + "\n    </array>\n"@
        + key_line("StartInterval"@) + "    "@ + integer_element(fields.interval) + "\n"@
        + key_line("StandardOutPath"@) + "    "@ + string_element(fields.stdout) + "\n"@
        + key_line("StandardErrorPath"@) + "    "@ + string_element(fields.stderr) + "\n"@
        + key_line("WorkingDirectory"@) + "    "@ + string_element(fields.working_dir) + "\n"@
        + PLIST_TAIL@
}

fn push_key_line(out: &mut String, key: &str)
    ensures
        final(out)@ == old(out)@ + key_line(key@),
{
    out.append("    <key>");
    out.append(key);
    out.append("</key>\n");
}

fn push_string_element(out: &mut String, value: &str)
    ensures
        final(out)@ == old(out)@ + string_element(value@),
{
    let text = escape_markup(value);
    out.append("<string>");
    out.append(text.as_str());
    out.append("</string>");
}

fn push_argument_lines(out: &mut String, args: &Vec<String>)
    ensures
        final(out)@ == old(out)@ + argument_lines(args.deep_view()),
{
    let ghost all = args.deep_view();
    let mut i: usize = 0;
    while i < args.len()
        invariant
            i <= args.len(),
            all == args.deep_view(),
            out@ == old(out)@ + argument_lines(all.take(i as int)),
        decreases args.len() - i,
    {
        assert(all.take(i + 1).drop_last() =~= all.take(i as int));
        out.append("\n        ");
        push_string_element(out, args[i].as_str());
        i += 1;
    }
    assert(all.take(i as int) =~= all);
}

/// Writes out the descriptor of an agent.
///
/// The text depends on the arguments and on nothing else: the same values
/// give the same document, character for character.
pub fn render_plist(
    label: &str,
    program: &str,
    args: &Vec<String>,
    interval: u64,
    stdout: &str,
    stderr: &str,
    working_dir: &str,
) -> (text: String)
    ensures
        text@ == plist_text(
            PlistFields {
                label: label@,
                program: program@,
                args: args.deep_view(),
                interval: interval as nat,
                stdout: stdout@,
                stderr: stderr@,
                working_dir: working_dir@,
            },
        ),
{
    let mut out: String = PLIST_HEAD.to_owned();
    push_key_line(&mut out, "Label");
    out.append("    ");
    push_string_element(&mut out, label);
    out.append("\n");
    push_key_line(&mut out, "ProgramArguments");
    out.append("    <array>\n        ");
    push_string_element(&mut out, program);
    push_argument_lines(&mut out, args);
    out.append("\n    </array>\n");
    push_key_line(&mut out, "StartInterval");
    out.append("    ");
    out.append("<integer>");
    out.append(decimal_string(interval).as_str());
    out.append("</integer>");
    out.append("\n");
    push_key_line(&mut out, "StandardOutPath");
    out.append("    ");
    push_string_element(&mut out, stdout);
    out.append("\n");
    push_key_line(&mut out, "StandardErrorPath");
    out.append("    ");
    push_string_element(&mut out, stderr);
    out.append("\n");
    push_key_line(&mut out, "WorkingDirectory");
    out.append("    ");
    push_string_element(&mut out, working_dir);
    out.append("\n");
    out.append(PLIST_TAIL);
    out
}

/// What the descriptor of a configuration says, or `None` where the path of
/// the program or of the log directory cannot be written down.
pub open spec fn plist_fields(config: LaunchConfigView) -> Option<PlistFields> {
    match (config.program_path, config.dirs.log_dir) {
        (Some(program), Some(log_dir)) => Some(
            PlistFields {
                label: config.name,
                program,
                args: config.args,
                interval: config.start_interval as nat,
                stdout: joined(log_dir, "stdout"@),
                stderr: joined(log_dir, "stderr"@),
                working_dir: config.working_dir,
            },
        ),
        _ => None,
    }
}

/// Rendering is a function of what the configuration holds: two
/// configurations with the same values have the same descriptor, character
/// for character, or none at all.
pub proof fn law_same_config_same_text(first: LaunchConfig, second: LaunchConfig)
    requires
        first@ == second@,
    ensures
        plist_fields(first@) is Some <==> plist_fields(second@) is Some,
        plist_fields(first@) is Some ==> plist_text(plist_fields(first@)->0) == plist_text(
            plist_fields(second@)->0,
        ),
        plist_file(first@) == plist_file(second@),
{
}

impl LaunchConfig {
    /// The text of the agent's descriptor.
    ///
    /// The label is the agent's name. The program's output goes to the
    /// files `stdout` and `stderr` in the log directory.
    pub fn plist_contents(&self) -> (contents: Result<String, RunError>)
        ensures
            match contents {
                Ok(text) => plist_fields(self@) matches Some(fields) && text@ == plist_text(
                    fields,
                ),
                Err(e) => plist_fields(self@) is None && e@ == RunErrorView::RenderError,
            },
    {
        let program = match self.program_path.to_text() {
            Some(text) => text,
            None => {
                return Err(RunError::RenderError);
            },
        };
        let stdout = match self.log_path("stdout") {
            Ok(path) => path,
            Err(_) => {
                return Err(RunError::RenderError);
            },
        };
        let stderr = match self.log_path("stderr") {
            Ok(path) => path,
            Err(_) => {
                return Err(RunError::RenderError);
            },
        };
        Ok(
            render_plist(
                self.name.as_str(),
                program.as_str(),
                &self.args,
                self.start_interval,
                stdout.as_str(),
                stderr.as_str(),
                self.working_dir.as_str(),
            ),
        )
    }
}

/// A descriptor that is ready to be written: where it goes and what it
/// says.
#[derive(Debug, Clone, PartialEq, Eq)]
pub struct PlistFile {
    pub filepath: String,
    pub contents: String,
}

/// `PlistFile` with its strings as sequences of characters.
pub struct PlistFileView {
    pub filepath: Seq<char>,
    pub contents: Seq<char>,
}

impl View for PlistFile {
    type V = PlistFileView;

    open spec fn view(&self) -> PlistFileView {
        PlistFileView { filepath: self.filepath@, contents: self.contents@ }
    }
}

/// The descriptor file of a configuration, or what stands in its way: a
/// text that cannot be rendered, or a descriptor directory whose path
/// cannot be written down.
pub open spec fn plist_file(config: LaunchConfigView) -> Result<PlistFileView, RunErrorView> {
    match plist_fields(config) {
        None => Err(RunErrorView::RenderError),
        Some(fields) => match config.dirs.plist_dir {
            None => Err(RunErrorView::InvalidFilepath),
            Some(dir) => Ok(
                PlistFileView {
                    filepath: joined(dir, plist_name_of(config.name)),
                    contents: plist_text(fields),
                },
            ),
        },
    }
}

impl PlistFile {
    /// The descriptor file of a configuration. Nothing is written.
    pub fn from(config: &LaunchConfig) -> (file: Result<PlistFile, RunError>)
        ensures
            match file {
                Ok(f) => plist_file(config@) == Ok::<PlistFileView, RunErrorView>(f@),
                Err(e) => plist_file(config@) == Err::<PlistFileView, RunErrorView>(e@),
            },
    {
        let contents = match config.plist_contents() {
            Ok(text) => text,
            Err(e) => {
                return Err(e);
            },
        };
        match config.plist_filepath().to_text() {
            Some(filepath) => Ok(PlistFile { filepath, contents }),
            None => Err(RunError::InvalidFilepath),
        }
    }

    /// The file for a reader: its path, a colon, and below that its
    /// contents.
    pub fn to_string(&self) -> (shown: String)
        ensures
            shown@ == self.filepath@ + ":\n"@ + self.contents@,
    {
        let mut shown = self.filepath.clone();
        shown.append(":\n");
        shown.append(self.contents.as_str());
        shown
    }
}

} // verus!
