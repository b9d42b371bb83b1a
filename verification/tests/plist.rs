use launch_agent::plist::{render_plist, PLIST_HEAD, PLIST_TAIL};
use launch_agent::{HostPath, LaunchConfig, LaunchDirs, PlistFile, RunError};

const TEMPLATE: &str = "<?xml version=\"1.0\" encoding=\"UTF-8\"?>
<!DOCTYPE plist PUBLIC \"-//Apple//DTD PLIST 1.0//EN\"
  \"http://www.apple.com/DTDs/PropertyList-1.0.dtd\">
<plist version=\"1.0\">
<dict>
    <key>Label</key>
    <string>{{name}}</string>
    <key>ProgramArguments</key>
    <array>
        <string>{{program_path}}</string>{{#each args}}
        <string>{{this}}</string>{{/each}}
    </array>
    <key>StartInterval</key>
    <integer>{{interval}}</integer>
    <key>StandardOutPath</key>
    <string>{{stdout}}</string>
    <key>StandardErrorPath</key>
    <string>{{stderr}}</string>
    <key>WorkingDirectory</key>
    <string>{{working_dir}}</string>
</dict>
</plist>";

fn strings(words: &[&str]) -> Vec<String> {
    words.iter().map(|w| w.to_string()).collect()
}

fn by_template(
    label: &str,
    program: &str,
    args: &[String],
    interval: u64,
    stdout: &str,
    stderr: &str,
    working_dir: &str,
) -> String {
    let text = |s: &str| serde_json::Value::String(s.to_string());
    let mut data = serde_json::Map::new();
    data.insert("name".to_string(), text(label));
    data.insert("program_path".to_string(), text(program));
    data.insert(
        "args".to_string(),
        serde_json::Value::Array(args.iter().map(|a| text(a)).collect()),
    );
    data.insert(
        "interval".to_string(),
        serde_json::Value::Number(serde_json::Number::from(interval)),
    );
    data.insert("stdout".to_string(), text(stdout));
    data.insert("stderr".to_string(), text(stderr));
    data.insert("working_dir".to_string(), text(working_dir));
    handlebars::Handlebars::new()
        .render_template(TEMPLATE, &serde_json::Value::Object(data))
        .unwrap()
}

fn config() -> LaunchConfig {
    LaunchConfig {
        name: "backup".to_string(),
        program_path: HostPath::Text("/usr/local/bin/backup.sh".to_string()),
        start_interval: 3600,
        dirs: LaunchDirs {
            log_dir: HostPath::Text("/Users/ann/logs/backup".to_string()),
            plist_dir: HostPath::Text("/Users/ann/Library/LaunchAgents".to_string()),
        },
        args: strings(&["--full", "--to", "/Volumes/disk"]),
        working_dir: "/Users/ann/work".to_string(),
    }
}

const BACKUP: &str = "<?xml version=\"1.0\" encoding=\"UTF-8\"?>
<!DOCTYPE plist PUBLIC \"-//Apple//DTD PLIST 1.0//EN\"
  \"http://www.apple.com/DTDs/PropertyList-1.0.dtd\">
<plist version=\"1.0\">
<dict>
    <key>Label</key>
    <string>backup</string>
    <key>ProgramArguments</key>
    <array>
        <string>/usr/local/bin/backup.sh</string>
        <string>--full</string>
        <string>--to</string>
        <string>/Volumes/disk</string>
    </array>
    <key>StartInterval</key>
    <integer>3600</integer>
    <key>StandardOutPath</key>
    <string>/Users/ann/logs/backup/stdout</string>
    <key>StandardErrorPath</key>
    <string>/Users/ann/logs/backup/stderr</string>
    <key>WorkingDirectory</key>
    <string>/Users/ann/work</string>
</dict>
</plist>";

#[test]
fn renders_the_whole_document() {
    assert_eq!(config().plist_contents(), Ok(BACKUP.to_string()));
}

#[test]
fn renders_without_arguments() {
    let text = render_plist("true", "/bin/true", &Vec::new(), 86400, "/o", "/e", "/");
    let expected = "<?xml version=\"1.0\" encoding=\"UTF-8\"?>
<!DOCTYPE plist PUBLIC \"-//Apple//DTD PLIST 1.0//EN\"
  \"http://www.apple.com/DTDs/PropertyList-1.0.dtd\">
<plist version=\"1.0\">
<dict>
    <key>Label</key>
    <string>true</string>
    <key>ProgramArguments</key>
    <array>
        <string>/bin/true</string>
    </array>
    <key>StartInterval</key>
    <integer>86400</integer>
    <key>StandardOutPath</key>
    <string>/o</string>
    <key>StandardErrorPath</key>
    <string>/e</string>
    <key>WorkingDirectory</key>
    <string>/</string>
</dict>
</plist>";
    assert_eq!(text, expected);
}

#[test]
fn begins_and_ends_as_every_descriptor() {
    let text = config().plist_contents().unwrap();
    assert!(text.starts_with(PLIST_HEAD));
    assert!(text.ends_with(PLIST_TAIL));
    assert!(PLIST_HEAD.starts_with("<?xml version=\"1.0\" encoding=\"UTF-8\"?>\n"));
    assert!(PLIST_HEAD.ends_with("<plist version=\"1.0\">\n<dict>\n"));
    assert_eq!(PLIST_TAIL, "</dict>\n</plist>");
}

#[test]
fn holds_every_key_in_order() {
    let text = config().plist_contents().unwrap();
    let mut from: usize = 0;
    for key in [
        "<key>Label</key>",
        "<key>ProgramArguments</key>",
        "<key>StartInterval</key>",
        "<key>StandardOutPath</key>",
        "<key>StandardErrorPath</key>",
        "<key>WorkingDirectory</key>",
    ] {
        let at = text[from..].find(key).expect(key);
        from += at + key.len();
    }
    assert_eq!(text.matches("<key>").count(), 6);
}

#[test]
fn rendering_twice_gives_the_same_text() {
    let config = config();
    let first = config.plist_contents().unwrap();
    let second = config.plist_contents().unwrap();
    assert_eq!(first.as_bytes(), second.as_bytes());
    assert_eq!(config.clone().plist_contents().unwrap(), first);
}

#[test]
fn escapes_each_character_of_markup() {
    let text = render_plist("<>\"&'`=", "/p", &Vec::new(), 1, "/o", "/e", "/w");
    assert!(text.contains("<string>&lt;&gt;&quot;&amp;&#x27;&#x60;&#x3D;</string>"));
}

#[test]
fn escapes_every_string_field() {
    let args = strings(&["a<b", "c&d"]);
    let text = render_plist("n<", "/p>", &args, 1, "/o\"", "/e'", "/w=");
    assert!(text.contains("<string>n&lt;</string>"));
    assert!(text.contains("<string>/p&gt;</string>"));
    assert!(text.contains("<string>a&lt;b</string>"));
    assert!(text.contains("<string>c&amp;d</string>"));
    assert!(text.contains("<string>/o&quot;</string>"));
    assert!(text.contains("<string>/e&#x27;</string>"));
    assert!(text.contains("<string>/w&#x3D;</string>"));
}

#[test]
fn a_value_cannot_close_its_element() {
    let text = render_plist(
        "x</string><key>RunAtLoad</key><true/><string>",
        "/p",
        &Vec::new(),
        1,
        "/o",
        "/e",
        "/w",
    );
    assert!(!text.contains("RunAtLoad</key>"));
    assert_eq!(text.matches("<key>").count(), 6);
    assert_eq!(text.matches("<string>").count(), 5);
}

#[test]
fn leaves_other_characters_alone() {
    let text = render_plist("käse – 北京", "/p", &Vec::new(), 1, "/o", "/e", "/w");
    assert!(text.contains("<string>käse – 北京</string>"));
}

#[test]
fn writes_the_interval_in_decimal() {
    for (interval, element) in [
        (0u64, "<integer>0</integer>"),
        (60, "<integer>60</integer>"),
        (86400, "<integer>86400</integer>"),
        (u64::MAX, "<integer>18446744073709551615</integer>"),
    ] {
        let text = render_plist("n", "/p", &Vec::new(), interval, "/o", "/e", "/w");
        assert!(text.contains(element));
    }
}

#[test]
fn agrees_with_the_template() {
    let cases: Vec<(&str, &str, Vec<String>, u64, &str, &str, &str)> = vec![
        ("true", "/bin/true", strings(&[]), 86400, "/h/logs/true/stdout", "/h/logs/true/stderr", "/"),
        ("one", "/bin/echo", strings(&["hello"]), 1, "/o", "/e", "/tmp"),
        ("many", "/bin/echo", strings(&["a", "b", "c", "d"]), 7200, "/o", "/e", "/tmp"),
        ("<>\"&'`=", "/a b/c&d", strings(&["--x=<y>", "'q'", "`r`"]), 0, "/o=", "/e\"", "/w'"),
        ("", "", strings(&["", ""]), u64::MAX, "", "", ""),
        ("{{name}}", "{{{x}}}", strings(&["{{this}}", "\\{{y}}"]), 5, "{{/each}}", "}}", "{{"),
        ("line\nbreak", "/tab\there", strings(&["  "]), 42, "/o", "/e", "/ü/北京"),
    ];
    for (label, program, args, interval, stdout, stderr, working_dir) in cases {
        assert_eq!(
            render_plist(label, program, &args, interval, stdout, stderr, working_dir),
            by_template(label, program, &args, interval, stdout, stderr, working_dir),
            "label {:?}",
            label
        );
    }
}

#[test]
fn an_opaque_program_cannot_be_rendered() {
    let mut config = config();
    config.program_path = HostPath::Opaque;
    assert_eq!(config.plist_contents(), Err(RunError::RenderError));
    assert_eq!(PlistFile::from(&config), Err(RunError::RenderError));
}

#[test]
fn an_opaque_log_dir_cannot_be_rendered() {
    let mut config = config();
    config.dirs.log_dir = HostPath::Opaque;
    assert_eq!(config.plist_contents(), Err(RunError::RenderError));
    assert_eq!(PlistFile::from(&config), Err(RunError::RenderError));
}

#[test]
fn an_opaque_plist_dir_gives_no_file() {
    let mut config = config();
    config.dirs.plist_dir = HostPath::Opaque;
    assert!(config.plist_contents().is_ok());
    assert_eq!(PlistFile::from(&config), Err(RunError::InvalidFilepath));
}

#[test]
fn plist_file_holds_path_and_contents() {
    let file = PlistFile::from(&config()).unwrap();
    assert_eq!(file.filepath, "/Users/ann/Library/LaunchAgents/com.backup.plist");
    assert_eq!(file.contents, BACKUP);
}

#[test]
fn plist_file_shows_path_then_contents() {
    let file = PlistFile { filepath: "/a/com.x.plist".to_string(), contents: "<plist/>".to_string() };
    assert_eq!(file.to_string(), "/a/com.x.plist:\n<plist/>");
    let whole = PlistFile::from(&config()).unwrap();
    assert_eq!(
        whole.to_string(),
        format!("/Users/ann/Library/LaunchAgents/com.backup.plist:\n{}", BACKUP)
    );
}
