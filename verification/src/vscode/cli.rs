//! The VS Code command line: which command each operation runs, how its
//! output is read, and what TARS reports. Running the commands is the
//! application's part.

use crate::text::{
    chars_of, decimal, first_line, fmt_u64, join2, join3, join_strings, join_with, push_line, split_chars,
    split_on, str_contains, string_from_chars, strings_view, svec1, svec2, svec3, trim_chars, trim_spec,
    has_substring,
};
use vstd::prelude::*;

verus! {

broadcast use vstd::string::group_string_axioms;

/// The state of a VS Code process.
#[derive(Debug, Clone)]
pub enum VSCodeStatus {
    Running,
    Stopped,
    Starting,
    Error(String),
}

/// A running VS Code.
#[derive(Debug, Clone)]
pub struct VSCodeInstance {
    pub pid: Option<u32>,
    pub workspace: Option<String>,
    pub extensions_dir: Option<String>,
    pub user_data_dir: Option<String>,
    pub status: VSCodeStatus,
}

/// A command line to run.
#[derive(Debug, Clone)]
pub struct VSCodeCommand {
    pub command: String,
    pub args: Vec<String>,
    pub working_dir: Option<String>,
}

/// The operating system VS Code is looked for on.
#[derive(Debug, Clone, Copy, PartialEq, Eq, Structural)]
pub enum HostOs {
    Windows,
    MacOs,
    OtherUnix,
}

/// The VS Code command line, once found.
pub struct VSCodeCLI {
    vscode_path: Option<String>,
    default_args: Vec<String>,
}

/// The places VS Code is looked for, in order.
pub open spec fn candidate_list(os: HostOs) -> Seq<Seq<char>> {
    match os {
        HostOs::Windows => seq![
            "code"@,
            "code.exe"@,
            "C:\\Program Files\\Microsoft VS Code\\bin\\code.cmd"@,
            "C:\\Program Files (x86)\\Microsoft VS Code\\bin\\code.cmd"@,
            "C:\\Users\\%USERNAME%\\AppData\\Local\\Programs\\Microsoft VS Code\\bin\\code.cmd"@,
        ],
        HostOs::MacOs => seq![
            "code"@,
            "/Applications/Visual Studio Code.app/Contents/Resources/app/bin/code"@,
            "/usr/local/bin/code"@,
        ],
        HostOs::OtherUnix => seq![
            "code"@,
            "/usr/bin/code"@,
            "/usr/local/bin/code"@,
            "/snap/code/current/usr/share/code/bin/code"@,
        ],
    }
}

/// The message of a missing VS Code path.
pub open spec fn path_missing_message() -> Seq<char> {
    "VS Code path not detected. Run detect_installation() first."@
}

/// The report of a found installation.
pub open spec fn detected_message(path: Seq<char>, version_output: Seq<char>) -> Seq<char> {
    let version = match first_line(version_output) {
        Some(l) => l,
        None => "Unknown"@,
    };
    "[VS CODE DETECTED]\n\nPath: "@ + path + "\nVersion: "@ + version
        + "\nStatus: AVAILABLE\n\nTARS has located VS Code installation.\nReady for development environment integration."@
}

/// The extensions named in `--list-extensions` output: its lines, trimmed,
/// empty ones left out.
pub open spec fn extension_list(output: Seq<char>) -> Seq<Seq<char>> {
    split_on(output, '\n').map_values(|l: Seq<char>| trim_spec(l)).filter(|l: Seq<char>| l.len() > 0)
}

/// The lines of a process listing that name VS Code.
pub open spec fn vscode_lines(listing: Seq<char>) -> Seq<Seq<char>> {
    split_on(listing, '\n').filter(|l: Seq<char>| has_substring(l, "code"@) || has_substring(l, "Code"@))
}

/// A running instance about which nothing more is known.
pub open spec fn is_bare_running(i: VSCodeInstance) -> bool {
    &&& i.pid is None
    &&& i.workspace is None
    &&& i.extensions_dir is None
    &&& i.user_data_dir is None
    &&& i.status is Running
}

/// The location `--goto` is given.
pub open spec fn goto_location_text(file: Seq<char>, line: u32, column: Option<u32>) -> Seq<char> {
    match column {
        Some(c) => file + ":"@ + decimal(line as nat) + ":"@ + decimal(c as nat),
        None => file + ":"@ + decimal(line as nat),
    }
}

/// The candidate places of VS Code on an operating system.
pub fn candidate_paths(os: HostOs) -> (v: Vec<String>)
    ensures
        strings_view(v@) == candidate_list(os),
{
    let mut v: Vec<String> = Vec::new();
    match os {
        HostOs::Windows => {
            push_line(&mut v, String::from_str("code"));
            push_line(&mut v, String::from_str("code.exe"));
            push_line(&mut v, String::from_str("C:\\Program Files\\Microsoft VS Code\\bin\\code.cmd"));
            push_line(&mut v, String::from_str("C:\\Program Files (x86)\\Microsoft VS Code\\bin\\code.cmd"));
            push_line(
                &mut v,
                String::from_str("C:\\Users\\%USERNAME%\\AppData\\Local\\Programs\\Microsoft VS Code\\bin\\code.cmd"),
            );
        },
        HostOs::MacOs => {
            push_line(&mut v, String::from_str("code"));
            push_line(&mut v, String::from_str("/Applications/Visual Studio Code.app/Contents/Resources/app/bin/code"));
            push_line(&mut v, String::from_str("/usr/local/bin/code"));
        },
        HostOs::OtherUnix => {
            push_line(&mut v, String::from_str("code"));
            push_line(&mut v, String::from_str("/usr/bin/code"));
            push_line(&mut v, String::from_str("/usr/local/bin/code"));
            push_line(&mut v, String::from_str("/snap/code/current/usr/share/code/bin/code"));
        },
    }
    assert(strings_view(v@) =~= candidate_list(os));
    v
}

/// The first line of a text, as `str::lines` yields it.
pub fn first_line_of(s: &str) -> (r: Option<String>)
    ensures
        match first_line(s@) {
            Some(l) => r matches Some(t) && t@ == l,
            None => r is None,
        },
{
    let cs = chars_of(s);
    if cs.len() == 0 {
        return None;
    }
    let pieces = split_chars(&cs, '\n');
    proof {
        crate::text::lemma_split_on_nonempty(cs@, '\n');
    }
    let p = &pieces[0];
    if p.len() < cs.len() && p.len() > 0 && p[p.len() - 1] == '\r' {
        let mut q: Vec<char> = Vec::new();
        let mut i: usize = 0;
        let last: usize = p.len() - 1;
        while i < last
            invariant
                last + 1 == p@.len(),
                i <= last,
                q@ == p@.take(i as int),
            decreases last - i,
        {
            q.push(p[i]);
            i = i + 1;
            assert(q@ =~= p@.take(i as int));
        }
        assert(q@ =~= p@.drop_last());
        Some(string_from_chars(&q))
    } else {
        Some(string_from_chars(p))
    }
}

/// A command for the VS Code found, or the missing-path refusal.
pub open spec fn command_result(path: Option<String>, args: Seq<Seq<char>>, r: Result<VSCodeCommand, String>) -> bool {
    match path {
        Some(p) => r matches Ok(c) && c.command@ == p@ && strings_view(c.args@) == args && c.working_dir is None,
        None => r matches Err(m) && m@ == path_missing_message(),
    }
}

impl VSCodeCLI {
    /// The path of VS Code, once found.
    pub closed spec fn path(&self) -> Option<String> {
        self.vscode_path
    }

    /// A command line with VS Code not found yet.
    pub fn new() -> (c: Self)
        ensures
            c.path() is None,
    {
        VSCodeCLI { vscode_path: None, default_args: Vec::new() }
    }

    /// The path of VS Code; refused until it has been found.
    pub fn get_vscode_path(&self) -> (r: Result<&String, String>)
        ensures
            match self.path() {
                Some(p) => r matches Ok(q) && *q == p,
                None => r matches Err(m) && m@ == path_missing_message(),
            },
    {
        match &self.vscode_path {
            Some(p) => Ok(p),
            None => Err(String::from_str("VS Code path not detected. Run detect_installation() first.")),
        }
    }

    /// Records the VS Code found at `path`, whose `--version` printed
    /// `version_output`, and reports it.
    pub fn record_detection(&mut self, path: &str, version_output: &str) -> (r: String)
        ensures
            final(self).path() matches Some(p) && p@ == path@,
            r@ == detected_message(path@, version_output@),
    {
        self.vscode_path = Some(String::from_str(path));
        let version = match first_line_of(version_output) {
            Some(l) => l,
            None => String::from_str("Unknown"),
        };
        let mut r = join3("[VS CODE DETECTED]\n\nPath: ", path, "\nVersion: ");
        r.append(version.as_str());
        r.append("\nStatus: AVAILABLE\n\nTARS has located VS Code installation.\nReady for development environment integration.");
        r
    }

    fn prepare(&self, args: Vec<String>) -> (r: Result<VSCodeCommand, String>)
        ensures
            command_result(self.path(), strings_view(args@), r),
    {
        match &self.vscode_path {
            Some(p) => Ok(VSCodeCommand { command: p.clone(), args, working_dir: None }),
            None => Err(String::from_str("VS Code path not detected. Run detect_installation() first.")),
        }
    }

    /// The command that opens a file or folder, in a new window if asked.
    pub fn open_command(&self, path: &str, new_window: bool) -> (r: Result<VSCodeCommand, String>)
        ensures
            command_result(
                self.path(),
                if new_window { seq![path@, "--new-window"@] } else { seq![path@] },
                r,
            ),
    {
        let args = if new_window {
            svec2(path, "--new-window")
        } else {
            svec1(path)
        };
        self.prepare(args)
    }

    /// The command that opens a workspace.
    pub fn workspace_command(&self, workspace_path: &str) -> (r: Result<VSCodeCommand, String>)
        ensures
            command_result(self.path(), seq![workspace_path@], r),
    {
        self.prepare(svec1(workspace_path))
    }

    /// The command that installs an extension.
    pub fn install_extension_command(&self, extension_id: &str) -> (r: Result<VSCodeCommand, String>)
        ensures
            command_result(self.path(), seq!["--install-extension"@, extension_id@], r),
    {
        self.prepare(svec2("--install-extension", extension_id))
    }

    /// The command that lists the installed extensions.
    pub fn list_extensions_command(&self) -> (r: Result<VSCodeCommand, String>)
        ensures
            command_result(self.path(), seq!["--list-extensions"@], r),
    {
        self.prepare(svec1("--list-extensions"))
    }

    /// The command that removes an extension.
    pub fn uninstall_extension_command(&self, extension_id: &str) -> (r: Result<VSCodeCommand, String>)
        ensures
            command_result(self.path(), seq!["--uninstall-extension"@, extension_id@], r),
    {
        self.prepare(svec2("--uninstall-extension", extension_id))
    }

    /// The command with custom arguments.
    pub fn custom_command(&self, args: Vec<String>) -> (r: Result<VSCodeCommand, String>)
        ensures
            command_result(self.path(), strings_view(args@), r),
    {
        self.prepare(args)
    }

    /// The command that compares two files.
    pub fn diff_command(&self, file1: &str, file2: &str) -> (r: Result<VSCodeCommand, String>)
        ensures
            command_result(self.path(), seq!["--diff"@, file1@, file2@], r),
    {
        self.prepare(svec3("--diff", file1, file2))
    }

    /// The command that opens a file at a line and, if given, a column.
    pub fn goto_command(&self, file: &str, line: u32, column: Option<u32>) -> (r: Result<VSCodeCommand, String>)
        ensures
            command_result(self.path(), seq!["--goto"@, goto_location_text(file@, line, column)], r),
    {
        let location = goto_location(file, line, column);
        self.prepare(svec2("--goto", location.as_str()))
    }
}

/// The `--goto` location of a file, line and optional column.
pub fn goto_location(file: &str, line: u32, column: Option<u32>) -> (r: String)
    ensures
        r@ == goto_location_text(file@, line, column),
{
    let l = fmt_u64(line as u64);
    let mut r = join3(file, ":", l.as_str());
    match column {
        Some(c) => {
            let t = fmt_u64(c as u64);
            r.append(":");
            r.append(t.as_str());
        },
        None => {},
    }
    r
}

/// The extensions named in `--list-extensions` output.
pub fn parse_extension_list(output: &str) -> (r: Vec<String>)
    ensures
        strings_view(r@) == extension_list(output@),
{
    let cs = chars_of(output);
    let pieces = split_chars(&cs, '\n');
    let ghost all = split_on(output@, '\n');
    let ghost trimmed = all.map_values(|l: Seq<char>| trim_spec(l));
    let ghost keep = |l: Seq<char>| l.len() > 0;
    let mut r: Vec<String> = Vec::new();
    let mut i: usize = 0;
    while i < pieces.len()
        invariant
            cs@ == output@,
            all == split_on(output@, '\n'),
            trimmed == all.map_values(|l: Seq<char>| trim_spec(l)),
            keep == (|l: Seq<char>| l.len() > 0),
            pieces@.len() == all.len(),
            forall|j: int| 0 <= j < pieces@.len() ==> #[trigger] pieces@[j]@ == all[j],
            i <= pieces@.len(),
            strings_view(r@) == trimmed.take(i as int).filter(keep),
        decreases pieces@.len() - i,
    {
        let t = trim_chars(&pieces[i]);
        proof {
            assert(trimmed.take(i as int + 1) =~= trimmed.take(i as int).push(trimmed[i as int]));
            trimmed.take(i as int).lemma_filter_push(trimmed[i as int], keep);
            assert(t@ == trimmed[i as int]);
        }
        if t.len() > 0 {
            push_line(&mut r, string_from_chars(&t));
        }
        i = i + 1;
    }
    assert(trimmed.take(pieces@.len() as int) =~= trimmed);
    r
}

/// The running VS Code instances in a process listing: one for each line
/// that names VS Code.
pub fn running_instances(listing: &str) -> (r: Vec<VSCodeInstance>)
    ensures
        r@.len() == vscode_lines(listing@).len(),
        forall|i: int| 0 <= i < r@.len() ==> is_bare_running(#[trigger] r@[i]),
{
    let cs = chars_of(listing);
    let pieces = split_chars(&cs, '\n');
    let ghost all = split_on(listing@, '\n');
    let ghost pick = |l: Seq<char>| has_substring(l, "code"@) || has_substring(l, "Code"@);
    let mut r: Vec<VSCodeInstance> = Vec::new();
    let mut i: usize = 0;
    while i < pieces.len()
        invariant
            all == split_on(listing@, '\n'),
            pick == (|l: Seq<char>| has_substring(l, "code"@) || has_substring(l, "Code"@)),
            pieces@.len() == all.len(),
            forall|j: int| 0 <= j < pieces@.len() ==> #[trigger] pieces@[j]@ == all[j],
            i <= pieces@.len(),
            r@.len() == all.take(i as int).filter(pick).len(),
            forall|j: int| 0 <= j < r@.len() ==> is_bare_running(#[trigger] r@[j]),
        decreases pieces@.len() - i,
    {
        proof {
            assert(all.take(i as int + 1) =~= all.take(i as int).push(all[i as int]));
            all.take(i as int).lemma_filter_push(all[i as int], pick);
        }
        let line = string_from_chars(&pieces[i]);
        if str_contains(line.as_str(), "code") || str_contains(line.as_str(), "Code") {
            r.push(
                VSCodeInstance {
                    pid: None,
                    workspace: None,
                    extensions_dir: None,
                    user_data_dir: None,
                    status: VSCodeStatus::Running,
                },
            );
        }
        i = i + 1;
    }
    assert(all.take(pieces@.len() as int) =~= all);
    r
}

/// The report of a launched VS Code.
pub fn opened_message(path: &str, new_window: bool) -> (r: String)
    ensures
        r@ == "[VS CODE LAUNCHED]\n\nTarget: "@ + path@ + "\nMode: "@ + (if new_window {
            "New Window"@
        } else {
            "Current Window"@
        }) + "\nStatus: OPENING\n\nTARS has successfully launched VS Code.\nDevelopment environment is now accessible."@,
{
    let mut r = join3("[VS CODE LAUNCHED]\n\nTarget: ", path, "\nMode: ");
    r.append(if new_window { "New Window" } else { "Current Window" });
    r.append("\nStatus: OPENING\n\nTARS has successfully launched VS Code.\nDevelopment environment is now accessible.");
    r
}

/// The report of an opened workspace.
pub fn workspace_opened_message(workspace_path: &str) -> (r: String)
    ensures
        r@ == "[VS CODE WORKSPACE OPENED]\n\nWorkspace: "@ + workspace_path@
            + "\nStatus: LOADING\n\nTARS has opened the workspace configuration.\nMulti-project development environment ready."@,
{
    join3(
        "[VS CODE WORKSPACE OPENED]\n\nWorkspace: ",
        workspace_path,
        "\nStatus: LOADING\n\nTARS has opened the workspace configuration.\nMulti-project development environment ready.",
    )
}

/// The report of an installed extension.
pub fn extension_installed_message(extension_id: &str, output: &str) -> (r: String)
    ensures
        r@ == "[EXTENSION INSTALLED]\n\nExtension: "@ + extension_id@ + "\nStatus: SUCCESS\nOutput: "@ + output@
            + "\n\nTARS has successfully installed the VS Code extension.\nDevelopment capabilities enhanced."@,
{
    let mut r = join3("[EXTENSION INSTALLED]\n\nExtension: ", extension_id, "\nStatus: SUCCESS\nOutput: ");
    r.append(output);
    r.append("\n\nTARS has successfully installed the VS Code extension.\nDevelopment capabilities enhanced.");
    r
}

/// The report of a removed extension.
pub fn extension_uninstalled_message(extension_id: &str) -> (r: String)
    ensures
        r@ == "[EXTENSION UNINSTALLED]\n\nExtension: "@ + extension_id@
            + "\nStatus: REMOVED\n\nTARS has successfully removed the VS Code extension.\nDevelopment environment updated."@,
{
    join3(
        "[EXTENSION UNINSTALLED]\n\nExtension: ",
        extension_id,
        "\nStatus: REMOVED\n\nTARS has successfully removed the VS Code extension.\nDevelopment environment updated.",
    )
}

/// The report of a command that succeeded.
pub fn command_executed_message(args: &Vec<String>, output: &str) -> (r: String)
    ensures
        r@ == "[VS CODE COMMAND EXECUTED]\n\nArguments: "@ + join_with(strings_view(args@), " "@)
            + "\nStatus: SUCCESS\nOutput: "@ + output@ + "\n\nTARS has executed the VS Code command successfully."@,
{
    let joined = join_strings(args, " ");
    let mut r = join3("[VS CODE COMMAND EXECUTED]\n\nArguments: ", joined.as_str(), "\nStatus: SUCCESS\nOutput: ");
    r.append(output);
    r.append("\n\nTARS has executed the VS Code command successfully.");
    r
}

/// The report of a command that failed.
pub fn command_failed_message(args: &Vec<String>, errors: &str) -> (r: String)
    ensures
        r@ == "VS Code command failed.\nArguments: "@ + join_with(strings_view(args@), " "@) + "\nError: "@ + errors@,
{
    let joined = join_strings(args, " ");
    let mut r = join3("VS Code command failed.\nArguments: ", joined.as_str(), "\nError: ");
    r.append(errors);
    r
}

/// The report of an opened comparison.
pub fn diff_opened_message(file1: &str, file2: &str) -> (r: String)
    ensures
        r@ == "[VS CODE DIFF OPENED]\n\nFile 1: "@ + file1@ + "\nFile 2: "@ + file2@
            + "\nMode: COMPARISON\n\nTARS has opened the file comparison in VS Code.\nReady for code analysis and review."@,
{
    let mut r = join3("[VS CODE DIFF OPENED]\n\nFile 1: ", file1, "\nFile 2: ");
    r.append(file2);
    r.append("\nMode: COMPARISON\n\nTARS has opened the file comparison in VS Code.\nReady for code analysis and review.");
    r
}

/// The report of a navigation; a missing column reads as column 1.
pub fn navigation_message(file: &str, line: u32, column: Option<u32>) -> (r: String)
    ensures
        r@ == "[VS CODE NAVIGATION]\n\nFile: "@ + file@ + "\nLine: "@ + decimal(line as nat) + "\nColumn: "@
            + decimal(
            match column {
                Some(c) => c as nat,
                None => 1nat,
            },
        ) + "\nStatus: NAVIGATING\n\nTARS has navigated to the specified location.\nPrecision code positioning achieved."@,
{
    let l = fmt_u64(line as u64);
    let c = fmt_u64(
        match column {
            Some(c) => c as u64,
            None => 1,
        },
    );
    let mut r = join3("[VS CODE NAVIGATION]\n\nFile: ", file, "\nLine: ");
    r.append(l.as_str());
    r.append("\nColumn: ");
    r.append(c.as_str());
    r.append("\nStatus: NAVIGATING\n\nTARS has navigated to the specified location.\nPrecision code positioning achieved.");
    r
}

/// The report of a written settings file.
pub fn settings_configured_message(workspace_path: &str, settings_file: &str, count: usize) -> (r: String)
    ensures
        r@ == "[VS CODE SETTINGS CONFIGURED]\n\nWorkspace: "@ + workspace_path@ + "\nSettings File: "@ + settings_file@
            + "\nConfiguration Count: "@ + decimal(count as nat)
            + "\n\nTARS has configured the VS Code workspace settings.\nDevelopment environment optimized for engineering precision."@,
{
    let n = fmt_u64(count as u64);
    let mut r = join3("[VS CODE SETTINGS CONFIGURED]\n\nWorkspace: ", workspace_path, "\nSettings File: ");
    r.append(settings_file);
    r.append("\nConfiguration Count: ");
    r.append(n.as_str());
    r.append("\n\nTARS has configured the VS Code workspace settings.\nDevelopment environment optimized for engineering precision.");
    r
}

/// TARS's word on an attempt to open a project.
pub fn tars_open_project_outcome(outcome: Result<String, String>) -> (r: Result<String, String>)
    ensures
        match outcome {
            Ok(m) => r matches Ok(t) && t@ == m@ + "\n\nThat's VS Code operational, Cooper.\nHonesty setting: 90% - Your development environment is now active.\nHumor setting: 75% - Time to code like the mission depends on it.\nMission focus: 100% - Ready for engineering excellence."@,
            Err(e) => r matches Err(t) && t@ == "[VS CODE LAUNCH FAILURE]\n\nError: "@ + e@
                + "\n\nTARS diagnosis: Unable to launch development environment.\nRecommendation: Verify VS Code installation and permissions.\nSarcasm setting: 30% - Even I need VS Code to be installed first."@,
        },
{
    match outcome {
        Ok(m) => Ok(join2(
            m.as_str(),
            "\n\nThat's VS Code operational, Cooper.\nHonesty setting: 90% - Your development environment is now active.\nHumor setting: 75% - Time to code like the mission depends on it.\nMission focus: 100% - Ready for engineering excellence.",
        )),
        Err(e) => Err(join3(
            "[VS CODE LAUNCH FAILURE]\n\nError: ",
            e.as_str(),
            "\n\nTARS diagnosis: Unable to launch development environment.\nRecommendation: Verify VS Code installation and permissions.\nSarcasm setting: 30% - Even I need VS Code to be installed first.",
        )),
    }
}

/// TARS's word on an attempt to install an extension.
pub fn tars_install_extension_outcome(outcome: Result<String, String>) -> (r: Result<String, String>)
    ensures
        match outcome {
            Ok(m) => r matches Ok(t) && t@ == m@ + "\n\nExtension integration complete.\nTARS assessment: Development capabilities enhanced.\nThat's what I call precision tooling, Cooper."@,
            Err(e) => r matches Err(t) && t@ == "[EXTENSION INSTALLATION FAILED]\n\nError: "@ + e@
                + "\n\nTARS diagnosis: Extension deployment unsuccessful.\nPossible causes: Network connectivity, invalid extension ID, or VS Code version incompatibility.\nMission focus: 100% - Let's resolve this and continue."@,
        },
{
    match outcome {
        Ok(m) => Ok(join2(
            m.as_str(),
            "\n\nExtension integration complete.\nTARS assessment: Development capabilities enhanced.\nThat's what I call precision tooling, Cooper.",
        )),
        Err(e) => Err(join3(
            "[EXTENSION INSTALLATION FAILED]\n\nError: ",
            e.as_str(),
            "\n\nTARS diagnosis: Extension deployment unsuccessful.\nPossible causes: Network connectivity, invalid extension ID, or VS Code version incompatibility.\nMission focus: 100% - Let's resolve this and continue.",
        )),
    }
}

/// TARS's word on an attempt to set up a workspace.
pub fn tars_setup_workspace_outcome(outcome: Result<String, String>) -> (r: Result<String, String>)
    ensures
        match outcome {
            Ok(m) => r matches Ok(t) && t@ == m@ + "\n\nTARS development environment configuration complete.\nEngineering precision settings: APPLIED\nWorkspace optimization: MAXIMUM\n\nReady for superior code development.\nLet's build something extraordinary, Cooper."@,
            Err(e) => r matches Err(t) && t@ == "[WORKSPACE SETUP FAILURE]\n\nError: "@ + e@
                + "\n\nTARS diagnosis: Environment configuration incomplete.\nRecommendation: Verify workspace permissions and directory structure.\nHumor setting: 75% - Even perfect settings need a valid workspace."@,
        },
{
    match outcome {
        Ok(m) => Ok(join2(
            m.as_str(),
            "\n\nTARS development environment configuration complete.\nEngineering precision settings: APPLIED\nWorkspace optimization: MAXIMUM\n\nReady for superior code development.\nLet's build something extraordinary, Cooper.",
        )),
        Err(e) => Err(join3(
            "[WORKSPACE SETUP FAILURE]\n\nError: ",
            e.as_str(),
            "\n\nTARS diagnosis: Environment configuration incomplete.\nRecommendation: Verify workspace permissions and directory structure.\nHumor setting: 75% - Even perfect settings need a valid workspace.",
        )),
    }
}

/// The value of an editor setting.
#[derive(Debug, Clone)]
pub enum SettingValue {
    Number(i64),
    Text(String),
    Flag(bool),
    Numbers(Vec<i64>),
    Flags(Vec<(String, bool)>),
}

/// An editor setting's value as plain values.
pub enum SettingView {
    Number(int),
    Text(Seq<char>),
    Flag(bool),
    Numbers(Seq<i64>),
    Flags(Seq<(Seq<char>, bool)>),
}

impl View for SettingValue {
    type V = SettingView;

    open spec fn view(&self) -> SettingView {
        match self {
            SettingValue::Number(n) => SettingView::Number(*n as int),
            SettingValue::Text(t) => SettingView::Text(t@),
            SettingValue::Flag(b) => SettingView::Flag(*b),
            SettingValue::Numbers(v) => SettingView::Numbers(v@),
            SettingValue::Flags(v) => SettingView::Flags(v@.map_values(|f: (String, bool)| (f.0@, f.1))),
        }
    }
}

/// The views of named settings.
pub open spec fn settings_view(v: Seq<(String, SettingValue)>) -> Seq<(Seq<char>, SettingView)> {
    v.map_values(|e: (String, SettingValue)| (e.0@, e.1@))
}

/// The editor settings TARS sets up a workspace with, in order: a 14-point
/// Fira Code with ligatures, the minimap, rulers at 80 and 120, word wrap,
/// formatting and fixing on save, the default dark theme with Seti icons,
/// whitespace trimmed and a final newline, smart commits without sync
/// confirmation and with autofetch, and a 13-point blinking terminal.
pub open spec fn tars_workspace_settings_spec() -> Seq<(Seq<char>, SettingView)> {
    seq![
        ("editor.fontSize"@, SettingView::Number(14)),
        ("editor.fontFamily"@, SettingView::Text("'Fira Code', 'Cascadia Code', 'Monaco', monospace"@)),
        ("editor.fontLigatures"@, SettingView::Flag(true)),
        ("editor.minimap.enabled"@, SettingView::Flag(true)),
        ("editor.rulers"@, SettingView::Numbers(seq![80i64, 120i64])),
        ("editor.wordWrap"@, SettingView::Text("on"@)),
        ("editor.formatOnSave"@, SettingView::Flag(true)),
        ("editor.codeActionsOnSave"@, SettingView::Flags(seq![("source.fixAll"@, true), ("source.organizeImports"@, true)])),
        ("workbench.colorTheme"@, SettingView::Text("Dark+ (default dark)"@)),
        ("workbench.iconTheme"@, SettingView::Text("vs-seti"@)),
        ("files.trimTrailingWhitespace"@, SettingView::Flag(true)),
        ("files.insertFinalNewline"@, SettingView::Flag(true)),
        ("files.trimFinalNewlines"@, SettingView::Flag(true)),
        ("git.enableSmartCommit"@, SettingView::Flag(true)),
        ("git.confirmSync"@, SettingView::Flag(false)),
        ("git.autofetch"@, SettingView::Flag(true)),
        ("terminal.integrated.fontSize"@, SettingView::Number(13)),
        ("terminal.integrated.cursorBlinking"@, SettingView::Flag(true)),
    ]
}

/// The editor settings TARS sets up a workspace with.
pub fn tars_workspace_settings() -> (v: Vec<(String, SettingValue)>)
    ensures
        settings_view(v@) == tars_workspace_settings_spec(),
{
    let mut numbers: Vec<i64> = Vec::new();
    numbers.push(80);
    numbers.push(120);
    let mut flags: Vec<(String, bool)> = Vec::new();
    flags.push((String::from_str("source.fixAll"), true));
    flags.push((String::from_str("source.organizeImports"), true));
    assert(numbers@ =~= seq![80i64, 120i64]);
    assert(flags@.map_values(|f: (String, bool)| (f.0@, f.1)) =~= seq![("source.fixAll"@, true), ("source.organizeImports"@, true)]);
    let mut v: Vec<(String, SettingValue)> = Vec::new();
    v.push((String::from_str("editor.fontSize"), SettingValue::Number(14)));
    v.push((String::from_str("editor.fontFamily"), SettingValue::Text(String::from_str("'Fira Code', 'Cascadia Code', 'Monaco', monospace"))));
    v.push((String::from_str("editor.fontLigatures"), SettingValue::Flag(true)));
    v.push((String::from_str("editor.minimap.enabled"), SettingValue::Flag(true)));
    v.push((String::from_str("editor.rulers"), SettingValue::Numbers(numbers)));
    v.push((String::from_str("editor.wordWrap"), SettingValue::Text(String::from_str("on"))));
    v.push((String::from_str("editor.formatOnSave"), SettingValue::Flag(true)));
    v.push((String::from_str("editor.codeActionsOnSave"), SettingValue::Flags(flags)));
    v.push((String::from_str("workbench.colorTheme"), SettingValue::Text(String::from_str("Dark+ (default dark)"))));
    v.push((String::from_str("workbench.iconTheme"), SettingValue::Text(String::from_str("vs-seti"))));
    v.push((String::from_str("files.trimTrailingWhitespace"), SettingValue::Flag(true)));
    v.push((String::from_str("files.insertFinalNewline"), SettingValue::Flag(true)));
    v.push((String::from_str("files.trimFinalNewlines"), SettingValue::Flag(true)));
    v.push((String::from_str("git.enableSmartCommit"), SettingValue::Flag(true)));
    v.push((String::from_str("git.confirmSync"), SettingValue::Flag(false)));
    v.push((String::from_str("git.autofetch"), SettingValue::Flag(true)));
    v.push((String::from_str("terminal.integrated.fontSize"), SettingValue::Number(13)));
    v.push((String::from_str("terminal.integrated.cursorBlinking"), SettingValue::Flag(true)));
    assert(settings_view(v@) =~= tars_workspace_settings_spec());
    v
}

/// Every operation but detection needs VS Code found first: before, each
/// command is refused with the same message.
pub proof fn law_commands_need_detection(path: Option<String>, args: Seq<Seq<char>>, r: Result<VSCodeCommand, String>)
    requires
        path is None,
        command_result(path, args, r),
    ensures
        r matches Err(m) && m@ == path_missing_message(),
{
}

} // verus!
