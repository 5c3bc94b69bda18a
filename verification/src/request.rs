//! What a spawn asks of the pseudo-terminal provider: the size of the
//! terminal and the shell to start in it.

use vstd::prelude::*;
use vstd::string::StringExecFns;

verus! {

/// The columns of a terminal whose size the caller leaves open.
pub const DEFAULT_COLS: u16 = 80;

/// The rows of a terminal whose size the caller leaves open.
pub const DEFAULT_ROWS: u16 = 24;

/// The geometry of a terminal, in character cells and in pixels.
#[derive(Clone, Copy, Debug, PartialEq, Eq, Structural)]
pub struct PtyGeometry {
    pub rows: u16,
    pub cols: u16,
    pub pixel_width: u16,
    pub pixel_height: u16,
}

/// The geometry of `cols` columns and `rows` rows. Pixel sizes are not kept
/// track of: both are zero.
pub open spec fn cell_geometry(cols: u16, rows: u16) -> PtyGeometry {
    PtyGeometry { rows, cols, pixel_width: 0, pixel_height: 0 }
}

/// The geometry of a new terminal: the columns and rows that are given, and
/// 80 columns and 24 rows where they are not.
pub open spec fn spawn_geometry(cols: Option<u16>, rows: Option<u16>) -> PtyGeometry {
    cell_geometry(
        match cols {
            Some(c) => c,
            None => DEFAULT_COLS,
        },
        match rows {
            Some(r) => r,
            None => DEFAULT_ROWS,
        },
    )
}

impl PtyGeometry {
    /// The geometry of `cols` columns and `rows` rows, with pixel sizes of
    /// zero.
    pub fn cells(cols: u16, rows: u16) -> (geometry: PtyGeometry)
        ensures
            geometry == cell_geometry(cols, rows),
    {
        PtyGeometry { rows, cols, pixel_width: 0, pixel_height: 0 }
    }

    /// The geometry of a new terminal, with 80 columns and 24 rows where the
    /// caller names none.
    pub fn for_spawn(cols: Option<u16>, rows: Option<u16>) -> (geometry: PtyGeometry)
        ensures
            geometry == spawn_geometry(cols, rows),
    {
        let cols: u16 = match cols {
            Some(c) => c,
            None => DEFAULT_COLS,
        };
        let rows: u16 = match rows {
            Some(r) => r,
            None => DEFAULT_ROWS,
        };
        PtyGeometry::cells(cols, rows)
    }
}

/// The shell to start: the program, its arguments, the directory it starts
/// in and the environment variables that are set for it.
#[derive(Debug, PartialEq, Eq)]
pub struct ShellCommand {
    pub program: String,
    pub args: Vec<String>,
    pub cwd: Option<String>,
    pub env: Vec<(String, String)>,
}

/// The program that is started where the environment names no shell.
pub open spec fn fallback_shell() -> Seq<char> {
    "/bin/zsh"@
}

/// The program to start: the shell that the environment names, else the
/// fallback.
pub open spec fn shell_program(shell: Option<String>) -> Seq<char> {
    match shell {
        Some(program) => program@,
        None => fallback_shell(),
    }
}

/// The directory to start in: the one the caller names, else the home
/// directory, else none.
pub open spec fn start_directory(cwd: Option<String>, home: Option<String>) -> Option<Seq<char>> {
    match cwd {
        Some(dir) => Some(dir@),
        None => match home {
            Some(dir) => Some(dir@),
            None => None,
        },
    }
}

impl ShellCommand {
    /// The arguments as text.
    pub open spec fn args_text(&self) -> Seq<Seq<char>> {
        Seq::new(self.args@.len(), |i: int| self.args@[i]@)
    }

    /// The directory to start in as text.
    pub open spec fn cwd_text(&self) -> Option<Seq<char>> {
        match self.cwd {
            Some(dir) => Some(dir@),
            None => None,
        }
    }

    /// The environment variables as text, each a name and a value.
    pub open spec fn env_text(&self) -> Seq<(Seq<char>, Seq<char>)> {
        Seq::new(self.env@.len(), |i: int| (self.env@[i].0@, self.env@[i].1@))
    }

    /// Whether this is the login shell that a session runs: `program` with
    /// the one argument that makes it a login shell, starting in `cwd`, with
    /// the terminal's capabilities announced for colour.
    pub open spec fn is_login_shell(&self, program: Seq<char>, cwd: Option<Seq<char>>) -> bool {
        &&& self.program@ == program
        &&& self.args_text() == seq!["-l"@]
        &&& self.cwd_text() == cwd
        &&& self.env_text() == seq![("TERM"@, "xterm-256color"@), ("COLORTERM"@, "truecolor"@)]
    }

    /// The shell of a new session.
    ///
    /// `shell` is the shell that the environment names and `home` the home
    /// directory that it names, each `None` where it names none; `cwd` is the
    /// directory that the caller asks for.
    pub fn login_shell(shell: Option<String>, cwd: Option<String>, home: Option<String>) -> (command:
        ShellCommand)
        ensures
            command.is_login_shell(shell_program(shell), start_directory(cwd, home)),
    {
        let program = match shell {
            Some(program) => program,
            None => String::from_str("/bin/zsh"),
        };
        let mut args: Vec<String> = Vec::new();
        args.push(String::from_str("-l"));
        let cwd = match cwd {
            Some(dir) => Some(dir),
            None => home,
        };
        let mut env: Vec<(String, String)> = Vec::new();
        env.push((String::from_str("TERM"), String::from_str("xterm-256color")));
        env.push((String::from_str("COLORTERM"), String::from_str("truecolor")));
        let command = ShellCommand { program, args, cwd, env };
        assert(command.args_text() =~= seq!["-l"@]);
        assert(command.env_text() =~= seq![
            ("TERM"@, "xterm-256color"@),
            ("COLORTERM"@, "truecolor"@),
        ]);
        command
    }
}

/// What a spawn asks of the provider.
#[derive(Debug, PartialEq, Eq)]
pub struct SpawnRequest {
    pub geometry: PtyGeometry,
    pub command: ShellCommand,
}

/// What a spawn with the given arguments asks of the provider, in an
/// environment that names the shell `shell` and the home directory `home`.
pub fn spawn_request(
    cols: Option<u16>,
    rows: Option<u16>,
    cwd: Option<String>,
    shell: Option<String>,
    home: Option<String>,
) -> (request: SpawnRequest)
    ensures
        request.geometry == spawn_geometry(cols, rows),
        request.command.is_login_shell(shell_program(shell), start_directory(cwd, home)),
{
    SpawnRequest {
        geometry: PtyGeometry::for_spawn(cols, rows),
        command: ShellCommand::login_shell(shell, cwd, home),
    }
}

} // verus!
