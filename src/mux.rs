//! Terminal multiplexers that can host the watch client in a new pane: which
//! one the environment shows, and the command line that opens the pane.
use vstd::prelude::*;

verus! {

/// Delay before a pane is spawned, when the environment sets none, in
/// milliseconds.
pub const DEFAULT_MUX_DELAY_MS: u64 = 4000;

#[non_exhaustive]
#[derive(Debug, Clone, Copy, PartialEq, Eq, Structural)]
pub enum Multiplexer {
    Tmux,
    Zellij,
    Wezterm,
    Kitty,
}

/// What detection reads from the environment: whether `TMUX` and `ZELLIJ`
/// are set, and the values of `TERM_PROGRAM` and `KITTY_LISTEN_ON`.
#[derive(Debug, Clone, PartialEq, Eq)]
pub struct MuxEnv {
    pub tmux: bool,
    pub zellij: bool,
    pub term_program: Option<String>,
    pub kitty_listen_on: Option<String>,
}

/// The program and arguments that open a pane running the watch client.
#[derive(Debug, Clone, PartialEq, Eq)]
pub struct PaneCommand {
    pub program: String,
    pub args: Vec<String>,
}

/// Spawning needs the kitty remote-control address, and it is not set.
#[derive(Debug, Clone, Copy, PartialEq, Eq, Structural)]
pub enum SpawnError {
    KittyAddressUnset,
}

/// The view of an optional string.
pub open spec fn opt_view(o: Option<String>) -> Option<Seq<char>> {
    match o {
        Some(s) => Some(s@),
        None => None,
    }
}

/// The multiplexer that the environment shows, first match wins: tmux,
/// zellij, WezTerm (by `TERM_PROGRAM`), kitty.
pub open spec fn detected(
    tmux: bool,
    zellij: bool,
    term_program: Option<Seq<char>>,
    kitty: bool,
) -> Option<Multiplexer> {
    if tmux {
        Some(Multiplexer::Tmux)
    } else if zellij {
        Some(Multiplexer::Zellij)
    } else if term_program == Some("WezTerm"@) {
        Some(Multiplexer::Wezterm)
    } else if kitty {
        Some(Multiplexer::Kitty)
    } else {
        None
    }
}

/// The multiplexer's executable.
pub open spec fn program_of(m: Multiplexer) -> Seq<char> {
    match m {
        Multiplexer::Tmux => "tmux"@,
        Multiplexer::Zellij => "zellij"@,
        Multiplexer::Wezterm => "wezterm"@,
        Multiplexer::Kitty => "kitty"@,
    }
}

/// The multiplexer's own arguments that open a pane below (or beside) the
/// current one without taking focus; the pane is ten rows (or cells) tall.
pub open spec fn split_args(m: Multiplexer) -> Seq<Seq<char>> {
    match m {
        Multiplexer::Tmux => seq!["split-window"@, "-d"@, "-l"@, "10"@],
        Multiplexer::Zellij => seq![
            "action"@,
            "new-pane"@,
            "-d"@,
            "down"@,
            "--width"@,
            "10"@,
            "--"@,
        ],
        Multiplexer::Wezterm => seq!["cli"@, "split-pane"@, "--bottom"@, "--cells"@, "10"@],
        Multiplexer::Kitty => seq!["launch"@, "--location"@, "vsplit"@, "--keep-focus"@],
    }
}

/// The whole argument list: kitty's remote-control prefix, the split
/// arguments, then the client itself with its `watch` command and paths.
pub open spec fn pane_args(
    m: Multiplexer,
    bin: Seq<char>,
    log_path: Seq<char>,
    socket_path: Seq<char>,
    kitty_addr: Seq<char>,
) -> Seq<Seq<char>> {
    let prefix = if m == Multiplexer::Kitty {
        seq!["@"@, "--to"@, kitty_addr]
    } else {
        Seq::empty()
    };
    prefix + split_args(m) + seq![bin, "watch"@, log_path, socket_path]
}

/// The views of a list of strings.
pub open spec fn strings_view(v: Seq<String>) -> Seq<Seq<char>> {
    v.map_values(|s: String| s@)
}

/// Appends an owned copy of `s`.
fn push_str(v: &mut Vec<String>, s: &str)
    ensures
        strings_view(final(v)@) == strings_view(old(v)@).push(s@),
{
    v.push(s.to_owned());
    assert(strings_view(final(v)@) =~= strings_view(old(v)@).push(s@));
}

impl Multiplexer {
    /// The multiplexer that `env` shows, if any.
    pub fn detect(env: &MuxEnv) -> (r: Option<Multiplexer>)
        ensures
            r == detected(
                env.tmux,
                env.zellij,
                opt_view(env.term_program),
                env.kitty_listen_on is Some,
            ),
    {
        if env.tmux {
            return Some(Multiplexer::Tmux);
        }
        if env.zellij {
            return Some(Multiplexer::Zellij);
        }
        match &env.term_program {
            Some(t) => {
                let wezterm = "WezTerm".to_owned();
                if *t == wezterm {
                    return Some(Multiplexer::Wezterm);
                }
            },
            None => {},
        }
        if env.kitty_listen_on.is_some() {
            return Some(Multiplexer::Kitty);
        }
        None
    }

    /// The command that opens a pane running `bin watch <log_path>
    /// <socket_path>`; `bin` falls back to `direnv-instant` when the
    /// executable's path is unknown. Kitty needs its remote-control address.
    pub fn spawn(
        &self,
        bin: Option<String>,
        log_path: &str,
        socket_path: &str,
        kitty_listen_on: Option<String>,
    ) -> (r: Result<PaneCommand, SpawnError>)
        ensures
            *self == Multiplexer::Kitty && kitty_listen_on is None <==> r is Err,
            r is Ok ==> r->Ok_0.program@ == program_of(*self) && strings_view(r->Ok_0.args@)
                == pane_args(
                *self,
                match bin {
                    Some(b) => b@,
                    None => "direnv-instant"@,
                },
                log_path@,
                socket_path@,
                match kitty_listen_on {
                    Some(k) => k@,
                    None => Seq::empty(),
                },
            ),
    {
        let bin: String = match bin {
            Some(b) => b,
            None => "direnv-instant".to_owned(),
        };
        let mut args: Vec<String> = Vec::new();
        let program: String;
        let ghost kitty_addr: Seq<char> = Seq::empty();
        match self {
            Multiplexer::Tmux => {
                program = "tmux".to_owned();
                push_str(&mut args, "split-window");
                push_str(&mut args, "-d");
                push_str(&mut args, "-l");
                push_str(&mut args, "10");
            },
            Multiplexer::Zellij => {
                program = "zellij".to_owned();
                push_str(&mut args, "action");
                push_str(&mut args, "new-pane");
                push_str(&mut args, "-d");
                push_str(&mut args, "down");
                push_str(&mut args, "--width");
                push_str(&mut args, "10");
                push_str(&mut args, "--");
            },
            Multiplexer::Wezterm => {
                program = "wezterm".to_owned();
                push_str(&mut args, "cli");
                push_str(&mut args, "split-pane");
                push_str(&mut args, "--bottom");
                push_str(&mut args, "--cells");
                push_str(&mut args, "10");
            },
            Multiplexer::Kitty => {
                let addr = match kitty_listen_on {
                    Some(a) => a,
                    None => {
                        return Err(SpawnError::KittyAddressUnset);
                    },
                };
                proof {
                    kitty_addr = addr@;
                }
                program = "kitty".to_owned();
                push_str(&mut args, "@");
                push_str(&mut args, "--to");
                push_str(&mut args, addr.as_str());
                push_str(&mut args, "launch");
                push_str(&mut args, "--location");
                push_str(&mut args, "vsplit");
                push_str(&mut args, "--keep-focus");
            },
        }
        push_str(&mut args, bin.as_str());
        push_str(&mut args, "watch");
        push_str(&mut args, log_path);
        push_str(&mut args, socket_path);
        assert(strings_view(args@) =~= pane_args(*self, bin@, log_path@, socket_path@, kitty_addr));
        Ok(PaneCommand { program, args })
    }
}

/// The value of a decimal numeral as `u64`, as `u64`'s `FromStr` reads it:
/// an optional `+`, then one or more ASCII digits, of value at most
/// `u64::MAX`; anything else (a sign alone, `-`, spaces) is no numeral.
pub open spec fn decimal_u64(s: Seq<char>) -> Option<u64> {
    let d = if s.len() > 0 && s[0] == '+' {
        s.drop_first()
    } else {
        s
    };
    if d.len() > 0 && all_digits(d) && digits_value(d) <= u64::MAX {
        Some(digits_value(d) as u64)
    } else {
        None
    }
}

/// Every character is an ASCII digit.
pub open spec fn all_digits(d: Seq<char>) -> bool {
    forall|i: int| 0 <= i < d.len() ==> '0' <= #[trigger] d[i] <= '9'
}

/// The value of a string of ASCII digits, most significant first.
pub open spec fn digits_value(d: Seq<char>) -> nat
    decreases d.len(),
{
    if d.len() == 0 {
        0
    } else {
        digits_value(d.drop_last()) * 10 + ((d.last() as nat) - ('0' as nat)) as nat
    }
}

/// Relies on `str::parse::<u64>` (`u64`'s `FromStr`): it accepts exactly an
/// optional `+` followed by ASCII digits whose value fits in `u64`.
#[verifier::external_body]
fn parse_u64(s: &str) -> (r: Option<u64>)
    ensures
        r == decimal_u64(s@),
{
    s.parse::<u64>().ok()
}

/// The delay before spawning a pane, in milliseconds, from the value of
/// `DIRENV_INSTANT_MUX_DELAY` (in seconds): a valid count of seconds whose
/// milliseconds fit in `u64` gives those milliseconds; anything else, or no
/// value, gives the default of four seconds.
pub fn mux_delay_ms(value: Option<String>) -> (r: u64)
    ensures
        r == match opt_view(value) {
            Some(v) => match decimal_u64(v) {
                Some(n) => if n * 1000 <= u64::MAX {
                    (n * 1000) as u64
                } else {
                    DEFAULT_MUX_DELAY_MS
                },
                None => DEFAULT_MUX_DELAY_MS,
            },
            None => DEFAULT_MUX_DELAY_MS,
        },
{
    match value {
        Some(v) => match parse_u64(v.as_str()) {
            Some(n) => match n.checked_mul(1000) {
                Some(ms) => ms,
                None => DEFAULT_MUX_DELAY_MS,
            },
            None => DEFAULT_MUX_DELAY_MS,
        },
        None => DEFAULT_MUX_DELAY_MS,
    }
}

} // verus!
