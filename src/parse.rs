//! Reading a command line into a `Cli`.
//!
//! The grammar: after the program name come global options (`-p` /
//! `--flake-path <path>`, `-v` / `--verbose`, anywhere on the line), the
//! subcommand (for `store`, a second one), and that subcommand's options and
//! positional arguments. A long option takes its value as `--name=value` or
//! from the next word; short options may be grouped (`-TH zebes`), and the
//! last of a group may carry its value (`-Hzebes`, `-H=zebes`) or take the next
//! word. A word that begins with `-` is never taken as a value. After `--`,
//! every word is positional; for `try`, those words are the command to run.
//! Giving an option twice is an error, as is any word the grammar has no place
//! for. `-h` / `--help` and `-V` / `--version` stop the reading.
use vstd::prelude::*;

use crate::cli::{
    BuildArgs, Cli, Commands, GcArgs, InfoArgs, NukeArgs, OptimizeArgs, OsArgs, RepairArgs,
    StoreCommands, TryArgs, UpdateArgs,
};
use crate::exec::{opt_view, str_views, views};
use crate::text::{owned, str_eq};

verus! {

/// Where the reading stands: which subcommand's options apply.
#[derive(Debug, Clone, Copy, PartialEq, Eq, Structural)]
pub enum Ctx {
    Root,
    Switch,
    Boot,
    Build,
    Update,
    Try,
    Store,
    Gc,
    Optimize,
    Repair,
    Nuke,
    Info,
}

/// An option that takes a value.
#[derive(Debug, Clone, Copy, PartialEq, Eq, Structural)]
pub enum Opt {
    FlakePath,
    Host,
    TargetHost,
    BuildHost,
    Substituter,
    Key,
    OutLink,
    OlderThan,
    Keep,
}

/// The number of options that take a value.
pub const N_OPTS: usize = 9;

/// An option without a value.
#[derive(Debug, Clone, Copy, PartialEq, Eq, Structural)]
pub enum Flag {
    Verbose,
    Target,
    Local,
    Trace,
    DryRun,
    NoLink,
    Commit,
    Pure,
    CheckOnly,
    Yes,
    RemoveResults,
    SkipRebuild,
    Detailed,
}

/// The number of options without a value.
pub const N_FLAGS: usize = 13;

/// What an option name stands for where the reading stands.
#[derive(Debug, Clone, Copy, PartialEq, Eq, Structural)]
pub enum Item {
    Value(Opt),
    Switch(Flag),
    Help,
    Version,
    Unknown,
}

/// Why a command line was refused. The numbers are positions in the command
/// line, the program name being 0.
#[derive(Debug, Clone, Copy, PartialEq, Eq, Structural)]
pub enum ParseError {
    /// The word has no place here: an unknown option or subcommand, or a
    /// positional argument the subcommand does not take.
    UnexpectedArgument(usize),
    /// An option that takes no value was given one.
    UnexpectedValue(usize),
    /// The option at this position has no value.
    MissingValue(usize),
    /// The option at this position was given before.
    Repeated(usize),
    /// The keep count is not a number that fits 32 bits.
    InvalidKeep,
    /// No subcommand (or no `store` subcommand) was given.
    MissingSubcommand,
    /// `try` was given no package.
    MissingPackages,
    /// Help was asked for.
    HelpRequested,
    /// The version was asked for.
    VersionRequested,
}

impl Opt {
    /// The slot of the option.
    pub open spec fn slot(self) -> int {
        match self {
            Opt::FlakePath => 0,
            Opt::Host => 1,
            Opt::TargetHost => 2,
            Opt::BuildHost => 3,
            Opt::Substituter => 4,
            Opt::Key => 5,
            Opt::OutLink => 6,
            Opt::OlderThan => 7,
            Opt::Keep => 8,
        }
    }

    /// The slot of the option.
    pub fn index(self) -> (r: usize)
        ensures
            r == self.slot(),
            r < N_OPTS,
    {
        match self {
            Opt::FlakePath => 0,
            Opt::Host => 1,
            Opt::TargetHost => 2,
            Opt::BuildHost => 3,
            Opt::Substituter => 4,
            Opt::Key => 5,
            Opt::OutLink => 6,
            Opt::OlderThan => 7,
            Opt::Keep => 8,
        }
    }
}

impl Flag {
    /// The slot of the flag.
    pub open spec fn slot(self) -> int {
        match self {
            Flag::Verbose => 0,
            Flag::Target => 1,
            Flag::Local => 2,
            Flag::Trace => 3,
            Flag::DryRun => 4,
            Flag::NoLink => 5,
            Flag::Commit => 6,
            Flag::Pure => 7,
            Flag::CheckOnly => 8,
            Flag::Yes => 9,
            Flag::RemoveResults => 10,
            Flag::SkipRebuild => 11,
            Flag::Detailed => 12,
        }
    }

    /// The slot of the flag.
    pub fn index(self) -> (r: usize)
        ensures
            r == self.slot(),
            r < N_FLAGS,
    {
        match self {
            Flag::Verbose => 0,
            Flag::Target => 1,
            Flag::Local => 2,
            Flag::Trace => 3,
            Flag::DryRun => 4,
            Flag::NoLink => 5,
            Flag::Commit => 6,
            Flag::Pure => 7,
            Flag::CheckOnly => 8,
            Flag::Yes => 9,
            Flag::RemoveResults => 10,
            Flag::SkipRebuild => 11,
            Flag::Detailed => 12,
        }
    }
}

/// What a short option letter stands for.
pub open spec fn short_item(ctx: Ctx, c: char) -> Item {
    if c == 'p' {
        Item::Value(Opt::FlakePath)
    } else if c == 'v' {
        Item::Switch(Flag::Verbose)
    } else if c == 'h' {
        Item::Help
    } else if c == 'V' {
        Item::Version
    } else {
        match ctx {
            Ctx::Switch | Ctx::Boot => {
                if c == 'H' { Item::Value(Opt::Host) }
                else if c == 'T' { Item::Switch(Flag::Target) }
                else if c == 'B' { Item::Value(Opt::BuildHost) }
                else if c == 'l' { Item::Switch(Flag::Local) }
                else if c == 't' { Item::Switch(Flag::Trace) }
                else if c == 's' { Item::Value(Opt::Substituter) }
                else if c == 'k' { Item::Value(Opt::Key) }
                else if c == 'n' { Item::Switch(Flag::DryRun) }
                else { Item::Unknown }
            },
            Ctx::Build => {
                if c == 'o' { Item::Value(Opt::OutLink) }
                else if c == 't' { Item::Switch(Flag::Trace) }
                else if c == 'n' { Item::Switch(Flag::DryRun) }
                else { Item::Unknown }
            },
            Ctx::Update => if c == 'c' { Item::Switch(Flag::Commit) } else { Item::Unknown },
            Ctx::Gc => {
                if c == 'o' { Item::Value(Opt::OlderThan) }
                else if c == 'k' { Item::Value(Opt::Keep) }
                else if c == 'n' { Item::Switch(Flag::DryRun) }
                else { Item::Unknown }
            },
            Ctx::Optimize => if c == 'n' { Item::Switch(Flag::DryRun) } else { Item::Unknown },
            Ctx::Repair => if c == 'c' { Item::Switch(Flag::CheckOnly) } else { Item::Unknown },
            Ctx::Nuke => {
                if c == 'y' { Item::Switch(Flag::Yes) }
                else if c == 'r' { Item::Switch(Flag::RemoveResults) }
                else { Item::Unknown }
            },
            Ctx::Info => if c == 'd' { Item::Switch(Flag::Detailed) } else { Item::Unknown },
            _ => Item::Unknown,
        }
    }
}

/// What a long option name (without its dashes) stands for.
pub open spec fn long_item(ctx: Ctx, n: Seq<char>) -> Item {
    if n == "flake-path"@ {
        Item::Value(Opt::FlakePath)
    } else if n == "verbose"@ {
        Item::Switch(Flag::Verbose)
    } else if n == "help"@ {
        Item::Help
    } else if n == "version"@ {
        Item::Version
    } else {
        match ctx {
            Ctx::Switch | Ctx::Boot => {
                if n == "host"@ { Item::Value(Opt::Host) }
                else if n == "target"@ { Item::Switch(Flag::Target) }
                else if n == "target-host"@ { Item::Value(Opt::TargetHost) }
                else if n == "build-host"@ { Item::Value(Opt::BuildHost) }
                else if n == "local"@ { Item::Switch(Flag::Local) }
                else if n == "trace"@ { Item::Switch(Flag::Trace) }
                else if n == "substituter"@ { Item::Value(Opt::Substituter) }
                else if n == "key"@ { Item::Value(Opt::Key) }
                else if n == "dry-run"@ { Item::Switch(Flag::DryRun) }
                else { Item::Unknown }
            },
            Ctx::Build => {
                if n == "no-link"@ { Item::Switch(Flag::NoLink) }
                else if n == "out-link"@ { Item::Value(Opt::OutLink) }
                else if n == "trace"@ { Item::Switch(Flag::Trace) }
                else if n == "dry-run"@ { Item::Switch(Flag::DryRun) }
                else { Item::Unknown }
            },
            Ctx::Update => if n == "commit"@ { Item::Switch(Flag::Commit) } else { Item::Unknown },
            Ctx::Try => if n == "pure"@ { Item::Switch(Flag::Pure) } else { Item::Unknown },
            Ctx::Gc => {
                if n == "older-than"@ { Item::Value(Opt::OlderThan) }
                else if n == "keep"@ { Item::Value(Opt::Keep) }
                else if n == "dry-run"@ { Item::Switch(Flag::DryRun) }
                else { Item::Unknown }
            },
            Ctx::Optimize => if n == "dry-run"@ { Item::Switch(Flag::DryRun) } else { Item::Unknown },
            Ctx::Repair => if n == "check-only"@ { Item::Switch(Flag::CheckOnly) } else { Item::Unknown },
            Ctx::Nuke => {
                if n == "yes"@ { Item::Switch(Flag::Yes) }
                else if n == "remove-results"@ { Item::Switch(Flag::RemoveResults) }
                else if n == "skip-rebuild"@ { Item::Switch(Flag::SkipRebuild) }
                else { Item::Unknown }
            },
            Ctx::Info => if n == "detailed"@ { Item::Switch(Flag::Detailed) } else { Item::Unknown },
            _ => Item::Unknown,
        }
    }
}

/// The subcommand a word names where the reading stands, if any.
pub open spec fn subcommand(ctx: Ctx, w: Seq<char>) -> Option<Ctx> {
    match ctx {
        Ctx::Root => {
            if w == "switch"@ || w == "s"@ { Some(Ctx::Switch) }
            else if w == "boot"@ { Some(Ctx::Boot) }
            else if w == "build"@ || w == "b"@ { Some(Ctx::Build) }
            else if w == "update"@ || w == "u"@ { Some(Ctx::Update) }
            else if w == "store"@ { Some(Ctx::Store) }
            else if w == "try"@ { Some(Ctx::Try) }
            else { None }
        },
        Ctx::Store => {
            if w == "gc"@ || w == "clean"@ { Some(Ctx::Gc) }
            else if w == "optimize"@ { Some(Ctx::Optimize) }
            else if w == "repair"@ { Some(Ctx::Repair) }
            else if w == "nuke"@ { Some(Ctx::Nuke) }
            else if w == "info"@ { Some(Ctx::Info) }
            else { None }
        },
        _ => None,
    }
}

/// The state of the reading.
pub ghost struct Scan {
    /// Which subcommand's options apply.
    pub ctx: Ctx,
    /// An option waiting for its value in the next word, and its position.
    pub pending: Option<(Opt, nat)>,
    /// Whether `--` has been seen.
    pub raw: bool,
    /// The value of each option, by slot.
    pub values: Seq<Option<Seq<char>>>,
    /// Whether each flag was given, by slot.
    pub flags: Seq<bool>,
    /// The positional arguments, in order.
    pub positionals: Seq<Seq<char>>,
    /// For `try`, the words after `--`.
    pub cmd: Seq<Seq<char>>,
}

/// The state before the first word.
pub open spec fn initial_scan() -> Scan {
    Scan {
        ctx: Ctx::Root,
        pending: None,
        raw: false,
        values: Seq::new(N_OPTS as nat, |i: int| None),
        flags: Seq::new(N_FLAGS as nat, |i: int| false),
        positionals: Seq::empty(),
        cmd: Seq::empty(),
    }
}

/// Whether a word looks like an option (and so is never taken as a value).
pub open spec fn is_optionish(w: Seq<char>) -> bool {
    w.len() > 1 && w[0] == '-'
}

/// Gives option `o` its value, or waits for it, for the word at position `i`.
pub open spec fn take_value(s: Scan, o: Opt, v: Option<Seq<char>>, i: nat) -> Result<Scan, ParseError> {
    if s.values[o.slot()] is Some {
        Err(ParseError::Repeated(i as usize))
    } else {
        match v {
            Some(x) => Ok(Scan { values: s.values.update(o.slot(), Some(x)), ..s }),
            None => Ok(Scan { pending: Some((o, i)), ..s }),
        }
    }
}

/// Sets flag `f`, for the word at position `i`.
pub open spec fn take_flag(s: Scan, f: Flag, i: nat) -> Result<Scan, ParseError> {
    if s.flags[f.slot()] {
        Err(ParseError::Repeated(i as usize))
    } else {
        Ok(Scan { flags: s.flags.update(f.slot(), true), ..s })
    }
}

/// Reads a positional word at position `i`.
pub open spec fn positional(s: Scan, w: Seq<char>, i: nat) -> Result<Scan, ParseError> {
    match s.ctx {
        Ctx::Root | Ctx::Store => {
            match subcommand(s.ctx, w) {
                Some(c) => if s.raw { Err(ParseError::UnexpectedArgument(i as usize)) } else { Ok(Scan { ctx: c, ..s }) },
                None => Err(ParseError::UnexpectedArgument(i as usize)),
            }
        },
        Ctx::Build => {
            if s.positionals.len() == 0 {
                Ok(Scan { positionals: s.positionals.push(w), ..s })
            } else {
                Err(ParseError::UnexpectedArgument(i as usize))
            }
        },
        Ctx::Update | Ctx::Repair => Ok(Scan { positionals: s.positionals.push(w), ..s }),
        Ctx::Try => {
            if s.raw {
                Ok(Scan { cmd: s.cmd.push(w), ..s })
            } else {
                Ok(Scan { positionals: s.positionals.push(w), ..s })
            }
        },
        _ => Err(ParseError::UnexpectedArgument(i as usize)),
    }
}

/// Where the name of a long option ends: at the first `=` from position `j`
/// on, or at the end.
pub open spec fn name_end(w: Seq<char>, j: int) -> int
    decreases w.len() - j,
{
    if j >= w.len() {
        w.len() as int
    } else if w[j] == '=' {
        j
    } else {
        name_end(w, j + 1)
    }
}

/// Reads a long option (`--name` or `--name=value`) at position `i`.
pub open spec fn long_option(s: Scan, w: Seq<char>, i: nat) -> Result<Scan, ParseError> {
    let e = name_end(w, 2);
    let inline = if e < w.len() { Some(w.subrange(e + 1, w.len() as int)) } else { None };
    match long_item(s.ctx, w.subrange(2, e)) {
        Item::Value(o) => take_value(s, o, inline, i),
        Item::Switch(f) => if inline is Some { Err(ParseError::UnexpectedValue(i as usize)) } else { take_flag(s, f, i) },
        Item::Help => Err(ParseError::HelpRequested),
        Item::Version => Err(ParseError::VersionRequested),
        Item::Unknown => Err(ParseError::UnexpectedArgument(i as usize)),
    }
}

/// Reads a group of short options at position `i`, from its `j`-th character on.
pub open spec fn short_group(s: Scan, w: Seq<char>, j: int, i: nat) -> Result<Scan, ParseError>
    decreases w.len() - j,
{
    if j >= w.len() {
        Ok(s)
    } else {
        match short_item(s.ctx, w[j]) {
            Item::Value(o) => {
                let rest = w.subrange(j + 1, w.len() as int);
                if rest.len() == 0 {
                    take_value(s, o, None, i)
                } else if rest[0] == '=' {
                    take_value(s, o, Some(rest.drop_first()), i)
                } else {
                    take_value(s, o, Some(rest), i)
                }
            },
            Item::Switch(f) => match take_flag(s, f, i) {
                Ok(s2) => short_group(s2, w, j + 1, i),
                Err(e) => Err(e),
            },
            Item::Help => Err(ParseError::HelpRequested),
            Item::Version => Err(ParseError::VersionRequested),
            Item::Unknown => Err(ParseError::UnexpectedArgument(i as usize)),
        }
    }
}

/// Reads the word `w` at position `i`.
pub open spec fn step(s: Scan, w: Seq<char>, i: nat) -> Result<Scan, ParseError> {
    match s.pending {
        Some((o, at)) => {
            if is_optionish(w) {
                Err(ParseError::MissingValue(at as usize))
            } else {
                Ok(Scan { pending: None, values: s.values.update(o.slot(), Some(w)), ..s })
            }
        },
        None => {
            if s.raw {
                positional(s, w, i)
            } else if w.len() == 2 && w[0] == '-' && w[1] == '-' {
                Ok(Scan { raw: true, ..s })
            } else if w.len() > 2 && w[0] == '-' && w[1] == '-' {
                long_option(s, w, i)
            } else if is_optionish(w) {
                short_group(s, w, 1, i)
            } else {
                positional(s, w, i)
            }
        },
    }
}

/// Reads the words `ws`, the first being at position `i`.
pub open spec fn scan_words(s: Scan, ws: Seq<Seq<char>>, i: nat) -> Result<Scan, ParseError>
    decreases ws.len(),
{
    if ws.len() == 0 {
        Ok(s)
    } else {
        match step(s, ws[0], i) {
            Ok(s2) => scan_words(s2, ws.drop_first(), i + 1),
            Err(e) => Err(e),
        }
    }
}

/// Whether `d` is made of ASCII digits only.
pub open spec fn all_digits(d: Seq<char>) -> bool {
    forall|k: int| 0 <= k < d.len() ==> '0' <= #[trigger] d[k] && d[k] <= '9'
}

/// The number the digits `d` write.
pub open spec fn digits_value(d: Seq<char>) -> nat
    decreases d.len(),
{
    if d.len() == 0 {
        0
    } else {
        digits_value(d.drop_last()) * 10 + ((d.last() as u32) - ('0' as u32)) as nat
    }
}

/// The digits of a numeral, after an optional `+`.
pub open spec fn unsigned_part(w: Seq<char>) -> Seq<char> {
    if w.len() > 0 && w[0] == '+' { w.drop_first() } else { w }
}

/// Whether `w` is a numeral for a 32-bit unsigned number.
pub open spec fn is_u32_numeral(w: Seq<char>) -> bool {
    let d = unsigned_part(w);
    d.len() > 0 && all_digits(d) && digits_value(d) <= u32::MAX
}

/// Why a finished reading is refused, if it is.
pub open spec fn finish_error(s: Scan) -> Option<ParseError> {
    match s.pending {
        Some((o, at)) => Some(ParseError::MissingValue(at as usize)),
        None => {
            if s.ctx == Ctx::Root || s.ctx == Ctx::Store {
                Some(ParseError::MissingSubcommand)
            } else if s.ctx == Ctx::Try && s.positionals.len() == 0 {
                Some(ParseError::MissingPackages)
            } else if s.ctx == Ctx::Gc && s.values[Opt::Keep.slot()] is Some
                && !is_u32_numeral(s.values[Opt::Keep.slot()]->0) {
                Some(ParseError::InvalidKeep)
            } else {
                None
            }
        },
    }
}

/// The outcome of reading a command line (program name first).
pub open spec fn parse_outcome(argv: Seq<Seq<char>>) -> Result<Scan, ParseError> {
    let ws = if argv.len() == 0 { argv } else { argv.drop_first() };
    match scan_words(initial_scan(), ws, 1) {
        Ok(s) => match finish_error(s) {
            Some(e) => Err(e),
            None => Ok(s),
        },
        Err(e) => Err(e),
    }
}

/// Whether the arguments of `switch` or `boot` are those the reading found.
pub open spec fn os_args_match(a: OsArgs, s: Scan) -> bool {
    &&& opt_view(a.host) == s.values[Opt::Host.slot()]
    &&& a.target == s.flags[Flag::Target.slot()]
    &&& opt_view(a.target_host) == s.values[Opt::TargetHost.slot()]
    &&& opt_view(a.build_host) == s.values[Opt::BuildHost.slot()]
    &&& a.local == s.flags[Flag::Local.slot()]
    &&& a.trace == s.flags[Flag::Trace.slot()]
    &&& opt_view(a.substituter) == s.values[Opt::Substituter.slot()]
    &&& opt_view(a.key) == s.values[Opt::Key.slot()]
    &&& a.dry_run == s.flags[Flag::DryRun.slot()]
}

/// Whether `cli` holds what the finished reading `s` found.
pub open spec fn cli_matches(cli: Cli, s: Scan) -> bool {
    &&& opt_view(cli.flake_path) == s.values[Opt::FlakePath.slot()]
    &&& cli.verbose == s.flags[Flag::Verbose.slot()]
    &&& match s.ctx {
        Ctx::Switch => cli.command matches Commands::Switch(a) && os_args_match(a, s),
        Ctx::Boot => cli.command matches Commands::Boot(a) && os_args_match(a, s),
        Ctx::Build => cli.command matches Commands::Build(a)
            && opt_view(a.target) == (if s.positionals.len() > 0 { Some(s.positionals[0]) } else { None })
            && a.no_link == s.flags[Flag::NoLink.slot()]
            && opt_view(a.out_link) == s.values[Opt::OutLink.slot()]
            && a.trace == s.flags[Flag::Trace.slot()]
            && a.dry_run == s.flags[Flag::DryRun.slot()],
        Ctx::Update => cli.command matches Commands::Update(a)
            && views(a.inputs@) == s.positionals
            && a.commit == s.flags[Flag::Commit.slot()],
        Ctx::Try => cli.command matches Commands::Try(a)
            && views(a.packages@) == s.positionals
            && views(a.cmd@) == s.cmd
            && a.pure == s.flags[Flag::Pure.slot()],
        Ctx::Gc => cli.command matches Commands::Store { command: StoreCommands::Gc(a) }
            && opt_view(a.older_than) == s.values[Opt::OlderThan.slot()]
            && a.keep as nat == (match s.values[Opt::Keep.slot()] {
                Some(k) => digits_value(unsigned_part(k)),
                None => 3,
            })
            && a.dry_run == s.flags[Flag::DryRun.slot()],
        Ctx::Optimize => cli.command matches Commands::Store { command: StoreCommands::Optimize(a) }
            && a.dry_run == s.flags[Flag::DryRun.slot()],
        Ctx::Repair => cli.command matches Commands::Store { command: StoreCommands::Repair(a) }
            && views(a.paths@) == s.positionals
            && a.check_only == s.flags[Flag::CheckOnly.slot()],
        Ctx::Nuke => cli.command matches Commands::Store { command: StoreCommands::Nuke(a) }
            && a.yes == s.flags[Flag::Yes.slot()]
            && a.remove_results == s.flags[Flag::RemoveResults.slot()]
            && a.skip_rebuild == s.flags[Flag::SkipRebuild.slot()],
        Ctx::Info => cli.command matches Commands::Store { command: StoreCommands::Info(a) }
            && a.detailed == s.flags[Flag::Detailed.slot()],
        _ => false,
    }
}

/// Whether an exec step did what the reading says: on success, `after` is the
/// state it gives; on failure, the same error.
pub open spec fn followed(r: Result<(), ParseError>, after: Scan, expected: Result<Scan, ParseError>) -> bool {
    match expected {
        Ok(s) => r is Ok && after == s,
        Err(e) => r == Err::<(), ParseError>(e),
    }
}

/// The state of the reading, as values.
struct Scanner {
    ctx: Ctx,
    pending: Option<(Opt, usize)>,
    raw: bool,
    values: Vec<Option<String>>,
    flags: Vec<bool>,
    positionals: Vec<String>,
    cmd: Vec<String>,
}

impl View for Scanner {
    type V = Scan;

    closed spec fn view(&self) -> Scan {
        Scan {
            ctx: self.ctx,
            pending: match self.pending {
                Some((o, i)) => Some((o, i as nat)),
                None => None,
            },
            raw: self.raw,
            values: self.values@.map_values(|v: Option<String>| opt_view(v)),
            flags: self.flags@,
            positionals: views(self.positionals@),
            cmd: views(self.cmd@),
        }
    }
}

impl Scanner {
    spec fn wf(&self) -> bool {
        self.values@.len() == N_OPTS && self.flags@.len() == N_FLAGS
    }

    fn new() -> (r: Scanner)
        ensures
            r.wf(),
            r@ == initial_scan(),
    {
        let mut values: Vec<Option<String>> = Vec::new();
        let mut k: usize = 0;
        while k < N_OPTS
            invariant
                k <= N_OPTS,
                values@.len() == k,
                forall|m: int| 0 <= m < k ==> values@[m] is None,
            decreases N_OPTS - k,
        {
            values.push(None);
            k += 1;
        }
        let mut flags: Vec<bool> = Vec::new();
        let mut k: usize = 0;
        while k < N_FLAGS
            invariant
                k <= N_FLAGS,
                flags@.len() == k,
                forall|m: int| 0 <= m < k ==> !flags@[m],
            decreases N_FLAGS - k,
        {
            flags.push(false);
            k += 1;
        }
        let r = Scanner {
            ctx: Ctx::Root,
            pending: None,
            raw: false,
            values,
            flags,
            positionals: Vec::new(),
            cmd: Vec::new(),
        };
        assert(r@.values =~= initial_scan().values);
        assert(r@.flags =~= initial_scan().flags);
        assert(r@.positionals =~= initial_scan().positionals);
        assert(r@.cmd =~= initial_scan().cmd);
        r
    }

    fn take_value(&mut self, o: Opt, v: Option<String>, i: usize) -> (r: Result<(), ParseError>)
        requires
            old(self).wf(),
        ensures
            final(self).wf(),
            followed(r, final(self)@, take_value(old(self)@, o, opt_view(v), i as nat)),
    {
        let k = o.index();
        if self.values[k].is_some() {
            return Err(ParseError::Repeated(i));
        }
        match v {
            Some(x) => {
                self.values.set(k, Some(x));
                assert(self@.values =~= old(self)@.values.update(o.slot(), opt_view(v)));
            },
            None => {
                self.pending = Some((o, i));
            },
        }
        Ok(())
    }

    fn take_flag(&mut self, f: Flag, i: usize) -> (r: Result<(), ParseError>)
        requires
            old(self).wf(),
        ensures
            final(self).wf(),
            followed(r, final(self)@, take_flag(old(self)@, f, i as nat)),
    {
        let k = f.index();
        if self.flags[k] {
            return Err(ParseError::Repeated(i));
        }
        self.flags.set(k, true);
        Ok(())
    }

    fn positional(&mut self, w: &str, i: usize) -> (r: Result<(), ParseError>)
        requires
            old(self).wf(),
        ensures
            final(self).wf(),
            followed(r, final(self)@, positional(old(self)@, w@, i as nat)),
    {
        match self.ctx {
            Ctx::Root | Ctx::Store => {
                match subcommand_of(self.ctx, w) {
                    Some(c) => {
                        if self.raw {
                            Err(ParseError::UnexpectedArgument(i))
                        } else {
                            self.ctx = c;
                            Ok(())
                        }
                    },
                    None => Err(ParseError::UnexpectedArgument(i)),
                }
            },
            Ctx::Build => {
                if self.positionals.len() == 0 {
                    self.positionals.push(owned(w));
                    assert(self@.positionals =~= old(self)@.positionals.push(w@));
                    Ok(())
                } else {
                    Err(ParseError::UnexpectedArgument(i))
                }
            },
            Ctx::Update | Ctx::Repair => {
                self.positionals.push(owned(w));
                assert(self@.positionals =~= old(self)@.positionals.push(w@));
                Ok(())
            },
            Ctx::Try => {
                if self.raw {
                    self.cmd.push(owned(w));
                    assert(self@.cmd =~= old(self)@.cmd.push(w@));
                } else {
                    self.positionals.push(owned(w));
                    assert(self@.positionals =~= old(self)@.positionals.push(w@));
                }
                Ok(())
            },
            _ => Err(ParseError::UnexpectedArgument(i)),
        }
    }

    fn long_option(&mut self, w: &str, i: usize) -> (r: Result<(), ParseError>)
        requires
            old(self).wf(),
            w@.len() > 2,
        ensures
            final(self).wf(),
            followed(r, final(self)@, long_option(old(self)@, w@, i as nat)),
    {
        let n = w.unicode_len();
        let e = name_end_of(w, 2);
        let inline = if e < n { Some(owned(w.substring_char(e + 1, n))) } else { None };
        match long_item_of(self.ctx, w.substring_char(2, e)) {
            Item::Value(o) => self.take_value(o, inline, i),
            Item::Switch(f) => {
                if inline.is_some() {
                    Err(ParseError::UnexpectedValue(i))
                } else {
                    self.take_flag(f, i)
                }
            },
            Item::Help => Err(ParseError::HelpRequested),
            Item::Version => Err(ParseError::VersionRequested),
            Item::Unknown => Err(ParseError::UnexpectedArgument(i)),
        }
    }

    fn short_group(&mut self, w: &str, i: usize) -> (r: Result<(), ParseError>)
        requires
            old(self).wf(),
        ensures
            final(self).wf(),
            followed(r, final(self)@, short_group(old(self)@, w@, 1, i as nat)),
    {
        let n = w.unicode_len();
        let mut j: usize = 1;
        while j < n
            invariant
                self.wf(),
                n == w@.len(),
                1 <= j,
                short_group(old(self)@, w@, 1, i as nat) == short_group(self@, w@, j as int, i as nat),
            decreases n - j,
        {
            match short_item_of(self.ctx, w.get_char(j)) {
                Item::Value(o) => {
                    let rest = w.substring_char(j + 1, n);
                    if rest.unicode_len() == 0 {
                        return self.take_value(o, None, i);
                    } else if rest.get_char(0) == '=' {
                        let v = owned(rest.substring_char(1, rest.unicode_len()));
                        assert(v@ =~= rest@.drop_first());
                        return self.take_value(o, Some(v), i);
                    } else {
                        return self.take_value(o, Some(owned(rest)), i);
                    }
                },
                Item::Switch(f) => {
                    let t = self.take_flag(f, i);
                    if t.is_err() {
                        return t;
                    }
                },
                Item::Help => {
                    return Err(ParseError::HelpRequested);
                },
                Item::Version => {
                    return Err(ParseError::VersionRequested);
                },
                Item::Unknown => {
                    return Err(ParseError::UnexpectedArgument(i));
                },
            }
            j += 1;
        }
        Ok(())
    }

    fn step(&mut self, w: &str, i: usize) -> (r: Result<(), ParseError>)
        requires
            old(self).wf(),
        ensures
            final(self).wf(),
            followed(r, final(self)@, step(old(self)@, w@, i as nat)),
    {
        let n = w.unicode_len();
        match self.pending {
            Some((o, at)) => {
                if n > 1 && w.get_char(0) == '-' {
                    Err(ParseError::MissingValue(at))
                } else {
                    self.values.set(o.index(), Some(owned(w)));
                    self.pending = None;
                    assert(self@.values =~= old(self)@.values.update(o.slot(), Some(w@)));
                    Ok(())
                }
            },
            None => {
                if self.raw {
                    self.positional(w, i)
                } else if n == 2 && w.get_char(0) == '-' && w.get_char(1) == '-' {
                    self.raw = true;
                    Ok(())
                } else if n > 2 && w.get_char(0) == '-' && w.get_char(1) == '-' {
                    self.long_option(w, i)
                } else if n > 1 && w.get_char(0) == '-' {
                    self.short_group(w, i)
                } else {
                    self.positional(w, i)
                }
            },
        }
    }
}

/// Where the name of a long option ends.
fn name_end_of(w: &str, j: usize) -> (r: usize)
    requires
        j <= w@.len(),
    ensures
        r == name_end(w@, j as int),
        j <= r <= w@.len(),
{
    let n = w.unicode_len();
    let mut k = j;
    while k < n
        invariant
            n == w@.len(),
            j <= k <= n,
            name_end(w@, j as int) == name_end(w@, k as int),
        decreases n - k,
    {
        if w.get_char(k) == '=' {
            return k;
        }
        k += 1;
    }
    k
}

/// What a short option letter stands for.
fn short_item_of(ctx: Ctx, c: char) -> (r: Item)
    ensures
        r == short_item(ctx, c),
{
    if c == 'p' {
        Item::Value(Opt::FlakePath)
    } else if c == 'v' {
        Item::Switch(Flag::Verbose)
    } else if c == 'h' {
        Item::Help
    } else if c == 'V' {
        Item::Version
    } else {
        match ctx {
            Ctx::Switch | Ctx::Boot => {
                if c == 'H' { Item::Value(Opt::Host) }
                else if c == 'T' { Item::Switch(Flag::Target) }
                else if c == 'B' { Item::Value(Opt::BuildHost) }
                else if c == 'l' { Item::Switch(Flag::Local) }
                else if c == 't' { Item::Switch(Flag::Trace) }
                else if c == 's' { Item::Value(Opt::Substituter) }
                else if c == 'k' { Item::Value(Opt::Key) }
                else if c == 'n' { Item::Switch(Flag::DryRun) }
                else { Item::Unknown }
            },
            Ctx::Build => {
                if c == 'o' { Item::Value(Opt::OutLink) }
                else if c == 't' { Item::Switch(Flag::Trace) }
                else if c == 'n' { Item::Switch(Flag::DryRun) }
                else { Item::Unknown }
            },
            Ctx::Update => if c == 'c' { Item::Switch(Flag::Commit) } else { Item::Unknown },
            Ctx::Gc => {
                if c == 'o' { Item::Value(Opt::OlderThan) }
                else if c == 'k' { Item::Value(Opt::Keep) }
                else if c == 'n' { Item::Switch(Flag::DryRun) }
                else { Item::Unknown }
            },
            Ctx::Optimize => if c == 'n' { Item::Switch(Flag::DryRun) } else { Item::Unknown },
            Ctx::Repair => if c == 'c' { Item::Switch(Flag::CheckOnly) } else { Item::Unknown },
            Ctx::Nuke => {
                if c == 'y' { Item::Switch(Flag::Yes) }
                else if c == 'r' { Item::Switch(Flag::RemoveResults) }
                else { Item::Unknown }
            },
            Ctx::Info => if c == 'd' { Item::Switch(Flag::Detailed) } else { Item::Unknown },
            _ => Item::Unknown,
        }
    }
}

/// What a long option name stands for.
fn long_item_of(ctx: Ctx, n: &str) -> (r: Item)
    ensures
        r == long_item(ctx, n@),
{
    if str_eq(n, "flake-path") {
        Item::Value(Opt::FlakePath)
    } else if str_eq(n, "verbose") {
        Item::Switch(Flag::Verbose)
    } else if str_eq(n, "help") {
        Item::Help
    } else if str_eq(n, "version") {
        Item::Version
    } else {
        match ctx {
            Ctx::Switch | Ctx::Boot => {
                if str_eq(n, "host") { Item::Value(Opt::Host) }
                else if str_eq(n, "target") { Item::Switch(Flag::Target) }
                else if str_eq(n, "target-host") { Item::Value(Opt::TargetHost) }
                else if str_eq(n, "build-host") { Item::Value(Opt::BuildHost) }
                else if str_eq(n, "local") { Item::Switch(Flag::Local) }
                else if str_eq(n, "trace") { Item::Switch(Flag::Trace) }
                else if str_eq(n, "substituter") { Item::Value(Opt::Substituter) }
                else if str_eq(n, "key") { Item::Value(Opt::Key) }
                else if str_eq(n, "dry-run") { Item::Switch(Flag::DryRun) }
                else { Item::Unknown }
            },
            Ctx::Build => {
                if str_eq(n, "no-link") { Item::Switch(Flag::NoLink) }
                else if str_eq(n, "out-link") { Item::Value(Opt::OutLink) }
                else if str_eq(n, "trace") { Item::Switch(Flag::Trace) }
                else if str_eq(n, "dry-run") { Item::Switch(Flag::DryRun) }
                else { Item::Unknown }
            },
            Ctx::Update => if str_eq(n, "commit") { Item::Switch(Flag::Commit) } else { Item::Unknown },
            Ctx::Try => if str_eq(n, "pure") { Item::Switch(Flag::Pure) } else { Item::Unknown },
            Ctx::Gc => {
                if str_eq(n, "older-than") { Item::Value(Opt::OlderThan) }
                else if str_eq(n, "keep") { Item::Value(Opt::Keep) }
                else if str_eq(n, "dry-run") { Item::Switch(Flag::DryRun) }
                else { Item::Unknown }
            },
            Ctx::Optimize => if str_eq(n, "dry-run") { Item::Switch(Flag::DryRun) } else { Item::Unknown },
            Ctx::Repair => if str_eq(n, "check-only") { Item::Switch(Flag::CheckOnly) } else { Item::Unknown },
            Ctx::Nuke => {
                if str_eq(n, "yes") { Item::Switch(Flag::Yes) }
                else if str_eq(n, "remove-results") { Item::Switch(Flag::RemoveResults) }
                else if str_eq(n, "skip-rebuild") { Item::Switch(Flag::SkipRebuild) }
                else { Item::Unknown }
            },
            Ctx::Info => if str_eq(n, "detailed") { Item::Switch(Flag::Detailed) } else { Item::Unknown },
            _ => Item::Unknown,
        }
    }
}

/// The subcommand a word names where the reading stands, if any.
fn subcommand_of(ctx: Ctx, w: &str) -> (r: Option<Ctx>)
    ensures
        r == subcommand(ctx, w@),
{
    match ctx {
        Ctx::Root => {
            if str_eq(w, "switch") || str_eq(w, "s") { Some(Ctx::Switch) }
            else if str_eq(w, "boot") { Some(Ctx::Boot) }
            else if str_eq(w, "build") || str_eq(w, "b") { Some(Ctx::Build) }
            else if str_eq(w, "update") || str_eq(w, "u") { Some(Ctx::Update) }
            else if str_eq(w, "store") { Some(Ctx::Store) }
            else if str_eq(w, "try") { Some(Ctx::Try) }
            else { None }
        },
        Ctx::Store => {
            if str_eq(w, "gc") || str_eq(w, "clean") { Some(Ctx::Gc) }
            else if str_eq(w, "optimize") { Some(Ctx::Optimize) }
            else if str_eq(w, "repair") { Some(Ctx::Repair) }
            else if str_eq(w, "nuke") { Some(Ctx::Nuke) }
            else if str_eq(w, "info") { Some(Ctx::Info) }
            else { None }
        },
        _ => None,
    }
}

/// Reads a 32-bit unsigned numeral (digits after an optional `+`).
pub fn parse_u32(w: &str) -> (r: Option<u32>)
    ensures
        r is Some <==> is_u32_numeral(w@),
        r matches Some(v) ==> v as nat == digits_value(unsigned_part(w@)),
{
    let n = w.unicode_len();
    let d = if n > 0 && w.get_char(0) == '+' { w.substring_char(1, n) } else { w };
    assert(d@ =~= unsigned_part(w@));
    let m = d.unicode_len();
    if m == 0 {
        return None;
    }
    let mut acc: u64 = 0;
    let mut big = false;
    let mut k: usize = 0;
    while k < m
        invariant
            m == d@.len(),
            d@ == unsigned_part(w@),
            k <= m,
            all_digits(d@.subrange(0, k as int)),
            big ==> digits_value(d@.subrange(0, k as int)) > u32::MAX,
            !big ==> acc as nat == digits_value(d@.subrange(0, k as int)) && acc <= u32::MAX,
        decreases m - k,
    {
        let c = d.get_char(k);
        if c < '0' || c > '9' {
            assert(d@[k as int] == c);
            assert(!all_digits(d@));
            return None;
        }
        let ghost pre = d@.subrange(0, k as int);
        let ghost next = d@.subrange(0, k + 1);
        assert(next.drop_last() =~= pre);
        assert(next.last() == c);
        assert(all_digits(next));
        if !big {
            acc = acc * 10 + ((c as u32) - ('0' as u32)) as u64;
            if acc > 4294967295u64 {
                big = true;
            }
        }
        k += 1;
    }
    assert(d@.subrange(0, m as int) =~= d@);
    if big {
        None
    } else {
        Some(acc as u32)
    }
}

fn value_at(values: &Vec<Option<String>>, o: Opt) -> (r: Option<String>)
    requires
        values@.len() == N_OPTS,
    ensures
        opt_view(r) == values@.map_values(|v: Option<String>| opt_view(v))[o.slot()],
{
    match &values[o.index()] {
        Some(s) => Some(s.clone()),
        None => None,
    }
}

impl Scanner {
    fn finish(self) -> (r: Result<Cli, ParseError>)
        requires
            self.wf(),
        ensures
            match finish_error(self@) {
                Some(e) => r == Err::<Cli, ParseError>(e),
                None => r matches Ok(cli) && cli_matches(cli, self@),
            },
    {
        if let Some((_, at)) = self.pending {
            return Err(ParseError::MissingValue(at));
        }
        let flake_path = value_at(&self.values, Opt::FlakePath);
        let verbose = self.flags[Flag::Verbose.index()];
        let fl = &self.flags;
        let command = match self.ctx {
            Ctx::Root | Ctx::Store => {
                return Err(ParseError::MissingSubcommand);
            },
            Ctx::Switch | Ctx::Boot => {
                let a = OsArgs {
                    host: value_at(&self.values, Opt::Host),
                    target: fl[Flag::Target.index()],
                    target_host: value_at(&self.values, Opt::TargetHost),
                    build_host: value_at(&self.values, Opt::BuildHost),
                    local: fl[Flag::Local.index()],
                    trace: fl[Flag::Trace.index()],
                    substituter: value_at(&self.values, Opt::Substituter),
                    key: value_at(&self.values, Opt::Key),
                    dry_run: fl[Flag::DryRun.index()],
                };
                if self.ctx == Ctx::Switch {
                    Commands::Switch(a)
                } else {
                    Commands::Boot(a)
                }
            },
            Ctx::Build => {
                let target = if self.positionals.len() > 0 {
                    Some(owned(self.positionals[0].as_str()))
                } else {
                    None
                };
                Commands::Build(BuildArgs {
                    target,
                    no_link: fl[Flag::NoLink.index()],
                    out_link: value_at(&self.values, Opt::OutLink),
                    trace: fl[Flag::Trace.index()],
                    dry_run: fl[Flag::DryRun.index()],
                })
            },
            Ctx::Update => Commands::Update(UpdateArgs {
                inputs: self.positionals,
                commit: fl[Flag::Commit.index()],
            }),
            Ctx::Try => {
                if self.positionals.len() == 0 {
                    return Err(ParseError::MissingPackages);
                }
                Commands::Try(TryArgs { packages: self.positionals, cmd: self.cmd, pure: fl[Flag::Pure.index()] })
            },
            Ctx::Gc => {
                let keep = match &self.values[Opt::Keep.index()] {
                    Some(k) => match parse_u32(k.as_str()) {
                        Some(v) => v,
                        None => {
                            return Err(ParseError::InvalidKeep);
                        },
                    },
                    None => 3,
                };
                Commands::Store {
                    command: StoreCommands::Gc(GcArgs {
                        older_than: value_at(&self.values, Opt::OlderThan),
                        keep,
                        dry_run: fl[Flag::DryRun.index()],
                    }),
                }
            },
            Ctx::Optimize => Commands::Store {
                command: StoreCommands::Optimize(OptimizeArgs { dry_run: fl[Flag::DryRun.index()] }),
            },
            Ctx::Repair => Commands::Store {
                command: StoreCommands::Repair(RepairArgs {
                    paths: self.positionals,
                    check_only: fl[Flag::CheckOnly.index()],
                }),
            },
            Ctx::Nuke => Commands::Store {
                command: StoreCommands::Nuke(NukeArgs {
                    yes: fl[Flag::Yes.index()],
                    remove_results: fl[Flag::RemoveResults.index()],
                    skip_rebuild: fl[Flag::SkipRebuild.index()],
                }),
            },
            Ctx::Info => Commands::Store {
                command: StoreCommands::Info(InfoArgs { detailed: fl[Flag::Detailed.index()] }),
            },
        };
        Ok(Cli { flake_path, verbose, command })
    }
}

impl Cli {
    /// Reads a command line, the program name first.
    pub fn try_parse_from(argv: &[&str]) -> (r: Result<Cli, ParseError>)
        ensures
            match parse_outcome(str_views(argv@)) {
                Ok(s) => r matches Ok(cli) && cli_matches(cli, s),
                Err(e) => r == Err::<Cli, ParseError>(e),
            },
    {
        let ghost all = str_views(argv@);
        let ghost ws = if all.len() == 0 { all } else { all.drop_first() };
        let mut sc = Scanner::new();
        let n = argv.len();
        let mut i: usize = 1;
        assert(ws.subrange(0, ws.len() as int) =~= ws);
        while i < n
            invariant
                sc.wf(),
                1 <= i,
                n > 0 ==> i <= n,
                n == argv@.len(),
                all == str_views(argv@),
                ws == (if all.len() == 0 { all } else { all.drop_first() }),
                i <= n ==> scan_words(initial_scan(), ws, 1) == scan_words(sc@, ws.subrange(i - 1, ws.len() as int), i as nat),
                n == 0 ==> sc@ == initial_scan(),
            decreases n - i,
        {
            let ghost rest = ws.subrange(i - 1, ws.len() as int);
            assert(rest[0] == argv@[i as int]@);
            assert(rest.drop_first() =~= ws.subrange(i as int, ws.len() as int));
            match sc.step(argv[i], i) {
                Ok(()) => {},
                Err(e) => {
                    return Err(e);
                },
            }
            i += 1;
        }
        proof {
            if n > 0 {
                assert(ws.subrange(n - 1, ws.len() as int) =~= Seq::<Seq<char>>::empty());
            } else {
                assert(ws =~= Seq::<Seq<char>>::empty());
            }
        }
        sc.finish()
    }
}

} // verus!
