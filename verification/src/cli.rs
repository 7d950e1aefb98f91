//! The command line of `valqeron-engine`.
//!
//! ```text
//! valqeron-engine [-v]... [--verbose]... [--db-path PATH] COMMAND
//!
//! run        [--log-file [FILE] | --no-log-file] [--durable]
//!            [--maintenance-interval SECONDS] [--heartbeat-interval SECONDS]
//! install    [--force]
//! uninstall
//! status
//! ```
//!
//! `-v`, `--verbose` and `--db-path` may stand before or after the command;
//! what stands after it wins. A value follows its option as the next word,
//! which then must not begin with a dash unless it is a single one, or after
//! `=`. No option but `-v` may be repeated. A closing `--` is accepted.
//! Requests for help or the version are no command lines.
use crate::notify::opt_bytes;
use crate::paths::{copy_bytes, same_bytes};
use crate::text;
use vstd::prelude::*;
use vstd::utf8::{decode_utf8, encode_utf8, valid_utf8};

verus! {

pub const DEFAULT_MAINTENANCE_INTERVAL: u64 = 3600;

pub const DEFAULT_HEARTBEAT_INTERVAL: u64 = 300;

// ---------------------------------------------------------------- types
/// A parsed command line.
#[derive(Clone, Debug)]
pub struct Cli {
    pub command: Command,
    pub verbose: u8,
    /// The database that was named, on the line or by the environment.
    pub db_path: Option<Vec<u8>>,
}

#[derive(Clone, Debug)]
pub enum Command {
    /// Run in the foreground, which is what the service manager executes.
    Run(RunArgs),
    /// Install and start the login service.
    Install(InstallArgs),
    /// Stop the login service and remove its definition.
    Uninstall,
    /// Report the engine's state.
    Status,
}

#[derive(Clone, Debug)]
pub struct RunArgs {
    /// Empty where the option stood without a value.
    pub log_file: Option<Vec<u8>>,
    pub no_log_file: bool,
    pub durable: bool,
    pub maintenance_interval: u64,
    pub heartbeat_interval: u64,
}

#[derive(Clone, Copy, Debug, PartialEq, Eq, Structural)]
pub struct InstallArgs {
    pub force: bool,
}

/// The level of the log on stderr.
#[derive(Clone, Copy, Debug, PartialEq, Eq, Structural)]
pub enum Level {
    Info,
    Debug,
    Trace,
}

/// Words that are no command line.
#[derive(Clone, Copy, Debug, PartialEq, Eq, Structural)]
pub struct UsageError;

impl Cli {
    /// The level of the log on stderr. A daemon's stderr is the service
    /// manager's log, so its outcomes show by default.
    pub fn log_level(&self) -> (level: Level)
        ensures
            level == (if self.verbose == 0 {
                Level::Info
            } else if self.verbose == 1 {
                Level::Debug
            } else {
                Level::Trace
            }),
    {
        match self.verbose {
            0 => Level::Info,
            1 => Level::Debug,
            _ => Level::Trace,
        }
    }
}

impl RunArgs {
    /// The log file option: absent, without a value (the default location),
    /// or with a path.
    pub fn log_file_arg(&self) -> (arg: Option<Option<Vec<u8>>>)
        ensures
            arg is None <==> self.log_file is None,
            self.log_file matches Some(path) ==> (arg matches Some(inner) && if path@.len() == 0 {
                inner is None
            } else {
                inner matches Some(p) && p@ == path@
            }),
    {
        match &self.log_file {
            None => None,
            Some(path) => if path.len() == 0 {
                Some(None)
            } else {
                Some(Some(copy_bytes(path)))
            },
        }
    }
}

// ---------------------------------------------------------------- words
/// The four commands.
#[derive(Clone, Copy, Debug, PartialEq, Eq, Structural)]
pub enum Verb {
    Run,
    Install,
    Uninstall,
    Status,
}

/// The options that take a value.
#[derive(Clone, Copy, Debug, PartialEq, Eq, Structural)]
pub enum Opt {
    DbPath,
    LogFile,
    Maintenance,
    Heartbeat,
}

/// The options that take none.
#[derive(Clone, Copy, Debug, PartialEq, Eq, Structural)]
pub enum Flag {
    Verbose,
    NoLogFile,
    Durable,
    Force,
}

/// Where `byte` first stands in `word`, or its length.
pub open spec fn first_byte(word: Seq<u8>, byte: u8) -> int
    decreases word.len(),
{
    if word.len() == 0 || word[0] == byte {
        0
    } else {
        1 + first_byte(word.skip(1), byte)
    }
}

/// The command of a name.
pub open spec fn verb_named(name: Seq<u8>) -> Option<Verb> {
    if name == encode_utf8("run"@) {
        Some(Verb::Run)
    } else if name == encode_utf8("install"@) {
        Some(Verb::Install)
    } else if name == encode_utf8("uninstall"@) {
        Some(Verb::Uninstall)
    } else if name == encode_utf8("status"@) {
        Some(Verb::Status)
    } else {
        None
    }
}

/// The option that takes a value and has a name, after a command or before
/// one.
pub open spec fn opt_named(verb: Option<Verb>, name: Seq<u8>) -> Option<Opt> {
    if name == encode_utf8("db-path"@) {
        Some(Opt::DbPath)
    } else if verb != Some(Verb::Run) {
        None
    } else if name == encode_utf8("log-file"@) {
        Some(Opt::LogFile)
    } else if name == encode_utf8("maintenance-interval"@) {
        Some(Opt::Maintenance)
    } else if name == encode_utf8("heartbeat-interval"@) {
        Some(Opt::Heartbeat)
    } else {
        None
    }
}

/// The option that takes no value and has a name, after a command or before
/// one.
pub open spec fn flag_named(verb: Option<Verb>, name: Seq<u8>) -> Option<Flag> {
    if name == encode_utf8("verbose"@) {
        Some(Flag::Verbose)
    } else if verb == Some(Verb::Run) && name == encode_utf8("no-log-file"@) {
        Some(Flag::NoLogFile)
    } else if verb == Some(Verb::Run) && name == encode_utf8("durable"@) {
        Some(Flag::Durable)
    } else if verb == Some(Verb::Install) && name == encode_utf8("force"@) {
        Some(Flag::Force)
    } else {
        None
    }
}

/// The whole number that a word writes, if it fits.
pub open spec fn number_value(word: Seq<u8>) -> Option<u64> {
    if valid_utf8(word) {
        match text::decimal_number(decode_utf8(word)) {
            Some(n) if n <= u64::MAX => Some(n as u64),
            _ => None,
        }
    } else {
        None
    }
}

// ---------------------------------------------------------------- grammar
/// What the words so far say. What may stand before and after the command
/// is kept apart.
#[verifier::ext_equal]
pub struct LineState {
    pub verb: Option<Verb>,
    pub verbose_before: nat,
    pub verbose_after: nat,
    pub db_before: Option<Seq<u8>>,
    pub db_after: Option<Seq<u8>>,
    pub log_file: Option<Seq<u8>>,
    pub no_log_file: bool,
    pub durable: bool,
    pub force: bool,
    pub maintenance: Option<u64>,
    pub heartbeat: Option<u64>,
    /// The option whose value may follow.
    pub pending: Option<Opt>,
    /// Whether `--` closed the line.
    pub closed: bool,
}

/// A line without words.
pub open spec fn empty_line() -> LineState {
    LineState {
        verb: None,
        verbose_before: 0,
        verbose_after: 0,
        db_before: None,
        db_after: None,
        log_file: None,
        no_log_file: false,
        durable: false,
        force: false,
        maintenance: None,
        heartbeat: None,
        pending: None,
        closed: false,
    }
}

/// `count` more, up to what a byte holds.
pub open spec fn counted(so_far: nat, more: nat) -> nat {
    if so_far + more <= 255 {
        so_far + more
    } else {
        255
    }
}

/// `-v`, some times over.
pub open spec fn with_verbose(line: LineState, times: nat) -> LineState {
    if line.verb is None {
        LineState { verbose_before: counted(line.verbose_before, times), ..line }
    } else {
        LineState { verbose_after: counted(line.verbose_after, times), ..line }
    }
}

/// An option with a value; `None` where it is repeated or the value does not
/// suit it.
pub open spec fn with_value(line: LineState, opt: Opt, value: Seq<u8>) -> Option<LineState> {
    match opt {
        Opt::DbPath => if value.len() == 0 {
            None
        } else if line.verb is None {
            if line.db_before is Some {
                None
            } else {
                Some(LineState { db_before: Some(value), ..line })
            }
        } else if line.db_after is Some {
            None
        } else {
            Some(LineState { db_after: Some(value), ..line })
        },
        Opt::LogFile => if value.len() == 0 || line.log_file is Some {
            None
        } else {
            Some(LineState { log_file: Some(value), ..line })
        },
        Opt::Maintenance => if number_value(value) is None || line.maintenance is Some {
            None
        } else {
            Some(LineState { maintenance: number_value(value), ..line })
        },
        Opt::Heartbeat => if number_value(value) is None || line.heartbeat is Some {
            None
        } else {
            Some(LineState { heartbeat: number_value(value), ..line })
        },
    }
}

/// A line whose last option gets no value: only the log file can do without.
pub open spec fn without_value(line: LineState) -> Option<LineState> {
    match line.pending {
        None => Some(line),
        Some(opt) => if opt == Opt::LogFile && line.log_file is None {
            Some(LineState { log_file: Some(Seq::empty()), pending: None, ..line })
        } else {
            None
        },
    }
}

/// An option that takes no value; `None` where it is repeated.
pub open spec fn with_flag(line: LineState, flag: Flag) -> Option<LineState> {
    match flag {
        Flag::Verbose => Some(with_verbose(line, 1)),
        Flag::NoLogFile => if line.no_log_file {
            None
        } else {
            Some(LineState { no_log_file: true, ..line })
        },
        Flag::Durable => if line.durable {
            None
        } else {
            Some(LineState { durable: true, ..line })
        },
        Flag::Force => if line.force {
            None
        } else {
            Some(LineState { force: true, ..line })
        },
    }
}

/// The line after `--name` or `--name=value`.
pub open spec fn after_long(line: LineState, body: Seq<u8>) -> Option<LineState> {
    let at = first_byte(body, 61);
    let name = body.take(at);
    match without_value(line) {
        None => None,
        Some(ready) => match opt_named(line.verb, name) {
            Some(opt) => if at < body.len() {
                with_value(ready, opt, body.skip(at + 1))
            } else {
                Some(LineState { pending: Some(opt), ..ready })
            },
            None => match flag_named(line.verb, name) {
                Some(flag) => if at < body.len() {
                    None
                } else {
                    with_flag(ready, flag)
                },
                None => None,
            },
        },
    }
}

/// The line after a cluster of short options, of which `-v` is the only one.
pub open spec fn after_short(line: LineState, body: Seq<u8>) -> Option<LineState> {
    match without_value(line) {
        None => None,
        Some(ready) => if forall|i: int| 0 <= i < body.len() ==> #[trigger] body[i] == 118 {
            Some(with_verbose(ready, body.len()))
        } else {
            None
        },
    }
}

/// The line after a word that is no option: the value that is waited for,
/// or the command.
pub open spec fn after_plain(line: LineState, word: Seq<u8>) -> Option<LineState> {
    match line.pending {
        Some(opt) => with_value(LineState { pending: None, ..line }, opt, word),
        None => if line.verb is None && verb_named(word) is Some {
            Some(LineState { verb: verb_named(word), ..line })
        } else {
            None
        },
    }
}

/// The line after a word.
pub open spec fn after_word(line: LineState, word: Seq<u8>) -> Option<LineState> {
    if line.closed {
        None
    } else if word.len() >= 2 && word[0] == 45 && word[1] == 45 {
        if word.len() == 2 {
            Some(LineState { closed: true, ..line })
        } else {
            after_long(line, word.skip(2))
        }
    } else if word.len() >= 2 && word[0] == 45 {
        after_short(line, word.skip(1))
    } else {
        after_plain(line, word)
    }
}

/// The line after some words.
pub open spec fn after_words(words: Seq<Vec<u8>>) -> Option<LineState>
    decreases words.len(),
{
    if words.len() == 0 {
        Some(empty_line())
    } else {
        match after_words(words.drop_last()) {
            Some(line) => after_word(line, words.last()@),
            None => None,
        }
    }
}

/// Whether a whole line says what `cli` holds. An empty database path in the
/// environment is refused wherever it would be looked at.
pub open spec fn says(line: LineState, env_db: Option<Seq<u8>>, cli: Cli) -> bool {
    let db = if line.db_after is Some {
        line.db_after
    } else if line.db_before is Some {
        line.db_before
    } else {
        env_db
    };
    &&& line.verb is Some
    &&& cli.verbose == (if line.verbose_after > 0 {
        line.verbose_after
    } else {
        line.verbose_before
    })
    &&& opt_bytes(cli.db_path) == db
    &&& match line.verb->0 {
        Verb::Run => cli.command matches Command::Run(args)
            && opt_bytes(args.log_file) == line.log_file && args.no_log_file
            == line.no_log_file && args.durable == line.durable && args.maintenance_interval == (
        match line.maintenance {
            Some(secs) => secs,
            None => DEFAULT_MAINTENANCE_INTERVAL,
        }) && args.heartbeat_interval == (match line.heartbeat {
            Some(secs) => secs,
            None => DEFAULT_HEARTBEAT_INTERVAL,
        }),
        Verb::Install => cli.command matches Command::Install(args) && args.force == line.force,
        Verb::Uninstall => cli.command is Uninstall,
        Verb::Status => cli.command is Status,
    }
}

/// Whether a line can end where it does.
pub open spec fn whole(line: LineState, env_db: Option<Seq<u8>>) -> bool {
    &&& line.verb is Some
    &&& !(line.log_file is Some && line.no_log_file)
    &&& env_db matches Some(path) ==> path.len() > 0 || (line.db_before is Some
        && line.db_after is Some)
}

/// The line that some words make, the program's name aside.
pub open spec fn ended(words: Seq<Vec<u8>>) -> Option<LineState> {
    match after_words(words) {
        Some(line) => without_value(line),
        None => None,
    }
}

/// The words after the program's name.
pub open spec fn arguments(words: Seq<Vec<u8>>) -> Seq<Vec<u8>> {
    if words.len() == 0 {
        words
    } else {
        words.skip(1)
    }
}

/// Whether some words, after the program's name, are a command line.
pub open spec fn is_line(words: Seq<Vec<u8>>, env_db: Option<Seq<u8>>) -> bool {
    ended(words) matches Some(line) && whole(line, env_db)
}

/// Whether some words, after the program's name, say what `cli` holds.
pub open spec fn line_says(words: Seq<Vec<u8>>, env_db: Option<Seq<u8>>, cli: Cli) -> bool {
    ended(words) matches Some(line) && says(line, env_db, cli)
}

// ---------------------------------------------------------------- parsing
/// The words read so far.
struct Line {
    verb: Option<Verb>,
    verbose_before: u8,
    verbose_after: u8,
    db_before: Option<Vec<u8>>,
    db_after: Option<Vec<u8>>,
    log_file: Option<Vec<u8>>,
    no_log_file: bool,
    durable: bool,
    force: bool,
    maintenance: Option<u64>,
    heartbeat: Option<u64>,
    pending: Option<Opt>,
    closed: bool,
}

impl View for Line {
    type V = LineState;

    closed spec fn view(&self) -> LineState {
        LineState {
            verb: self.verb,
            verbose_before: self.verbose_before as nat,
            verbose_after: self.verbose_after as nat,
            db_before: opt_bytes(self.db_before),
            db_after: opt_bytes(self.db_after),
            log_file: opt_bytes(self.log_file),
            no_log_file: self.no_log_file,
            durable: self.durable,
            force: self.force,
            maintenance: self.maintenance,
            heartbeat: self.heartbeat,
            pending: self.pending,
            closed: self.closed,
        }
    }
}

fn find_verb(name: &Vec<u8>) -> (verb: Option<Verb>)
    ensures
        verb == verb_named(name@),
{
    if same_bytes(name, "run") {
        Some(Verb::Run)
    } else if same_bytes(name, "install") {
        Some(Verb::Install)
    } else if same_bytes(name, "uninstall") {
        Some(Verb::Uninstall)
    } else if same_bytes(name, "status") {
        Some(Verb::Status)
    } else {
        None
    }
}

fn find_opt(verb: Option<Verb>, name: &Vec<u8>) -> (opt: Option<Opt>)
    ensures
        opt == opt_named(verb, name@),
{
    let running = match verb {
        Some(Verb::Run) => true,
        _ => false,
    };
    if same_bytes(name, "db-path") {
        Some(Opt::DbPath)
    } else if !running {
        None
    } else if same_bytes(name, "log-file") {
        Some(Opt::LogFile)
    } else if same_bytes(name, "maintenance-interval") {
        Some(Opt::Maintenance)
    } else if same_bytes(name, "heartbeat-interval") {
        Some(Opt::Heartbeat)
    } else {
        None
    }
}

fn find_flag(verb: Option<Verb>, name: &Vec<u8>) -> (flag: Option<Flag>)
    ensures
        flag == flag_named(verb, name@),
{
    if same_bytes(name, "verbose") {
        return Some(Flag::Verbose);
    }
    match verb {
        Some(Verb::Run) => if same_bytes(name, "no-log-file") {
            Some(Flag::NoLogFile)
        } else if same_bytes(name, "durable") {
            Some(Flag::Durable)
        } else {
            None
        },
        Some(Verb::Install) => if same_bytes(name, "force") {
            Some(Flag::Force)
        } else {
            None
        },
        _ => None,
    }
}

fn read_number(word: &Vec<u8>) -> (number: Option<u64>)
    ensures
        number == number_value(word@),
{
    match text::utf8_text(word) {
        Some(written) => match text::parse_u64(written.as_str()) {
            Ok(number) => Some(number),
            Err(_) => None,
        },
        None => None,
    }
}

/// The bytes from `from` to `to`.
fn part(word: &Vec<u8>, from: usize, to: usize) -> (out: Vec<u8>)
    requires
        from <= to <= word@.len(),
    ensures
        out@ == word@.subrange(from as int, to as int),
{
    let mut out: Vec<u8> = Vec::new();
    let mut i: usize = from;
    while i < to
        invariant
            from <= i <= to <= word@.len(),
            out@ =~= word@.subrange(from as int, i as int),
        decreases to - i,
    {
        out.push(word[i]);
        i += 1;
    }
    out
}

impl Line {
    fn new() -> (line: Line)
        ensures
            line@ == empty_line(),
    {
        Line {
            verb: None,
            verbose_before: 0,
            verbose_after: 0,
            db_before: None,
            db_after: None,
            log_file: None,
            no_log_file: false,
            durable: false,
            force: false,
            maintenance: None,
            heartbeat: None,
            pending: None,
            closed: false,
        }
    }

    fn add_verbose(&mut self, times: usize)
        ensures
            final(self)@ == with_verbose(old(self)@, times as nat),
    {
        let more: u8 = if times <= 255 {
            times as u8
        } else {
            255
        };
        if self.verb.is_none() {
            self.verbose_before = if self.verbose_before <= 255 - more {
                self.verbose_before + more
            } else {
                255
            };
        } else {
            self.verbose_after = if self.verbose_after <= 255 - more {
                self.verbose_after + more
            } else {
                255
            };
        }
    }

    fn take_value(&mut self, opt: Opt, value: Vec<u8>) -> (taken: bool)
        ensures
            taken <==> with_value(old(self)@, opt, value@) is Some,
            taken ==> with_value(old(self)@, opt, value@) == Some(final(self)@),
    {
        match opt {
            Opt::DbPath => {
                if value.len() == 0 {
                    return false;
                }
                if self.verb.is_none() {
                    if self.db_before.is_some() {
                        return false;
                    }
                    self.db_before = Some(value);
                } else {
                    if self.db_after.is_some() {
                        return false;
                    }
                    self.db_after = Some(value);
                }
                true
            },
            Opt::LogFile => {
                if value.len() == 0 || self.log_file.is_some() {
                    return false;
                }
                self.log_file = Some(value);
                true
            },
            Opt::Maintenance => {
                let number = read_number(&value);
                if number.is_none() || self.maintenance.is_some() {
                    return false;
                }
                self.maintenance = number;
                true
            },
            Opt::Heartbeat => {
                let number = read_number(&value);
                if number.is_none() || self.heartbeat.is_some() {
                    return false;
                }
                self.heartbeat = number;
                true
            },
        }
    }

    fn settle(&mut self) -> (settled: bool)
        ensures
            settled <==> without_value(old(self)@) is Some,
            settled ==> without_value(old(self)@) == Some(final(self)@),
    {
        match self.pending {
            None => true,
            Some(Opt::LogFile) => {
                if self.log_file.is_some() {
                    return false;
                }
                let nothing: Vec<u8> = Vec::new();
                assert(nothing@ =~= Seq::<u8>::empty());
                self.log_file = Some(nothing);
                self.pending = None;
                true
            },
            Some(_) => false,
        }
    }

    fn take_flag(&mut self, flag: Flag) -> (taken: bool)
        ensures
            taken <==> with_flag(old(self)@, flag) is Some,
            taken ==> with_flag(old(self)@, flag) == Some(final(self)@),
    {
        match flag {
            Flag::Verbose => {
                self.add_verbose(1);
                true
            },
            Flag::NoLogFile => {
                let first = !self.no_log_file;
                self.no_log_file = true;
                first
            },
            Flag::Durable => {
                let first = !self.durable;
                self.durable = true;
                first
            },
            Flag::Force => {
                let first = !self.force;
                self.force = true;
                first
            },
        }
    }

    fn read_long(&mut self, body: &Vec<u8>) -> (read: bool)
        ensures
            read <==> after_long(old(self)@, body@) is Some,
            read ==> after_long(old(self)@, body@) == Some(final(self)@),
    {
        let mut at: usize = 0;
        assert(body@.skip(0) =~= body@);
        while at < body.len() && body[at] != 61
            invariant
                at <= body@.len(),
                first_byte(body@, 61) == at + first_byte(body@.skip(at as int), 61),
            decreases body@.len() - at,
        {
            assert(body@.skip(at as int).skip(1) =~= body@.skip(at + 1));
            assert(body@.skip(at as int)[0] == body@[at as int]);
            at += 1;
        }
        proof {
            if at == body@.len() {
                assert(body@.skip(at as int) =~= Seq::<u8>::empty());
            } else {
                assert(body@.skip(at as int)[0] == 61);
            }
            assert(first_byte(body@, 61) == at);
            assert(body@.take(at as int) =~= body@.subrange(0, at as int));
        }
        let name = part(body, 0, at);
        let verb = self.verb;
        if !self.settle() {
            return false;
        }
        match find_opt(verb, &name) {
            Some(opt) => if at < body.len() {
                assert(body@.skip(at + 1) =~= body@.subrange(at + 1, body@.len() as int));
                self.take_value(opt, part(body, at + 1, body.len()))
            } else {
                self.pending = Some(opt);
                true
            },
            None => match find_flag(verb, &name) {
                Some(flag) => if at < body.len() {
                    false
                } else {
                    self.take_flag(flag)
                },
                None => false,
            },
        }
    }

    fn read_short(&mut self, body: &Vec<u8>) -> (read: bool)
        ensures
            read <==> after_short(old(self)@, body@) is Some,
            read ==> after_short(old(self)@, body@) == Some(final(self)@),
    {
        if !self.settle() {
            return false;
        }
        let mut i: usize = 0;
        while i < body.len()
            invariant
                i <= body@.len(),
                forall|j: int| 0 <= j < i ==> #[trigger] body@[j] == 118,
            decreases body@.len() - i,
        {
            if body[i] != 118 {
                return false;
            }
            i += 1;
        }
        self.add_verbose(body.len());
        true
    }

    fn read_plain(&mut self, word: &Vec<u8>) -> (read: bool)
        ensures
            read <==> after_plain(old(self)@, word@) is Some,
            read ==> after_plain(old(self)@, word@) == Some(final(self)@),
    {
        match self.pending {
            Some(opt) => {
                self.pending = None;
                self.take_value(opt, copy_bytes(word))
            },
            None => {
                if self.verb.is_some() {
                    return false;
                }
                let verb = find_verb(word);
                if verb.is_none() {
                    return false;
                }
                self.verb = verb;
                true
            },
        }
    }

    fn read(&mut self, word: &Vec<u8>) -> (read: bool)
        ensures
            read <==> after_word(old(self)@, word@) is Some,
            read ==> after_word(old(self)@, word@) == Some(final(self)@),
    {
        if self.closed {
            return false;
        }
        if word.len() >= 2 && word[0] == 45 && word[1] == 45 {
            if word.len() == 2 {
                self.closed = true;
                return true;
            }
            assert(word@.skip(2) =~= word@.subrange(2, word@.len() as int));
            return self.read_long(&part(word, 2, word.len()));
        }
        if word.len() >= 2 && word[0] == 45 {
            assert(word@.skip(1) =~= word@.subrange(1, word@.len() as int));
            return self.read_short(&part(word, 1, word.len()));
        }
        self.read_plain(word)
    }
}

proof fn lemma_refused_words(words: Seq<Vec<u8>>, i: int)
    requires
        0 <= i <= words.len(),
        after_words(words.take(i)) is None,
    ensures
        after_words(words) is None,
    decreases words.len() - i,
{
    if i < words.len() {
        assert(words.take(i + 1).drop_last() =~= words.take(i));
        lemma_refused_words(words, i + 1);
    } else {
        assert(words.take(i) =~= words);
    }
}

impl Cli {
    /// Reads a command line. The first word is the program's name.
    pub fn try_parse_from(words: &Vec<Vec<u8>>) -> (cli: Result<Cli, UsageError>)
        ensures
            cli is Ok <==> is_line(arguments(words@), None),
            cli matches Ok(c) ==> line_says(arguments(words@), None, c),
    {
        Cli::try_parse_with(words, &None)
    }

    /// Reads a command line, with the database that the environment names
    /// where the line names none.
    pub fn try_parse_with(words: &Vec<Vec<u8>>, env_db: &Option<Vec<u8>>) -> (cli: Result<
        Cli,
        UsageError,
    >)
        ensures
            cli is Ok <==> is_line(arguments(words@), opt_bytes(*env_db)),
            cli matches Ok(c) ==> line_says(arguments(words@), opt_bytes(*env_db), c),
    {
        let ghost args = arguments(words@);
        let mut line = Line::new();
        let mut i: usize = 1;
        assert(args.take(0) =~= Seq::<Vec<u8>>::empty());
        while i < words.len()
            invariant
                1 <= i,
                i <= words@.len() || i == 1,
                args == arguments(words@),
                after_words(args.take(i - 1)) == Some(line@),
            decreases words@.len() - i,
        {
            proof {
                assert(args.take(i as int).drop_last() =~= args.take(i - 1));
                assert(args.take(i as int).last() == words@[i as int]);
            }
            if !line.read(&words[i]) {
                proof {
                    lemma_refused_words(args, i as int);
                }
                return Err(UsageError);
            }
            i += 1;
        }
        proof {
            assert(args.take(args.len() as int) =~= args);
        }
        if !line.settle() {
            return Err(UsageError);
        }
        if line.log_file.is_some() && line.no_log_file {
            return Err(UsageError);
        }
        if let Some(path) = env_db {
            if path.len() == 0 && (line.db_before.is_none() || line.db_after.is_none()) {
                return Err(UsageError);
            }
        }
        let verb = match line.verb {
            Some(verb) => verb,
            None => {
                return Err(UsageError);
            },
        };
        let verbose: u8 = if line.verbose_after > 0 {
            line.verbose_after
        } else {
            line.verbose_before
        };
        let db_path = match line.db_after {
            Some(path) => Some(path),
            None => match line.db_before {
                Some(path) => Some(path),
                None => match env_db {
                    Some(path) => Some(copy_bytes(path)),
                    None => None,
                },
            },
        };
        let command = match verb {
            Verb::Run => Command::Run(
                RunArgs {
                    log_file: line.log_file,
                    no_log_file: line.no_log_file,
                    durable: line.durable,
                    maintenance_interval: match line.maintenance {
                        Some(secs) => secs,
                        None => DEFAULT_MAINTENANCE_INTERVAL,
                    },
                    heartbeat_interval: match line.heartbeat {
                        Some(secs) => secs,
                        None => DEFAULT_HEARTBEAT_INTERVAL,
                    },
                },
            ),
            Verb::Install => Command::Install(InstallArgs { force: line.force }),
            Verb::Uninstall => Command::Uninstall,
            Verb::Status => Command::Status,
        };
        Ok(Cli { command, verbose, db_path })
    }
}

// ---------------------------------------------------------------- laws
/// A line that names a log file and refuses one is no command line.
pub proof fn law_a_log_file_is_named_or_refused(words: Seq<Vec<u8>>, env_db: Option<Seq<u8>>)
    requires
        ended(words) matches Some(line) && line.log_file is Some && line.no_log_file,
    ensures
        !is_line(words, env_db),
{
}

/// What stands after the command wins over what stands before it, and both
/// win over the environment.
pub proof fn law_the_later_database_wins(words: Seq<Vec<u8>>, env_db: Option<Seq<u8>>, cli: Cli)
    requires
        line_says(words, env_db, cli),
    ensures
        ({
            let line = ended(words)->0;
            &&& line.db_after is Some ==> opt_bytes(cli.db_path) == line.db_after
            &&& line.db_after is None && line.db_before is Some ==> opt_bytes(cli.db_path)
                == line.db_before
            &&& line.db_after is None && line.db_before is None ==> opt_bytes(cli.db_path) == env_db
        }),
{
}

} // verus!
