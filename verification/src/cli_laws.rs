//! What each word of a command line says, word by word.
use crate::cli::{
    after_word, after_words, first_byte, flag_named, is_line, line_says, number_value, opt_named,
    with_flag, with_value, without_value, Cli, Command, LineState, Opt, Verb,
};
use crate::notify::opt_bytes;
use crate::text;
use vstd::prelude::*;
use vstd::utf8::{decode_utf8, encode_utf8, valid_utf8};

verus! {

/// An option's name with its two dashes.
pub open spec fn dashed(name: Seq<char>) -> Seq<u8> {
    seq![45u8, 45u8] + encode_utf8(name)
}

/// Whether a word can only be a command or a value: options begin with a
/// dash, and a single dash is no option.
pub open spec fn is_plain(word: Seq<u8>) -> bool {
    word.len() < 2 || word[0] != 45
}

/// Whether a line can take any word: no option waits for its value, and no
/// `--` has closed it.
pub open spec fn is_ready(line: LineState) -> bool {
    line.pending is None && !line.closed
}

/// The line after an option and the word behind it.
pub open spec fn after_two(line: LineState, option: Seq<u8>, value: Seq<u8>) -> Option<LineState> {
    match after_word(line, option) {
        Some(waiting) => after_word(waiting, value),
        None => None,
    }
}

proof fn lemma_names()
    ensures
        encode_utf8("run"@) == seq![114u8, 117, 110],
        encode_utf8("install"@) == seq![105u8, 110, 115, 116, 97, 108, 108],
        encode_utf8("uninstall"@) == seq![117u8, 110, 105, 110, 115, 116, 97, 108, 108],
        encode_utf8("status"@) == seq![115u8, 116, 97, 116, 117, 115],
        encode_utf8("db-path"@) == seq![100u8, 98, 45, 112, 97, 116, 104],
        encode_utf8("log-file"@) == seq![108u8, 111, 103, 45, 102, 105, 108, 101],
        encode_utf8("maintenance-interval"@) == seq![
            109u8, 97, 105, 110, 116, 101, 110, 97, 110, 99, 101, 45, 105, 110, 116, 101, 114, 118,
            97, 108,
        ],
        encode_utf8("heartbeat-interval"@) == seq![
            104u8, 101, 97, 114, 116, 98, 101, 97, 116, 45, 105, 110, 116, 101, 114, 118, 97, 108,
        ],
        encode_utf8("verbose"@) == seq![118u8, 101, 114, 98, 111, 115, 101],
        encode_utf8("no-log-file"@) == seq![110u8, 111, 45, 108, 111, 103, 45, 102, 105, 108, 101],
        encode_utf8("durable"@) == seq![100u8, 117, 114, 97, 98, 108, 101],
        encode_utf8("force"@) == seq![102u8, 111, 114, 99, 101],
{
    reveal_strlit("run");
    reveal_strlit("install");
    reveal_strlit("uninstall");
    reveal_strlit("status");
    reveal_strlit("db-path");
    reveal_strlit("log-file");
    reveal_strlit("maintenance-interval");
    reveal_strlit("heartbeat-interval");
    reveal_strlit("verbose");
    reveal_strlit("no-log-file");
    reveal_strlit("durable");
    reveal_strlit("force");
    vstd::utf8::is_ascii_chars_encode_utf8("run"@);
    vstd::utf8::is_ascii_chars_encode_utf8("install"@);
    vstd::utf8::is_ascii_chars_encode_utf8("uninstall"@);
    vstd::utf8::is_ascii_chars_encode_utf8("status"@);
    vstd::utf8::is_ascii_chars_encode_utf8("db-path"@);
    vstd::utf8::is_ascii_chars_encode_utf8("log-file"@);
    vstd::utf8::is_ascii_chars_encode_utf8("maintenance-interval"@);
    vstd::utf8::is_ascii_chars_encode_utf8("heartbeat-interval"@);
    vstd::utf8::is_ascii_chars_encode_utf8("verbose"@);
    vstd::utf8::is_ascii_chars_encode_utf8("no-log-file"@);
    vstd::utf8::is_ascii_chars_encode_utf8("durable"@);
    vstd::utf8::is_ascii_chars_encode_utf8("force"@);
}

/// The name of an option ends at the first `=`.
proof fn lemma_name_end(name: Seq<u8>, rest: Seq<u8>)
    requires
        forall|i: int| 0 <= i < name.len() ==> #[trigger] name[i] != 61,
        rest.len() == 0 || rest[0] == 61,
    ensures
        first_byte(name + rest, 61) == name.len(),
        (name + rest).take(name.len() as int) == name,
        rest.len() > 0 ==> (name + rest).skip(name.len() as int + 1) == rest.skip(1),
    decreases name.len(),
{
    assert((name + rest).take(name.len() as int) =~= name);
    assert(rest.len() > 0 ==> (name + rest).skip(name.len() as int + 1) =~= rest.skip(1));
    if name.len() > 0 {
        lemma_name_end(name.skip(1), rest);
        assert((name + rest).skip(1) =~= name.skip(1) + rest);
        assert((name + rest)[0] == name[0]);
    } else {
        assert(name + rest =~= rest);
    }
}

proof fn lemma_long_word(line: LineState, name: Seq<u8>, rest: Seq<u8>)
    requires
        is_ready(line),
        name.len() > 0,
        forall|i: int| 0 <= i < name.len() ==> #[trigger] name[i] != 61,
        rest.len() == 0 || rest[0] == 61,
    ensures
        after_word(line, seq![45u8, 45u8] + name + rest) == (match opt_named(line.verb, name) {
            Some(opt) => if rest.len() > 0 {
                with_value(line, opt, rest.skip(1))
            } else {
                Some(LineState { pending: Some(opt), ..line })
            },
            None => match flag_named(line.verb, name) {
                Some(flag) => if rest.len() > 0 {
                    None
                } else {
                    with_flag(line, flag)
                },
                None => None,
            },
        }),
{
    let word = seq![45u8, 45u8] + name + rest;
    assert(word.skip(2) =~= name + rest);
    lemma_name_end(name, rest);
    assert(word[0] == 45 && word[1] == 45);
}

proof fn lemma_long_alone(line: LineState, name: Seq<u8>)
    requires
        is_ready(line),
        name.len() > 0,
        forall|i: int| 0 <= i < name.len() ==> #[trigger] name[i] != 61,
    ensures
        after_word(line, seq![45u8, 45u8] + name) == (match opt_named(line.verb, name) {
            Some(opt) => Some(LineState { pending: Some(opt), ..line }),
            None => match flag_named(line.verb, name) {
                Some(flag) => with_flag(line, flag),
                None => None,
            },
        }),
{
    lemma_long_word(line, name, Seq::empty());
    assert(seq![45u8, 45u8] + name + Seq::<u8>::empty() =~= seq![45u8, 45u8] + name);
}

/// The first plain word is the command, and only four words are one; a second
/// plain word is refused.
#[verifier::spinoff_prover]
#[verifier::rlimit(40)]
pub proof fn law_a_command_is_named_once(line: LineState, word: Seq<u8>)
    requires
        is_ready(line),
        is_plain(word),
    ensures
        line.verb is Some ==> after_word(line, word) is None,
        line.verb is None && word == encode_utf8("run"@) ==> after_word(line, word) == Some(
            LineState { verb: Some(Verb::Run), ..line },
        ),
        line.verb is None && word == encode_utf8("install"@) ==> after_word(line, word) == Some(
            LineState { verb: Some(Verb::Install), ..line },
        ),
        line.verb is None && word == encode_utf8("uninstall"@) ==> after_word(line, word) == Some(
            LineState { verb: Some(Verb::Uninstall), ..line },
        ),
        line.verb is None && word == encode_utf8("status"@) ==> after_word(line, word) == Some(
            LineState { verb: Some(Verb::Status), ..line },
        ),
        word != encode_utf8("run"@) && word != encode_utf8("install"@) && word != encode_utf8(
            "uninstall"@,
        ) && word != encode_utf8("status"@) ==> after_word(line, word) is None,
{
    lemma_names();
    assert(encode_utf8("run"@).len() == 3);
    assert(encode_utf8("install"@).len() == 7);
    assert(encode_utf8("uninstall"@).len() == 9);
    assert(encode_utf8("status"@).len() == 6);
}

/// `--db-path` takes the next word, which must hold something. Before the
/// command and after it the option may stand once each.
#[verifier::spinoff_prover]
#[verifier::rlimit(40)]
pub proof fn law_a_database_is_named_once_on_each_side(
    line: LineState,
    value: Seq<u8>,
    joined: bool,
)
    requires
        is_ready(line),
        is_plain(value) || joined,
    ensures
        ({
            let after = if joined {
                after_word(line, dashed("db-path"@) + seq![61u8] + value)
            } else {
                after_two(line, dashed("db-path"@), value)
            };
            &&& value.len() == 0 ==> after is None
            &&& line.verb is None && line.db_before is Some ==> after is None
            &&& line.verb is Some && line.db_after is Some ==> after is None
            &&& value.len() > 0 && line.verb is None && line.db_before is None ==> after == Some(
                LineState { db_before: Some(value), ..line },
            )
            &&& value.len() > 0 && line.verb is Some && line.db_after is None ==> after == Some(
                LineState { db_after: Some(value), ..line },
            )
        }),
{
    lemma_names();
    let name = encode_utf8("db-path"@);
    lemma_long_alone(line, name);
    lemma_long_word(line, name, seq![61u8] + value);
    assert((seq![61u8] + value).skip(1) =~= value);
    assert(dashed("db-path"@) + seq![61u8] + value =~= seq![45u8, 45u8] + name + (seq![61u8]
        + value));
}

/// `--log-file` takes the next word as the file, behind `run` alone and once.
#[verifier::spinoff_prover]
#[verifier::rlimit(40)]
pub proof fn law_a_log_file_is_named_once(line: LineState, value: Seq<u8>, joined: bool)
    requires
        is_ready(line),
        is_plain(value) || joined,
    ensures
        ({
            let after = if joined {
                after_word(line, dashed("log-file"@) + seq![61u8] + value)
            } else {
                after_two(line, dashed("log-file"@), value)
            };
            &&& line.verb != Some(Verb::Run) || line.log_file is Some || value.len() == 0
                ==> after is None
            &&& line.verb == Some(Verb::Run) && line.log_file is None && value.len() > 0 ==> after
                == Some(LineState { log_file: Some(value), ..line })
        }),
{
    lemma_names();
    let name = encode_utf8("log-file"@);
    lemma_long_alone(line, name);
    lemma_long_word(line, name, seq![61u8] + value);
    assert((seq![61u8] + value).skip(1) =~= value);
    assert(dashed("log-file"@) + seq![61u8] + value =~= seq![45u8, 45u8] + name + (seq![61u8]
        + value));
}

/// The maintenance interval takes a whole number of seconds, behind `run`
/// alone and once.
#[verifier::spinoff_prover]
#[verifier::rlimit(40)]
pub proof fn law_a_maintenance_interval_is_given_once(
    line: LineState,
    value: Seq<u8>,
    joined: bool,
)
    requires
        is_ready(line),
        is_plain(value) || joined,
    ensures
        ({
            let after = if joined {
                after_word(line, dashed("maintenance-interval"@) + seq![61u8] + value)
            } else {
                after_two(line, dashed("maintenance-interval"@), value)
            };
            &&& line.verb != Some(Verb::Run) || line.maintenance is Some || number_value(value)
                is None ==> after is None
            &&& line.verb == Some(Verb::Run) && line.maintenance is None && number_value(value)
                is Some ==> after == Some(LineState { maintenance: number_value(value), ..line })
        }),
{
    lemma_names();
    let name = encode_utf8("maintenance-interval"@);
    lemma_long_alone(line, name);
    lemma_long_word(line, name, seq![61u8] + value);
    assert((seq![61u8] + value).skip(1) =~= value);
    assert(dashed("maintenance-interval"@) + seq![61u8] + value =~= seq![45u8, 45u8] + name + (
    seq![61u8] + value));
}

/// The heartbeat interval takes a whole number of seconds, behind `run` alone
/// and once.
#[verifier::spinoff_prover]
#[verifier::rlimit(40)]
pub proof fn law_a_heartbeat_interval_is_given_once(line: LineState, value: Seq<u8>, joined: bool)
    requires
        is_ready(line),
        is_plain(value) || joined,
    ensures
        ({
            let after = if joined {
                after_word(line, dashed("heartbeat-interval"@) + seq![61u8] + value)
            } else {
                after_two(line, dashed("heartbeat-interval"@), value)
            };
            &&& line.verb != Some(Verb::Run) || line.heartbeat is Some || number_value(value)
                is None ==> after is None
            &&& line.verb == Some(Verb::Run) && line.heartbeat is None && number_value(value)
                is Some ==> after == Some(LineState { heartbeat: number_value(value), ..line })
        }),
{
    lemma_names();
    let name = encode_utf8("heartbeat-interval"@);
    lemma_long_alone(line, name);
    lemma_long_word(line, name, seq![61u8] + value);
    assert((seq![61u8] + value).skip(1) =~= value);
    assert(dashed("heartbeat-interval"@) + seq![61u8] + value =~= seq![45u8, 45u8] + name + (
    seq![61u8] + value));
}

/// A number is given as its decimal digits, an optional plus in front; what
/// holds anything else, or does not fit, is no number.
pub proof fn law_a_number_is_given_in_digits(n: nat, value: Seq<u8>)
    ensures
        n <= u64::MAX ==> number_value(encode_utf8(text::decimal_text(n))) == Some(n as u64),
        n > u64::MAX ==> number_value(encode_utf8(text::decimal_text(n))) is None,
        number_value(value) is Some ==> valid_utf8(value) && decode_utf8(value).len() > 0
            && forall|i: int|
            0 <= i < decode_utf8(value).len() ==> 48 <= #[trigger] decode_utf8(value)[i] as u32
                <= 57 || (i == 0 && decode_utf8(value)[i] == '+'),
{
    let written = text::decimal_text(n);
    text::law_decimal_text_reads_back(n);
    vstd::utf8::encode_utf8_valid_utf8(written);
    vstd::utf8::encode_utf8_decode_utf8(written);
    if number_value(value) is Some {
        let said = decode_utf8(value);
        let digits = if said[0] == '+' && said.len() > 0 {
            said.skip(1)
        } else {
            said
        };
        assert(text::all_digits(digits));
        assert forall|i: int| 0 <= i < said.len() implies 48 <= #[trigger] said[i] as u32 <= 57 || (i
            == 0 && said[i] == '+') by {
            if said[0] == '+' {
                if i > 0 {
                    assert(text::is_digit(digits[i - 1]));
                }
            } else {
                assert(text::is_digit(digits[i]));
            }
        }
    }
}

/// `--verbose` and each letter of `-v` count one, up to what a byte holds, on
/// their own side of the command. No other letter is an option.
#[verifier::spinoff_prover]
#[verifier::rlimit(40)]
pub proof fn law_each_v_counts_one(line: LineState, letters: Seq<u8>)
    requires
        is_ready(line),
        letters.len() > 0,
        letters[0] != 45,
    ensures
        ({
            let after = after_word(line, seq![45u8] + letters);
            &&& (exists|i: int| 0 <= i < letters.len() && #[trigger] letters[i] != 118)
                ==> after is None
            &&& (forall|i: int| 0 <= i < letters.len() ==> #[trigger] letters[i] == 118)
                && line.verb is None ==> after == Some(
                LineState {
                    verbose_before: if line.verbose_before + letters.len() > 255 {
                        255
                    } else {
                        line.verbose_before + letters.len()
                    },
                    ..line
                },
            )
            &&& (forall|i: int| 0 <= i < letters.len() ==> #[trigger] letters[i] == 118)
                && line.verb is Some ==> after == Some(
                LineState {
                    verbose_after: if line.verbose_after + letters.len() > 255 {
                        255
                    } else {
                        line.verbose_after + letters.len()
                    },
                    ..line
                },
            )
        }),
        after_word(line, dashed("verbose"@)) == after_word(line, seq![45u8, 118u8]),
{
    lemma_names();
    lemma_long_alone(line, encode_utf8("verbose"@));
    let word = seq![45u8] + letters;
    assert(word.skip(1) =~= letters);
    assert(word[0] == 45 && word[1] == letters[0]);
    let short = seq![45u8, 118u8];
    assert(short.skip(1) =~= seq![118u8]);
    assert(opt_named(line.verb, encode_utf8("verbose"@)) is None) by {
        assert(encode_utf8("verbose"@)[0] == 118);
        assert(encode_utf8("db-path"@)[0] == 100);
        assert(encode_utf8("verbose"@).len() == 7);
        assert(encode_utf8("log-file"@).len() == 8);
        assert(encode_utf8("maintenance-interval"@).len() == 20);
        assert(encode_utf8("heartbeat-interval"@).len() == 18);
    }
}

/// The switches: each is set by its own word, behind its own command, once.
#[verifier::spinoff_prover]
#[verifier::rlimit(40)]
pub proof fn law_a_switch_is_set_once(line: LineState)
    requires
        is_ready(line),
    ensures
        line.verb == Some(Verb::Run) && !line.no_log_file ==> after_word(
            line,
            dashed("no-log-file"@),
        ) == Some(LineState { no_log_file: true, ..line }),
        line.verb == Some(Verb::Run) && !line.durable ==> after_word(line, dashed("durable"@))
            == Some(LineState { durable: true, ..line }),
        line.verb == Some(Verb::Install) && !line.force ==> after_word(line, dashed("force"@))
            == Some(LineState { force: true, ..line }),
        line.verb != Some(Verb::Run) || line.no_log_file ==> after_word(
            line,
            dashed("no-log-file"@),
        ) is None,
        line.verb != Some(Verb::Run) || line.durable ==> after_word(line, dashed("durable"@))
            is None,
        line.verb != Some(Verb::Install) || line.force ==> after_word(line, dashed("force"@))
            is None,
{
    lemma_names();
    lemma_long_alone(line, encode_utf8("no-log-file"@));
    lemma_long_alone(line, encode_utf8("durable"@));
    lemma_long_alone(line, encode_utf8("force"@));
    assert(encode_utf8("no-log-file"@).len() == 11);
    assert(encode_utf8("durable"@).len() == 7);
    assert(encode_utf8("force"@).len() == 5);
    assert(encode_utf8("verbose"@).len() == 7);
    assert(encode_utf8("log-file"@).len() == 8);
    assert(encode_utf8("db-path"@).len() == 7);
    assert(encode_utf8("maintenance-interval"@).len() == 20);
    assert(encode_utf8("heartbeat-interval"@).len() == 18);
    assert(encode_utf8("durable"@)[1] == 117);
    assert(encode_utf8("db-path"@)[1] == 98);
    assert(encode_utf8("verbose"@)[1] == 101);
}

/// No other name is an option, and a switch takes no value.
pub proof fn law_other_options_are_refused(line: LineState, name: Seq<u8>, rest: Seq<u8>)
    requires
        is_ready(line),
        name.len() > 0,
        forall|i: int| 0 <= i < name.len() ==> #[trigger] name[i] != 61,
        rest.len() == 0 || rest[0] == 61,
        name != encode_utf8("db-path"@),
        name != encode_utf8("log-file"@),
        name != encode_utf8("maintenance-interval"@),
        name != encode_utf8("heartbeat-interval"@),
        rest.len() > 0 || (name != encode_utf8("verbose"@) && name != encode_utf8("no-log-file"@)
            && name != encode_utf8("durable"@) && name != encode_utf8("force"@)),
    ensures
        after_word(line, seq![45u8, 45u8] + name + rest) is None,
{
    lemma_long_word(line, name, rest);
}

/// Of the options that take a value only `--log-file` can do without: at the
/// end of the line, or before another option, it means the default file. Any
/// other that is left without its value spoils the line.
pub proof fn law_only_the_log_file_can_do_without(line: LineState, word: Seq<u8>)
    requires
        line.pending is Some,
        !line.closed,
        word.len() > 2 || (word.len() == 2 && word[1] != 45),
        word[0] == 45,
    ensures
        line.pending != Some(Opt::LogFile) ==> without_value(line) is None && after_word(line, word)
            is None,
        line.pending == Some(Opt::LogFile) && line.log_file is None ==> without_value(line) == Some(
            LineState { log_file: Some(Seq::empty()), pending: None, ..line },
        ) && after_word(line, word) == after_word(
            LineState { log_file: Some(Seq::empty()), pending: None, ..line },
            word,
        ),
        line.pending == Some(Opt::LogFile) && line.log_file is Some ==> without_value(line)
            is None,
{
}

/// `--` closes the line: no word may follow it, and it says nothing else.
pub proof fn law_a_closed_line_takes_no_word(line: LineState, word: Seq<u8>)
    ensures
        line.closed ==> after_word(line, word) is None,
        !line.closed ==> after_word(line, seq![45u8, 45u8]) == Some(
            LineState { closed: true, ..line },
        ),
{
}

/// Words are read one after another, from a line on which nothing was said.
pub proof fn law_words_are_read_in_order(words: Seq<Vec<u8>>, word: Vec<u8>)
    ensures
        after_words(words.push(word)) == (match after_words(words) {
            Some(line) => after_word(line, word@),
            None => None,
        }),
        after_words(Seq::empty()) matches Some(line) && is_ready(line) && line.verb is None
            && line.verbose_before == 0 && line.verbose_after == 0 && line.db_before is None
            && line.db_after is None && line.log_file is None && !line.no_log_file && !line.durable
            && !line.force && line.maintenance is None && line.heartbeat is None,
{
    assert(words.push(word).drop_last() =~= words);
}

/// What the words said is what the command line comes to. Maintenance runs
/// every hour and the heartbeat every five minutes where nothing was said.
pub proof fn law_a_command_line_is_what_was_said(
    words: Seq<Vec<u8>>,
    env_db: Option<Seq<u8>>,
    line: LineState,
    cli: Cli,
)
    requires
        after_words(words) == Some(line),
        line.pending is None,
        line_says(words, env_db, cli),
    ensures
        line.verbose_after > 0 ==> cli.verbose == line.verbose_after,
        line.verbose_after == 0 ==> cli.verbose == line.verbose_before,
        opt_bytes(cli.db_path) == (if line.db_after is Some {
            line.db_after
        } else if line.db_before is Some {
            line.db_before
        } else {
            env_db
        }),
        cli.command is Run <==> line.verb == Some(Verb::Run),
        cli.command is Install <==> line.verb == Some(Verb::Install),
        cli.command is Uninstall <==> line.verb == Some(Verb::Uninstall),
        cli.command is Status <==> line.verb == Some(Verb::Status),
        cli.command matches Command::Install(args) ==> args.force == line.force,
        cli.command matches Command::Run(args) ==> {
            &&& opt_bytes(args.log_file) == line.log_file
            &&& args.no_log_file == line.no_log_file
            &&& args.durable == line.durable
            &&& line.maintenance is None ==> args.maintenance_interval == 3_600
            &&& line.maintenance is Some ==> args.maintenance_interval == line.maintenance->0
            &&& line.heartbeat is None ==> args.heartbeat_interval == 300
            &&& line.heartbeat is Some ==> args.heartbeat_interval == line.heartbeat->0
        },
{
}

/// A line is whole with a command, at most one of the two log file options,
/// and a database variable that is not empty, unless both sides of the
/// command name a database.
pub proof fn law_a_whole_line_has_a_command(
    words: Seq<Vec<u8>>,
    env_db: Option<Seq<u8>>,
    line: LineState,
)
    requires
        after_words(words) == Some(line),
        line.pending is None,
    ensures
        line.verb is None ==> !is_line(words, env_db),
        line.log_file is Some && line.no_log_file ==> !is_line(words, env_db),
        line.verb is Some && !(line.log_file is Some && line.no_log_file) && env_db is None
            ==> is_line(words, env_db),
        line.verb is Some && !(line.log_file is Some && line.no_log_file) && env_db is Some
            && env_db->0.len() > 0 ==> is_line(words, env_db),
        env_db is Some && env_db->0.len() == 0 && (line.db_before is None || line.db_after is None)
            ==> !is_line(words, env_db),
{
}

} // verus!
