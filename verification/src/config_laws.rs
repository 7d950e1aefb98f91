//! What the settings come to, one by one: a set value wins, an unset or blank
//! one means the default, and a value that cannot be read is refused.
use crate::cli::RunArgs;
use crate::config;
use crate::config::{db_setting, log_setting};
use crate::engine::{
    asks_durable, cvm_setting, interval_setting, log_file_setting, number_setting,
    recurrence_setting, source_enabled, time_setting, EngineError, Environment,
};
use crate::moment::{clock_read, ClockTime};
use crate::notify::opt_bytes;
use crate::paths::{is_off, joined};
use crate::schedule::{recurrence_spelled, Recurrence};
use crate::text;
use vstd::prelude::*;
use vstd::utf8::{decode_utf8, encode_utf8, valid_utf8};

verus! {

/// Whether a value is set to nothing but whitespace.
pub open spec fn is_blank_value(value: Seq<u8>) -> bool {
    valid_utf8(value) && text::trim_text(decode_utf8(value)).len() == 0
}

/// An interval is the whole number of seconds that its variable holds, blanks
/// around it aside; the default where it is unset or blank; and refused, with
/// the variable named, where it holds anything else.
pub proof fn law_an_interval_is_what_its_variable_says(
    var: Seq<char>,
    value: Seq<u8>,
    default_secs: u64,
)
    ensures
        interval_setting(var, None, default_secs) == Ok::<u64, Seq<char>>(default_secs),
        is_blank_value(value) ==> interval_setting(var, Some(value), default_secs) == Ok::<
            u64,
            Seq<char>,
        >(default_secs),
        interval_setting(var, Some(value), default_secs) matches Ok(secs) ==> valid_utf8(value) && (
        is_blank_value(value) || text::decimal_number(text::trim_text(decode_utf8(value))) == Some(
            secs as nat,
        )),
        interval_setting(var, Some(value), default_secs) matches Err(message) ==> {
            &&& !is_blank_value(value)
            &&& !(valid_utf8(value) && (text::decimal_number(
                text::trim_text(decode_utf8(value)),
            ) matches Some(n) && n <= 0xffff_ffff_ffff_ffff))
            &&& message.len() >= var.len() && message.take(var.len() as int) == var
        },
{
    if let Err(message) = interval_setting(var, Some(value), default_secs) {
        assert(message.take(var.len() as int) =~= var);
    }
}

/// A whole number is what its variable holds, blanks around it aside; the
/// default where it is unset or blank; and refused, with the variable named,
/// where it holds anything else or more than fits.
pub proof fn law_a_number_is_what_its_variable_says(var: Seq<char>, value: Seq<u8>, default: u32)
    ensures
        number_setting(var, None, default) == Ok::<u32, Seq<char>>(default),
        is_blank_value(value) ==> number_setting(var, Some(value), default) == Ok::<
            u32,
            Seq<char>,
        >(default),
        number_setting(var, Some(value), default) matches Ok(n) ==> valid_utf8(value) && (
        is_blank_value(value) || text::decimal_number(text::trim_text(decode_utf8(value))) == Some(
            n as nat,
        )),
        number_setting(var, Some(value), default) matches Err(message) ==> {
            &&& !is_blank_value(value)
            &&& !(valid_utf8(value) && (text::decimal_number(
                text::trim_text(decode_utf8(value)),
            ) matches Some(n) && n <= 0xffff_ffff))
            &&& message.len() >= var.len() && message.take(var.len() as int) == var
        },
{
    if let Err(message) = number_setting(var, Some(value), default) {
        assert(message.take(var.len() as int) =~= var);
    }
}

/// A time of day is the one that its variable spells, blanks around it aside;
/// seven in the morning where it is unset or blank; and refused, with the
/// variable named, where it spells none.
pub proof fn law_a_time_is_what_its_variable_says(var: Seq<char>, value: Seq<u8>)
    ensures
        time_setting(var, None) == Ok::<ClockTime, Seq<char>>(ClockTime { hour: 7, minute: 0 }),
        is_blank_value(value) ==> time_setting(var, Some(value)) == Ok::<ClockTime, Seq<char>>(
            ClockTime { hour: 7, minute: 0 },
        ),
        valid_utf8(value) && !is_blank_value(value) ==> (time_setting(var, Some(value)) is Ok
            <==> clock_read(text::trim_text(decode_utf8(value))) is Ok),
        time_setting(var, Some(value)) matches Ok(at) ==> valid_utf8(value) && (is_blank_value(value)
            || (clock_read(text::trim_text(decode_utf8(value))) matches Ok(hm) && at.hour
            == hm.0 as u32 && at.minute == hm.1 as u32)),
        time_setting(var, Some(value)) matches Err(message) ==> !is_blank_value(value)
            && message.len() >= var.len() && message.take(var.len() as int) == var,
{
    if let Err(message) = time_setting(var, Some(value)) {
        assert(message.take(var.len() as int) =~= var);
    }
}

/// A recurrence is the one that its variable spells in any ASCII case; daily
/// where it is unset or blank; and refused, with the variable named, where it
/// spells none.
pub proof fn law_a_recurrence_is_what_its_variable_says(var: Seq<char>, value: Seq<u8>)
    ensures
        recurrence_setting(var, None) == Ok::<Recurrence, Seq<char>>(Recurrence::Daily),
        is_blank_value(value) ==> recurrence_setting(var, Some(value)) == Ok::<
            Recurrence,
            Seq<char>,
        >(Recurrence::Daily),
        recurrence_setting(var, Some(value)) matches Ok(recurrence) ==> valid_utf8(value) && (
        is_blank_value(value) || recurrence_spelled(
            text::lower_text(text::trim_text(decode_utf8(value))),
        ) == Some(recurrence)),
        valid_utf8(value) && !is_blank_value(value) ==> (recurrence_setting(var, Some(value)) is Ok
            <==> recurrence_spelled(
            text::lower_text(text::trim_text(decode_utf8(value))),
        ) is Some),
        recurrence_setting(var, Some(value)) matches Err(message) ==> !is_blank_value(value)
            && message.len() >= var.len() && message.take(var.len() as int) == var,
{
    if let Err(message) = recurrence_setting(var, Some(value)) {
        assert(message.take(var.len() as int) =~= var);
    }
}

/// Strict durability is asked for by any value but an empty one and an
/// off-word; a source is on unless an off-word stands against it; both take
/// unset for their default.
pub proof fn law_switches_take_any_value_but_off(value: Seq<u8>)
    ensures
        !asks_durable(None),
        asks_durable(Some(value)) <==> value.len() > 0 && !is_off(value),
        source_enabled(None),
        source_enabled(Some(value)) <==> !is_off(value),
{
}

/// The log goes to the file that is named, to none where an off-word is
/// given, and to the default name in the data directory where the variable is
/// unset or empty.
pub proof fn law_the_log_goes_where_it_is_sent(value: Seq<u8>, dir: Seq<u8>, any: Option<Seq<u8>>)
    ensures
        is_off(value) ==> log_file_setting(Some(value), any) == Some(None::<Seq<u8>>),
        !is_off(value) && value.len() > 0 ==> log_file_setting(Some(value), any) == Some(
            Some(value),
        ),
        !is_off(value) && value.len() == 0 ==> log_file_setting(Some(value), any)
            == log_file_setting(None, any),
        log_file_setting(None, Some(dir)) == Some(Some(joined(dir, encode_utf8("engine.log"@)))),
        log_file_setting(None, None) is None,
{
}

/// On the command line, refusing a log file wins over naming one, a name wins
/// over the environment, and an empty name asks for the default one.
pub proof fn law_the_line_wins_over_the_environment(
    run: RunArgs,
    env_value: Option<Seq<u8>>,
    data_dir: Option<Seq<u8>>,
)
    ensures
        run.no_log_file ==> log_setting(run, env_value, data_dir) == Some(None::<Seq<u8>>),
        !run.no_log_file ==> (run.log_file matches Some(path) ==> (path@.len() > 0 ==> log_setting(
            run,
            env_value,
            data_dir,
        ) == Some(Some(path@))) && (path@.len() == 0 ==> log_setting(run, env_value, data_dir)
            == log_file_setting(None, data_dir))),
        !run.no_log_file && run.log_file is None ==> log_setting(run, env_value, data_dir)
            == log_file_setting(env_value, data_dir),
{
}

/// The database is where it was put, else under its own name in the data
/// directory; its lock stands next to it, and an interval of the foreground
/// run is at least one second and otherwise what was asked for.
pub proof fn law_the_database_is_where_it_was_put(
    named: Seq<u8>,
    dir: Seq<u8>,
    any: Option<Seq<u8>>,
    secs: u64,
)
    ensures
        db_setting(Some(named), any) == Some(named),
        db_setting(None, Some(dir)) == Some(joined(dir, encode_utf8("valqeron.db"@))),
        db_setting(None, None) is None,
        config::lock_of(named) == named + encode_utf8(".lock"@),
        secs >= 1 ==> config::at_least_one(secs) == secs,
        config::at_least_one(0) == 1,
{
}

/// The CVM source takes each of its settings from its own variable, with the
/// cooldown and the backlog at their defaults where they are unset; the first
/// that cannot be read is the one that is reported.
pub proof fn law_the_cvm_source_reads_its_own_variables(
    enabled: Option<Seq<u8>>,
    at: Option<Seq<u8>>,
    schedule: Option<Seq<u8>>,
    cooldown: Option<Seq<u8>>,
    max_backfill: Option<Seq<u8>>,
)
    ensures
        ({
            let time = time_setting("VALQERON_ENGINE_SYNC_CVM_AT"@, at);
            let recurrence = recurrence_setting("VALQERON_ENGINE_SYNC_CVM_SCHEDULE"@, schedule);
            let wait = number_setting("VALQERON_ENGINE_SYNC_CVM_COOLDOWN"@, cooldown, 300);
            let days = number_setting(
                "VALQERON_ENGINE_SYNC_MAX_BACKFILL_DAYS"@,
                max_backfill,
                90,
            );
            let setting = cvm_setting(enabled, at, schedule, cooldown, max_backfill);
            &&& (setting matches Ok(None)) <==> !source_enabled(enabled)
            &&& setting matches Ok(Some(s)) ==> {
                &&& time == Ok::<ClockTime, Seq<char>>(s.at)
                &&& recurrence == Ok::<Recurrence, Seq<char>>(s.recurrence)
                &&& wait == Ok::<u32, Seq<char>>(s.cooldown_secs)
                &&& days == Ok::<u32, Seq<char>>(s.max_backfill_days)
            }
            &&& setting matches Err(message) ==> {
                ||| time == Err::<ClockTime, Seq<char>>(message)
                ||| time is Ok && recurrence == Err::<Recurrence, Seq<char>>(message)
                ||| time is Ok && recurrence is Ok && wait == Err::<u32, Seq<char>>(message)
                ||| time is Ok && recurrence is Ok && wait is Ok && days == Err::<u32, Seq<char>>(
                    message,
                )
            }
        }),
{
}

/// The start is refused exactly where a path has no place or a value cannot
/// be read; the intervals come from their own variables, an hour and five
/// minutes where they are unset.
pub proof fn law_the_start_is_refused_for_a_reason(env: Environment)
    ensures
        env.refusal() is None <==> {
            &&& env.db_path is Some || env.data_dir is Some
            &&& env.socket is Some || env.data_dir is Some
            &&& env.log_at() is Some
            &&& env.maintenance() is Ok
            &&& env.heartbeat() is Ok
            &&& env.cvm() is Ok
        },
        env.maintenance() == interval_setting(
            "VALQERON_ENGINE_MAINTENANCE_INTERVAL"@,
            opt_bytes(env.maintenance_interval),
            3600,
        ),
        env.heartbeat() == interval_setting(
            "VALQERON_ENGINE_HEARTBEAT_INTERVAL"@,
            opt_bytes(env.heartbeat_interval),
            300,
        ),
        env.log_at() == log_file_setting(opt_bytes(env.log_file), opt_bytes(env.data_dir)),
        env.cvm() == cvm_setting(
            opt_bytes(env.sync_cvm),
            opt_bytes(env.sync_cvm_at),
            opt_bytes(env.sync_cvm_schedule),
            opt_bytes(env.sync_cvm_cooldown),
            opt_bytes(env.sync_max_backfill_days),
        ),
{
}

/// A faulty configuration ends with 2, a second engine with 3, anything that
/// goes wrong later with 1.
pub proof fn law_each_error_has_its_exit_code(error: EngineError)
    ensures
        error is Config || error is InvalidDataDirectory ==> error.code() == 2,
        error is AlreadyRunning ==> error.code() == 3,
        error is Storage || error is Io || error is ForcedShutdown ==> error.code() == 1,
{
}

} // verus!
