//! The launchd agent on macOS.
use crate::error::EngineError;
use crate::paths::{join, joined};
use crate::service::render::{escaped, filled, leftover_text, pairs, render, xml_escape};
use crate::service::{shown, show, CallState, ToolCall, ToolOutput, LABEL, LAUNCHD_TEMPLATE};
use crate::text;
use vstd::prelude::*;
use vstd::utf8::encode_utf8;

verus! {

/// The agent's file, below the home directory.
pub open spec fn agent_path(home: Seq<u8>) -> Seq<u8> {
    joined(
        joined(joined(home, encode_utf8("Library"@)), encode_utf8("LaunchAgents"@)),
        encode_utf8("io.valqeron.engine.plist"@),
    )
}

/// The agent's file; without a home directory there is none.
pub fn plist_path(home: &Option<Vec<u8>>) -> (path: Result<Vec<u8>, EngineError>)
    ensures
        path is Ok <==> *home is Some,
        path matches Ok(p) ==> p@ == agent_path(home->0@),
        path matches Err(e) ==> (e matches EngineError::Config(m) && m@ == "HOME is not set"@),
{
    match home {
        Some(home) => {
            let library = join(home, "Library");
            let agents = join(&library, "LaunchAgents");
            Ok(join(&agents, "io.valqeron.engine.plist"))
        },
        None => Err(EngineError::Config("HOME is not set".to_owned())),
    }
}

/// The user's domain, from what `id -u` printed.
pub fn gui_domain(stdout: &Vec<u8>) -> (domain: Result<String, EngineError>)
    ensures
        domain is Ok <==> text::all_digits(shown(stdout@)),
        domain matches Ok(d) ==> d@ == "gui/"@ + shown(stdout@),
        domain matches Err(e) ==> (e matches EngineError::Service(m) && m@
            == "could not determine the current uid (got "@ + text::quoted_text(shown(stdout@))
            + ")"@),
{
    let uid = show(stdout);
    if !text::only_digits(uid.as_str()) {
        return Err(
            EngineError::Service(
                "could not determine the current uid (got ".to_owned().concat(
                    text::quoted(uid.as_str()).as_str(),
                ).concat(")"),
            ),
        );
    }
    Ok("gui/".to_owned().concat(uid.as_str()))
}

/// The block that hands an explicit database to the agent.
pub open spec fn env_block(db_path: Option<Seq<u8>>) -> Seq<char> {
    match db_path {
        Some(path) =>
            "  <key>EnvironmentVariables</key>\n  <dict>\n    <key>VALQERON_DB</key>\n    <string>"@
            + escaped(text::lossy_text(path)) + "</string>\n  </dict>\n"@,
        None => Seq::empty(),
    }
}

/// What the agent's template is filled in with.
pub open spec fn agent_vars(
    exe: Seq<u8>,
    stdout_path: Seq<u8>,
    stderr_path: Seq<u8>,
    db_path: Option<Seq<u8>>,
) -> Seq<(Seq<char>, Seq<char>)> {
    seq![
        ("LABEL"@, LABEL@),
        ("EXE"@, escaped(text::lossy_text(exe))),
        ("STDOUT_PATH"@, escaped(text::lossy_text(stdout_path))),
        ("STDERR_PATH"@, escaped(text::lossy_text(stderr_path))),
        ("ENV_BLOCK"@, env_block(db_path)),
    ]
}

/// The agent's definition.
pub open spec fn agent_text(exe: Seq<u8>, log_dir: Seq<u8>, db_path: Option<Seq<u8>>) -> Seq<char> {
    filled(
        LAUNCHD_TEMPLATE@,
        agent_vars(
            exe,
            joined(log_dir, encode_utf8("launchd.stdout.log"@)),
            joined(log_dir, encode_utf8("launchd.stderr.log"@)),
            db_path,
        ),
    )
}

/// Writes the agent's definition. An explicit database is handed on; the
/// default needs nothing, as the engine finds it by itself.
pub fn definition(exe: &Vec<u8>, log_dir: &Vec<u8>, db_path: &Option<Vec<u8>>) -> (rendered: Result<
    String,
    EngineError,
>)
    ensures
        rendered is Ok <==> !text::holds_text(
            agent_text(exe@, log_dir@, crate::notify::opt_bytes(*db_path)),
            "{{"@,
        ),
        rendered matches Ok(out) ==> out@ == agent_text(
            exe@,
            log_dir@,
            crate::notify::opt_bytes(*db_path),
        ),
        rendered matches Err(e) ==> (e matches EngineError::Service(m) && m@ == leftover_text(
            agent_text(exe@, log_dir@, crate::notify::opt_bytes(*db_path)),
        )),
{
    let stdout_path = join(log_dir, "launchd.stdout.log");
    let stderr_path = join(log_dir, "launchd.stderr.log");
    let block = match db_path {
        Some(path) =>
            "  <key>EnvironmentVariables</key>\n  <dict>\n    <key>VALQERON_DB</key>\n    <string>".to_owned().concat(
            xml_escape(text::lossy(path).as_str()).as_str(),
        ).concat("</string>\n  </dict>\n"),
        None => String::new(),
    };
    let mut vars: Vec<(&str, String)> = Vec::new();
    vars.push(("LABEL", LABEL.to_owned()));
    vars.push(("EXE", xml_escape(text::lossy(exe).as_str())));
    vars.push(("STDOUT_PATH", xml_escape(text::lossy(&stdout_path).as_str())));
    vars.push(("STDERR_PATH", xml_escape(text::lossy(&stderr_path).as_str())));
    vars.push(("ENV_BLOCK", block));
    assert(pairs(vars@) =~= agent_vars(
        exe@,
        stdout_path@,
        stderr_path@,
        crate::notify::opt_bytes(*db_path),
    ));
    render(LAUNCHD_TEMPLATE, &vars)
}

/// The agent as launchctl names it.
pub open spec fn target(domain: Seq<char>) -> Seq<char> {
    domain + "/"@ + LABEL@
}

fn write_target(domain: &str) -> (out: String)
    ensures
        out@ == target(domain@),
{
    domain.to_owned().concat("/").concat(LABEL)
}

/// A call of launchctl.
pub open spec fn launchctl(args: Seq<Seq<char>>, required: bool) -> CallState {
    CallState { program: "launchctl"@, args, required }
}

/// Unloads the agent, whether it was loaded or not.
pub fn bootout_call(domain: &str) -> (call: ToolCall)
    ensures
        call@ == launchctl(seq!["bootout"@, target(domain@)], false),
{
    let mut args: Vec<String> = Vec::new();
    args.push("bootout".to_owned());
    args.push(write_target(domain));
    assert(text::texts(args@) =~= seq!["bootout"@, target(domain@)]);
    ToolCall { program: "launchctl".to_owned(), args, required: false }
}

/// Loads the agent.
pub fn bootstrap_call(domain: &str, plist: &Vec<u8>) -> (call: ToolCall)
    ensures
        call@ == launchctl(seq!["bootstrap"@, domain@, text::lossy_text(plist@)], true),
{
    let mut args: Vec<String> = Vec::new();
    args.push("bootstrap".to_owned());
    args.push(domain.to_owned());
    args.push(text::lossy(plist));
    assert(text::texts(args@) =~= seq!["bootstrap"@, domain@, text::lossy_text(plist@)]);
    ToolCall { program: "launchctl".to_owned(), args, required: true }
}

/// Asks for the agent.
pub fn print_call(domain: &str) -> (call: ToolCall)
    ensures
        call@ == launchctl(seq!["print"@, target(domain@)], true),
{
    let mut args: Vec<String> = Vec::new();
    args.push("print".to_owned());
    args.push(write_target(domain));
    assert(text::texts(args@) =~= seq!["print"@, target(domain@)]);
    ToolCall { program: "launchctl".to_owned(), args, required: true }
}

/// Whether the agent was loaded.
pub fn bootstrapped(output: &ToolOutput) -> (verdict: Result<(), EngineError>)
    ensures
        verdict is Ok <==> output.success,
        verdict matches Err(e) ==> (e matches EngineError::Service(m) && m@
            == "launchctl bootstrap failed: "@ + shown(output.stderr@)),
{
    if !output.success {
        return Err(
            EngineError::Service(
                "launchctl bootstrap failed: ".to_owned().concat(show(&output.stderr).as_str()),
            ),
        );
    }
    Ok(())
}

/// What `install` prints once the agent is loaded.
pub open spec fn installed_lines(plist: Seq<u8>, domain: Seq<char>, log_dir: Seq<u8>) -> Seq<
    Seq<char>,
> {
    seq![
        "installed launchd agent: "@ + text::lossy_text(plist),
        "the engine starts now and at every login"@,
        "inspect with:  launchctl print "@ + target(domain),
        "logs:          "@ + text::lossy_text(
            joined(log_dir, encode_utf8("launchd.stderr.log"@)),
        ),
    ]
}

/// What `install` prints once the agent is loaded.
pub fn installed(plist: &Vec<u8>, domain: &str, log_dir: &Vec<u8>) -> (lines: Vec<String>)
    ensures
        text::texts(lines@) == installed_lines(plist@, domain@, log_dir@),
{
    let mut lines: Vec<String> = Vec::new();
    lines.push("installed launchd agent: ".to_owned().concat(text::lossy(plist).as_str()));
    lines.push("the engine starts now and at every login".to_owned());
    lines.push(
        "inspect with:  launchctl print ".to_owned().concat(write_target(domain).as_str()),
    );
    let stderr_path = join(log_dir, "launchd.stderr.log");
    lines.push("logs:          ".to_owned().concat(text::lossy(&stderr_path).as_str()));
    assert(text::texts(lines@) =~= installed_lines(plist@, domain@, log_dir@));
    lines
}

/// The agent's state, from how `launchctl print` answered.
pub fn service_state(domain: &str, output: &ToolOutput) -> (state: String)
    ensures
        state@ == (if output.success {
            "loaded ("@
        } else {
            "not loaded ("@
        }) + target(domain@) + ")"@,
{
    let head = if output.success {
        "loaded (".to_owned()
    } else {
        "not loaded (".to_owned()
    };
    head.concat(write_target(domain).as_str()).concat(")")
}

} // verus!
