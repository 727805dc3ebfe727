//! Inbound commands, the command policy, and the execution-unit logic
//! that turns a command plus an executor outcome into a result.
use vstd::prelude::*;
use vstd::string::*;
use crate::config::RemoteCommandsConfig;

verus! {

/// The closed set of command kinds the client understands.
#[derive(Debug, Clone, Copy, PartialEq, Eq, Structural)]
pub enum RemoteCommandType {
    LockScreen,
    Shutdown,
}

/// The recognized command parameters, held as plain values. `delay_seconds`
/// is `Some` exactly when the inbound frame carried it as a plain unsigned
/// integer that fits in sixty-four bits.
#[derive(Debug, Clone, Copy, PartialEq, Eq, Structural)]
pub struct CommandParams {
    pub delay_seconds: Option<u64>,
}

/// One inbound command: parsed once from a text frame, immutable
/// thereafter. `params` is `Some` exactly when the frame carried a
/// parameter object (`None` for an absent or null `params` field).
#[derive(Debug, Clone)]
pub struct RemoteCommand {
    pub id: String,
    pub type_: RemoteCommandType,
    pub params: Option<CommandParams>,
    pub timestamp: String,
}

/// The mathematical model of an inbound command.
pub ghost struct CommandModel {
    pub id: Seq<char>,
    pub kind: RemoteCommandType,
    pub params: Option<CommandParams>,
    pub timestamp: Seq<char>,
}

impl View for RemoteCommand {
    type V = CommandModel;

    open spec fn view(&self) -> CommandModel {
        CommandModel {
            id: self.id@,
            kind: self.type_,
            params: self.params,
            timestamp: self.timestamp@,
        }
    }
}

/// The result reported back for one received command; produced exactly
/// once per command and handed to the outbound router.
#[derive(Debug, Clone)]
pub struct CommandResult {
    pub command_id: String,
    pub success: bool,
    pub message: String,
    pub timestamp: String,
    pub client_id: String,
}

/// Whether the policy allows a command kind to execute.
pub open spec fn spec_command_enabled(cfg: RemoteCommandsConfig, kind: RemoteCommandType) -> bool {
    match kind {
        RemoteCommandType::LockScreen => cfg.lock_screen_enabled,
        RemoteCommandType::Shutdown => cfg.shutdown_enabled,
    }
}

pub fn command_enabled(cfg: &RemoteCommandsConfig, kind: RemoteCommandType) -> (r: bool)
    ensures
        r == spec_command_enabled(*cfg, kind),
{
    match kind {
        RemoteCommandType::LockScreen => cfg.lock_screen_enabled,
        RemoteCommandType::Shutdown => cfg.shutdown_enabled,
    }
}

/// The failure message reported when the policy disables a kind.
pub open spec fn spec_disabled_message(kind: RemoteCommandType) -> Seq<char> {
    match kind {
        RemoteCommandType::LockScreen => "lock screen command disabled"@,
        RemoteCommandType::Shutdown => "shutdown command disabled"@,
    }
}

pub fn disabled_message(kind: RemoteCommandType) -> (r: String)
    ensures
        r@ == spec_disabled_message(kind),
{
    match kind {
        RemoteCommandType::LockScreen => String::from_str("lock screen command disabled"),
        RemoteCommandType::Shutdown => String::from_str("shutdown command disabled"),
    }
}

/// The shutdown delay a command asks for: its `delay_seconds` parameter
/// when present as a plain unsigned integer, and zero otherwise.
pub open spec fn spec_effective_delay(params: Option<CommandParams>) -> u64 {
    match params {
        Option::Some(p) => match p.delay_seconds {
            Option::Some(d) => d,
            Option::None => 0u64,
        },
        Option::None => 0u64,
    }
}

pub fn effective_delay_seconds(cmd: &RemoteCommand) -> (d: u64)
    ensures
        d == spec_effective_delay(cmd.params),
{
    match &cmd.params {
        Option::Some(p) => match p.delay_seconds {
            Option::Some(d) => d,
            Option::None => 0u64,
        },
        Option::None => 0u64,
    }
}

/// The decimal digits of `n`, most significant first.
pub open spec fn spec_decimal(n: u64) -> Seq<char>
    decreases n,
{
    if n < 10 {
        seq![crate::json::spec_hex_digit(n as int)]
    } else {
        spec_decimal((n / 10) as u64).push(crate::json::spec_hex_digit((n % 10) as int))
    }
}

/// Renders an unsigned value in decimal.
pub fn decimal_string(n: u64) -> (r: String)
    ensures
        r@ == spec_decimal(n),
    decreases n,
{
    if n < 10 {
        let mut s = String::new();
        crate::json::push_char(&mut s, digit_char(n));
        proof {
            assert(s@ =~= seq![crate::json::spec_hex_digit(n as int)]);
        }
        s
    } else {
        let mut s = decimal_string(n / 10);
        crate::json::push_char(&mut s, digit_char(n % 10));
        s
    }
}

fn digit_char(n: u64) -> (c: char)
    requires
        n < 10,
    ensures
        c == crate::json::spec_hex_digit(n as int),
{
    if n == 0 { '0' }
    else if n == 1 { '1' }
    else if n == 2 { '2' }
    else if n == 3 { '3' }
    else if n == 4 { '4' }
    else if n == 5 { '5' }
    else if n == 6 { '6' }
    else if n == 7 { '7' }
    else if n == 8 { '8' }
    else { '9' }
}

/// The delay argument handed to the platform's shutdown program: the
/// plain decimal delay in seconds on Windows (`/t` takes seconds), and
/// on the Unix-likes `+minutes` for a positive delay or `now` for none
/// (`-h` takes minutes).
pub open spec fn spec_shutdown_delay_argument(delay_seconds: u64, windows: bool) -> Seq<char> {
    if windows {
        spec_decimal(delay_seconds)
    } else if delay_seconds > 0 {
        seq!['+'] + spec_decimal((delay_seconds / 60) as u64)
    } else {
        "now"@
    }
}

pub fn shutdown_delay_argument(delay_seconds: u64, windows: bool) -> (r: String)
    ensures
        r@ == spec_shutdown_delay_argument(delay_seconds, windows),
{
    if windows {
        decimal_string(delay_seconds)
    } else if delay_seconds > 0 {
        let mut s = String::new();
        crate::json::push_char(&mut s, '+');
        let d = decimal_string(delay_seconds / 60);
        s.append(d.as_str());
        proof {
            assert(s@ =~= seq!['+'] + spec_decimal((delay_seconds / 60) as u64));
        }
        s
    } else {
        String::from_str("now")
    }
}

/// Whether an execution unit reports success, given the policy and the
/// executor's outcome (`None` when the executor was never consulted).
pub open spec fn spec_unit_success(
    cfg: RemoteCommandsConfig,
    kind: RemoteCommandType,
    outcome: Option<Result<Seq<char>, Seq<char>>>,
) -> bool {
    spec_command_enabled(cfg, kind) && (outcome matches Option::Some(Result::Ok(_)))
}

/// The message an execution unit reports: the disabled-kind message when
/// the policy denies the command, and the executor's own text otherwise.
pub open spec fn spec_unit_message(
    cfg: RemoteCommandsConfig,
    kind: RemoteCommandType,
    outcome: Option<Result<Seq<char>, Seq<char>>>,
) -> Seq<char> {
    if !spec_command_enabled(cfg, kind) {
        spec_disabled_message(kind)
    } else {
        match outcome {
            Option::Some(Result::Ok(m)) => m,
            Option::Some(Result::Err(m)) => m,
            Option::None => Seq::<char>::empty(),
        }
    }
}

/// The views of an executor outcome's texts.
pub open spec fn spec_outcome_view(o: Option<Result<String, String>>) -> Option<
    Result<Seq<char>, Seq<char>>,
> {
    match o {
        Option::None => Option::None,
        Option::Some(Result::Ok(m)) => Option::Some(Result::Ok(m@)),
        Option::Some(Result::Err(m)) => Option::Some(Result::Err(m@)),
    }
}

/// Builds the one result of an execution unit. The executor's outcome is
/// present if and only if the policy enables the kind: a denied command
/// never consults the executor, an allowed one always does.
pub fn complete_command(
    cfg: &RemoteCommandsConfig,
    cmd: &RemoteCommand,
    outcome: Option<Result<String, String>>,
    timestamp: String,
    client_id: String,
) -> (r: CommandResult)
    requires
        (outcome is Some) == spec_command_enabled(*cfg, cmd.type_),
    ensures
        r.command_id@ == cmd.id@,
        r.timestamp@ == timestamp@,
        r.client_id@ == client_id@,
        r.success == spec_unit_success(*cfg, cmd.type_, spec_outcome_view(outcome)),
        r.message@ == spec_unit_message(*cfg, cmd.type_, spec_outcome_view(outcome)),
{
    let (success, message): (bool, String) = match outcome {
        Option::None => (false, disabled_message(cmd.type_)),
        Option::Some(Result::Ok(m)) => (true, m),
        Option::Some(Result::Err(m)) => (false, m),
    };
    CommandResult {
        command_id: cmd.id.clone(),
        success,
        message,
        timestamp,
        client_id,
    }
}

/// Law: a command whose kind the policy disables yields a failed result
/// whose message names the kind as disabled, and the result is the same
/// whatever the executor would have answered — the executor is never
/// consulted for a denied command.
pub proof fn lemma_disabled_command_result(
    cfg: RemoteCommandsConfig,
    kind: RemoteCommandType,
    o1: Option<Result<Seq<char>, Seq<char>>>,
    o2: Option<Result<Seq<char>, Seq<char>>>,
)
    requires
        !spec_command_enabled(cfg, kind),
    ensures
        spec_unit_success(cfg, kind, o1) == false,
        spec_unit_message(cfg, kind, o1) == spec_disabled_message(kind),
        spec_unit_success(cfg, kind, o1) == spec_unit_success(cfg, kind, o2),
        spec_unit_message(cfg, kind, o1) == spec_unit_message(cfg, kind, o2),
{
}

/// Law: for an enabled kind the result mirrors the executor exactly:
/// success on its success, failure on its failure, and the executor's own
/// text as the message either way.
pub proof fn lemma_enabled_command_result(
    cfg: RemoteCommandsConfig,
    kind: RemoteCommandType,
    m: Seq<char>,
)
    requires
        spec_command_enabled(cfg, kind),
    ensures
        spec_unit_success(cfg, kind, Option::Some(Result::Ok(m))) == true,
        spec_unit_message(cfg, kind, Option::Some(Result::Ok(m))) == m,
        spec_unit_success(cfg, kind, Option::Some(Result::Err(m))) == false,
        spec_unit_message(cfg, kind, Option::Some(Result::Err(m))) == m,
{
}

} // verus!
