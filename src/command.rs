//! The closed set of hub commands, their errors, and the builder that turns
//! a command name and its parameter body into one of them.
use vstd::prelude::*;
use crate::text::{all_ws, lemma_trim_padded, lower_of, upper_of, trim, chars_of, string_of, trim_bounds, is_text, to_lower, to_upper};
use crate::number::{unsigned_value, parse_unsigned};
use crate::params::{params_of, pairs_view, lookup, parse_params, get_param};
use crate::timestamp::{Timestamp, iso_instant, parse_iso_timestamp, rfc3339_text};

verus! {

/// The commands that the hub accepts, by name.
#[derive(Clone, Copy, Debug, PartialEq, Eq, Structural)]
pub enum CommandKind {
    SetUpdateInterval,
    SetLogLevel,
    SetLogFilter,
    Command,
    UpdateNode,
    UpdateProbe,
    RebootProbe,
    StartMeasurement,
}

/// The parameters that commands take.
#[derive(Clone, Copy, Debug, PartialEq, Eq, Structural)]
pub enum Field {
    NodeId,
    StartTime,
    EndTime,
    ActivePeriod,
    InactivePeriod,
    LogLevel,
    LogFilter,
    Command,
    Sequence,
}

/// Why an invocation was refused.
#[derive(Clone, Debug, PartialEq, Eq)]
pub enum CommandError {
    /// A `(` without a closing `)` at the end.
    MalformedInvocation,
    /// A name outside the command set, as written.
    UnknownCommand(String),
    /// A command that takes parameters, written without parentheses.
    MissingParameterBlock(CommandKind),
    /// A required parameter is absent.
    MissingField(Field),
    /// A parameter is present but not acceptable.
    InvalidField(Field),
    /// The quit sentinel has no transport form.
    NonTransportableCommand,
}

/// One operator intent.
#[allow(inconsistent_fields)]
#[derive(Clone, Debug, PartialEq, Eq)]
pub enum Command {
    SetUpdateInterval { start_time: Timestamp, end_time: Timestamp, active_period: u64, inactive_period: u64 },
    SetLogLevel { node_id: Option<u32>, log_level: String },
    SetLogFilter { node_id: Option<u32>, log_filter: String },
    Command { node_id: Option<u32>, command: String },
    UpdateNode { node_id: Option<u32> },
    UpdateProbe { node_id: Option<u32> },
    RebootProbe { node_id: Option<u32> },
    StartMeasurement { node_id: u32, sequence: u32 },
    Quit,
}

/// A command with its text as characters.
#[allow(inconsistent_fields)]
pub enum CommandSpec {
    SetUpdateInterval { start_time: Timestamp, end_time: Timestamp, active_period: u64, inactive_period: u64 },
    SetLogLevel { node_id: Option<u32>, log_level: Seq<char> },
    SetLogFilter { node_id: Option<u32>, log_filter: Seq<char> },
    Command { node_id: Option<u32>, command: Seq<char> },
    UpdateNode { node_id: Option<u32> },
    UpdateProbe { node_id: Option<u32> },
    RebootProbe { node_id: Option<u32> },
    StartMeasurement { node_id: u32, sequence: u32 },
    Quit,
}

/// An error with its text as characters.
pub enum ErrorSpec {
    MalformedInvocation,
    UnknownCommand(Seq<char>),
    MissingParameterBlock(CommandKind),
    MissingField(Field),
    InvalidField(Field),
    NonTransportableCommand,
}

impl View for Command {
    type V = CommandSpec;

    open spec fn view(&self) -> CommandSpec {
        match self {
            Command::SetUpdateInterval { start_time, end_time, active_period, inactive_period } =>
                CommandSpec::SetUpdateInterval {
                start_time: *start_time,
                end_time: *end_time,
                active_period: *active_period,
                inactive_period: *inactive_period,
            },
            Command::SetLogLevel { node_id, log_level } => CommandSpec::SetLogLevel { node_id: *node_id, log_level: log_level@ },
            Command::SetLogFilter { node_id, log_filter } => CommandSpec::SetLogFilter { node_id: *node_id, log_filter: log_filter@ },
            Command::Command { node_id, command } => CommandSpec::Command { node_id: *node_id, command: command@ },
            Command::UpdateNode { node_id } => CommandSpec::UpdateNode { node_id: *node_id },
            Command::UpdateProbe { node_id } => CommandSpec::UpdateProbe { node_id: *node_id },
            Command::RebootProbe { node_id } => CommandSpec::RebootProbe { node_id: *node_id },
            Command::StartMeasurement { node_id, sequence } => CommandSpec::StartMeasurement { node_id: *node_id, sequence: *sequence },
            Command::Quit => CommandSpec::Quit,
        }
    }
}

impl View for CommandError {
    type V = ErrorSpec;

    open spec fn view(&self) -> ErrorSpec {
        match self {
            CommandError::MalformedInvocation => ErrorSpec::MalformedInvocation,
            CommandError::UnknownCommand(name) => ErrorSpec::UnknownCommand(name@),
            CommandError::MissingParameterBlock(k) => ErrorSpec::MissingParameterBlock(*k),
            CommandError::MissingField(f) => ErrorSpec::MissingField(*f),
            CommandError::InvalidField(f) => ErrorSpec::InvalidField(*f),
            CommandError::NonTransportableCommand => ErrorSpec::NonTransportableCommand,
        }
    }
}

/// The instants that a command carries have an RFC 3339 rendering.
pub open spec fn instants_render(c: CommandSpec) -> bool {
    match c {
        CommandSpec::SetUpdateInterval { start_time, end_time, .. } =>
            rfc3339_text(start_time) is Some && rfc3339_text(end_time) is Some,
        _ => true,
    }
}

/// A built command, if any, has instants that render.
pub open spec fn renders_if_ok(r: Result<Command, CommandError>) -> bool {
    r matches Ok(c) ==> instants_render(c@)
}

/// A result with its error as characters.
pub open spec fn err_view<T>(r: Result<T, CommandError>) -> Result<T, ErrorSpec> {
    match r {
        Ok(v) => Ok(v),
        Err(e) => Err(e@),
    }
}

/// A parse result with command and error as characters.
pub open spec fn result_view(r: Result<Command, CommandError>) -> Result<CommandSpec, ErrorSpec> {
    match r {
        Ok(c) => Ok(c@),
        Err(e) => Err(e@),
    }
}

/// The words that end an interactive session, once lower-cased.
pub open spec fn is_quit_word(lower: Seq<char>) -> bool {
    lower == "quit"@ || lower == "exit"@ || lower == "bye"@
}

/// The command that a lower-cased name selects.
pub open spec fn kind_of(lower: Seq<char>) -> Option<CommandKind> {
    if lower == "set_update_interval"@ {
        Some(CommandKind::SetUpdateInterval)
    } else if lower == "set_log_level"@ {
        Some(CommandKind::SetLogLevel)
    } else if lower == "set_log_filter"@ {
        Some(CommandKind::SetLogFilter)
    } else if lower == "command"@ {
        Some(CommandKind::Command)
    } else if lower == "update_node"@ {
        Some(CommandKind::UpdateNode)
    } else if lower == "update_probe"@ {
        Some(CommandKind::UpdateProbe)
    } else if lower == "reboot_probe"@ {
        Some(CommandKind::RebootProbe)
    } else if lower == "start_measurement"@ {
        Some(CommandKind::StartMeasurement)
    } else {
        None
    }
}

/// Commands that may be written without parentheses.
pub open spec fn params_optional(k: CommandKind) -> bool {
    k == CommandKind::UpdateNode || k == CommandKind::UpdateProbe || k == CommandKind::RebootProbe
}

/// The accepted log levels, in upper case.
pub open spec fn is_log_level(upper: Seq<char>) -> bool {
    upper == "TRACE"@ || upper == "DEBUG"@ || upper == "INFO"@ || upper == "WARN"@ || upper == "ERROR"@
}

/// The optional target node: absent, or a number that fits in 32 bits.
pub open spec fn node_id_spec(ps: Seq<(Seq<char>, Seq<char>)>) -> Result<Option<u32>, ErrorSpec> {
    match lookup(ps, "node_id"@) {
        None => Ok(None),
        Some(v) => match unsigned_value(v, u32::MAX as int) {
            Some(n) => Ok(Some(n as u32)),
            None => Err(ErrorSpec::InvalidField(Field::NodeId)),
        },
    }
}

pub open spec fn set_update_interval_spec(ps: Seq<(Seq<char>, Seq<char>)>) -> Result<CommandSpec, ErrorSpec> {
    let start = lookup(ps, "start_time"@);
    let end = lookup(ps, "end_time"@);
    let active = lookup(ps, "active_period"@);
    let inactive = lookup(ps, "inactive_period"@);
    if lookup(ps, "node_id"@) is Some {
        Err(ErrorSpec::InvalidField(Field::NodeId))
    } else if start is None {
        Err(ErrorSpec::MissingField(Field::StartTime))
    } else if end is None {
        Err(ErrorSpec::MissingField(Field::EndTime))
    } else if active is None {
        Err(ErrorSpec::MissingField(Field::ActivePeriod))
    } else if inactive is None {
        Err(ErrorSpec::MissingField(Field::InactivePeriod))
    } else if iso_instant(start->0) is None {
        Err(ErrorSpec::InvalidField(Field::StartTime))
    } else if iso_instant(end->0) is None {
        Err(ErrorSpec::InvalidField(Field::EndTime))
    } else if unsigned_value(active->0, u64::MAX as int) is None {
        Err(ErrorSpec::InvalidField(Field::ActivePeriod))
    } else if unsigned_value(inactive->0, u64::MAX as int) is None {
        Err(ErrorSpec::InvalidField(Field::InactivePeriod))
    } else {
        Ok(CommandSpec::SetUpdateInterval {
            start_time: iso_instant(start->0)->0,
            end_time: iso_instant(end->0)->0,
            active_period: unsigned_value(active->0, u64::MAX as int)->0,
            inactive_period: unsigned_value(inactive->0, u64::MAX as int)->0,
        })
    }
}

pub open spec fn set_log_level_spec(ps: Seq<(Seq<char>, Seq<char>)>) -> Result<CommandSpec, ErrorSpec> {
    let level = lookup(ps, "log_level"@);
    match node_id_spec(ps) {
        Err(e) => Err(e),
        Ok(node_id) => if level is None {
            Err(ErrorSpec::MissingField(Field::LogLevel))
        } else if !is_log_level(upper_of(level->0)) {
            Err(ErrorSpec::InvalidField(Field::LogLevel))
        } else {
            Ok(CommandSpec::SetLogLevel { node_id, log_level: upper_of(level->0) })
        },
    }
}

pub open spec fn set_log_filter_spec(ps: Seq<(Seq<char>, Seq<char>)>) -> Result<CommandSpec, ErrorSpec> {
    let filter = lookup(ps, "log_filter"@);
    match node_id_spec(ps) {
        Err(e) => Err(e),
        Ok(node_id) => if filter is None {
            Err(ErrorSpec::MissingField(Field::LogFilter))
        } else {
            Ok(CommandSpec::SetLogFilter { node_id, log_filter: filter->0 })
        },
    }
}

pub open spec fn command_cmd_spec(ps: Seq<(Seq<char>, Seq<char>)>) -> Result<CommandSpec, ErrorSpec> {
    let text = lookup(ps, "command"@);
    match node_id_spec(ps) {
        Err(e) => Err(e),
        Ok(node_id) => if text is None {
            Err(ErrorSpec::MissingField(Field::Command))
        } else {
            Ok(CommandSpec::Command { node_id, command: text->0 })
        },
    }
}

pub open spec fn start_measurement_spec(ps: Seq<(Seq<char>, Seq<char>)>) -> Result<CommandSpec, ErrorSpec> {
    let sequence = lookup(ps, "sequence"@);
    match node_id_spec(ps) {
        Err(e) => Err(e),
        Ok(None) => Err(ErrorSpec::MissingField(Field::NodeId)),
        Ok(Some(node_id)) => if sequence is None {
            Err(ErrorSpec::MissingField(Field::Sequence))
        } else if unsigned_value(sequence->0, u32::MAX as int) is None {
            Err(ErrorSpec::InvalidField(Field::Sequence))
        } else {
            Ok(CommandSpec::StartMeasurement { node_id, sequence: unsigned_value(sequence->0, u32::MAX as int)->0 as u32 })
        },
    }
}

/// The command of kind `k` that the pairs of a parameter body describe.
pub open spec fn build_spec(k: CommandKind, ps: Seq<(Seq<char>, Seq<char>)>) -> Result<CommandSpec, ErrorSpec> {
    match k {
        CommandKind::SetUpdateInterval => set_update_interval_spec(ps),
        CommandKind::SetLogLevel => set_log_level_spec(ps),
        CommandKind::SetLogFilter => set_log_filter_spec(ps),
        CommandKind::Command => command_cmd_spec(ps),
        CommandKind::StartMeasurement => start_measurement_spec(ps),
        _ => match node_id_spec(ps) {
            Err(e) => Err(e),
            Ok(node_id) => Ok(
                if k == CommandKind::UpdateNode {
                    CommandSpec::UpdateNode { node_id }
                } else if k == CommandKind::UpdateProbe {
                    CommandSpec::UpdateProbe { node_id }
                } else {
                    CommandSpec::RebootProbe { node_id }
                },
            ),
        },
    }
}

/// The command of kind `k` written with the parameter body `body`, or with
/// no parentheses at all where `body` is `None`.
pub open spec fn invoke_spec(k: CommandKind, body: Option<Seq<char>>) -> Result<CommandSpec, ErrorSpec> {
    match body {
        None => if params_optional(k) {
            build_spec(k, Seq::empty())
        } else {
            Err(ErrorSpec::MissingParameterBlock(k))
        },
        Some(b) => build_spec(k, params_of(b)),
    }
}

/// The characters of a parameter body, where parentheses were written.
pub open spec fn body_view(body: Option<&str>) -> Option<Seq<char>> {
    match body {
        Some(b) => Some(b@),
        None => None,
    }
}

/// Where `t[i]` is the first `(` of `t`.
pub open spec fn is_first_open(t: Seq<char>, i: int) -> bool {
    0 <= i < t.len() && t[i] == '(' && forall|j: int| 0 <= j < i ==> t[j] != '('
}

/// What an invocation line means: the quit sentinel, or the command that
/// its name selects built from its parameter body, or why it is refused.
pub open spec fn parse_spec(input: Seq<char>) -> Result<CommandSpec, ErrorSpec> {
    let t = trim(input);
    if is_quit_word(lower_of(t)) {
        Ok(CommandSpec::Quit)
    } else if exists|i: int| is_first_open(t, i) {
        let i = choose|i: int| is_first_open(t, i);
        if t.last() != ')' {
            Err(ErrorSpec::MalformedInvocation)
        } else {
            let name = trim(t.subrange(0, i));
            match kind_of(lower_of(name)) {
                None => Err(ErrorSpec::UnknownCommand(name)),
                Some(k) => invoke_spec(k, Some(t.subrange(i + 1, t.len() - 1))),
            }
        }
    } else {
        match kind_of(lower_of(t)) {
            None => Err(ErrorSpec::UnknownCommand(t)),
            Some(k) => invoke_spec(k, None),
        }
    }
}

/// The lower-case name of a command kind.
pub open spec fn kind_name(k: CommandKind) -> Seq<char> {
    match k {
        CommandKind::SetUpdateInterval => "set_update_interval"@,
        CommandKind::SetLogLevel => "set_log_level"@,
        CommandKind::SetLogFilter => "set_log_filter"@,
        CommandKind::Command => "command"@,
        CommandKind::UpdateNode => "update_node"@,
        CommandKind::UpdateProbe => "update_probe"@,
        CommandKind::RebootProbe => "reboot_probe"@,
        CommandKind::StartMeasurement => "start_measurement"@,
    }
}

/// The parameter key of a field.
pub open spec fn field_name(f: Field) -> Seq<char> {
    match f {
        Field::NodeId => "node_id"@,
        Field::StartTime => "start_time"@,
        Field::EndTime => "end_time"@,
        Field::ActivePeriod => "active_period"@,
        Field::InactivePeriod => "inactive_period"@,
        Field::LogLevel => "log_level"@,
        Field::LogFilter => "log_filter"@,
        Field::Command => "command"@,
        Field::Sequence => "sequence"@,
    }
}

/// The one-line text of an error.
pub open spec fn message_spec(e: ErrorSpec) -> Seq<char> {
    match e {
        ErrorSpec::MalformedInvocation => "Missing closing parenthesis"@,
        ErrorSpec::UnknownCommand(name) => "Unknown command: "@ + name,
        ErrorSpec::MissingParameterBlock(k) => kind_name(k) + " requires parameters"@,
        ErrorSpec::MissingField(f) => field_name(f) + " is required"@,
        ErrorSpec::InvalidField(f) => "Invalid "@ + field_name(f),
        ErrorSpec::NonTransportableCommand => "Quit command cannot be converted to JSON"@,
    }
}

impl CommandKind {
    pub fn name(&self) -> (r: &'static str)
        ensures
            r@ == kind_name(*self),
    {
        match self {
            CommandKind::SetUpdateInterval => "set_update_interval",
            CommandKind::SetLogLevel => "set_log_level",
            CommandKind::SetLogFilter => "set_log_filter",
            CommandKind::Command => "command",
            CommandKind::UpdateNode => "update_node",
            CommandKind::UpdateProbe => "update_probe",
            CommandKind::RebootProbe => "reboot_probe",
            CommandKind::StartMeasurement => "start_measurement",
        }
    }
}

impl Field {
    pub fn name(&self) -> (r: &'static str)
        ensures
            r@ == field_name(*self),
    {
        match self {
            Field::NodeId => "node_id",
            Field::StartTime => "start_time",
            Field::EndTime => "end_time",
            Field::ActivePeriod => "active_period",
            Field::InactivePeriod => "inactive_period",
            Field::LogLevel => "log_level",
            Field::LogFilter => "log_filter",
            Field::Command => "command",
            Field::Sequence => "sequence",
        }
    }
}

impl CommandError {
    /// A one-line, human-readable description.
    pub fn message(&self) -> (r: String)
        ensures
            r@ == message_spec(self@),
    {
        match self {
            CommandError::MalformedInvocation => "Missing closing parenthesis".to_owned(),
            CommandError::UnknownCommand(name) => {
                let mut m = "Unknown command: ".to_owned();
                m.append(name.as_str());
                m
            },
            CommandError::MissingParameterBlock(k) => {
                let mut m = k.name().to_owned();
                m.append(" requires parameters");
                m
            },
            CommandError::MissingField(f) => {
                let mut m = f.name().to_owned();
                m.append(" is required");
                m
            },
            CommandError::InvalidField(f) => {
                let mut m = "Invalid ".to_owned();
                m.append(f.name());
                m
            },
            CommandError::NonTransportableCommand => "Quit command cannot be converted to JSON".to_owned(),
        }
    }
}

/// A line whose trimmed text lower-cases to `quit`, `exit` or `bye` reads
/// as the quit sentinel, whatever whitespace surrounds it.
pub proof fn lemma_quit_padded(pre: Seq<char>, s: Seq<char>, post: Seq<char>)
    requires
        all_ws(pre),
        all_ws(post),
        trim(s) == s,
        is_quit_word(lower_of(s)),
    ensures
        parse_spec(pre + s + post) == Ok::<CommandSpec, ErrorSpec>(CommandSpec::Quit),
{
    lemma_trim_padded(pre, s, post);
}

/// Whether a lower-cased line is one of the words that end a session.
pub fn is_quit(lower: &str) -> (r: bool)
    ensures
        r == is_quit_word(lower@),
{
    let c = chars_of(lower);
    is_text(&c, "quit") || is_text(&c, "exit") || is_text(&c, "bye")
}

/// The command that a lower-cased name selects.
pub fn command_kind(lower: &str) -> (r: Option<CommandKind>)
    ensures
        r == kind_of(lower@),
{
    let c = chars_of(lower);
    if is_text(&c, "set_update_interval") {
        Some(CommandKind::SetUpdateInterval)
    } else if is_text(&c, "set_log_level") {
        Some(CommandKind::SetLogLevel)
    } else if is_text(&c, "set_log_filter") {
        Some(CommandKind::SetLogFilter)
    } else if is_text(&c, "command") {
        Some(CommandKind::Command)
    } else if is_text(&c, "update_node") {
        Some(CommandKind::UpdateNode)
    } else if is_text(&c, "update_probe") {
        Some(CommandKind::UpdateProbe)
    } else if is_text(&c, "reboot_probe") {
        Some(CommandKind::RebootProbe)
    } else if is_text(&c, "start_measurement") {
        Some(CommandKind::StartMeasurement)
    } else {
        None
    }
}

/// Whether an upper-cased text is one of the accepted log levels.
pub fn check_log_level(upper: &str) -> (r: bool)
    ensures
        r == is_log_level(upper@),
{
    let c = chars_of(upper);
    is_text(&c, "TRACE") || is_text(&c, "DEBUG") || is_text(&c, "INFO") || is_text(&c, "WARN") || is_text(&c, "ERROR")
}

fn parse_number(v: &str, max: u64) -> (r: Option<u64>)
    ensures
        r == unsigned_value(v@, max as int),
{
    let c = chars_of(v);
    parse_unsigned(&c, max)
}

/// The optional `node_id` of a parameter list.
pub fn parse_node_id(params: &Vec<(String, String)>) -> (r: Result<Option<u32>, CommandError>)
    ensures
        err_view(r) == node_id_spec(pairs_view(params@)),
{
    match get_param(params, "node_id") {
        None => Ok(None),
        Some(v) => match parse_number(v, 4294967295) {
            Some(n) => Ok(Some(n as u32)),
            None => Err(CommandError::InvalidField(Field::NodeId)),
        },
    }
}

fn parse_set_update_interval(body: &Vec<char>) -> (r: Result<Command, CommandError>)
    ensures
        renders_if_ok(r),
        result_view(r) == set_update_interval_spec(params_of(body@)),
{
    let params = parse_params(body);
    if get_param(&params, "node_id").is_some() {
        return Err(CommandError::InvalidField(Field::NodeId));
    }
    let start = match get_param(&params, "start_time") {
        Some(v) => v,
        None => return Err(CommandError::MissingField(Field::StartTime)),
    };
    let end = match get_param(&params, "end_time") {
        Some(v) => v,
        None => return Err(CommandError::MissingField(Field::EndTime)),
    };
    let active = match get_param(&params, "active_period") {
        Some(v) => v,
        None => return Err(CommandError::MissingField(Field::ActivePeriod)),
    };
    let inactive = match get_param(&params, "inactive_period") {
        Some(v) => v,
        None => return Err(CommandError::MissingField(Field::InactivePeriod)),
    };
    let start_time = match parse_iso_timestamp(start) {
        Some(t) => t,
        None => return Err(CommandError::InvalidField(Field::StartTime)),
    };
    let end_time = match parse_iso_timestamp(end) {
        Some(t) => t,
        None => return Err(CommandError::InvalidField(Field::EndTime)),
    };
    let active_period = match parse_number(active, u64::MAX) {
        Some(n) => n,
        None => return Err(CommandError::InvalidField(Field::ActivePeriod)),
    };
    let inactive_period = match parse_number(inactive, u64::MAX) {
        Some(n) => n,
        None => return Err(CommandError::InvalidField(Field::InactivePeriod)),
    };
    Ok(Command::SetUpdateInterval { start_time, end_time, active_period, inactive_period })
}

fn parse_set_log_level(body: &Vec<char>) -> (r: Result<Command, CommandError>)
    ensures
        renders_if_ok(r),
        result_view(r) == set_log_level_spec(params_of(body@)),
{
    let params = parse_params(body);
    let node_id = match parse_node_id(&params) {
        Ok(n) => n,
        Err(e) => return Err(e),
    };
    let level = match get_param(&params, "log_level") {
        Some(v) => v,
        None => return Err(CommandError::MissingField(Field::LogLevel)),
    };
    let log_level = to_upper(level);
    if !check_log_level(log_level.as_str()) {
        return Err(CommandError::InvalidField(Field::LogLevel));
    }
    Ok(Command::SetLogLevel { node_id, log_level })
}

fn parse_set_log_filter(body: &Vec<char>) -> (r: Result<Command, CommandError>)
    ensures
        renders_if_ok(r),
        result_view(r) == set_log_filter_spec(params_of(body@)),
{
    let params = parse_params(body);
    let node_id = match parse_node_id(&params) {
        Ok(n) => n,
        Err(e) => return Err(e),
    };
    let log_filter = match get_param(&params, "log_filter") {
        Some(v) => v.to_owned(),
        None => return Err(CommandError::MissingField(Field::LogFilter)),
    };
    Ok(Command::SetLogFilter { node_id, log_filter })
}

fn parse_command_cmd(body: &Vec<char>) -> (r: Result<Command, CommandError>)
    ensures
        renders_if_ok(r),
        result_view(r) == command_cmd_spec(params_of(body@)),
{
    let params = parse_params(body);
    let node_id = match parse_node_id(&params) {
        Ok(n) => n,
        Err(e) => return Err(e),
    };
    let command = match get_param(&params, "command") {
        Some(v) => v.to_owned(),
        None => return Err(CommandError::MissingField(Field::Command)),
    };
    Ok(Command::Command { node_id, command })
}

fn parse_start_measurement(body: &Vec<char>) -> (r: Result<Command, CommandError>)
    ensures
        renders_if_ok(r),
        result_view(r) == start_measurement_spec(params_of(body@)),
{
    let params = parse_params(body);
    let node_id = match parse_node_id(&params) {
        Ok(Some(n)) => n,
        Ok(None) => return Err(CommandError::MissingField(Field::NodeId)),
        Err(e) => return Err(e),
    };
    let text = match get_param(&params, "sequence") {
        Some(v) => v,
        None => return Err(CommandError::MissingField(Field::Sequence)),
    };
    let sequence = match parse_number(text, 4294967295) {
        Some(n) => n as u32,
        None => return Err(CommandError::InvalidField(Field::Sequence)),
    };
    Ok(Command::StartMeasurement { node_id, sequence })
}

/// `update_node`, `update_probe` and `reboot_probe`: an optional `node_id`.
fn parse_targeted(kind: CommandKind, body: &Vec<char>) -> (r: Result<Command, CommandError>)
    requires
        params_optional(kind),
    ensures
        result_view(r) == build_spec(kind, params_of(body@)),
        renders_if_ok(r),
{
    let params = parse_params(body);
    let node_id = match parse_node_id(&params) {
        Ok(n) => n,
        Err(e) => return Err(e),
    };
    match kind {
        CommandKind::UpdateNode => Ok(Command::UpdateNode { node_id }),
        CommandKind::UpdateProbe => Ok(Command::UpdateProbe { node_id }),
        _ => Ok(Command::RebootProbe { node_id }),
    }
}

/// Builds the command of kind `kind` from its parameter body, or from no
/// parentheses at all where `body` is `None`.
pub fn build_command(kind: CommandKind, body: Option<&str>) -> (r: Result<Command, CommandError>)
    ensures
        result_view(r) == invoke_spec(kind, body_view(body)),
        renders_if_ok(r),
{
    let chars = match body {
        Some(b) => chars_of(b),
        None => {
            if !(kind == CommandKind::UpdateNode || kind == CommandKind::UpdateProbe || kind == CommandKind::RebootProbe) {
                return Err(CommandError::MissingParameterBlock(kind));
            }
            Vec::new()
        },
    };
    proof {
        if body is None {
            assert(chars@ =~= Seq::<char>::empty());
            assert(params_of(chars@) =~= Seq::<(Seq<char>, Seq<char>)>::empty());
        }
    }
    match kind {
        CommandKind::SetUpdateInterval => parse_set_update_interval(&chars),
        CommandKind::SetLogLevel => parse_set_log_level(&chars),
        CommandKind::SetLogFilter => parse_set_log_filter(&chars),
        CommandKind::Command => parse_command_cmd(&chars),
        CommandKind::StartMeasurement => parse_start_measurement(&chars),
        _ => parse_targeted(kind, &chars),
    }
}

/// Reads one invocation line: `quit`, `exit` or `bye` in any case, or
/// `name`, or `name(key=value, ...)`.
pub fn parse_command(input: &str) -> (r: Result<Command, CommandError>)
    ensures
        result_view(r) == parse_spec(input@),
        renders_if_ok(r),
{
    let chars = chars_of(input);
    let n = chars.len();
    let (a, b) = trim_bounds(&chars, 0, n);
    assert(chars@.subrange(0, n as int) =~= input@);
    let ghost t = chars@.subrange(a as int, b as int);
    let trimmed = string_of(&chars, a, b);
    let lower = to_lower(trimmed.as_str());
    if is_quit(lower.as_str()) {
        return Ok(Command::Quit);
    }
    let mut p: usize = a;
    while p < b && chars[p] != '('
        invariant
            a <= p <= b <= n == chars@.len(),
            t == chars@.subrange(a as int, b as int),
            forall|j: int| 0 <= j < p - a ==> t[j] != '(',
        decreases b - p,
    {
        p = p + 1;
    }
    if p == b {
        assert(!exists|i: int| is_first_open(t, i));
        return match command_kind(lower.as_str()) {
            None => Err(CommandError::UnknownCommand(trimmed)),
            Some(k) => build_command(k, None),
        };
    }
    assert(is_first_open(t, p - a));
    assert forall|i: int| is_first_open(t, i) implies i == p - a by {
        if i < p - a {
            assert(t[i] != '(');
        }
        if i > p - a {
            assert(t[p - a] != '(');
        }
    }
    if chars[b - 1] != ')' {
        return Err(CommandError::MalformedInvocation);
    }
    let (na, nb) = trim_bounds(&chars, a, p);
    assert(chars@.subrange(a as int, p as int) =~= t.subrange(0, p - a));
    let name = string_of(&chars, na, nb);
    let lname = to_lower(name.as_str());
    match command_kind(lname.as_str()) {
        None => Err(CommandError::UnknownCommand(name)),
        Some(k) => {
            let body = string_of(&chars, p + 1, b - 1);
            assert(chars@.subrange(p + 1, b - 1) =~= t.subrange(p - a + 1, t.len() - 1));
            build_command(k, Some(body.as_str()))
        },
    }
}

} // verus!
