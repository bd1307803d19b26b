//! The canonical document that carries a command to the hub: the command's
//! name and its parameters by name.
use vstd::prelude::*;
use crate::command::{Command, CommandSpec, CommandError, ErrorSpec, Field, instants_render};
use crate::timestamp::{rfc3339_text, render_rfc3339};

verus! {

/// A parameter value: text or an unsigned number.
#[derive(Clone, Debug, PartialEq, Eq)]
pub enum ParamValue {
    Text(String),
    Number(u64),
}

/// A command name with its parameters, in the order the command lists them.
#[derive(Clone, Debug, PartialEq, Eq)]
pub struct Document {
    pub command: String,
    pub parameters: Vec<(String, ParamValue)>,
}

pub enum ValueSpec {
    Text(Seq<char>),
    Number(u64),
}

pub struct DocumentSpec {
    pub command: Seq<char>,
    pub parameters: Seq<(Seq<char>, ValueSpec)>,
}

impl View for ParamValue {
    type V = ValueSpec;

    open spec fn view(&self) -> ValueSpec {
        match self {
            ParamValue::Text(s) => ValueSpec::Text(s@),
            ParamValue::Number(n) => ValueSpec::Number(*n),
        }
    }
}

impl View for Document {
    type V = DocumentSpec;

    open spec fn view(&self) -> DocumentSpec {
        DocumentSpec {
            command: self.command@,
            parameters: self.parameters@.map_values(|p: (String, ParamValue)| (p.0@, p.1@)),
        }
    }
}

/// A conversion result with document and error as characters.
pub open spec fn document_view(r: Result<Document, CommandError>) -> Result<DocumentSpec, ErrorSpec> {
    match r {
        Ok(d) => Ok(d@),
        Err(e) => Err(e@),
    }
}

/// The wire name of the target node: two words, as the hub expects it.
pub open spec fn node_key() -> Seq<char> {
    "node id"@
}

/// `ps`, followed by the target node where there is one.
pub open spec fn with_node(ps: Seq<(Seq<char>, ValueSpec)>, node_id: Option<u32>) -> Seq<(Seq<char>, ValueSpec)> {
    match node_id {
        Some(id) => ps.push((node_key(), ValueSpec::Number(id as u64))),
        None => ps,
    }
}

/// The document of a command; the quit sentinel has none, nor an instant
/// that chrono cannot render.
pub open spec fn document_spec(c: CommandSpec) -> Result<DocumentSpec, ErrorSpec> {
    match c {
        CommandSpec::SetUpdateInterval { start_time, end_time, active_period, inactive_period } =>
            if rfc3339_text(start_time) is None {
            Err(ErrorSpec::InvalidField(Field::StartTime))
        } else if rfc3339_text(end_time) is None {
            Err(ErrorSpec::InvalidField(Field::EndTime))
        } else {
            Ok(DocumentSpec {
                command: "set_update_interval"@,
                parameters: seq![
                    ("start_time"@, ValueSpec::Text(rfc3339_text(start_time)->0)),
                    ("end_time"@, ValueSpec::Text(rfc3339_text(end_time)->0)),
                    ("active_period"@, ValueSpec::Number(active_period)),
                    ("inactive_period"@, ValueSpec::Number(inactive_period)),
                ],
            })
        },
        CommandSpec::SetLogLevel { node_id, log_level } => Ok(DocumentSpec {
            command: "set_log_level"@,
            parameters: with_node(seq![("log_level"@, ValueSpec::Text(log_level))], node_id),
        }),
        CommandSpec::SetLogFilter { node_id, log_filter } => Ok(DocumentSpec {
            command: "set_log_filter"@,
            parameters: with_node(seq![("log_filter"@, ValueSpec::Text(log_filter))], node_id),
        }),
        CommandSpec::Command { node_id, command } => Ok(DocumentSpec {
            command: "command"@,
            parameters: with_node(seq![("command"@, ValueSpec::Text(command))], node_id),
        }),
        CommandSpec::UpdateNode { node_id } => Ok(DocumentSpec { command: "update_node"@, parameters: with_node(seq![], node_id) }),
        CommandSpec::UpdateProbe { node_id } => Ok(DocumentSpec { command: "update_probe"@, parameters: with_node(seq![], node_id) }),
        CommandSpec::RebootProbe { node_id } => Ok(DocumentSpec { command: "reboot_probe"@, parameters: with_node(seq![], node_id) }),
        CommandSpec::StartMeasurement { node_id, sequence } => Ok(DocumentSpec {
            command: "start_measurement"@,
            parameters: seq![(node_key(), ValueSpec::Number(node_id as u64)), ("sequence"@, ValueSpec::Number(sequence as u64))],
        }),
        CommandSpec::Quit => Err(ErrorSpec::NonTransportableCommand),
    }
}

/// Converting a command twice gives the same document, or the same error.
pub proof fn lemma_to_json_deterministic(c: Command, r1: Result<Document, CommandError>, r2: Result<Document, CommandError>)
    requires
        document_view(r1) == document_spec(c@),
        document_view(r2) == document_spec(c@),
    ensures
        document_view(r1) == document_view(r2),
{
}

/// Every command but the quit sentinel whose instants render has a document;
/// `parse_command` builds only such commands.
pub proof fn lemma_transportable(c: CommandSpec)
    requires
        !(c is Quit),
        instants_render(c),
    ensures
        document_spec(c) is Ok,
{
}

fn text_param(key: &str, value: String) -> (r: (String, ParamValue))
    ensures
        r.0@ == key@,
        r.1@ == ValueSpec::Text(value@),
{
    (key.to_owned(), ParamValue::Text(value))
}

fn number_param(key: &str, value: u64) -> (r: (String, ParamValue))
    ensures
        r.0@ == key@,
        r.1@ == ValueSpec::Number(value),
{
    (key.to_owned(), ParamValue::Number(value))
}

fn document(name: &str, parameters: Vec<(String, ParamValue)>, node_id: Option<u32>) -> (r: Document)
    ensures
        r@.command == name@,
        r@.parameters == with_node(parameters@.map_values(|p: (String, ParamValue)| (p.0@, p.1@)), node_id),
{
    let mut parameters = parameters;
    let ghost before = parameters@;
    if let Some(id) = node_id {
        parameters.push(number_param("node id", id as u64));
        assert(parameters@.map_values(|p: (String, ParamValue)| (p.0@, p.1@))
            =~= before.map_values(|p: (String, ParamValue)| (p.0@, p.1@)).push((node_key(), ValueSpec::Number(id as u64))));
    }
    Document { command: name.to_owned(), parameters }
}

impl Command {
    /// The canonical document that carries this command to the hub.
    pub fn to_json(&self) -> (r: Result<Document, CommandError>)
        ensures
            document_view(r) == document_spec(self@),
            self is Quit ==> r matches Err(CommandError::NonTransportableCommand),
            !(self is Quit) && instants_render(self@) ==> r is Ok,
    {
        match self {
            Command::SetUpdateInterval { start_time, end_time, active_period, inactive_period } => {
                let start = match render_rfc3339(*start_time) {
                    Some(s) => s,
                    None => return Err(CommandError::InvalidField(Field::StartTime)),
                };
                let end = match render_rfc3339(*end_time) {
                    Some(s) => s,
                    None => return Err(CommandError::InvalidField(Field::EndTime)),
                };
                let parameters = vec![
                    text_param("start_time", start),
                    text_param("end_time", end),
                    number_param("active_period", *active_period),
                    number_param("inactive_period", *inactive_period),
                ];
                let r = document("set_update_interval", parameters, None);
                assert(r@.parameters =~= document_spec(self@)->Ok_0.parameters);
                Ok(r)
            },
            Command::SetLogLevel { node_id, log_level } => {
                let parameters = vec![text_param("log_level", log_level.clone())];
                let r = document("set_log_level", parameters, *node_id);
                assert(r@.parameters =~= document_spec(self@)->Ok_0.parameters);
                Ok(r)
            },
            Command::SetLogFilter { node_id, log_filter } => {
                let parameters = vec![text_param("log_filter", log_filter.clone())];
                let r = document("set_log_filter", parameters, *node_id);
                assert(r@.parameters =~= document_spec(self@)->Ok_0.parameters);
                Ok(r)
            },
            Command::Command { node_id, command } => {
                let parameters = vec![text_param("command", command.clone())];
                let r = document("command", parameters, *node_id);
                assert(r@.parameters =~= document_spec(self@)->Ok_0.parameters);
                Ok(r)
            },
            Command::UpdateNode { node_id } => {
                let r = document("update_node", Vec::new(), *node_id);
                assert(r@.parameters =~= document_spec(self@)->Ok_0.parameters);
                Ok(r)
            },
            Command::UpdateProbe { node_id } => {
                let r = document("update_probe", Vec::new(), *node_id);
                assert(r@.parameters =~= document_spec(self@)->Ok_0.parameters);
                Ok(r)
            },
            Command::RebootProbe { node_id } => {
                let r = document("reboot_probe", Vec::new(), *node_id);
                assert(r@.parameters =~= document_spec(self@)->Ok_0.parameters);
                Ok(r)
            },
            Command::StartMeasurement { node_id, sequence } => {
                let parameters = vec![number_param("node id", *node_id as u64), number_param("sequence", *sequence as u64)];
                let r = document("start_measurement", parameters, None);
                assert(r@.parameters =~= document_spec(self@)->Ok_0.parameters);
                Ok(r)
            },
            Command::Quit => Err(CommandError::NonTransportableCommand),
        }
    }
}

} // verus!
