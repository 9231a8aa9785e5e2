//! The arguments of the editor's `connect` call.

use crate::apc::connection::{
    assistant_named, lowercase, protocol_named, Assistant, ConnectionDetails, Protocol,
};
use crate::nvim::value::{dictionary_entries, insert_text, optional_field, Fields, Value};
use crate::nvim::NvimError;
use nvim_oxi::Dictionary;
use vstd::prelude::*;
use vstd::string::StringExecFns;

verus! {

/// What the editor passed to `connect`. A field that was left out is `None`.
#[derive(PartialEq, Eq, Clone, Copy, Debug, Structural)]
pub struct ConnectionArgs {
    pub agent: Option<Assistant>,
    pub protocol: Option<Protocol>,
}

/// What a field of the editor's argument table holds.
#[derive(Debug, Clone)]
pub enum ArgValue {
    /// A string.
    Text(String),
    /// A value of any other kind.
    Other,
}

/// The connection that arguments ask for: a field that was left out takes
/// its default, the agent `Copilot` and the transport `Stdio`.
pub open spec fn details_of(args: ConnectionArgs) -> ConnectionDetails {
    ConnectionDetails {
        agent: match args.agent {
            Some(agent) => agent,
            None => Assistant::Copilot,
        },
        protocol: match args.protocol {
            Some(protocol) => protocol,
            None => Protocol::Stdio,
        },
    }
}

impl From<ConnectionArgs> for ConnectionDetails {
    fn from(args: ConnectionArgs) -> (details: ConnectionDetails) {
        ConnectionDetails {
            agent: match args.agent {
                Some(agent) => agent,
                None => Assistant::Copilot,
            },
            protocol: match args.protocol {
                Some(protocol) => protocol,
                None => Protocol::Stdio,
            },
        }
    }
}

impl vstd::std_specs::convert::FromSpecImpl<ConnectionArgs> for ConnectionDetails {
    open spec fn obeys_from_spec() -> bool {
        true
    }

    open spec fn from_spec(args: ConnectionArgs) -> ConnectionDetails {
        details_of(args)
    }
}

/// The connection that a `connect` call asks for. A call without arguments
/// asks for the default connection.
pub fn connection_details(arg: Option<ConnectionArgs>) -> (details: ConnectionDetails)
    ensures
        details == match arg {
            Some(args) => details_of(args),
            None => ConnectionDetails { agent: Assistant::Copilot, protocol: Protocol::Stdio },
        },
{
    match arg {
        Some(args) => ConnectionDetails::from(args),
        None => ConnectionDetails::default(),
    }
}

/// The message for a field that holds something other than a string.
pub open spec fn invalid_field(field: Seq<char>) -> Seq<char> {
    "Invalid input for \""@ + field + "\", must be a string"@
}

fn invalid_field_message(field: &str) -> (message: String)
    ensures
        message@ == invalid_field(field@),
{
    "Invalid input for \"".to_owned().concat(field).concat("\", must be a string")
}

/// Every name selects an agent and a transport: a name that is not known,
/// whatever its case, selects the default instead of failing.
pub proof fn lemma_unrecognized_names_fall_back(name: Seq<char>)
    ensures
        lowercase(name) != "opencode"@ ==> assistant_named(lowercase(name)) == Assistant::Copilot,
        lowercase(name) != "socket"@ && lowercase(name) != "http"@ ==> protocol_named(
            lowercase(name),
        ) == Protocol::Stdio,
{
}

impl ConnectionArgs {
    /// The agent that a field selects.
    pub open spec fn agent_of(field: Option<ArgValue>) -> Option<Assistant> {
        match field {
            Some(ArgValue::Text(name)) => Some(assistant_named(lowercase(name@))),
            _ => None,
        }
    }

    /// The transport that a field selects.
    pub open spec fn protocol_of(field: Option<ArgValue>) -> Option<Protocol> {
        match field {
            Some(ArgValue::Text(name)) => Some(protocol_named(lowercase(name@))),
            _ => None,
        }
    }

    /// Reads the arguments from the two fields of the editor's table. A
    /// field that is there must hold a string, which selects by name without
    /// regard to case, and selects the default where the name is not known.
    /// Fails with `InvalidConfig` for a field that holds anything else, the
    /// agent's field first.
    pub fn from_fields(agent: Option<ArgValue>, protocol: Option<ArgValue>) -> (result: Result<
        ConnectionArgs,
        NvimError,
    >)
        ensures
            agent == Some(ArgValue::Other) ==> result is Err && result->Err_0 is InvalidConfig
                && result->Err_0->InvalidConfig_0@ == invalid_field("agent"@),
            agent != Some(ArgValue::Other) && protocol == Some(ArgValue::Other) ==> result is Err
                && result->Err_0 is InvalidConfig && result->Err_0->InvalidConfig_0@
                == invalid_field("protocol"@),
            agent != Some(ArgValue::Other) && protocol != Some(ArgValue::Other) ==> result == Ok::<
                ConnectionArgs,
                NvimError,
            >(
                ConnectionArgs {
                    agent: Self::agent_of(agent),
                    protocol: Self::protocol_of(protocol),
                },
            ),
    {
        let agent = match agent {
            Some(ArgValue::Text(name)) => Some(Assistant::from(name)),
            Some(ArgValue::Other) => {
                return Err(NvimError::InvalidConfig(invalid_field_message("agent")));
            },
            None => None,
        };
        let protocol = match protocol {
            Some(ArgValue::Text(name)) => Some(Protocol::from(name)),
            Some(ArgValue::Other) => {
                return Err(NvimError::InvalidConfig(invalid_field_message("protocol")));
            },
            None => None,
        };
        Ok(ConnectionArgs { agent, protocol })
    }

    /// The table of the arguments: `agent` and `protocol` by name, each
    /// where it was given.
    pub open spec fn fields(self) -> Fields {
        optional_field(
            "agent"@,
            match self.agent {
                Some(agent) => Some(Value::Text(agent.name())),
                None => None,
            },
        ) + optional_field(
            "protocol"@,
            match self.protocol {
                Some(protocol) => Some(Value::Text(protocol.name())),
                None => None,
            },
        )
    }

    /// Writes the arguments as a table for the editor.
    pub fn to_dictionary(&self) -> (dict: Dictionary)
        ensures
            dictionary_entries(dict) == self.fields(),
    {
        let mut dict = Dictionary::new();
        if let Some(agent) = self.agent {
            let name = agent.to_string();
            insert_text(&mut dict, "agent", name.as_str());
        }
        if let Some(protocol) = self.protocol {
            let name = protocol.to_string();
            insert_text(&mut dict, "protocol", name.as_str());
        }
        assert(dictionary_entries(dict) =~= self.fields());
        dict
    }
}

} // verus!
