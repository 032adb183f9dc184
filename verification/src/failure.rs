//! The stages of an exchange and the text that reports a failure.

use vstd::prelude::*;
use vstd::string::*;

verus! {

/// The stages of one exchange with the server, in the order in which they
/// are passed.
#[derive(Clone, Copy, Debug, PartialEq, Eq, Structural)]
pub enum Stage {
    /// Opening the transport to the server.
    Connect,
    /// Configuring the open transport.
    Configure,
    /// The protocol handshake and the login.
    Authenticate,
    /// Sending the statement and waiting for the server to accept it.
    Execute,
    /// Reading or draining what the statement returned.
    Collect,
}

impl Stage {
    /// The text that stands before the detail of a failure at this stage.
    pub open spec fn prefix(self) -> Seq<char> {
        match self {
            Stage::Connect => "Connection error: "@,
            Stage::Configure => "TCP error: "@,
            Stage::Authenticate => "Client connection error: "@,
            Stage::Execute => "Query execution error: "@,
            Stage::Collect => "Result processing error: "@,
        }
    }

    /// The place of the stage in the order of the stages, from 0.
    pub open spec fn index(self) -> int {
        match self {
            Stage::Connect => 0,
            Stage::Configure => 1,
            Stage::Authenticate => 2,
            Stage::Execute => 3,
            Stage::Collect => 4,
        }
    }

    /// The stage at a place in the order; the last one for a place behind it.
    pub open spec fn at(index: int) -> Stage {
        if index <= 0 {
            Stage::Connect
        } else if index == 1 {
            Stage::Configure
        } else if index == 2 {
            Stage::Authenticate
        } else if index == 3 {
            Stage::Execute
        } else {
            Stage::Collect
        }
    }

    /// The stage that follows this one, if there is one.
    pub open spec fn following(self) -> Option<Stage> {
        match self {
            Stage::Connect => Some(Stage::Configure),
            Stage::Configure => Some(Stage::Authenticate),
            Stage::Authenticate => Some(Stage::Execute),
            Stage::Execute => Some(Stage::Collect),
            Stage::Collect => None,
        }
    }
}

/// The text of a failure: the prefix of the stage, then the detail.
pub open spec fn failure_text(stage: Stage, detail: Seq<char>) -> Seq<char> {
    stage.prefix() + detail
}

/// The text that reports a failure at `stage` to the caller.
pub fn failure_message(stage: Stage, detail: &str) -> (message: String)
    ensures
        message@ == failure_text(stage, detail@),
{
    let prefix = match stage {
        Stage::Connect => "Connection error: ",
        Stage::Configure => "TCP error: ",
        Stage::Authenticate => "Client connection error: ",
        Stage::Execute => "Query execution error: ",
        Stage::Collect => "Result processing error: ",
    };
    prefix.to_owned().concat(detail)
}

/// A failure text begins with the prefix of its stage and ends with the
/// detail, and nothing stands between them.
pub proof fn lemma_failure_text_parts(stage: Stage, detail: Seq<char>)
    ensures
        stage.prefix().is_prefix_of(failure_text(stage, detail)),
        failure_text(stage, detail).len() == stage.prefix().len() + detail.len(),
        failure_text(stage, detail).skip(stage.prefix().len() as int) == detail,
{
    let text = failure_text(stage, detail);
    assert(text.subrange(0, stage.prefix().len() as int) =~= stage.prefix());
    assert(text.skip(stage.prefix().len() as int) =~= detail);
}

} // verus!
