//! Derivation of the notification message: the text derived from a watched
//! command's exit status, with an optional literal message appended, and the
//! fallback used when neither a watch command nor a literal message is given.

use vstd::prelude::*;
use vstd::string::StringExecFns;

verus! {

/// The message a watched command derives: a line naming the command and
/// whether it exited successfully, then, if a literal message was also
/// supplied, a line break and that message.
pub open spec fn watch_message_spec(cmd: Seq<char>, success: bool, extra: Option<Seq<char>>) -> Seq<
    char,
> {
    (if success {
        "Successfully executed: "@ + cmd
    } else {
        "Failed to execute: "@ + cmd
    }) + match extra {
        Some(m) => "\n"@ + m,
        None => Seq::<char>::empty(),
    }
}

/// Builds the message derived from running the watched command `command`
/// with exit success `success`, appending `additional` after a line break
/// when it is given.
pub fn watch_message(command: &str, success: bool, additional: Option<&str>) -> (r: String)
    ensures
        r@ == watch_message_spec(
            command@,
            success,
            match additional {
                Some(m) => Some(m@),
                None => None,
            },
        ),
{
    let mut msg: String = if success {
        "Successfully executed: ".to_owned()
    } else {
        "Failed to execute: ".to_owned()
    };
    msg.append(command);
    match additional {
        Some(m) => {
            msg.append("\n");
            msg.append(m);
            proof {
                assert(msg@ =~= watch_message_spec(command@, success, Some(m@)));
            }
        },
        None => {
            proof {
                assert(msg@ =~= watch_message_spec(command@, success, None::<Seq<char>>));
            }
        },
    }
    msg
}

/// The fixed message sent when the caller gives neither a literal message nor
/// a watch command.
pub open spec fn default_message() -> Seq<char> {
    "Plingding!"@
}

/// The literal message when one was given, the fixed default otherwise.
pub fn fallback_message(literal: Option<String>) -> (r: String)
    ensures
        match literal {
            Some(m) => r@ == m@,
            None => r@ == default_message(),
        },
{
    match literal {
        Some(m) => m,
        None => "Plingding!".to_owned(),
    }
}

} // verus!
