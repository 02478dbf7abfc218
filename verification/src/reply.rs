//! The reply resolver: normalizes an optional "referenced message" into a
//! [`ReplyContext`].  Absence of a referenced message is a valid, expected
//! outcome, never an error.

use vstd::prelude::*;

verus! {

/// What the relay reads of the message a reply points at: its id and the id
/// of its author.
#[derive(Clone, Copy, Debug, PartialEq, Eq, Structural)]
pub struct ReferencedMessage {
    pub id: u64,
    pub author_id: u64,
}

/// Normalized information about the message (if any) the current message is
/// replying to.  When no referenced message is present, both ids carry the
/// reserved sentinel `0`, which never collides with a real platform id.
#[derive(Clone, Copy, Debug, PartialEq, Eq, Structural)]
pub struct ReplyContext {
    pub referenced_message_present: bool,
    pub referenced_message_id: u64,
    pub referenced_author_id: u64,
}

impl ReplyContext {
    /// The sentinel ids are reserved for the "no reply" context and a real
    /// referenced message never carries them.
    pub open spec fn wf(self) -> bool {
        if self.referenced_message_present {
            self.referenced_message_id != 0
        } else {
            self.referenced_message_id == 0 && self.referenced_author_id == 0
        }
    }

    /// The context of a message that replies to nothing.
    pub open spec fn spec_no_reply() -> ReplyContext {
        ReplyContext {
            referenced_message_present: false,
            referenced_message_id: 0,
            referenced_author_id: 0,
        }
    }
}

/// The context a referenced message (or its absence) normalizes to.
pub open spec fn spec_reply_context(msg: Option<ReferencedMessage>) -> ReplyContext {
    match msg {
        Some(m) => ReplyContext {
            referenced_message_present: true,
            referenced_message_id: m.id,
            referenced_author_id: m.author_id,
        },
        None => ReplyContext::spec_no_reply(),
    }
}

/// Extracts the reply context of a message: the id and author of the message
/// it references, or the sentinel "no reply" context when it references
/// nothing.
pub fn get_replied_to_message(msg: Option<&ReferencedMessage>) -> (r: ReplyContext)
    requires
        match msg {
            Some(m) => m.id != 0,
            None => true,
        },
    ensures
        r == spec_reply_context(
            match msg {
                Some(m) => Some(*m),
                None => None,
            },
        ),
        r.wf(),
{
    match msg {
        Some(m) => ReplyContext {
            referenced_message_present: true,
            referenced_message_id: m.id,
            referenced_author_id: m.author_id,
        },
        None => ReplyContext {
            referenced_message_present: false,
            referenced_message_id: 0,
            referenced_author_id: 0,
        },
    }
}

} // verus!
