//! Messages for the log of reference changes.

use vstd::prelude::*;
use vstd::utf8::{encode_scalar, encode_utf8};

verus! {

/// The way reflog messages should be composed whenever a ref is written with recent objects from a remote.
#[derive(Debug)]
pub enum RefLogMessage {
    /// Prefix the log with `action` and generate the typical suffix as `git` would.
    Prefixed {
        /// The action to use, like `fetch` or `pull`.
        action: String,
    },
    /// Control the entire message, using `message` verbatim.
    Override {
        /// The complete reflog message.
        message: Vec<u8>,
    },
}

/// A [`RefLogMessage`] as mathematical value.
pub enum RefLogMessageView {
    /// Prefix the log with `action`.
    Prefixed { action: Seq<char> },
    /// Use `message` verbatim.
    Override { message: Seq<u8> },
}

impl View for RefLogMessage {
    type V = RefLogMessageView;

    open spec fn view(&self) -> RefLogMessageView {
        match self {
            RefLogMessage::Prefixed { action } => RefLogMessageView::Prefixed { action: action@ },
            RefLogMessage::Override { message } => RefLogMessageView::Override { message: message@ },
        }
    }
}

impl RefLogMessageView {
    /// The bytes to write to the reflog when a reference changes for the reason given in `context`.
    pub open spec fn composed(self, context: Seq<char>) -> Seq<u8> {
        match self {
            RefLogMessageView::Prefixed { action } => encode_utf8(
                action + seq![':', ' '] + context,
            ),
            RefLogMessageView::Override { message } => message,
        }
    }

    /// The message to use if none was set.
    pub open spec fn of_fetch() -> Self {
        RefLogMessageView::Prefixed { action: seq!['f', 'e', 't', 'c', 'h'] }
    }
}

impl RefLogMessage {
    /// Return the bytes to write to the reflog when a reference changes for the reason given in `context`.
    pub fn compose(&self, context: &str) -> (message: Vec<u8>)
        ensures
            message@ == self@.composed(context@),
            self matches RefLogMessage::Prefixed { action } ==> message@ == encode_utf8(
                action@ + seq![':', ' '] + context@,
            ),
            self matches RefLogMessage::Override { message: verbatim } ==> message@ == verbatim@,
    {
        match self {
            RefLogMessage::Prefixed { action } => {
                let mut message: Vec<u8> = Vec::new();
                message.extend_from_slice(action.as_str().as_bytes());
                message.extend_from_slice(": ".as_bytes());
                message.extend_from_slice(context.as_bytes());
                proof {
                    reveal_strlit(": ");
                    assert(": "@ =~= seq![':', ' ']);
                    lemma_encode_utf8_concat(action@, seq![':', ' ']);
                    lemma_encode_utf8_concat(action@ + seq![':', ' '], context@);
                    assert(message@ =~= encode_utf8(action@) + encode_utf8(seq![':', ' '])
                        + encode_utf8(context@));
                }
                message
            },
            RefLogMessage::Override { message } => message.clone(),
        }
    }

    /// Return the message to use if none was set.
    pub fn of_fetch() -> (message: Self)
        ensures
            message@ == RefLogMessageView::of_fetch(),
            message matches RefLogMessage::Prefixed { action } && action@ == seq![
                'f',
                'e',
                't',
                'c',
                'h',
            ],
    {
        proof {
            reveal_strlit("fetch");
        }
        let action: String = "fetch".to_owned();
        assert(action@ =~= seq!['f', 'e', 't', 'c', 'h']);
        RefLogMessage::Prefixed { action }
    }
}

/// The encoding of two texts in sequence is the encoding of one followed by the encoding of the other.
proof fn lemma_encode_utf8_concat(a: Seq<char>, b: Seq<char>)
    ensures
        encode_utf8(a + b) == encode_utf8(a) + encode_utf8(b),
    decreases a.len(),
{
    if a.len() == 0 {
        assert(a + b =~= b);
        assert(encode_utf8(a) + encode_utf8(b) =~= encode_utf8(b));
    } else {
        lemma_encode_utf8_concat(a.drop_first(), b);
        assert((a + b).drop_first() =~= a.drop_first() + b);
        assert(encode_scalar((a + b)[0] as u32) == encode_scalar(a[0] as u32));
        assert(encode_utf8(a + b) =~= encode_utf8(a) + encode_utf8(b));
    }
}

/// A message with a prefix starts with its action, goes on with a colon and a space and ends with
/// the context, while one that is given in full does not depend on the context.
pub proof fn law_composed_messages(action: Seq<char>, message: Seq<u8>, context: Seq<char>)
    ensures
        (RefLogMessageView::Prefixed { action }).composed(context) == encode_utf8(action)
            + seq![0x3au8, 0x20u8] + encode_utf8(context),
        (RefLogMessageView::Override { message }).composed(context) == message,
{
    lemma_encode_utf8_concat(action, seq![':', ' ']);
    lemma_encode_utf8_concat(action + seq![':', ' '], context);
    let separator: Seq<char> = seq![':', ' '];
    vstd::utf8::is_ascii_chars_encode_utf8(separator);
    assert(encode_utf8(separator) =~= seq![0x3au8, 0x20u8]);
}

/// What a message composes to is up to what it was made of: the action, a colon, a space and the context, or the bytes that
/// were given and nothing else. The default composes to the context after `fetch: `.
pub proof fn law_messages_compose_to_what_they_are_made_of(message: RefLogMessage, context: Seq<char>)
    ensures
        match message {
            RefLogMessage::Prefixed { action } => {
                let composed = message@.composed(context);
                let separator = seq![0x3au8, 0x20u8];
                &&& composed == encode_utf8(action@) + separator + encode_utf8(context)
            },
            RefLogMessage::Override { message: verbatim } => message@.composed(context)
                == verbatim@,
        },
        RefLogMessageView::of_fetch().composed(context) == encode_utf8(
            seq!['f', 'e', 't', 'c', 'h', ':', ' '] + context,
        ),
{
    if let RefLogMessage::Prefixed { action } = message {
        law_composed_messages(action@, Seq::empty(), context);
    }
    assert(seq!['f', 'e', 't', 'c', 'h'] + seq![':', ' '] =~= seq![
        'f',
        'e',
        't',
        'c',
        'h',
        ':',
        ' ',
    ]);
}

} // verus!
