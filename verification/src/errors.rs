//! The unified error value: an optional rich cause plus a process exit code,
//! the constructors and conversions that build it, and the rendering of its
//! diagnostic line.

use crate::text::{dec_int, lemma_concat_contains_suffix, lemma_contains_self, text_contains};
use crate::text::decimal_string;
use crate::upstream::{contextual_error_text, emit_diagnostic_line};
use vstd::prelude::*;

verus! {

/// The exit code for an internal, otherwise unclassified failure.
pub const INTERNAL_FAILURE_CODE: i32 = 101;

/// The rendered text of an unknown-subcommand error.
pub open spec fn unknown_subcommand_text(name: Seq<char>) -> Seq<char> {
    "Unknown subcommand: "@ + name
}

/// The rendered text of a user-message error.
pub open spec fn with_message_text(msg: Seq<char>) -> Seq<char> {
    "Error Message: "@ + msg
}

/// An error message together with the messages of its underlying causes.
#[derive(Debug)]
pub struct RichError {
    /// The outermost message; rendering shows exactly this text.
    pub message: String,
    /// Messages of the underlying causes, nearest cause first.
    pub causes: Vec<String>,
}

impl RichError {
    /// A fresh error with no underlying cause.
    pub fn new(message: String) -> (r: RichError)
        ensures
            r.message == message,
            r.causes@ == Seq::<String>::empty(),
    {
        let causes: Vec<String> = Vec::new();
        RichError { message, causes }
    }

    /// Wrap `self` in an outer context message: the context becomes the
    /// outermost message and the old outermost message the nearest cause.
    pub fn context(self, message: String) -> (r: RichError)
        ensures
            r.message == message,
            r.causes@ == seq![self.message] + self.causes@,
    {
        let mut causes: Vec<String> = Vec::new();
        causes.push(self.message);
        let mut rest = self.causes;
        causes.append(&mut rest);
        proof {
            assert(causes@ =~= seq![self.message] + self.causes@);
        }
        RichError { message, causes }
    }
}

/// The unified error value: an optional rich cause plus an exit code. The
/// public constructors always set the cause; the absent state exists only
/// for values built by hand, and rendering a line tolerates it.
#[derive(Debug)]
pub struct MonoError {
    /// The cause; present after any provided constructor or conversion.
    pub error: Option<RichError>,
    /// The exit code the process should report; stored verbatim, never
    /// mutated after construction.
    pub code: i32,
}

impl MonoError {
    /// The value `new` builds from a cause and a code.
    pub open spec fn new_spec(error: RichError, code: i32) -> MonoError {
        MonoError { error: Some(error), code }
    }

    /// The cause is present, as every provided constructor guarantees.
    pub open spec fn has_cause(self) -> bool {
        self.error is Some
    }

    /// What rendering shows: the outermost message of the cause.
    pub open spec fn rendered(self) -> Seq<char>
        recommends
            self.has_cause(),
    {
        self.error->0.message@
    }

    /// The texts of the cause's underlying causes, nearest first.
    pub open spec fn cause_chain(self) -> Seq<Seq<char>>
        recommends
            self.has_cause(),
    {
        self.error->0.causes@.map_values(|m: String| m@)
    }

    /// The full diagnostic line: the code in decimal, a colon, the rendered
    /// cause.
    pub open spec fn line(self) -> Seq<char>
        recommends
            self.has_cause(),
    {
        dec_int(self.code as int) + seq![':'] + self.rendered()
    }

    /// The exit code a parse outcome maps to: 1 when the outcome is routed
    /// to the error stream, 0 when it is informational.
    pub open spec fn parse_code(use_stderr: bool) -> i32 {
        if use_stderr {
            1
        } else {
            0
        }
    }

    /// Store a cause and a code verbatim.
    pub fn new(error: RichError, code: i32) -> (r: MonoError)
        ensures
            r == MonoError::new_spec(error, code),
    {
        MonoError { error: Some(error), code }
    }

    /// The error for a subcommand name the application does not know:
    /// a fixed message template and exit code 1.
    pub fn _unknown_subcommand(cmd: &str) -> (r: MonoError)
        ensures
            r.code == 1,
            r.has_cause(),
            r.rendered() == unknown_subcommand_text(cmd@),
            r.cause_chain() == Seq::<Seq<char>>::empty(),
    {
        let mut message = String::from_str("Unknown subcommand: ");
        message.append(cmd);
        let r = MonoError::new(RichError::new(message), 1);
        proof {
            assert(r.cause_chain() =~= Seq::<Seq<char>>::empty());
        }
        r
    }

    /// The error that carries a message straight from the user: a fixed
    /// message template and exit code 0.
    pub fn _with_message(msg: &str) -> (r: MonoError)
        ensures
            r.code == 0,
            r.has_cause(),
            r.rendered() == with_message_text(msg@),
            r.cause_chain() == Seq::<Seq<char>>::empty(),
    {
        let mut message = String::from_str("Error Message: ");
        message.append(msg);
        let r = MonoError::new(RichError::new(message), 0);
        proof {
            assert(r.cause_chain() =~= Seq::<Seq<char>>::empty());
        }
        r
    }

    /// Build the value for an internal failure whose rendered text is given:
    /// the code is always the internal-failure code.
    pub fn from_contextual_parts(text: String) -> (r: MonoError)
        ensures
            r.code == INTERNAL_FAILURE_CODE,
            r.has_cause(),
            r.rendered() == text@,
            r.cause_chain() == Seq::<Seq<char>>::empty(),
    {
        let r = MonoError::new(RichError::new(text), INTERNAL_FAILURE_CODE);
        proof {
            assert(r.cause_chain() =~= Seq::<Seq<char>>::empty());
        }
        r
    }

    /// Convert a generic contextual error: whatever its message, the code is
    /// the internal-failure code. The text is read through the trusted
    /// boundary; `from_contextual_parts` pins what is built from it.
    pub fn from_contextual(err: anyhow::Error) -> (r: MonoError)
        ensures
            r.code == INTERNAL_FAILURE_CODE,
            r.has_cause(),
    {
        let text = contextual_error_text(&err);
        MonoError::from_contextual_parts(text)
    }

    /// Convert an argument-parse outcome, given its rendered text and its
    /// stream classification as the parser reports them: code 1 for an
    /// error-stream outcome, code 0 for an informational one such as help
    /// or version text.
    pub fn from_parse_parts(text: String, use_stderr: bool) -> (r: MonoError)
        ensures
            r.code == MonoError::parse_code(use_stderr),
            r.has_cause(),
            r.rendered() == text@,
            r.cause_chain() == Seq::<Seq<char>>::empty(),
    {
        let code: i32 = if use_stderr {
            1
        } else {
            0
        };
        let r = MonoError::new(RichError::new(text), code);
        proof {
            assert(r.cause_chain() =~= Seq::<Seq<char>>::empty());
        }
        r
    }

    /// Render the cause as text, as the original string conversion did; the
    /// cause must be present.
    pub fn render(&self) -> (r: String)
        requires
            self.has_cause(),
        ensures
            r@ == self.rendered(),
    {
        match &self.error {
            Some(cause) => cause.message.clone(),
            None => vstd::pervasive::unreached(),
        }
    }

    /// The diagnostic line, present exactly when the cause is.
    pub fn render_line(&self) -> (r: Option<String>)
        ensures
            r is Some <==> self.has_cause(),
            self.has_cause() ==> r->0@ == self.line(),
    {
        match &self.error {
            Some(cause) => {
                let mut line = decimal_string(self.code);
                proof {
                    reveal_strlit(":");
                }
                line.append(":");
                line.append(cause.message.as_str());
                proof {
                    assert(line@ =~= self.line());
                }
                Some(line)
            },
            None => None,
        }
    }

    /// Emit the diagnostic line to the error stream; do nothing when the
    /// cause is absent. Verified, so it never panics, whatever the message
    /// holds; the write itself discards its result.
    pub fn print(&self) {
        match self.render_line() {
            Some(line) => emit_diagnostic_line(line.as_str()),
            None => {},
        }
    }
}

/// Law: construction keeps the code verbatim, and the rendered text is the
/// cause's message — in particular it contains that message.
pub proof fn lemma_new_keeps_code_and_message(cause: RichError, code: i32)
    ensures
        MonoError::new_spec(cause, code).code == code,
        MonoError::new_spec(cause, code).rendered() == cause.message@,
        text_contains(MonoError::new_spec(cause, code).rendered(), cause.message@),
{
    lemma_contains_self(cause.message@);
}

/// Law: the unknown-subcommand text contains the offending name, and the
/// whole fixed template.
pub proof fn lemma_unknown_subcommand_text_contains(name: Seq<char>)
    ensures
        text_contains(unknown_subcommand_text(name), unknown_subcommand_text(name)),
        text_contains(unknown_subcommand_text(name), name),
{
    lemma_contains_self(unknown_subcommand_text(name));
    lemma_concat_contains_suffix("Unknown subcommand: "@, name);
}

/// Law: the user-message text contains the given message, and the whole
/// fixed template.
pub proof fn lemma_with_message_text_contains(msg: Seq<char>)
    ensures
        text_contains(with_message_text(msg), with_message_text(msg)),
        text_contains(with_message_text(msg), msg),
{
    lemma_contains_self(with_message_text(msg));
    lemma_concat_contains_suffix("Error Message: "@, msg);
}

/// Law: a parse outcome's code is 0 or 1, and it is 1 exactly for the
/// outcomes classified for the error stream.
pub proof fn lemma_parse_code_matches_classification(use_stderr: bool)
    ensures
        MonoError::parse_code(use_stderr) == 0 || MonoError::parse_code(use_stderr) == 1,
        (MonoError::parse_code(use_stderr) == 1) <==> use_stderr,
{
}

/// Law: wrapping a cause with a context message and then constructing keeps
/// the context text as the rendered text, and the wrapped cause's own
/// message stays in the chain — the chain is not lost.
pub proof fn lemma_context_preserved(
    root: RichError,
    wrapped: RichError,
    ctx: String,
    code: i32,
    e: MonoError,
)
    requires
        wrapped.message == ctx,
        wrapped.causes@ == seq![root.message] + root.causes@,
        e == MonoError::new_spec(wrapped, code),
    ensures
        e.rendered() == ctx@,
        text_contains(e.rendered(), ctx@),
        e.cause_chain().len() > 0,
        e.cause_chain()[0] == root.message@,
{
    lemma_contains_self(ctx@);
}

} // verus!
