//! The errors that `wt` reports, and the text each is reported with.

use vstd::prelude::*;

use crate::text::{push_signed_decimal, push_str, signed_decimal};

verus! {

/// An error of `wt`.
#[derive(Debug)]
pub enum WtError {
    /// A program could not be started: `{context}: {cause}`.
    Spawn { context: String, cause: String },
    /// A command ran and failed: `{command} failed: {detail}`.
    Failed { command: String, detail: String },
    /// A command whose output went to the terminal failed:
    /// `{command} failed (exit {code:?})`.
    Exited { command: String, code: Option<i32> },
    /// An error with the context it happened in: `{context}: {source}`.
    Context { context: String, source: Box<WtError> },
    /// An error described by its text alone.
    Message { text: String },
}

/// The abstract content of a [`WtError`].
pub enum ErrorView {
    Spawn { context: Seq<char>, cause: Seq<char> },
    Failed { command: Seq<char>, detail: Seq<char> },
    Exited { command: Seq<char>, code: Option<i32> },
    Context { context: Seq<char>, source: Box<ErrorView> },
    Message { text: Seq<char> },
}

impl View for WtError {
    type V = ErrorView;

    open spec fn view(&self) -> ErrorView
        decreases self,
    {
        match self {
            WtError::Spawn { context, cause } => ErrorView::Spawn {
                context: context@,
                cause: cause@,
            },
            WtError::Failed { command, detail } => ErrorView::Failed {
                command: command@,
                detail: detail@,
            },
            WtError::Exited { command, code } => ErrorView::Exited {
                command: command@,
                code: *code,
            },
            WtError::Context { context, source } => ErrorView::Context {
                context: context@,
                source: Box::new((**source).view()),
            },
            WtError::Message { text } => ErrorView::Message { text: text@ },
        }
    }
}

/// `{:?}` of an optional exit code: `Some(<n>)` or `None`.
pub open spec fn debug_code(code: Option<i32>) -> Seq<char> {
    match code {
        Some(n) => "Some("@ + signed_decimal(n) + ")"@,
        None => "None"@,
    }
}

impl ErrorView {
    /// The text an error is reported with (`{:#}` of the error chain).
    pub open spec fn text(self) -> Seq<char>
        decreases self,
    {
        match self {
            ErrorView::Spawn { context, cause } => context + ": "@ + cause,
            ErrorView::Failed { command, detail } => command + " failed: "@ + detail,
            ErrorView::Exited { command, code } => command + " failed (exit "@ + debug_code(code)
                + ")"@,
            ErrorView::Context { context, source } => context + ": "@ + (*source).text(),
            ErrorView::Message { text } => text,
        }
    }
}

impl ErrorView {
    /// The text of the outermost error alone (`{}` of the error chain).
    pub open spec fn head(self) -> Seq<char> {
        match self {
            ErrorView::Spawn { context, cause } => context,
            ErrorView::Context { context, source } => context,
            _ => self.text(),
        }
    }
}

/// Appends `{:?}` of an optional exit code.
pub fn push_debug_code(s: &mut String, code: Option<i32>)
    ensures
        final(s)@ == old(s)@ + debug_code(code),
{
    match code {
        Some(n) => {
            push_str(s, "Some(");
            push_signed_decimal(s, n);
            push_str(s, ")");
            assert(final(s)@ == old(s)@ + debug_code(code));
        },
        None => {
            push_str(s, "None");
        },
    }
}

impl WtError {
    /// An error described by its text alone.
    pub fn message_error(text: String) -> (r: WtError)
        ensures
            r@ == (ErrorView::Message { text: text@ }),
    {
        WtError::Message { text }
    }

    /// `source` with the context it happened in.
    pub fn with_context(context: String, source: WtError) -> (r: WtError)
        ensures
            r@ == (ErrorView::Context { context: context@, source: Box::new(source@) }),
    {
        WtError::Context { context, source: Box::new(source) }
    }

    /// Appends the text of this error.
    pub fn push_message(&self, s: &mut String)
        ensures
            final(s)@ == old(s)@ + self@.text(),
        decreases self,
    {
        match self {
            WtError::Spawn { context, cause } => {
                push_str(s, context.as_str());
                push_str(s, ": ");
                push_str(s, cause.as_str());
                assert(final(s)@ == old(s)@ + self@.text());
            },
            WtError::Failed { command, detail } => {
                push_str(s, command.as_str());
                push_str(s, " failed: ");
                push_str(s, detail.as_str());
                assert(final(s)@ == old(s)@ + self@.text());
            },
            WtError::Exited { command, code } => {
                push_str(s, command.as_str());
                push_str(s, " failed (exit ");
                push_debug_code(s, *code);
                push_str(s, ")");
                assert(final(s)@ == old(s)@ + self@.text());
            },
            WtError::Context { context, source } => {
                push_str(s, context.as_str());
                push_str(s, ": ");
                source.push_message(s);
                assert(final(s)@ == old(s)@ + self@.text());
            },
            WtError::Message { text } => {
                push_str(s, text.as_str());
            },
        }
    }

    /// The text of the outermost error alone.
    pub fn headline(&self) -> (r: String)
        ensures
            r@ == self@.head(),
    {
        match self {
            WtError::Spawn { context, cause } => crate::text::owned(context.as_str()),
            WtError::Context { context, source } => crate::text::owned(context.as_str()),
            _ => self.message(),
        }
    }

    /// The text this error is reported with.
    pub fn message(&self) -> (r: String)
        ensures
            r@ == self@.text(),
    {
        let mut s = String::new();
        self.push_message(&mut s);
        assert(s@ == Seq::<char>::empty() + self@.text());
        s
    }
}

} // verus!
