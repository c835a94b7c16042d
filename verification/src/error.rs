use vstd::prelude::*;

verus! {

/// The four failure categories that callers can match on.
///
/// - `Io`: the file could not be read at all (missing, permissions, device).
/// - `Unsupported`: the file was read but its format is not handled.
/// - `Corrupt`: the file claims a supported format but its data is malformed.
/// - `Resource`: the operation failed for memory or system limits.
#[derive(Debug, Clone, Copy, PartialEq, Eq, Hash, Structural)]
pub enum Kind {
    Io,
    Unsupported,
    Corrupt,
    Resource,
}

/// The short label of a kind, used as the trailing phrase when an error is
/// rendered.
pub open spec fn kind_label(kind: Kind) -> Seq<char> {
    match kind {
        Kind::Io => "i/o failure"@,
        Kind::Unsupported => "unsupported format"@,
        Kind::Corrupt => "corrupt data"@,
        Kind::Resource => "resource exhaustion"@,
    }
}

impl Kind {
    /// Returns a short, human-readable label for this category.
    pub fn default_message(&self) -> (label: &'static str)
        ensures
            label@ == kind_label(*self),
    {
        match self {
            Kind::Io => "i/o failure",
            Kind::Unsupported => "unsupported format",
            Kind::Corrupt => "corrupt data",
            Kind::Resource => "resource exhaustion",
        }
    }
}


/// What an error holds, as plain values: its category, its detail message
/// (possibly empty) and, where a lower-level cause was attached, the text of
/// that cause.
#[verifier::ext_equal]
pub struct ErrorView {
    pub kind: Kind,
    pub message: Seq<char>,
    pub source: Option<Seq<char>>,
}

/// `"context: message"`, or the context alone when the message is empty.
pub open spec fn with_context_message(ctx: Seq<char>, message: Seq<char>) -> Seq<char> {
    if message.len() == 0 {
        ctx
    } else {
        ctx + ": "@ + message
    }
}

impl ErrorView {
    /// A fresh error of the given kind and message, with no cause.
    pub open spec fn fresh(kind: Kind, message: Seq<char>) -> ErrorView {
        ErrorView { kind, message, source: None }
    }

    /// The error after a context description has been prepended to its message;
    /// kind and cause are kept.
    pub open spec fn with_context(self, ctx: Seq<char>) -> ErrorView {
        ErrorView { message: with_context_message(ctx, self.message), ..self }
    }

    /// The rendered form: `"message: kind"`, or the kind's label alone when the
    /// message is empty, followed by `"\n  caused by: cause"` when a cause is
    /// attached.
    pub open spec fn rendered(self) -> Seq<char> {
        let head = if self.message.len() == 0 {
            kind_label(self.kind)
        } else {
            self.message + ": "@ + kind_label(self.kind)
        };
        match self.source {
            Some(cause) => head + "\n  caused by: "@ + cause,
            None => head,
        }
    }
}

/// A result whose error, if any, got a context description prepended.
pub open spec fn context_outcome<T>(r: Result<T, ErrorView>, ctx: Seq<char>) -> Result<T, ErrorView> {
    match r {
        Ok(v) => Ok(v),
        Err(e) => Err(e.with_context(ctx)),
    }
}

/// The crate's single error type: a category, a human-readable detail string
/// (which may be empty) and optionally the text of a lower-level cause.
#[derive(Debug)]
pub struct Error {
    kind: Kind,
    message: String,
    source: Option<String>,
}

impl View for Error {
    type V = ErrorView;

    closed spec fn view(&self) -> ErrorView {
        ErrorView {
            kind: self.kind,
            message: self.message@,
            source: match self.source {
                Some(s) => Some(s@),
                None => None,
            },
        }
    }
}

impl Error {
    fn fresh(kind: Kind, msg: &str) -> (e: Error)
        ensures
            e@ == ErrorView::fresh(kind, msg@),
    {
        Error { kind, message: msg.to_owned(), source: None }
    }

    /// Creates an I/O error: the file system or device layer failed.
    pub fn io(msg: &str) -> (e: Error)
        ensures
            e@ == ErrorView::fresh(Kind::Io, msg@),
    {
        Error::fresh(Kind::Io, msg)
    }

    /// Creates an unsupported-format error: the input is readable but its
    /// codec, pixel layout or container is not handled.
    pub fn unsupported(msg: &str) -> (e: Error)
        ensures
            e@ == ErrorView::fresh(Kind::Unsupported, msg@),
    {
        Error::fresh(Kind::Unsupported, msg)
    }

    /// Creates a corrupt-data error: header or payload violates the format.
    pub fn corrupt(msg: &str) -> (e: Error)
        ensures
            e@ == ErrorView::fresh(Kind::Corrupt, msg@),
    {
        Error::fresh(Kind::Corrupt, msg)
    }

    /// Creates a resource-exhaustion error: memory or pool limits exceeded.
    pub fn resource(msg: &str) -> (e: Error)
        ensures
            e@ == ErrorView::fresh(Kind::Resource, msg@),
    {
        Error::fresh(Kind::Resource, msg)
    }

    /// Attaches the text of a lower-level cause; it appears in the rendered
    /// form as "caused by: ...". Kind and message are kept.
    pub fn with_source(self, source: &str) -> (e: Error)
        ensures
            e@ == (ErrorView { source: Some(source@), ..self@ }),
    {
        Error { kind: self.kind, message: self.message, source: Some(source.to_owned()) }
    }

    /// Prepends a context description to the message, giving
    /// "context: original message", or the context alone when the original
    /// message is empty. Kind and cause are kept.
    pub fn context(self, ctx: &str) -> (e: Error)
        ensures
            e@ == self@.with_context(ctx@),
    {
        let message = if self.message.as_str().is_empty() {
            ctx.to_owned()
        } else {
            let mut m = ctx.to_owned();
            m.append(": ");
            m.append(self.message.as_str());
            m
        };
        Error { kind: self.kind, message, source: self.source }
    }

    /// Returns the error category.
    pub fn kind(&self) -> (k: Kind)
        ensures
            k == self@.kind,
    {
        self.kind
    }

    /// Whether the error is of the given category.
    pub fn is_kind(&self, kind: Kind) -> (b: bool)
        ensures
            b == (self@.kind == kind),
    {
        self.kind == kind
    }

    /// Returns the detail string (may be empty).
    pub fn message(&self) -> (m: &str)
        ensures
            m@ == self@.message,
    {
        self.message.as_str()
    }

    /// Returns the text of the attached cause, if any.
    pub fn source(&self) -> (s: Option<&str>)
        ensures
            match s {
                Some(t) => self@.source == Some(t@),
                None => self@.source is None,
            },
    {
        match &self.source {
            Some(s) => Some(s.as_str()),
            None => None,
        }
    }

    /// Renders the error as `"message: kind"` (or the kind's label alone when
    /// the message is empty), followed by `"\n  caused by: cause"` when a
    /// cause is attached.
    pub fn to_string(&self) -> (s: String)
        ensures
            s@ == self@.rendered(),
    {
        let mut out = if self.message.as_str().is_empty() {
            self.kind.default_message().to_owned()
        } else {
            let mut head = self.message.clone();
            head.append(": ");
            head.append(self.kind.default_message());
            head
        };
        match &self.source {
            Some(cause) => {
                out.append("\n  caused by: ");
                out.append(cause.as_str());
            },
            None => {},
        }
        out
    }
}

impl Kind {
    /// Renders the kind as its label.
    pub fn to_string(&self) -> (s: String)
        ensures
            s@ == kind_label(*self),
    {
        self.default_message().to_owned()
    }
}

/// Adds `.context("...")` to `Result<T, Error>`.
pub trait ResultExt<T>: Sized {
    fn context(self, ctx: &str) -> Result<T, Error>;
}

impl<T> ResultExt<T> for Result<T, Error> {
    /// An `Ok` value passes through unchanged; an error gets the context
    /// prepended to its message.
    fn context(self, ctx: &str) -> (r: Result<T, Error>)
        ensures
            match self {
                Ok(v) => r matches Ok(w) && w == v,
                Err(e) => r matches Err(f) && f@ == e@.with_context(ctx@),
            },
    {
        match self {
            Ok(v) => Ok(v),
            Err(e) => Err(e.context(ctx)),
        }
    }
}

/// Context describes where an error surfaced, never what went wrong: the
/// kind and the cause are kept, and a non-empty original message stays, after
/// the context and ": ", at the end of the new message.
pub proof fn lemma_context_keeps_kind_and_cause(e: ErrorView, ctx: Seq<char>)
    ensures
        e.with_context(ctx).kind == e.kind,
        e.with_context(ctx).source == e.source,
        e.message.len() == 0 ==> e.with_context(ctx).message == ctx,
        e.message.len() > 0 ==> {
            let m = e.with_context(ctx).message;
            &&& m.len() == ctx.len() + 2 + e.message.len()
            &&& m.subrange(0, ctx.len() as int) == ctx
            &&& m.subrange(ctx.len() as int + 2, m.len() as int) == e.message
        },
{
    reveal_strlit(": ");
    if e.message.len() > 0 {
        let m = e.with_context(ctx).message;
        assert(m.subrange(0, ctx.len() as int) =~= ctx);
        assert(m.subrange(ctx.len() as int + 2, m.len() as int) =~= e.message);
    }
}

/// The rendered form shows the message and then the kind's label: with a
/// non-empty message it starts with the message followed by ": " and the
/// label; with an empty one it starts with the label.
pub proof fn lemma_rendered_shows_message_and_kind(e: ErrorView)
    ensures
        e.message.len() == 0 ==> e.rendered().subrange(0, kind_label(e.kind).len() as int)
            == kind_label(e.kind),
        e.message.len() > 0 ==> {
            let r = e.rendered();
            let m = e.message.len() as int;
            &&& r.subrange(0, m) == e.message
            &&& r.subrange(m, m + 2) == ": "@
            &&& r.subrange(m + 2, m + 2 + kind_label(e.kind).len()) == kind_label(e.kind)
        },
        e.source is None ==> e.rendered() == if e.message.len() == 0 {
            kind_label(e.kind)
        } else {
            e.message + ": "@ + kind_label(e.kind)
        },
{
    reveal_strlit(": ");
    let r = e.rendered();
    let label = kind_label(e.kind);
    if e.message.len() == 0 {
        assert(r.subrange(0, label.len() as int) =~= label);
    } else {
        let m = e.message.len() as int;
        assert(r.subrange(0, m) =~= e.message);
        assert(r.subrange(m, m + 2) =~= ": "@);
        assert(r.subrange(m + 2, m + 2 + label.len()) =~= label);
    }
}

} // verus!
