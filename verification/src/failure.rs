use vstd::prelude::*;
use vstd::string::*;

verus! {

/// How serious a failure is: a fatal failure stops the program, a warning
/// is reported and the program carries on.
#[derive(Debug, Clone, Copy, PartialEq, Eq, Structural)]
pub enum FailureType {
    Fatal,
    Warning,
}

/// A failure: the error that caused it and an optional context message.
#[derive(Debug, Clone)]
pub enum Failure {
    Fatal(String, String),
    Warning(String, String),
}

impl Failure {
    /// The error text of the failure.
    pub open spec fn error_text(self) -> Seq<char> {
        match self {
            Failure::Fatal(e, _) => e@,
            Failure::Warning(e, _) => e@,
        }
    }

    /// The context message of the failure.
    pub open spec fn context_text(self) -> Seq<char> {
        match self {
            Failure::Fatal(_, m) => m@,
            Failure::Warning(_, m) => m@,
        }
    }

    /// The kind of the failure.
    pub open spec fn kind(self) -> FailureType {
        match self {
            Failure::Fatal(_, _) => FailureType::Fatal,
            Failure::Warning(_, _) => FailureType::Warning,
        }
    }

    /// Whether the failure is a warning with the given error text and no
    /// context message.
    pub open spec fn warns(self, text: Seq<char>) -> bool {
        self.kind() == FailureType::Warning && self.error_text() == text && self.context_text()
            == Seq::<char>::empty()
    }

    pub fn failure_type(&self) -> (t: FailureType)
        ensures
            t == self.kind(),
    {
        match self {
            Failure::Fatal(_, _) => FailureType::Fatal,
            Failure::Warning(_, _) => FailureType::Warning,
        }
    }

    /// The error text of the failure.
    pub fn error_message(&self) -> (s: String)
        ensures
            s@ == self.error_text(),
    {
        match self {
            Failure::Fatal(e, _) => e.clone(),
            Failure::Warning(e, _) => e.clone(),
        }
    }

    /// A failure of the given kind, with an error text and no context message.
    pub fn new(error: String, failure_type: FailureType) -> (f: Failure)
        ensures
            f.kind() == failure_type,
            f.error_text() == error@,
            f.context_text() == Seq::<char>::empty(),
    {
        match failure_type {
            FailureType::Fatal => Failure::Fatal(error, String::new()),
            FailureType::Warning => Failure::Warning(error, String::new()),
        }
    }

    /// A failure of the given kind, with an error text and a context message.
    pub fn with_context(error: String, context: &str, failure_type: FailureType) -> (f: Failure)
        ensures
            f.kind() == failure_type,
            f.error_text() == error@,
            f.context_text() == context@,
    {
        let msg = String::from_str(context);
        match failure_type {
            FailureType::Fatal => Failure::Fatal(error, msg),
            FailureType::Warning => Failure::Warning(error, msg),
        }
    }

    /// The text the failure is shown with: "Fatal error: <error>: <context>"
    /// or "Warning: <error>: <context>".
    pub fn to_display_string(&self) -> (s: String)
        ensures
            s@ == (match self.kind() {
                FailureType::Fatal => "Fatal error: "@,
                FailureType::Warning => "Warning: "@,
            }) + self.error_text() + ": "@ + self.context_text(),
    {
        let (mut s, e, m) = match self {
            Failure::Fatal(e, m) => (String::from_str("Fatal error: "), e, m),
            Failure::Warning(e, m) => (String::from_str("Warning: "), e, m),
        };
        s.append(e.as_str());
        s.append(": ");
        s.append(m.as_str());
        s
    }
}

} // verus!
