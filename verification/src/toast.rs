use vstd::prelude::*;

verus! {

/// Severity of a notification shown by the surrounding interface.
#[derive(Debug, Clone, Copy, PartialEq, Eq, Default)]
pub enum Status {
    #[default]
    Normal,
    Error,
}

/// A short notification: a title, a body, and a severity.
pub struct Toast {
    pub title: String,
    pub body: String,
    pub status: Status,
}

impl Toast {
    /// Builds a toast from its parts.
    pub fn new(title: &str, body: String, status: Status) -> (t: Toast)
        ensures
            t.title@ == title@,
            t.body == body,
            t.status == status,
    {
        Toast { title: title.to_string(), body, status }
    }
}

} // verus!
