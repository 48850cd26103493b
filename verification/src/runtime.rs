//! What crosses the boundary to the orchestration API: the action that ends a
//! reconcile, the errors the API client reports, the identity a request is
//! addressed to, and the audit events that record a write.

use crate::meta::{ObjectReference, ObjectReferenceView};
use crate::text::{opt_text, text};
use vstd::prelude::*;

verus! {

/// The delay, in seconds, before a failed reconcile is tried again.
pub const ERROR_REQUEUE_SECONDS: u64 = 10;

/// How a reconcile ends.
#[derive(Clone, Copy, Debug, PartialEq, Eq, Structural)]
pub enum Action {
    /// Wait for the next relevant watch event; nothing is polled.
    AwaitChange,
    /// Wake the object up again after this many seconds.
    Requeue(u64),
}

impl Action {
    pub fn await_change() -> (a: Action)
        ensures
            a == Action::AwaitChange,
    {
        Action::AwaitChange
    }

    pub fn requeue(seconds: u64) -> (a: Action)
        ensures
            a == Action::Requeue(seconds),
    {
        Action::Requeue(seconds)
    }
}

/// An error of the API client.
#[derive(Debug)]
pub enum KubeError {
    /// The API server answered with an error status.
    Api { code: u16, reason: String, message: String },
    /// An object did not pass through its structured representation.
    Serde(String),
    /// No answer of the API server was had: transport and the like.
    Other(String),
}

impl KubeError {
    /// Whether the API server refused the request for lack of permission.
    pub open spec fn is_forbidden(&self) -> bool {
        self matches KubeError::Api { reason, .. } && reason@ == "Forbidden"@
    }

    /// Computes [`Self::is_forbidden`].
    pub fn forbidden(&self) -> (b: bool)
        ensures
            b == self.is_forbidden(),
    {
        match self {
            KubeError::Api { reason, .. } => *reason == text("Forbidden"),
            _ => false,
        }
    }
}

/// The identity that a request is addressed to.
pub struct ObjectKey {
    pub api_version: String,
    pub kind: String,
    /// The namespace, or none for a cluster-wide object.
    pub namespace: Option<String>,
    pub name: String,
}

pub struct ObjectKeyView {
    pub api_version: Seq<char>,
    pub kind: Seq<char>,
    pub namespace: Option<Seq<char>>,
    pub name: Seq<char>,
}

impl View for ObjectKey {
    type V = ObjectKeyView;

    open spec fn view(&self) -> ObjectKeyView {
        ObjectKeyView {
            api_version: self.api_version@,
            kind: self.kind@,
            namespace: opt_text(self.namespace),
            name: self.name@,
        }
    }
}

/// The weight of an audit event.
#[derive(Clone, Copy, Debug, PartialEq, Eq, Structural)]
pub enum EventType {
    Normal,
    Warning,
}

/// An informational record of a write, attached to the object it is about.
pub struct Event {
    pub type_: EventType,
    pub reason: String,
    pub note: Option<String>,
    pub action: String,
    pub secondary: Option<ObjectReference>,
}

pub struct EventView {
    pub type_: EventType,
    pub reason: Seq<char>,
    pub note: Option<Seq<char>>,
    pub action: Seq<char>,
    pub secondary: Option<ObjectReferenceView>,
}

impl View for Event {
    type V = EventView;

    open spec fn view(&self) -> EventView {
        EventView {
            type_: self.type_,
            reason: self.reason@,
            note: opt_text(self.note),
            action: self.action@,
            secondary: match self.secondary {
                Some(r) => Some(r@),
                None => None,
            },
        }
    }
}

/// What is left of the outcome of publishing an audit event: a refusal for
/// lack of permission is expected while a namespace is torn down and counts as
/// success; every other failure stays.
pub open spec fn publish_outcome(published: Result<(), KubeError>) -> Result<(), KubeError> {
    match published {
        Ok(()) => Ok(()),
        Err(e) => if e.is_forbidden() {
            Ok(())
        } else {
            Err(e)
        },
    }
}

/// Computes [`publish_outcome`].
pub fn tolerate_forbidden(published: Result<(), KubeError>) -> (r: Result<(), KubeError>)
    ensures
        r == publish_outcome(published),
{
    match published {
        Ok(()) => Ok(()),
        Err(e) => if e.forbidden() {
            Ok(())
        } else {
            Err(e)
        },
    }
}

} // verus!
