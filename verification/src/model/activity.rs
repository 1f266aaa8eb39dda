//! Activity events recorded over a vobe's lifetime.

use vstd::prelude::*;

use crate::model::error::VobeId;
use crate::model::time::Timestamp;

verus! {

/// Kind of activity recorded for a vobe.
#[derive(Clone, Copy, Debug, PartialEq, Eq, Hash, Structural)]
pub enum ActivityKind {
    /// User opened the project.
    Opened,
    /// Filesystem change detected.
    Modified,
    /// Git commit recorded.
    Committed,
    /// Scanner picked up the project.
    Scanned,
    /// First time tracked.
    Created,
    /// User explicitly closed.
    Closed,
    /// User added or changed tags.
    Tagged,
    /// User edited notes.
    Noted,
}

impl ActivityKind {
    /// The short lowercase label of a kind.
    pub open spec fn spec_label(self) -> Seq<char> {
        match self {
            ActivityKind::Opened => "opened"@,
            ActivityKind::Modified => "modified"@,
            ActivityKind::Committed => "committed"@,
            ActivityKind::Scanned => "scanned"@,
            ActivityKind::Created => "created"@,
            ActivityKind::Closed => "closed"@,
            ActivityKind::Tagged => "tagged"@,
            ActivityKind::Noted => "noted"@,
        }
    }

    /// Short human label.
    pub fn label(self) -> (r: &'static str)
        ensures
            r@ == self.spec_label(),
    {
        match self {
            ActivityKind::Opened => "opened",
            ActivityKind::Modified => "modified",
            ActivityKind::Committed => "committed",
            ActivityKind::Scanned => "scanned",
            ActivityKind::Created => "created",
            ActivityKind::Closed => "closed",
            ActivityKind::Tagged => "tagged",
            ActivityKind::Noted => "noted",
        }
    }

    /// The label as an owned string (the kind's display form).
    pub fn to_string(&self) -> (r: String)
        ensures
            r@ == self.spec_label(),
    {
        self.label().to_owned()
    }
}

/// One event in a vobe's lifetime.
#[derive(Clone, Debug, PartialEq, Eq)]
pub struct ActivityEvent {
    /// Storage-assigned event id.
    pub id: Option<u64>,
    /// Which vobe the event is about.
    pub vobe_id: VobeId,
    /// What kind of event.
    pub kind: ActivityKind,
    /// When the event occurred.
    pub timestamp: Timestamp,
    /// Free-form context.
    pub detail: Option<String>,
    /// Who triggered the event (`"human"` unless set otherwise).
    pub actor: String,
}

/// Default actor label used when an event names none.
pub fn default_actor() -> (r: String)
    ensures
        r@ == "human"@,
{
    "human".to_owned()
}

/// The actor label for an invocation, given the value of the `VOBES_ACTOR`
/// variable: that value when set and non-empty, else `"human"`.
pub fn actor_label(var: Option<String>) -> (r: String)
    ensures
        r@ == (match var {
            Some(v) => if v@.len() > 0 {
                v@
            } else {
                "human"@
            },
            None => "human"@,
        }),
{
    match var {
        Some(v) => {
            if v.as_str().is_empty() {
                default_actor()
            } else {
                v
            }
        },
        None => default_actor(),
    }
}

impl ActivityEvent {
    /// A new event at the given instant, with no id, no detail, and the
    /// default actor.
    pub fn at(vobe_id: VobeId, kind: ActivityKind, timestamp: Timestamp) -> (e: ActivityEvent)
        ensures
            e.id is None,
            e.vobe_id == vobe_id,
            e.kind == kind,
            e.timestamp == timestamp,
            e.detail is None,
            e.actor@ == "human"@,
    {
        ActivityEvent { id: None, vobe_id, kind, timestamp, detail: None, actor: default_actor() }
    }

    /// A new event at the current time.
    pub fn now(vobe_id: VobeId, kind: ActivityKind) -> (e: ActivityEvent)
        ensures
            e.id is None,
            e.vobe_id == vobe_id,
            e.kind == kind,
            e.detail is None,
            e.actor@ == "human"@,
    {
        Self::at(vobe_id, kind, Timestamp::now())
    }

    /// A new event at the current time, attributed to the actor named by
    /// the `VOBES_ACTOR` setting (given as `actor_var`; `human` when unset
    /// or empty).
    pub fn now_env(vobe_id: VobeId, kind: ActivityKind, actor_var: Option<String>) -> (e:
        ActivityEvent)
        ensures
            e.id is None,
            e.vobe_id == vobe_id,
            e.kind == kind,
            e.detail is None,
            e.actor@ == (match actor_var {
                Some(v) => if v@.len() > 0 {
                    v@
                } else {
                    "human"@
                },
                None => "human"@,
            }),
    {
        Self::now(vobe_id, kind).with_actor(actor_label(actor_var))
    }

    /// Attach a detail string.
    pub fn with_detail(self, detail: &str) -> (e: ActivityEvent)
        ensures
            e.id == self.id,
            e.vobe_id == self.vobe_id,
            e.kind == self.kind,
            e.timestamp == self.timestamp,
            e.detail matches Some(d) && d@ == detail@,
            e.actor == self.actor,
    {
        ActivityEvent { detail: Some(detail.to_owned()), ..self }
    }

    /// A field-for-field copy.
    pub fn copied(&self) -> (e: ActivityEvent)
        ensures
            e == *self,
    {
        let detail = match &self.detail {
            Some(d) => Some(d.clone()),
            None => None,
        };
        ActivityEvent {
            id: self.id,
            vobe_id: VobeId(self.vobe_id.0.clone()),
            kind: self.kind,
            timestamp: self.timestamp,
            detail,
            actor: self.actor.clone(),
        }
    }

    /// Attach a storage-assigned id.
    pub fn with_id(self, id: u64) -> (e: ActivityEvent)
        ensures
            e == (ActivityEvent { id: Some(id), ..self }),
    {
        ActivityEvent { id: Some(id), ..self }
    }

    /// Override the actor label.
    pub fn with_actor(self, actor: String) -> (e: ActivityEvent)
        ensures
            e == (ActivityEvent { actor, ..self }),
    {
        ActivityEvent { actor, ..self }
    }
}

} // verus!
