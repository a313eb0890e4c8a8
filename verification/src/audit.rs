//! What the audit log records.

use crate::ids::Uuid;
use crate::time::Timestamp;
use vstd::prelude::*;

verus! {

/// How a policy set was edited.
#[derive(Clone, Copy, Debug, PartialEq, Eq, Structural)]
pub enum EditedType {
    PolicyAdded { policy_id: Uuid },
    PolicyReplaced { old_policy_id: Uuid, new_policy_id: Uuid },
    PolicyRemoved { policy_id: Uuid },
}

#[derive(Clone, Copy, Debug, PartialEq, Eq, Structural)]
pub enum EventType {
    ArPolicySetEdited { policy_set_id: Uuid, edited_type: EditedType },
    ArPolicySetDeleted { policy_set_id: Uuid },
}

/// An entry of the audit log: when, what it is about, what happened, and two
/// optional remarks.
#[derive(Debug)]
pub struct AuditEntry {
    pub time: Timestamp,
    pub source: String,
    pub event_type: EventType,
    pub data: Option<String>,
    pub context: Option<String>,
}

/// What an [`AuditEntry`] says.
pub ghost struct AuditEntryView {
    pub time: Timestamp,
    pub source: Seq<char>,
    pub event_type: EventType,
    pub data: Option<Seq<char>>,
    pub context: Option<Seq<char>>,
}

impl View for AuditEntry {
    type V = AuditEntryView;

    open spec fn view(&self) -> AuditEntryView {
        AuditEntryView {
            time: self.time,
            source: self.source@,
            event_type: self.event_type,
            data: match self.data {
                Some(s) => Some(s@),
                None => None,
            },
            context: match self.context {
                Some(s) => Some(s@),
                None => None,
            },
        }
    }
}

/// The view of an entry holds each part of the entry under its own name.
pub proof fn law_entries_are_seen_as_they_are(entry: AuditEntry)
    ensures
        entry@.time == entry.time,
        entry@.source == entry.source@,
        entry@.event_type == entry.event_type,
        entry@.data is None <==> entry.data is None,
        entry@.data matches Some(data) ==> data == entry.data->0@,
        entry@.context is None <==> entry.context is None,
        entry@.context matches Some(context) ==> context == entry.context->0@,
{
}

} // verus!
