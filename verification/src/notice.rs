//! The notice that a reaped binding leaves behind.

use crate::document::{BindingFields, FieldsView};
use crate::text::{body_text, notify_body};
use vstd::prelude::*;

verus! {

/// A system notice, as it goes into the inbox of its recipient.
#[derive(Debug, PartialEq, Eq)]
pub struct Notice {
    pub recipient: String,
    pub sender: String,
    pub kind: String,
    pub body: String,
    /// What the notice answers; the reaper answers nothing.
    pub context: Option<String>,
    pub task_id: Option<String>,
}

/// The view of [`Notice`].
#[verifier::ext_equal]
pub struct NoticeView {
    pub recipient: Seq<char>,
    pub sender: Seq<char>,
    pub kind: Seq<char>,
    pub body: Seq<char>,
    pub context: Option<Seq<char>>,
    pub task_id: Option<Seq<char>>,
}

/// The view of an optional string.
pub open spec fn text_view(text: Option<String>) -> Option<Seq<char>> {
    match text {
        Some(t) => Some(t@),
        None => None,
    }
}

impl View for Notice {
    type V = NoticeView;

    open spec fn view(&self) -> NoticeView {
        NoticeView {
            recipient: self.recipient@,
            sender: self.sender@,
            kind: self.kind@,
            body: self.body@,
            context: text_view(self.context),
            task_id: text_view(self.task_id),
        }
    }
}

/// The notice to `recipient` that the binding of `agent` was revoked.
pub open spec fn revoked_notice(
    recipient: Seq<char>,
    agent: Seq<char>,
    fields: FieldsView,
) -> NoticeView {
    NoticeView {
        recipient,
        sender: "system:binding_reaper"@,
        kind: "binding_reaper_revoked"@,
        body: body_text(agent, fields.task_id, fields.branch, fields.worktree),
        context: None,
        task_id: if fields.task_id.len() == 0 {
            None
        } else {
            Some(fields.task_id)
        },
    }
}

/// Tells `recipient` that the binding of `agent` was revoked. The notice names the
/// task of the binding where it is known.
pub fn revoked(recipient: &str, agent: &str, fields: &BindingFields) -> (r: Notice)
    ensures
        r@ == revoked_notice(recipient@, agent@, fields@),
{
    let body = notify_body(
        agent,
        fields.task_id.as_str(),
        fields.branch.as_str(),
        fields.worktree.as_str(),
    );
    let task_id = if fields.task_id.as_str().is_empty() {
        None
    } else {
        Some(fields.task_id.clone())
    };
    Notice {
        recipient: recipient.to_owned(),
        sender: "system:binding_reaper".to_owned(),
        kind: "binding_reaper_revoked".to_owned(),
        body,
        context: None,
        task_id,
    }
}

} // verus!
