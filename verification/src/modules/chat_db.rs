//! The records that the chat store keeps. The store itself is the caller's:
//! this module makes the records that go into it.

use crate::utils::ambient::{fresh_id, unix_time};
use crate::utils::text::optional_text;
use vstd::prelude::*;
use vstd::string::StringExecFns;

verus! {

/// A stored session.
#[derive(Debug)]
pub struct ChatSession {
    pub id: String,
    pub title: String,
    pub repo_name: String,
    pub branch_name: Option<String>,
    pub status: String,
    pub created_at: i64,
}

/// A stored message.
#[derive(Debug)]
pub struct ChatMessage {
    pub id: i64,
    pub session_id: String,
    pub role: String,
    pub content: String,
    pub created_at: i64,
}

/// A stored session as a mathematical value.
pub struct ChatSessionView {
    pub id: Seq<char>,
    pub title: Seq<char>,
    pub repo_name: Seq<char>,
    pub branch_name: Option<Seq<char>>,
    pub status: Seq<char>,
    pub created_at: i64,
}

/// A stored message as a mathematical value.
pub struct ChatMessageView {
    pub id: i64,
    pub session_id: Seq<char>,
    pub role: Seq<char>,
    pub content: Seq<char>,
    pub created_at: i64,
}

impl View for ChatSession {
    type V = ChatSessionView;

    open spec fn view(&self) -> ChatSessionView {
        ChatSessionView {
            id: self.id@,
            title: self.title@,
            repo_name: self.repo_name@,
            branch_name: optional_text(self.branch_name),
            status: self.status@,
            created_at: self.created_at,
        }
    }
}

impl View for ChatMessage {
    type V = ChatMessageView;

    open spec fn view(&self) -> ChatMessageView {
        ChatMessageView {
            id: self.id,
            session_id: self.session_id@,
            role: self.role@,
            content: self.content@,
            created_at: self.created_at,
        }
    }
}

/// The session that is stored for a new unit of work: it waits to be run.
pub open spec fn pending_session_view(
    id: Seq<char>,
    title: Seq<char>,
    repo_name: Seq<char>,
    branch_name: Option<Seq<char>>,
    created_at: i64,
) -> ChatSessionView {
    ChatSessionView { id, title, repo_name, branch_name, status: "pending"@, created_at }
}

/// Makes the record of a new session from its identifier and the time of
/// its creation.
pub fn pending_session(
    id: String,
    title: String,
    repo_name: String,
    branch_name: Option<String>,
    created_at: i64,
) -> (r: ChatSession)
    ensures
        r@ == pending_session_view(id@, title@, repo_name@, optional_text(branch_name), created_at),
{
    ChatSession { id, title, repo_name, branch_name, status: String::from_str("pending"), created_at }
}

/// Makes the record of a new session, with a fresh identifier and the
/// current time. The caller stores it.
pub fn create_session(title: String, repo_name: String, branch_name: Option<String>) -> (r:
    ChatSession)
    ensures
        r@ == pending_session_view(
            r.id@,
            title@,
            repo_name@,
            optional_text(branch_name),
            r.created_at,
        ),
        r.id@.len() == 36,
{
    let id = fresh_id();
    let created_at = unix_time();
    pending_session(id, title, repo_name, branch_name, created_at)
}

/// Makes the record of a message that the store has taken under `id`.
pub fn stored_message(id: i64, session_id: &str, role: &str, content: &str, created_at: i64) -> (r:
    ChatMessage)
    ensures
        r@ == (ChatMessageView {
            id,
            session_id: session_id@,
            role: role@,
            content: content@,
            created_at,
        }),
{
    ChatMessage {
        id,
        session_id: String::from_str(session_id),
        role: String::from_str(role),
        content: String::from_str(content),
        created_at,
    }
}

} // verus!
