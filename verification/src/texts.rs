//! The race-text catalog: dictionaries, texts, and the review pipeline a
//! submitted text goes through before it can be raced.

use vstd::prelude::*;

use crate::chars::copy_chars;
use crate::custom_types::{can_review_spec, ReviewTextStatus};
use crate::error::MyError;
use crate::player::UserInfo;
use crate::users::User;

verus! {

/// A race text, one of a dictionary's entries. The content is held as the
/// characters the players race against.
#[derive(Debug)]
pub struct Text {
    pub id: u128,
    pub dictionary_id: u128,
    pub title: String,
    pub content: Vec<char>,
    pub created_at: u64,
    pub author_id: u128,
}

/// A named collection of race texts.
#[derive(Debug)]
pub struct Dictionary {
    pub id: u128,
    pub name: String,
    pub user_id: u128,
    pub created_at: u64,
}

/// Request to create a dictionary.
#[derive(Debug)]
pub struct AddDictionaryRequest {
    pub name: String,
}

/// A moderation decision on a pending text.
#[derive(Debug)]
pub struct TextReviewBody {
    pub reason: Option<String>,
    pub status: ReviewTextStatus,
}

/// A submitted text awaiting (or past) review.
#[derive(Debug)]
pub struct PendingText {
    pub id: u128,
    pub dictionary_id: u128,
    pub author_id: u128,
    pub title: String,
    pub content: Vec<char>,
    pub created_at: u64,
    pub reviewed_by: Option<u128>,
    pub reviewed_at: Option<u64>,
    pub status: ReviewTextStatus,
    pub reason: Option<String>,
}

/// One entry of the dictionary listing: the dictionary, its owner, and how
/// many texts it holds.
#[derive(Debug)]
pub struct DictionaryInfo {
    pub id: u128,
    pub name: String,
    pub user: UserInfo,
    pub created_at: u64,
    pub text_count: i64,
}

/// Assembles the dictionary listing from the dictionaries (with their
/// owners) and the per-dictionary text counts, pairing them by position; a
/// dictionary beyond the counts shows zero texts.
pub fn dictionary_infos(
    dictionaries: &Vec<(Dictionary, User)>,
    text_counts: &Vec<(u128, i64)>,
) -> (r: Vec<DictionaryInfo>)
    ensures
        r@.len() == dictionaries@.len(),
        forall|i: int|
            0 <= i < r@.len() ==> {
                let d = dictionaries@[i].0;
                let u = dictionaries@[i].1;
                &&& (#[trigger] r@[i]).id == d.id
                &&& r@[i].name@ == d.name@
                &&& r@[i].created_at == d.created_at
                &&& r@[i].user.username@ == u.username@
                &&& r@[i].user.created_at == u.created_at
                &&& r@[i].user.role == u.role
                &&& r@[i].text_count == (if i < text_counts@.len() {
                    text_counts@[i].1
                } else {
                    0
                })
            },
{
    let mut out: Vec<DictionaryInfo> = Vec::new();
    let mut i: usize = 0;
    while i < dictionaries.len()
        invariant
            i <= dictionaries@.len(),
            out@.len() == i,
            forall|j: int|
                0 <= j < i ==> {
                    let d = dictionaries@[j].0;
                    let u = dictionaries@[j].1;
                    &&& (#[trigger] out@[j]).id == d.id
                    &&& out@[j].name@ == d.name@
                    &&& out@[j].created_at == d.created_at
                    &&& out@[j].user.username@ == u.username@
                    &&& out@[j].user.created_at == u.created_at
                    &&& out@[j].user.role == u.role
                    &&& out@[j].text_count == (if j < text_counts@.len() {
                        text_counts@[j].1
                    } else {
                        0
                    })
                },
        decreases dictionaries@.len() - i,
    {
        let entry = &dictionaries[i];
        let text_count: i64 = if i < text_counts.len() {
            text_counts[i].1
        } else {
            0
        };
        out.push(
            DictionaryInfo {
                id: entry.0.id,
                name: entry.0.name.clone(),
                user: UserInfo {
                    username: entry.1.username.clone(),
                    created_at: entry.1.created_at,
                    role: entry.1.role,
                },
                created_at: entry.0.created_at,
                text_count,
            },
        );
        i = i + 1;
    }
    out
}

impl Dictionary {
    /// A copy of this dictionary.
    pub fn snapshot(&self) -> (r: Dictionary)
        ensures
            r == *self,
    {
        Dictionary {
            id: self.id,
            name: self.name.clone(),
            user_id: self.user_id,
            created_at: self.created_at,
        }
    }

    /// The dictionary row a creation request produces.
    pub fn build(id: u128, name: String, user_id: u128, now_ms: u64) -> (r: Dictionary)
        ensures
            r.id == id,
            r.name == name,
            r.user_id == user_id,
            r.created_at == now_ms,
    {
        Dictionary { id, name, user_id, created_at: now_ms }
    }
}

impl PendingText {
    /// What a fresh submission produces: a pending row and — exactly when
    /// the author may review texts, so their own submission is approved on
    /// the spot — the text row to insert right away.
    pub fn submit(
        id: u128,
        author: &User,
        dictionary_id: u128,
        title: String,
        content: Vec<char>,
        now_ms: u64,
    ) -> (r: (PendingText, Option<Text>))
        ensures
            r.0.id == id,
            r.0.dictionary_id == dictionary_id,
            r.0.author_id == author.id,
            r.0.title == title,
            r.0.content@ == content@,
            r.0.created_at == now_ms,
            r.0.reason is None,
            can_review_spec(author.role) ==> {
                &&& r.0.status == ReviewTextStatus::Approved
                &&& r.0.reviewed_by == Some(author.id)
                &&& r.0.reviewed_at == Some(now_ms)
                &&& r.1 matches Some(t) && {
                    &&& t.id == id
                    &&& t.dictionary_id == dictionary_id
                    &&& t.title@ == title@
                    &&& t.content@ == content@
                    &&& t.created_at == now_ms
                    &&& t.author_id == author.id
                }
            },
            !can_review_spec(author.role) ==> {
                &&& r.0.status == ReviewTextStatus::Pending
                &&& r.0.reviewed_by is None
                &&& r.0.reviewed_at is None
                &&& r.1 is None
            },
    {
        if crate::custom_types::can_review(author.role) {
            let text = Text {
                id,
                dictionary_id,
                title: title.clone(),
                content: copy_chars(&content),
                created_at: now_ms,
                author_id: author.id,
            };
            let pending = PendingText {
                id,
                dictionary_id,
                author_id: author.id,
                title,
                content,
                created_at: now_ms,
                reviewed_by: Some(author.id),
                reviewed_at: Some(now_ms),
                status: ReviewTextStatus::Approved,
                reason: None,
            };
            (pending, Some(text))
        } else {
            let pending = PendingText {
                id,
                dictionary_id,
                author_id: author.id,
                title,
                content,
                created_at: now_ms,
                reviewed_by: None,
                reviewed_at: None,
                status: ReviewTextStatus::Pending,
                reason: None,
            };
            (pending, None)
        }
    }

    /// What a moderation decision produces: the updated pending row and,
    /// when the text is accepted, the text row to insert. A user whose role
    /// lacks moderation rights gets [`MyError::Unauthorized`], and only
    /// such a user does. A turned-down text records the decision's reason;
    /// an accepted one keeps the old reason.
    pub fn apply_review(&self, reviewer: &User, body: TextReviewBody, now_ms: u64) -> (r: Result<
        (PendingText, Option<Text>),
        MyError,
    >)
        ensures
            match r {
                Err(e) => {
                    &&& e == MyError::Unauthorized
                    &&& !can_review_spec(reviewer.role)
                },
                Ok((p, t)) => {
                    &&& can_review_spec(reviewer.role)
                    &&& p.id == self.id
                    &&& p.dictionary_id == self.dictionary_id
                    &&& p.author_id == self.author_id
                    &&& p.title@ == self.title@
                    &&& p.content@ == self.content@
                    &&& p.created_at == self.created_at
                    &&& p.reviewed_by == Some(reviewer.id)
                    &&& p.reviewed_at == Some(now_ms)
                    &&& p.status == body.status
                    &&& (body.status == ReviewTextStatus::Approved ==> {
                        &&& (match p.reason {
                            Some(s) => self.reason matches Some(s0) && s@ == s0@,
                            None => self.reason is None,
                        })
                        &&& t matches Some(text) && {
                            &&& text.id == self.id
                            &&& text.dictionary_id == self.dictionary_id
                            &&& text.title@ == self.title@
                            &&& text.content@ == self.content@
                            &&& text.created_at == self.created_at
                            &&& text.author_id == self.author_id
                        }
                    })
                    &&& (body.status != ReviewTextStatus::Approved ==> {
                        &&& p.reason == body.reason
                        &&& t is None
                    })
                },
            },
    {
        if !crate::custom_types::can_review(reviewer.role) {
            return Err(MyError::Unauthorized);
        }
        let approved = body.status == ReviewTextStatus::Approved;
        let reason = if approved {
            match &self.reason {
                Some(s) => Some(s.clone()),
                None => None,
            }
        } else {
            body.reason
        };
        let text = if approved {
            Some(
                Text {
                    id: self.id,
                    dictionary_id: self.dictionary_id,
                    title: self.title.clone(),
                    content: copy_chars(&self.content),
                    created_at: self.created_at,
                    author_id: self.author_id,
                },
            )
        } else {
            None
        };
        let pending = PendingText {
            id: self.id,
            dictionary_id: self.dictionary_id,
            author_id: self.author_id,
            title: self.title.clone(),
            content: copy_chars(&self.content),
            created_at: self.created_at,
            reviewed_by: Some(reviewer.id),
            reviewed_at: Some(now_ms),
            status: body.status,
            reason,
        };
        Ok((pending, text))
    }
}

} // verus!
