use vstd::prelude::*;
use vstd::string::StringExecFns;

use crate::auth::check_password_size;
use crate::forms::{ChangePaswd, UserAuth};
use crate::models::{NewLink, SetDetail, TodoTag};
use crate::utils::byte_len;

verus! {

/// The name of the cookie that carries the session key.
pub const COOKIE_NAME: &'static str = "__UIF";

/// How long a session key lives, in seconds.
pub const AUTH_LIFE_TIME: u64 = 3600;

/// How a stored account is looked up for a set of credentials.
pub enum UserQuery {
    /// By its id.
    ById(u32),
    /// By e-mail address and password.
    ByCredentials { email: String, password: String },
}

impl UserAuth {
    /// Credentials that carry an account id look the account up by that id; all
    /// others by e-mail address and password.
    pub fn user_query(&self) -> (r: UserQuery)
        ensures
            self.id matches Some(aid) ==> r == UserQuery::ById(aid),
            self.id is None ==> (r matches UserQuery::ByCredentials { email, password } && email@
                == self.email@ && password@ == self.paswd@),
    {
        match self.id {
            Some(aid) => UserQuery::ById(aid),
            None => UserQuery::ByCredentials {
                email: String::from_str(&self.email),
                password: String::from_str(&self.paswd),
            },
        }
    }
}

/// A password change goes ahead when the old password is the one of the session,
/// the new one is confirmed, and it holds between 8 and 64 bytes.
pub fn change_allowed(data: &ChangePaswd, user_auth: &UserAuth) -> (ok: bool)
    ensures
        ok == (data.old@ == user_auth.paswd@ && data.new@ == data.new_conf@ && 8 <= byte_len(data.new@)
            <= 64),
{
    data.old == user_auth.paswd && data.new == data.new_conf && check_password_size(&data.new)
}

/// The items that are present, in their order.
pub open spec fn present<T>(s: Seq<Option<T>>) -> Seq<T>
    decreases s.len(),
{
    if s.len() == 0 {
        Seq::empty()
    } else {
        let rest = present(s.drop_last());
        match s.last() {
            Some(t) => rest.push(t),
            None => rest,
        }
    }
}

/// Keeps the results that are present, in their order.
pub fn collect_present<T>(results: Vec<Option<T>>) -> (r: Vec<T>)
    ensures
        r@ == present(results@),
{
    let ghost orig = results@;
    let mut rest = results;
    let mut out: Vec<T> = Vec::new();
    let mut i: usize = 0;
    let n = rest.len();
    while i < n
        invariant
            n == orig.len(),
            0 <= i <= n,
            rest@ == orig.skip(i as int),
            out@ == present(orig.take(i as int)),
        decreases n - i,
    {
        let item = rest.remove(0);
        proof {
            assert(orig.take(i + 1).drop_last() == orig.take(i as int));
            assert(orig.take(i + 1).last() == orig[i as int]);
        }
        match item {
            Some(t) => out.push(t),
            None => {},
        }
        proof {
            assert(orig.skip(i as int).drop_first() == orig.skip(i + 1));
        }
        i = i + 1;
    }
    proof {
        assert(orig.take(n as int) == orig);
    }
    out
}

/// The links of every tag in `tags` to the to-do item `todo_id`, in the order of
/// the tags.
pub fn link_tags(tags: &Vec<TodoTag>, todo_id: u32) -> (r: Vec<NewLink>)
    ensures
        r@.len() == tags@.len(),
        forall|i: int| 0 <= i < tags@.len() ==> (#[trigger] r@[i]).tid == tags@[i].id && r@[i].gid == todo_id,
{
    let mut out: Vec<NewLink> = Vec::new();
    let mut i: usize = 0;
    while i < tags.len()
        invariant
            0 <= i <= tags@.len(),
            out@.len() == i,
            forall|j: int| 0 <= j < i ==> (#[trigger] out@[j]).tid == tags@[j].id && out@[j].gid == todo_id,
        decreases tags@.len() - i,
    {
        out.push(NewLink::from((&tags[i].id, &todo_id)));
        i = i + 1;
    }
    out
}

/// The id of a freshly stored row, read back as `LAST_INSERT_ID()`; `None` when it
/// does not fit a `u32`.
pub fn insert_id(last: i64) -> (r: Option<u32>)
    ensures
        0 <= last <= u32::MAX ==> r == Some(last as u32),
        !(0 <= last <= u32::MAX) ==> r is None,
{
    u32::try_from(last).ok()
}

/// A tag is new when looking it up found no id, or when the lookup failed.
pub fn tag_is_new(found: Option<Vec<u32>>) -> (new: bool)
    ensures
        new == (match found {
            Some(v) => v@.len() == 0,
            None => true,
        }),
{
    match found {
        Some(v) => v.len() == 0,
        None => true,
    }
}

/// The SQL `LIKE` pattern for titles that contain `key_word`.
pub fn like_pattern(key_word: &str) -> (r: String)
    ensures
        r@ == "%"@ + key_word@ + "%"@,
{
    let mut out = String::from_str("%");
    out.append(key_word);
    out.append("%");
    out
}

/// Where resolving one tag name of a new to-do item stands.
pub enum TagStage {
    /// The store is asked for a tag of that name.
    Lookup,
    /// No tag was found; a new one is being stored.
    Insert,
    /// The new tag was stored; its id is being read back.
    ReadId,
    /// The tag is resolved or given up.
    Done,
}

/// What the store answered to the last step.
pub enum TagEvent {
    /// A tag of that name exists.
    Found(TodoTag),
    /// No tag of that name exists.
    Missing,
    /// Storing the new tag succeeded.
    Inserted,
    /// Storing the new tag failed.
    InsertFailed,
    /// The store reported this id for the row it stored last.
    LastId(i64),
    /// Reading the id back failed.
    ReadFailed,
}

/// What to do next for the tag.
pub enum TagAction {
    /// Link the existing tag.
    Use(TodoTag),
    /// Store a new tag of that name.
    InsertTag,
    /// Read back the id of the tag just stored.
    ReadLastId,
    /// Link the new tag, which got this id.
    Created(u32),
    /// Leave the tag out.
    Skip,
}

/// One step of resolving a tag name: an existing tag is used; a missing one is
/// stored and its id read back; a tag whose storing or id fails, or whose id does
/// not fit a `u32`, is left out.
pub fn next_tag_action(stage: TagStage, event: TagEvent) -> (r: (TagStage, TagAction))
    ensures
        r == (match (stage, event) {
            (TagStage::Lookup, TagEvent::Found(t)) => (TagStage::Done, TagAction::Use(t)),
            (TagStage::Lookup, TagEvent::Missing) => (TagStage::Insert, TagAction::InsertTag),
            (TagStage::Insert, TagEvent::Inserted) => (TagStage::ReadId, TagAction::ReadLastId),
            (TagStage::ReadId, TagEvent::LastId(n)) => (
                TagStage::Done,
                if 0 <= n <= u32::MAX {
                    TagAction::Created(n as u32)
                } else {
                    TagAction::Skip
                },
            ),
            _ => (TagStage::Done, TagAction::Skip),
        }),
{
    match (stage, event) {
        (TagStage::Lookup, TagEvent::Found(t)) => (TagStage::Done, TagAction::Use(t)),
        (TagStage::Lookup, TagEvent::Missing) => (TagStage::Insert, TagAction::InsertTag),
        (TagStage::Insert, TagEvent::Inserted) => (TagStage::ReadId, TagAction::ReadLastId),
        (TagStage::ReadId, TagEvent::LastId(n)) => match insert_id(n) {
            Some(id) => (TagStage::Done, TagAction::Created(id)),
            None => (TagStage::Done, TagAction::Skip),
        },
        _ => (TagStage::Done, TagAction::Skip),
    }
}

/// How a profile request is written.
pub enum DetailWrite<'s> {
    /// A profile exists with this id: its signature is replaced.
    Update(u32),
    /// No profile exists: this one is stored.
    Insert(SetDetail<'s>),
    /// The request carries no account id.
    Refuse,
}

/// Decides how to write a profile request from the id of the user's stored
/// profile (`found`, from the store) and the profile the request describes.
pub fn detail_write<'s>(found: Option<u32>, request: Option<SetDetail<'s>>) -> (r: DetailWrite<'s>)
    ensures
        found matches Some(id) ==> r == DetailWrite::Update(id),
        found is None ==> (match request {
            Some(d) => r == DetailWrite::Insert(d),
            None => r is Refuse,
        }),
{
    match found {
        Some(id) => DetailWrite::Update(id),
        None => match request {
            Some(d) => DetailWrite::Insert(d),
            None => DetailWrite::Refuse,
        },
    }
}

} // verus!
