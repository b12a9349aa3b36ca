use vstd::prelude::*;
use vstd::string::StringSliceAdditionalSpecFns;

use crate::auth::{check_email_avaiable, check_name_size, check_password_size, regex_is_match, EMAIL_REGEX};
use crate::date::{midnight, Date, DateTime, TimeOfDay};
use crate::forms::{ChangePaswd, JTodo, JUserDetail, UserAuth};
use crate::utils::byte_len;

verus! {

/// A stored account.
pub struct User {
    pub id: u32,
    pub name: String,
    pub email: String,
    pub password: String,
}

/// An account about to be stored.
pub struct NewUser<'s> {
    pub name: &'s str,
    pub email: &'s str,
    pub password: String,
}

impl<'a> NewUser<'a> {
    /// The account record for a password change: no name, the e-mail address of
    /// `auth` and the new password of `pwdch`.
    pub fn from_au_pc(auth: &'a UserAuth, pwdch: &ChangePaswd) -> (r: Self)
        ensures
            r.name@ == Seq::<char>::empty(),
            r.email@ == auth.email@,
            r.password@ == pwdch.new@,
    {
        proof {
            reveal_strlit("");
        }
        NewUser { name: "", email: &auth.email, password: String::from_str(&pwdch.new) }
    }

    /// The same account with its password replaced by `handle(password)`.
    pub fn encode_password<F: Fn(&str) -> String>(&self, handle: F) -> (r: Self)
        requires
            forall|p: &str| p@ == self.password@ ==> call_requires(handle, (p,)),
        ensures
            r.name == self.name,
            r.email == self.email,
            exists|p: &str| p@ == self.password@ && #[trigger] call_ensures(handle, (p,), r.password),
    {
        let p: &str = self.password.as_str();
        let password = handle(p);
        let r = NewUser { name: self.name, email: self.email, password };
        assert(r.password == password);
        assert(call_ensures(handle, (p,), r.password));
        r
    }

    /// Whether the account may be created: the e-mail address is acceptable, no
    /// account uses it yet (`email_unused`, from the store), the name holds at
    /// most 32 bytes and the password between 8 and 64 bytes.
    pub fn check_able(&self, email_unused: bool) -> (ok: bool)
        ensures
            ok == (regex_is_match(EMAIL_REGEX@, self.email@) == Some(true) && self.email.len() <= 128
                && email_unused && self.name.len() <= 32 && 8 <= byte_len(self.password@) <= 64),
    {
        check_email_avaiable(self.email) && email_unused && check_name_size(self.name)
            && check_password_size(self.password.as_str())
    }
}

/// The signature shown for a user who has not set one.
pub const DEFAULT_SIGNATURE: &'static str = "什么都没有留下~~";

/// A stored profile.
pub struct UserDetail {
    pub id: u32,
    pub uid: u32,
    pub signature: String,
}

impl Default for UserDetail {
    /// A profile with zero ids and the default signature.
    fn default() -> (r: Self)
        ensures
            r.id == 0,
            r.uid == 0,
            r.signature@ == DEFAULT_SIGNATURE@,
    {
        UserDetail { id: 0, uid: 0, signature: String::from_str(DEFAULT_SIGNATURE) }
    }
}

impl UserDetail {
    /// The signature, as clients see it.
    pub fn into_jdetail(self) -> (r: JUserDetail)
        ensures
            r.signature == self.signature,
    {
        JUserDetail { signature: self.signature }
    }
}

/// A profile about to be stored.
pub struct SetDetail<'s> {
    pub uid: u32,
    pub signature: &'s str,
}

impl Default for SetDetail<'_> {
    /// A profile for user 0 with the default signature.
    fn default() -> (r: Self)
        ensures
            r.uid == 0,
            r.signature@ == DEFAULT_SIGNATURE@,
    {
        SetDetail { uid: 0, signature: DEFAULT_SIGNATURE }
    }
}

impl<'s> SetDetail<'s> {
    /// A profile for user `uid` with the default signature.
    pub fn new_def(uid: u32) -> (r: Self)
        ensures
            r.uid == uid,
            r.signature@ == DEFAULT_SIGNATURE@,
    {
        SetDetail { uid, ..Default::default() }
    }

    /// The signature, as clients see it.
    pub fn into_jdetail(self) -> (r: JUserDetail)
        ensures
            r.signature@ == self.signature@,
    {
        JUserDetail { signature: String::from_str(self.signature) }
    }

    /// The profile that `auser` asks to store; `None` when the credentials carry no
    /// account id.
    pub fn from_uath(auser: &UserAuth, data: &'s JUserDetail) -> (r: Option<Self>)
        ensures
            r is Some <==> auser.id is Some,
            r matches Some(d) ==> d.uid == auser.id->0 && d.signature@ == data.signature@,
    {
        Some(SetDetail { uid: auser.get_id()?, signature: data.signature.as_str() })
    }
}

impl vstd::std_specs::convert::FromSpecImpl<UserDetail> for JUserDetail {
    open spec fn obeys_from_spec() -> bool {
        true
    }

    open spec fn from_spec(d: UserDetail) -> JUserDetail {
        JUserDetail { signature: d.signature }
    }
}

impl From<UserDetail> for JUserDetail {
    /// The signature of a stored profile, as clients see it.
    fn from(d: UserDetail) -> (r: JUserDetail) {
        d.into_jdetail()
    }
}

impl<'s> vstd::std_specs::convert::FromSpecImpl<SetDetail<'s>> for JUserDetail {
    open spec fn obeys_from_spec() -> bool {
        false
    }

    open spec fn from_spec(d: SetDetail<'s>) -> JUserDetail {
        arbitrary()
    }
}

impl<'s> From<SetDetail<'s>> for JUserDetail {
    /// The signature of a profile about to be stored, as clients see it.
    fn from(d: SetDetail<'s>) -> (r: JUserDetail)
        ensures
            r.signature@ == d.signature@,
    {
        d.into_jdetail()
    }
}

/// A stored to-do item.
pub struct TodoInfo {
    pub id: u32,
    pub uid: u32,
    pub title: String,
    pub descript: String,
    pub ddl: DateTime,
}

/// A to-do item about to be stored.
pub struct NewTodo<'s> {
    pub uid: u32,
    pub title: &'s str,
    pub descript: &'s str,
    pub ddl: DateTime,
}

/// Copies of the given tag names, in order.
fn copy_tags(tags: &[String]) -> (r: Vec<String>)
    ensures
        r@ == tags@,
{
    let mut out: Vec<String> = Vec::new();
    let mut i: usize = 0;
    while i < tags.len()
        invariant
            0 <= i <= tags@.len(),
            out@ == tags@.take(i as int),
        decreases tags@.len() - i,
    {
        out.push(tags[i].clone());
        proof {
            assert(tags@.take(i + 1) == tags@.take(i as int).push(tags@[i as int]));
        }
        i = i + 1;
    }
    proof {
        assert(tags@.take(tags@.len() as int) == tags@);
    }
    out
}

/// `r` is the item `t` as clients see it, with the tags `tags`.
pub open spec fn shown_as(t: NewTodo, tags: Seq<String>, r: JTodo) -> bool {
    &&& r.title@ == t.title@
    &&& r.descript@ == t.descript@
    &&& r.tags@ == tags
    &&& r.ddl == t.ddl.date
}

/// `r` is the item that the request `j` of user `user` stores.
pub open spec fn stored_as(user: UserAuth, j: JTodo, r: NewTodo) -> bool {
    &&& r.uid == (match user.id {
        Some(id) => id,
        None => 0,
    })
    &&& r.title@ == j.title@
    &&& r.descript@ == j.descript@
    &&& r.ddl.date == j.ddl
    &&& r.ddl.time == midnight_spec()
}

/// Storing a requested item and showing it again gives back the request's title,
/// description and deadline, with the tags it is shown with.
pub proof fn lemma_todo_round_trip(user: UserAuth, j: JTodo, t: NewTodo, tags: Seq<String>, r: JTodo)
    requires
        stored_as(user, j, t),
        shown_as(t, tags, r),
    ensures
        r.title@ == j.title@,
        r.descript@ == j.descript@,
        r.ddl == j.ddl,
        r.tags@ == tags,
{
}

impl NewTodo<'_> {
    /// The item as clients see it, with the given tags; the deadline keeps its date.
    pub fn into_jtodo(self, tags: &[String]) -> (r: JTodo)
        ensures
            shown_as(self, tags@, r),
    {
        JTodo {
            title: String::from_str(self.title),
            descript: String::from_str(self.descript),
            tags: copy_tags(tags),
            ddl: self.ddl.date(),
        }
    }
}

impl TodoInfo {
    /// The item as clients see it, with the given tags; the deadline keeps its date.
    pub fn into_jtodo(self, tags: &[String]) -> (r: JTodo)
        ensures
            r.title == self.title,
            r.descript == self.descript,
            r.tags@ == tags@,
            r.ddl == self.ddl.date,
    {
        JTodo { title: self.title, descript: self.descript, tags: copy_tags(tags), ddl: self.ddl.date() }
    }
}

impl<'a, 's> vstd::std_specs::convert::FromSpecImpl<(&'a UserAuth, &'s JTodo)> for NewTodo<'s> {
    open spec fn obeys_from_spec() -> bool {
        false
    }

    open spec fn from_spec(d: (&'a UserAuth, &'s JTodo)) -> Self {
        arbitrary()
    }
}

impl<'a, 's> From<(&'a UserAuth, &'s JTodo)> for NewTodo<'s> {
    /// The item that user `d.0` asks to store: owned by the user's id (0 when the
    /// credentials carry none), due at midnight of the deadline.
    fn from(d: (&'a UserAuth, &'s JTodo)) -> (r: Self)
        ensures
            stored_as(*d.0, *d.1, r),
    {
        let uid = match d.0.get_id() {
            Some(id) => id,
            None => 0,
        };
        NewTodo {
            uid,
            title: d.1.title.as_str(),
            descript: d.1.descript.as_str(),
            ddl: DateTime::new(d.1.ddl, midnight()),
        }
    }
}

/// Midnight, `00:00:00`.
pub open spec fn midnight_spec() -> TimeOfDay {
    TimeOfDay { hour: 0, minute: 0, second: 0, nano: 0 }
}

/// A stored tag.
pub struct TodoTag {
    pub id: u32,
    pub uid: u32,
    pub name: String,
}

/// A tag about to be stored.
pub struct NewTag<'s> {
    pub uid: u32,
    pub name: &'s str,
}

/// A stored link between a tag and a to-do item.
pub struct TodoTagLink {
    pub id: u32,
    pub tid: u32,
    pub gid: u32,
}

/// A link about to be stored: tag `tid`, to-do item `gid`.
pub struct NewLink {
    pub tid: u32,
    pub gid: u32,
}

impl<'s> vstd::std_specs::convert::FromSpecImpl<(NewTag<'s>, u32)> for TodoTag {
    open spec fn obeys_from_spec() -> bool {
        false
    }

    open spec fn from_spec(d: (NewTag<'s>, u32)) -> Self {
        arbitrary()
    }
}

impl<'s> From<(NewTag<'s>, u32)> for TodoTag {
    /// The stored form of tag `d.0` under the id `d.1`.
    fn from(d: (NewTag<'s>, u32)) -> (r: Self)
        ensures
            r.id == d.1,
            r.uid == d.0.uid,
            r.name@ == d.0.name@,
    {
        let (t, i) = d;
        TodoTag { id: i, uid: t.uid, name: String::from_str(t.name) }
    }
}

impl<'a, 's> vstd::std_specs::convert::FromSpecImpl<(&'a UserAuth, &'s str)> for NewTag<'s> {
    open spec fn obeys_from_spec() -> bool {
        true
    }

    open spec fn from_spec(d: (&'a UserAuth, &'s str)) -> Self {
        NewTag {
            uid: match d.0.id {
                Some(id) => id,
                None => 0,
            },
            name: d.1,
        }
    }
}

impl<'a, 's> From<(&'a UserAuth, &'s str)> for NewTag<'s> {
    /// The tag named `d.1` for user `d.0` (user 0 when the credentials carry no id).
    fn from(d: (&'a UserAuth, &'s str)) -> (r: Self) {
        let (u, s) = d;
        NewTag {
            uid: match u.get_id() {
                Some(id) => id,
                None => 0,
            },
            name: s,
        }
    }
}

impl<'a, 'b> vstd::std_specs::convert::FromSpecImpl<(&'a u32, &'b u32)> for NewLink {
    open spec fn obeys_from_spec() -> bool {
        true
    }

    open spec fn from_spec(d: (&'a u32, &'b u32)) -> Self {
        NewLink { tid: *d.0, gid: *d.1 }
    }
}

impl<'a, 'b> From<(&'a u32, &'b u32)> for NewLink {
    /// The link of tag `d.0` to to-do item `d.1`.
    fn from(d: (&'a u32, &'b u32)) -> (r: Self) {
        let (tid, oid) = d;
        NewLink { tid: *tid, gid: *oid }
    }
}

} // verus!
