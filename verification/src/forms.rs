use vstd::prelude::*;

use crate::date::{chrono_parse_date, formatted_date, date_format_ok, format_date, parse_date, Date};
use crate::models::User;
use crate::utils::LenLimitedString;

verus! {

/// The credentials a client presents: an optional account id, an e-mail address of
/// at most 128 bytes and a password of at most 64 bytes.
pub struct UserAuth {
    pub id: Option<u32>,
    pub email: LenLimitedString<128>,
    pub paswd: LenLimitedString<64>,
}

impl Clone for UserAuth {
    fn clone(&self) -> (r: Self)
        ensures
            r == *self,
    {
        UserAuth { id: self.id, email: self.email.clone(), paswd: self.paswd.clone() }
    }
}

impl UserAuth {
    /// The account id, when the credentials carry one.
    pub fn get_id(&self) -> (r: Option<u32>)
        ensures
            r == self.id,
    {
        let res = self.id?;
        Some(res)
    }
}

/// A request to change a password: the old one, the new one and its confirmation.
pub struct ChangePaswd {
    pub old: LenLimitedString<64>,
    pub new: LenLimitedString<64>,
    pub new_conf: LenLimitedString<64>,
}

impl Clone for ChangePaswd {
    fn clone(&self) -> (r: Self)
        ensures
            r == *self,
    {
        ChangePaswd { old: self.old.clone(), new: self.new.clone(), new_conf: self.new_conf.clone() }
    }
}

/// A to-do item as clients send and receive it.
pub struct JTodo {
    pub title: String,
    pub descript: String,
    pub tags: Vec<String>,
    pub ddl: Date,
}

/// A to-do item as it arrives on the wire, with the deadline still as text.
pub struct JTodoMid {
    pub title: String,
    pub descript: String,
    pub tags: Vec<String>,
    pub ddl: String,
}

/// The format in which clients send a deadline.
pub open spec fn deadline_input_format() -> Seq<char> {
    "%Y-%m-%d"@
}

/// The format in which a deadline is written back.
pub open spec fn deadline_output_format() -> Seq<char> {
    "%Y-%d-%m"@
}

impl JTodoMid {
    /// Reads the deadline with the format `%Y-%m-%d`; `None` when it does not parse.
    pub fn into(self) -> (r: Option<JTodo>)
        ensures
            r is Some <==> chrono_parse_date(self.ddl@, deadline_input_format()) is Some,
            r matches Some(t) ==> {
                &&& t.title@ == self.title@
                &&& t.descript@ == self.descript@
                &&& t.tags == self.tags
                &&& chrono_parse_date(self.ddl@, deadline_input_format()) == Some(
                    (t.ddl.spec_year(), t.ddl.spec_month(), t.ddl.spec_day()),
                )
            },
    {
        let ddl = parse_date(self.ddl.as_str(), "%Y-%m-%d");
        match ddl {
            Some(d) => Some(
                JTodo {
                    title: self.title.clone(),
                    descript: self.descript.clone(),
                    tags: self.tags,
                    ddl: d,
                },
            ),
            None => None,
        }
    }
}

impl JTodo {
    /// Writes the deadline back as text with the format `%Y-%d-%m`.
    pub fn into(self) -> (r: JTodoMid)
        ensures
            r.title@ == self.title@,
            r.descript@ == self.descript@,
            r.tags == self.tags,
            r.ddl@ == formatted_date(
                self.ddl.spec_year() as int,
                self.ddl.spec_month() as nat,
                self.ddl.spec_day() as nat,
                deadline_output_format(),
            ),
    {
        proof {
            reveal_strlit("%Y-%d-%m");
            assert(date_format_ok("%Y-%d-%m"@));
        }
        let ddl = format_date(&self.ddl, "%Y-%d-%m");
        JTodoMid { title: self.title, descript: self.descript, tags: self.tags, ddl }
    }
}

/// A page of results: `psize` items per page, page number `page`.
pub struct PageRange {
    pub psize: u32,
    pub page: u32,
}

/// Tag names to filter by.
pub struct TagFilter<'s> {
    pub tgkw: Vec<&'s str>,
}

/// A keyword that to-do titles must contain.
pub struct TodoFilter<'s> {
    pub tkw: &'s str,
}

/// The signature a user shows on the profile.
pub struct JUserDetail {
    pub signature: String,
}

/// What a user's profile shows: name, e-mail address and signature.
pub struct JUserInfo {
    pub name: String,
    pub email: String,
    pub signature: String,
}

impl JUserInfo {
    /// The profile of `user` with the signature of `detail`.
    pub fn from_u_ud(user: &User, detail: &JUserDetail) -> (r: Self)
        ensures
            r.name@ == user.name@,
            r.email@ == user.email@,
            r.signature@ == detail.signature@,
    {
        JUserInfo {
            name: user.name.clone(),
            email: user.email.clone(),
            signature: detail.signature.clone(),
        }
    }
}

} // verus!
