//! The records of the archive (users, torrents, comments), the decisions
//! that precede writing them, and the category scheme of the index.

use vstd::prelude::*;
use crate::password::{hash_password, hex_decode_spec, hex_valid, password_matches, HashError};
use crate::text::{decimal, signed_decimal, usize_to_string, i64_to_string};

verus! {

/// The kinds of records.
#[derive(Debug, Clone, Copy, PartialEq, Eq, Structural)]
pub enum Item {
    User,
    Torrent,
    Comment,
}

/// The display name of a kind of record.
pub open spec fn item_name(item: Item) -> Seq<char> {
    match item {
        Item::User => "User"@,
        Item::Torrent => "Torrent"@,
        Item::Comment => "Comment"@,
    }
}

impl Item {
    /// The display name of the kind of record.
    pub fn name(&self) -> (r: &'static str)
        ensures
            r@ == item_name(*self),
    {
        match self {
            Item::User => "User",
            Item::Torrent => "Torrent",
            Item::Comment => "Comment",
        }
    }
}

/// What can go wrong when records are read or written. A database failure
/// carries the database's message.
#[derive(Debug, Clone, PartialEq, Eq)]
pub enum DatabaseError {
    /// The item with this identifier already exists.
    Exists(Item, String),
    /// The item with this identifier does not exist.
    NotExists(Item, String),
    /// Required fields were not filled.
    MissingFields(Vec<String>),
    /// Creating an item failed.
    Create(Item, String),
    /// Updating the item with this identifier failed.
    Update(Item, String, String),
    /// Deleting the item with this identifier failed.
    Delete(Item, String, String),
    /// Searching for items failed.
    Search(Item, String),
    /// The password could not be hashed.
    Hash,
    /// Any other database failure.
    Generic(String),
}

/// `e` reports that the `item` identified by `id` already exists.
pub open spec fn is_exists_error(e: DatabaseError, item: Item, id: Seq<char>) -> bool {
    e matches DatabaseError::Exists(i, s) && i == item && s@ == id
}

/// `e` reports that the `item` identified by `id` does not exist.
pub open spec fn is_not_exists_error(e: DatabaseError, item: Item, id: Seq<char>) -> bool {
    e matches DatabaseError::NotExists(i, s) && i == item && s@ == id
}

/// `e` reports these missing fields.
pub open spec fn is_missing_fields_error(e: DatabaseError, fields: Seq<Seq<char>>) -> bool {
    e matches DatabaseError::MissingFields(v) && v.deep_view() == fields
}

/// Whether a write creates a new row or updates an existing one.
#[derive(Debug, Clone, Copy, PartialEq, Eq, Structural)]
pub enum InsertAction {
    Create,
    Update,
}

/// A user of the archive, either a local account or a user seen on the index.
#[derive(Debug, Clone)]
pub struct User {
    pub username: String,
    pub password: Option<String>,
    pub salt: Option<String>,
    pub email: Option<String>,
    pub nyaa: bool,
    pub trusted: bool,
    pub banned: bool,
    pub nyaa_admin: bool,
    pub nyaa_mod: bool,
    pub avatar: Option<String>,
}

/// The one-element sequence of `name` when the field is absent, else nothing.
pub open spec fn missing_if(absent: bool, name: Seq<char>) -> Seq<Seq<char>> {
    if absent {
        seq![name]
    } else {
        Seq::empty()
    }
}

/// The fields that a local account needs and lacks, in the order password,
/// salt, e-mail.
pub open spec fn missing_fields(u: &User) -> Seq<Seq<char>> {
    missing_if(u.password is None, "password"@) + missing_if(u.salt is None, "salt"@) + missing_if(
        u.email is None,
        "email"@,
    )
}

impl User {
    /// Decides how `insert` writes this user, given whether a user of that
    /// name exists and whether an existing one may be replaced.
    pub fn insert_action(&self, exists: bool, replace: bool) -> (r: Result<
        InsertAction,
        DatabaseError,
    >)
        ensures
            exists && !replace ==> r is Err && is_exists_error(r->Err_0, Item::User, self.username@),
            !(exists && !replace) && !self.nyaa && missing_fields(self).len() > 0 ==> r is Err
                && is_missing_fields_error(r->Err_0, missing_fields(self)),
            !(exists && !replace) && (self.nyaa || missing_fields(self).len() == 0) ==> r == Ok::<
                InsertAction,
                DatabaseError,
            >(if replace && exists { InsertAction::Update } else { InsertAction::Create }),
    {
        if exists && !replace {
            return Err(DatabaseError::Exists(Item::User, self.username.clone()));
        }
        let mut missing: Vec<String> = Vec::new();
        if self.password.is_none() {
            missing.push("password".to_string());
        }
        let ghost first = missing.deep_view();
        if self.salt.is_none() {
            missing.push("salt".to_string());
        }
        let ghost second = missing.deep_view();
        if self.email.is_none() {
            missing.push("email".to_string());
        }
        proof {
            assert(first =~= missing_if(self.password is None, "password"@));
            assert(second =~= first + missing_if(self.salt is None, "salt"@));
            assert(missing.deep_view() =~= second + missing_if(self.email is None, "email"@));
        }
        assert(missing.deep_view() =~= missing_fields(self));
        if !self.nyaa && missing.len() > 0 {
            return Err(DatabaseError::MissingFields(missing));
        }
        if replace && exists {
            Ok(InsertAction::Update)
        } else {
            Ok(InsertAction::Create)
        }
    }

    /// Replaces the password by its hash and sets the salt.
    pub fn hash(&mut self) -> (r: Result<(), DatabaseError>)
        requires
            old(self).password matches Some(p) ==> p@.len() < 0x0100_0000_0000_0000,
        ensures
            old(self).password is None ==> r is Err && is_missing_fields_error(
                r->Err_0,
                seq!["password"@],
            ) && *final(self) == *old(self),
            r is Ok ==> old(self).password is Some && final(self).password is Some
                && final(self).salt is Some && password_matches(
                old(self).password->0@,
                final(self).password->0@,
                final(self).salt->0@,
            ),
            r is Ok ==> (final(self).password matches Some(h) && h@.len() == 2
                * crate::password::CREDENTIAL_LEN && hex_valid(h@)),
            r is Ok ==> (final(self).salt matches Some(s) && s@.len() == 2
                * crate::password::CREDENTIAL_LEN && hex_valid(s@) && hex_decode_spec(s@).len()
                == crate::password::CREDENTIAL_LEN),
            r is Ok ==> final(self).username == old(self).username,
            r is Ok ==> final(self).email == old(self).email,
            r is Ok ==> final(self).nyaa == old(self).nyaa,
            r is Ok ==> final(self).trusted == old(self).trusted,
            r is Ok ==> final(self).banned == old(self).banned,
            r is Ok ==> final(self).nyaa_admin == old(self).nyaa_admin,
            r is Ok ==> final(self).nyaa_mod == old(self).nyaa_mod,
            r is Ok ==> final(self).avatar == old(self).avatar,
            r is Err && old(self).password is Some ==> r->Err_0 == DatabaseError::Hash,
            r is Err ==> *final(self) == *old(self),
    {
        let hashed = match &self.password {
            None => {
                let mut v: Vec<String> = Vec::new();
                v.push("password".to_string());
                assert(v.deep_view() =~= seq!["password"@]);
                return Err(DatabaseError::MissingFields(v));
            },
            Some(p) => hash_password(p),
        };
        match hashed {
            Ok((h, s)) => {
                self.password = Some(h);
                self.salt = Some(s);
                Ok(())
            },
            Err(_) => Err(DatabaseError::Hash),
        }
    }
}

/// A torrent known to have been deleted from the index.
#[derive(Debug, Clone, Copy, PartialEq, Eq, Structural)]
pub struct DeletedTorrent {
    pub id: i32,
}

/// A torrent as the archive stores it.
#[derive(Debug, Clone)]
pub struct Torrent {
    pub id: i32,
    pub info_hash: String,
    pub seeders: i32,
    pub leechers: i32,
    pub completed: i32,
    pub title: String,
    pub category: i32,
    pub submitter: Option<String>,
    pub information: Option<String>,
    pub size: i64,
    pub date: i64,
    pub description: Option<String>,
    pub comments: i32,
    pub remake: bool,
    pub trusted: bool,
    pub partial: bool,
    pub anonymous: bool,
    pub deleted: bool,
    pub hidden: bool,
    pub next_update: Option<i64>,
    pub update_count: i32,
    pub update_frequency: Option<i32>,
}

/// A torrent to be written.
#[derive(Debug, Clone)]
pub struct NewTorrent {
    pub id: Option<i32>,
    pub info_hash: String,
    pub title: String,
    pub category: i32,
    pub submitter: Option<String>,
    pub information: Option<String>,
    pub size: i64,
    pub date: i64,
    pub description: Option<String>,
    pub comments: i32,
    pub remake: bool,
    pub trusted: bool,
    pub anonymous: bool,
    pub partial: bool,
    pub deleted: bool,
    pub hidden: bool,
    pub next_update: Option<i64>,
    pub update_count: i32,
    pub update_frequency: Option<i32>,
}

impl NewTorrent {
    /// Decides how `insert` writes this torrent, given whether a torrent with
    /// its id exists and whether an existing one may be replaced. A torrent
    /// without id is always created.
    pub fn insert_action(&self, exists: bool, replace: bool) -> (r: Result<
        InsertAction,
        DatabaseError,
    >)
        ensures
            ({
                let found = self.id is Some && exists;
                &&& found && !replace ==> r is Err && is_exists_error(
                    r->Err_0,
                    Item::Torrent,
                    decimal((self.id->0 as usize) as nat),
                )
                &&& !(found && !replace) ==> r == Ok::<InsertAction, DatabaseError>(
                    if replace && found {
                        InsertAction::Update
                    } else {
                        InsertAction::Create
                    },
                )
            }),
    {
        let found = self.id.is_some() && exists;
        if found && !replace {
            let id = self.id.unwrap();
            return Err(DatabaseError::Exists(Item::Torrent, usize_to_string(id as usize)));
        }
        if replace && found {
            Ok(InsertAction::Update)
        } else {
            Ok(InsertAction::Create)
        }
    }
}

/// A comment as the archive stores it.
#[derive(Debug, Clone)]
pub struct Comment {
    pub id: i32,
    pub torrent_id: i32,
    pub submitter: String,
    pub date_created: i64,
    pub date_edited: Option<i64>,
    pub text: String,
}

/// A comment to be written.
#[derive(Debug, Clone)]
pub struct NewComment {
    pub id: Option<i32>,
    pub torrent_id: i32,
    pub submitter: String,
    pub date_created: i64,
    pub date_edited: Option<i64>,
    pub text: String,
}

impl NewComment {
    /// Decides how `insert` writes this comment, given whether its torrent
    /// exists, whether a comment with its id exists, and whether an existing
    /// one may be replaced. Creating a comment also raises its torrent's
    /// comment count.
    pub fn insert_action(&self, torrent_exists: bool, exists: bool, replace: bool) -> (r: Result<
        InsertAction,
        DatabaseError,
    >)
        ensures
            !torrent_exists ==> r is Err && is_not_exists_error(
                r->Err_0,
                Item::Torrent,
                signed_decimal(self.torrent_id as int),
            ),
            ({
                let found = self.id is Some && exists;
                &&& torrent_exists && found && !replace ==> r is Err && is_exists_error(
                    r->Err_0,
                    Item::Comment,
                    decimal((self.id->0 as usize) as nat),
                )
                &&& torrent_exists && !(found && !replace) ==> r == Ok::<
                    InsertAction,
                    DatabaseError,
                >(if replace && found { InsertAction::Update } else { InsertAction::Create })
            }),
    {
        if !torrent_exists {
            return Err(
                DatabaseError::NotExists(Item::Torrent, i64_to_string(self.torrent_id as i64)),
            );
        }
        let found = self.id.is_some() && exists;
        if found && !replace {
            let id = self.id.unwrap();
            return Err(DatabaseError::Exists(Item::Comment, usize_to_string(id as usize)));
        }
        if replace && found {
            Ok(InsertAction::Update)
        } else {
            Ok(InsertAction::Create)
        }
    }
}

} // verus!
