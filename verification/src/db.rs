//! What the message store holds, as the engine sees it.
//!
//! The store itself is somebody else's: the engine asks it five things
//! (look a user up, create one, list the channels, save a line of chat,
//! fetch the recent lines of a channel) and works on the plain rows below.
//! Times are whole seconds since the Unix epoch.

use crate::messages::opt_text;
use crate::text::text_rsplit_once;
use vstd::prelude::*;
use vstd::string::StringExecFns;

verus! {

/// A registered user.
#[derive(Clone, Debug)]
pub struct DbUser {
    pub id: i32,
    pub username: String,
    pub password_hash: String,
    pub created_at: Option<i64>,
}

/// A channel as stored.
#[derive(Clone, Debug)]
pub struct DbChannel {
    pub id: i32,
    pub name: String,
    pub parent_id: Option<i32>,
    pub description: Option<String>,
}

pub struct DbChannelView {
    pub id: i32,
    pub name: Seq<char>,
    pub parent_id: Option<i32>,
    pub description: Option<Seq<char>>,
}

impl View for DbChannel {
    type V = DbChannelView;

    open spec fn view(&self) -> DbChannelView {
        DbChannelView {
            id: self.id,
            name: self.name@,
            parent_id: self.parent_id,
            description: opt_text(self.description),
        }
    }
}

/// A stored line of chat.
#[derive(Clone, Debug)]
pub struct DbMessage {
    pub id: i32,
    pub sender_name: String,
    pub channel_id: i32,
    pub content: String,
    pub created_at: Option<i64>,
}

pub struct DbMessageView {
    pub id: i32,
    pub sender_name: Seq<char>,
    pub channel_id: i32,
    pub content: Seq<char>,
    pub created_at: Option<i64>,
}

impl View for DbMessage {
    type V = DbMessageView;

    open spec fn view(&self) -> DbMessageView {
        DbMessageView {
            id: self.id,
            sender_name: self.sender_name@,
            channel_id: self.channel_id,
            content: self.content@,
            created_at: self.created_at,
        }
    }
}

impl DbMessage {
    /// A copy with the same content.
    pub fn duplicate(&self) -> (copy: DbMessage)
        ensures
            copy@ == self@,
    {
        DbMessage {
            id: self.id,
            sender_name: self.sender_name.clone(),
            channel_id: self.channel_id,
            content: self.content.clone(),
            created_at: self.created_at,
        }
    }
}

/// The views of a list of stored lines.
pub open spec fn message_views(rows: Seq<DbMessage>) -> Seq<DbMessageView> {
    rows.map_values(|row: DbMessage| row@)
}

/// Where to go to create a database that does not exist yet.
#[derive(Clone, Debug)]
pub struct MaintenanceTarget {
    /// The connection URL of the server's maintenance database.
    pub maintenance_url: String,
    /// The name of the database to create.
    pub database: String,
}

/// Whether `url` is `base`, a slash, and the database `name`, in which
/// there is no slash.
pub open spec fn names_database(url: Seq<char>, base: Seq<char>, name: Seq<char>) -> bool {
    url == base + seq!['/'] + name && !name.contains('/')
}

/// Takes a connection URL apart at its last slash: what follows is the
/// name of the database, and what precedes, with `/postgres` behind it, is
/// the URL of the maintenance database on the same server. A URL without a
/// slash names no database.
pub fn maintenance_target(url: &str) -> (target: Option<MaintenanceTarget>)
    ensures
        match target {
            Some(target) => exists|base: Seq<char>|
                names_database(url@, base, target.database@) && target.maintenance_url@ == base
                    + "/postgres"@,
            None => !url@.contains('/'),
        },
{
    match text_rsplit_once(url, '/') {
        Some((base, name)) => {
            let mut maintenance_url = base.to_owned();
            maintenance_url.append("/postgres");
            assert(names_database(url@, base@, name@));
            Some(MaintenanceTarget { maintenance_url, database: name.to_owned() })
        },
        None => None,
    }
}

/// The statement that creates the database `name`.
pub fn create_database_statement(name: &str) -> (statement: String)
    ensures
        statement@ == "CREATE DATABASE \""@ + name@ + "\""@,
{
    let mut statement = "CREATE DATABASE \"".to_owned();
    statement.append(name);
    statement.append("\"");
    statement
}

/// How many recent lines a client is shown of a channel it enters.
pub const HISTORY_LIMIT: i64 = 50;

/// Puts rows that were fetched newest first into the order they were
/// written in, oldest first.
pub fn chronological(newest_first: &Vec<DbMessage>) -> (oldest_first: Vec<DbMessage>)
    ensures
        message_views(oldest_first@) == message_views(newest_first@).reverse(),
{
    let mut oldest_first: Vec<DbMessage> = Vec::new();
    let mut left: usize = newest_first.len();
    while left > 0
        invariant
            left <= newest_first@.len(),
            oldest_first@.len() == newest_first@.len() - left,
            forall|i: int|
                0 <= i < oldest_first@.len() ==> (#[trigger] oldest_first@[i])@
                    == newest_first@[newest_first@.len() - 1 - i]@,
        decreases left,
    {
        left -= 1;
        oldest_first.push(newest_first[left].duplicate());
    }
    assert(message_views(oldest_first@) =~= message_views(newest_first@).reverse());
    oldest_first
}

} // verus!
