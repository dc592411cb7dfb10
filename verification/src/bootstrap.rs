//! Connection and provisioning plumbing: the connection URL and the SQL
//! that the destructive bootstrap issues, each pinned to its exact text,
//! and a model-level statement of what provisioning leaves behind.
//!
//! Opening connections, executing these statements and applying migrations
//! are I/O and live outside the verified core; everything the core decides
//! about them — which URL, which statements, in which order — is here.

use vstd::prelude::*;
use vstd::string::StringExecFns;

verus! {

/// The text of the connection URL for one database on one server.
pub open spec fn spec_connection_url(
    username: Seq<char>,
    password: Seq<char>,
    host: Seq<char>,
    db_name: Seq<char>,
) -> Seq<char> {
    "postgres://"@ + username + ":"@ + password + "@"@ + host + "/"@ + db_name
}

/// Builds the URL under which `new` connects to the target database.
pub fn connection_url(username: &str, password: &str, host: &str, db_name: &str) -> (url: String)
    ensures
        url@ == spec_connection_url(username@, password@, host@, db_name@),
{
    let mut url = String::from_str("postgres://");
    url.append(username);
    url.append(":");
    url.append(password);
    url.append("@");
    url.append(host);
    url.append("/");
    url.append(db_name);
    proof {
        assert(url@ =~= spec_connection_url(username@, password@, host@, db_name@));
    }
    url
}

/// Builds the URL under which `bootstrap` connects: the server's
/// administrative database, not the target one, since the target is about
/// to be dropped.
pub fn admin_url(username: &str, password: &str, host: &str) -> (url: String)
    ensures
        url@ == spec_connection_url(username@, password@, host@, "postgres"@),
{
    connection_url(username, password, host, "postgres")
}

/// The statement that destroys the target database, tolerating its absence.
pub open spec fn spec_drop_database_sql(db_name: Seq<char>) -> Seq<char> {
    "DROP DATABASE IF EXISTS \""@ + db_name + "\";"@
}

/// Builds the `DROP DATABASE IF EXISTS` statement `bootstrap` issues first.
pub fn drop_database_sql(db_name: &str) -> (sql: String)
    ensures
        sql@ == spec_drop_database_sql(db_name@),
{
    let mut sql = String::from_str("DROP DATABASE IF EXISTS \"");
    sql.append(db_name);
    sql.append("\";");
    proof {
        assert(sql@ =~= spec_drop_database_sql(db_name@));
    }
    sql
}

/// The statement that recreates the target database, empty.
pub open spec fn spec_create_database_sql(db_name: Seq<char>) -> Seq<char> {
    "CREATE DATABASE \""@ + db_name + "\";"@
}

/// Builds the `CREATE DATABASE` statement `bootstrap` issues second.
pub fn create_database_sql(db_name: &str) -> (sql: String)
    ensures
        sql@ == spec_create_database_sql(db_name@),
{
    let mut sql = String::from_str("CREATE DATABASE \"");
    sql.append(db_name);
    sql.append("\";");
    proof {
        assert(sql@ =~= spec_create_database_sql(db_name@));
    }
    sql
}

/// The server modelled as its named databases, each a committed store.
pub type ServerModel = Map<Seq<char>, Seq<u64>>;

/// What the drop statement does to the server: the named database is gone,
/// whether or not it existed.
pub open spec fn spec_drop_database(server: ServerModel, db_name: Seq<char>) -> ServerModel {
    server.remove(db_name)
}

/// What the create statement does to the server: the named database exists
/// and is empty.
pub open spec fn spec_create_database(server: ServerModel, db_name: Seq<char>) -> ServerModel {
    server.insert(db_name, Seq::empty())
}

/// What one `bootstrap` run does to the server: drop, then create, then
/// migrate into a fresh schema (which adds no rows).
pub open spec fn spec_bootstrap(server: ServerModel, db_name: Seq<char>) -> ServerModel {
    spec_create_database(spec_drop_database(server, db_name), db_name)
}

/// Law: bootstrap always leaves the named database present, empty of any
/// prior data, and touches no other database; running it twice in
/// succession is the same as running it once, so both runs succeed and each
/// leaves the same freshly-provisioned state.
pub proof fn lemma_bootstrap_fresh(server: ServerModel, db_name: Seq<char>)
    ensures
        spec_bootstrap(server, db_name).contains_key(db_name),
        spec_bootstrap(server, db_name)[db_name] == Seq::<u64>::empty(),
        forall|other: Seq<char>| other != db_name ==>
            (#[trigger] spec_bootstrap(server, db_name).contains_key(other)
                == server.contains_key(other)),
        forall|other: Seq<char>| other != db_name && server.contains_key(other) ==>
            #[trigger] spec_bootstrap(server, db_name)[other] == server[other],
        spec_bootstrap(spec_bootstrap(server, db_name), db_name)
            == spec_bootstrap(server, db_name),
{
    assert(spec_bootstrap(spec_bootstrap(server, db_name), db_name)
        =~= spec_bootstrap(server, db_name));
}

} // verus!
