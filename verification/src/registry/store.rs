//! The durable table from display name to public key, kept in a redb database.
//!
//! redb does the storing. What its transactions do to the table is stated here
//! over one named map, the committed rows of a table, and believed; the
//! functions below are proved from that.

use vstd::prelude::*;
use crate::keys::PubKey;
use crate::registry::{Member, MemberStub};

verus! {

/// Declares `redb::Database`, the handle to an open database. Nothing of its
/// inside is visible; what it holds is named by [`table_rows`].
#[verifier::external_type_specification]
#[verifier::external_body]
pub struct ExDatabase(redb::Database);

/// Declares `redb::Error`, the fault that any step of a transaction may report.
/// It is carried through and rendered as text, never looked into.
#[verifier::external_type_specification]
#[verifier::external_body]
pub struct ExStorageError(redb::Error);

/// The committed rows of the table `table` of a database, from key to value. A
/// table that was never written has no rows.
pub uninterp spec fn table_rows(db: redb::Database, table: Seq<char>) -> Map<Seq<char>, Seq<u8>>;

/// What one read of a table found under a name.
pub enum RowRead {
    /// The database holds no table of that name yet.
    NoTable,
    /// The table holds no row under the name.
    NoRow,
    /// The row's value.
    Row(PubKey),
}

/// Reads the row under `name` in one read transaction: `Database::begin_read`,
/// `ReadTransaction::open_table`, `ReadOnlyTable::get` and `AccessGuard::value`.
///
/// Trusted: a transaction that succeeds reports what the committed rows hold
/// under `name`; a table that is missing holds no row under it. Nothing is
/// claimed where redb reports a fault. The table's name must not be empty,
/// which `TableDefinition::new` asserts.
#[verifier::external_body]
fn read_row(db: &redb::Database, table: &str, name: &str) -> (read: Result<RowRead, redb::Error>)
    requires
        table@.len() > 0,
    ensures
        read matches Ok(RowRead::NoTable) ==> !table_rows(*db, table@).contains_key(name@),
        read matches Ok(RowRead::NoRow) ==> !table_rows(*db, table@).contains_key(name@),
        read matches Ok(RowRead::Row(value)) ==> table_rows(*db, table@).contains_key(name@)
            && table_rows(*db, table@)[name@] == value@,
{
    let definition = redb::TableDefinition::<&str, [u8; 32]>::new(table);
    let rows = match db.begin_read()?.open_table(definition) {
        Ok(rows) => rows,
        Err(redb::TableError::TableDoesNotExist(_)) => return Ok(RowRead::NoTable),
        Err(other) => return Err(other.into()),
    };
    match rows.get(name)? {
        Some(guard) => Ok(RowRead::Row(guard.value())),
        None => Ok(RowRead::NoRow),
    }
}

/// Writes the row `name -> value` in one write transaction and commits it:
/// `Database::begin_write`, `WriteTransaction::open_table`, `Table::insert` and
/// `WriteTransaction::commit`.
///
/// Trusted: after a commit that succeeds the table holds the rows it held
/// before, with the row under `name` inserted or replaced. Nothing is claimed
/// where redb reports a fault. The table's name must not be empty, which
/// `TableDefinition::new` asserts.
#[verifier::external_body]
fn write_row(db: &mut redb::Database, table: &str, name: &str, value: &PubKey) -> (written: Result<
    (),
    redb::Error,
>)
    requires
        table@.len() > 0,
    ensures
        written is Ok ==> table_rows(*final(db), table@) == table_rows(*old(db), table@).insert(
            name@,
            value@,
        ),
{
    let definition = redb::TableDefinition::<&str, [u8; 32]>::new(table);
    let transaction = db.begin_write()?;
    {
        let mut rows = transaction.open_table(definition)?;
        rows.insert(name, value)?;
    }
    transaction.commit()?;
    Ok(())
}

/// The name of the table that holds the members, as a sequence of characters.
pub open spec fn members_table() -> Seq<char> {
    "global-members"@
}

/// The name of the table that holds the members.
pub fn table_name() -> (name: &'static str)
    ensures
        name@ == members_table(),
        name@.len() > 0,
{
    proof {
        reveal_strlit("global-members");
    }
    "global-members"
}

/// The directory that a database holds: the committed rows of its members
/// table, from display name to public key.
pub open spec fn directory(db: redb::Database) -> Map<Seq<char>, Seq<u8>> {
    table_rows(db, members_table())
}

/// What a directory holds under `name`.
pub open spec fn lookup(rows: Map<Seq<char>, Seq<u8>>, name: Seq<char>) -> Option<Seq<u8>> {
    if rows.contains_key(name) {
        Some(rows[name])
    } else {
        None
    }
}

/// The directory after `name` was published with `key`: the row is inserted, or
/// replaces the one that was there.
pub open spec fn publish(rows: Map<Seq<char>, Seq<u8>>, name: Seq<char>, key: Seq<u8>) -> Map<
    Seq<char>,
    Seq<u8>,
> {
    rows.insert(name, key)
}

/// The bytes of a key that may be missing.
pub open spec fn key_view(key: Option<PubKey>) -> Option<Seq<u8>> {
    match key {
        Some(bytes) => Some(bytes@),
        None => None,
    }
}

/// The key that a read found, if any. A table that does not exist yet holds no
/// key: the name was never published.
pub fn found_key(read: RowRead) -> (key: Option<PubKey>)
    ensures
        key == match read {
            RowRead::Row(value) => Some(value),
            RowRead::NoRow => None::<PubKey>,
            RowRead::NoTable => None::<PubKey>,
        },
{
    match read {
        RowRead::Row(value) => Some(value),
        RowRead::NoRow => None,
        RowRead::NoTable => None,
    }
}

/// Looks `stub.name` up in a read transaction. Where the transaction succeeds,
/// the answer is what the directory holds under the name; a storage fault is
/// handed on.
pub fn db_get_pubkey(db: &redb::Database, stub: &MemberStub) -> (read: Result<
    Option<PubKey>,
    redb::Error,
>)
    ensures
        read matches Ok(key) ==> key_view(key) == lookup(directory(*db), stub.name@),
{
    match read_row(db, table_name(), stub.name.as_str()) {
        Ok(row) => Ok(found_key(row)),
        Err(fault) => Err(fault),
    }
}

/// Publishes `member` in a write transaction that is committed. Where it
/// succeeds, the directory holds the member's key under the member's name and
/// is otherwise as before; a storage fault is handed on.
pub fn db_set_pubkey(db: &mut redb::Database, member: &Member) -> (written: Result<
    (),
    redb::Error,
>)
    ensures
        written is Ok ==> directory(*final(db)) == publish(
            directory(*old(db)),
            member.name@,
            member.pubkey@,
        ),
{
    write_row(db, table_name(), member.name.as_str(), &member.pubkey)
}

} // verus!
