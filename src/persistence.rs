//! How one event is written: its event-log row and its typed row in a single
//! transaction that commits both or neither.
use vstd::prelude::*;

use crate::event::{EventKind, SseFilter};
use crate::processor::DatabaseWriteError;
use crate::text::str_eq;

verus! {

/// The identity of an event-log row: the source, the kind and the event id.
#[derive(Clone, Copy, Debug, PartialEq, Eq, Structural)]
pub struct EventLogEntry {
    pub source: SseFilter,
    pub event_type: EventKind,
    pub event_id: u32,
}

/// A row of a typed table: the table (named by the event kind), the row's
/// primary key, and the event-log row it belongs to.
pub ghost struct TypedRow {
    pub table: EventKind,
    pub key: Seq<char>,
    pub parent: EventLogEntry,
}

/// The event log and the typed tables.
pub ghost struct Tables {
    pub log: Seq<EventLogEntry>,
    pub typed: Seq<TypedRow>,
}

/// Whether the log row at index `i` is the parent of typed row `row`.
pub open spec fn is_parent(t: Tables, i: int, row: TypedRow) -> bool {
    0 <= i < t.log.len() && t.log[i] == row.parent
}

/// Whether some log row is the parent of `row`.
pub open spec fn has_parent(t: Tables, row: TypedRow) -> bool {
    exists|i: int| is_parent(t, i, row)
}

/// Every typed row has exactly one event-log row with its source, kind and
/// event id; and no two log rows share those.
pub open spec fn referentially_sound(t: Tables) -> bool {
    &&& forall|i: int, j: int|
        0 <= i < t.log.len() && 0 <= j < t.log.len() && i != j ==> t.log[i] != t.log[j]
    &&& forall|k: int| 0 <= k < t.typed.len() ==> has_parent(t, #[trigger] t.typed[k])
    &&& forall|k: int, i: int, j: int|
        0 <= k < t.typed.len() && #[trigger] is_parent(t, i, t.typed[k]) && #[trigger] is_parent(
            t,
            j,
            t.typed[k],
        ) ==> i == j
}

/// What the database answers to writing `entry` and `row`: a unique-constraint
/// violation when the log already holds the entry, a duplicate when the typed
/// table already holds the key.
pub open spec fn write_answer(t: Tables, entry: EventLogEntry, row: TypedRow) -> Result<
    (),
    DatabaseWriteError,
> {
    if t.log.contains(entry) {
        Err(DatabaseWriteError::UniqueConstraint)
    } else if exists|k: int|
        0 <= k < t.typed.len() && t.typed[k].table == row.table && #[trigger] t.typed[k].key
            == row.key {
        Err(DatabaseWriteError::DuplicateEntry)
    } else {
        Ok(())
    }
}

/// The tables after the transaction: both rows on commit, nothing on rollback.
pub open spec fn after_write(t: Tables, entry: EventLogEntry, row: TypedRow) -> Tables {
    if write_answer(t, entry, row) is Ok {
        Tables { log: t.log.push(entry), typed: t.typed.push(row) }
    } else {
        t
    }
}

/// How a write transaction ends.
#[derive(Clone, Debug)]
pub enum TransactionEnd {
    Commit,
    Rollback(DatabaseWriteError),
}

/// Ends the write transaction of one event from the answers to its two
/// inserts (the typed insert is not tried when the log insert failed): it
/// commits only when both succeeded, and otherwise rolls back with the first
/// failure, so that the log keeps no row without its typed row.
pub fn finish_save(
    log_insert: Result<(), DatabaseWriteError>,
    typed_insert: Option<Result<(), DatabaseWriteError>>,
) -> (r: TransactionEnd)
    ensures
        r is Commit <==> log_insert is Ok && typed_insert matches Some(Ok(())),
        log_insert matches Err(e) ==> r == TransactionEnd::Rollback(e),
        log_insert is Ok ==> (typed_insert matches Some(Err(e)) ==> r == TransactionEnd::Rollback(
            e,
        )),
{
    match log_insert {
        Err(e) => TransactionEnd::Rollback(e),
        Ok(()) => match typed_insert {
            Some(Ok(())) => TransactionEnd::Commit,
            Some(Err(e)) => TransactionEnd::Rollback(e),
            None => TransactionEnd::Rollback(
                DatabaseWriteError::Unhandled("typed row was not written".to_owned()),
            ),
        },
    }
}

/// The result that saving reports for a transaction's end.
pub fn save_result(end: TransactionEnd) -> (r: Result<(), DatabaseWriteError>)
    ensures
        end is Commit <==> r is Ok,
        end matches TransactionEnd::Rollback(e) ==> r == Err::<(), DatabaseWriteError>(e),
{
    match end {
        TransactionEnd::Commit => Ok(()),
        TransactionEnd::Rollback(e) => Err(e),
    }
}

/// SQLite's extended result code for a primary-key violation.
pub const SQLITE_CONSTRAINT_PRIMARYKEY: &'static str = "1555";

/// SQLite's extended result code for a unique-constraint violation.
pub const SQLITE_CONSTRAINT_UNIQUE: &'static str = "2067";

/// How a failed statement is reported: a primary-key violation is a
/// duplicate (the event was seen before), a unique violation in the log is a
/// repeated event id, anything else is unhandled with the database's message.
pub open spec fn write_error_for(code: Option<Seq<char>>, message: String) -> DatabaseWriteError {
    match code {
        Some(c) => if c == SQLITE_CONSTRAINT_PRIMARYKEY@ {
            DatabaseWriteError::DuplicateEntry
        } else if c == SQLITE_CONSTRAINT_UNIQUE@ {
            DatabaseWriteError::UniqueConstraint
        } else {
            DatabaseWriteError::Unhandled(message)
        },
        None => DatabaseWriteError::Unhandled(message),
    }
}

/// Classifies a failed statement by the database's result code, if any.
pub fn write_error(code: Option<&str>, message: String) -> (r: DatabaseWriteError)
    ensures
        r == write_error_for(
            match code {
                Some(c) => Some(c@),
                None => None,
            },
            message,
        ),
{
    match code {
        Some(c) => {
            if str_eq(c, SQLITE_CONSTRAINT_PRIMARYKEY) {
                DatabaseWriteError::DuplicateEntry
            } else if str_eq(c, SQLITE_CONSTRAINT_UNIQUE) {
                DatabaseWriteError::UniqueConstraint
            } else {
                DatabaseWriteError::Unhandled(message)
            }
        },
        None => DatabaseWriteError::Unhandled(message),
    }
}

/// The typed table that holds events of `kind`; version announcements and
/// shutdowns have none.
pub open spec fn table_name(kind: EventKind) -> Option<Seq<char>> {
    match kind {
        EventKind::BlockAdded => Some("block_added"@),
        EventKind::DeployAccepted => Some("deploy_accepted"@),
        EventKind::DeployProcessed => Some("deploy_processed"@),
        EventKind::DeployExpired => Some("DeployExpired"@),
        EventKind::Fault => Some("fault"@),
        EventKind::FinalitySignature => Some("finality_signature"@),
        EventKind::Step => Some("step"@),
        _ => None,
    }
}

/// The typed table of `kind`.
pub fn table_of(kind: EventKind) -> (r: Option<&'static str>)
    ensures
        match table_name(kind) {
            Some(n) => r is Some && r->0@ == n,
            None => r is None,
        },
{
    match kind {
        EventKind::BlockAdded => Some("block_added"),
        EventKind::DeployAccepted => Some("deploy_accepted"),
        EventKind::DeployProcessed => Some("deploy_processed"),
        EventKind::DeployExpired => Some("DeployExpired"),
        EventKind::Fault => Some("fault"),
        EventKind::FinalitySignature => Some("finality_signature"),
        EventKind::Step => Some("step"),
        _ => None,
    }
}

/// The JSON fields of an event's content that make its typed row's primary
/// key: one field, or two joined by `-`.
pub open spec fn key_field_names(kind: EventKind) -> Option<(Seq<char>, Option<Seq<char>>)> {
    match kind {
        EventKind::BlockAdded => Some(("block_hash"@, None)),
        EventKind::DeployAccepted => Some(("hash"@, None)),
        EventKind::DeployProcessed => Some(("deploy_hash"@, None)),
        EventKind::DeployExpired => Some(("deploy_hash"@, None)),
        EventKind::Fault => Some(("era_id"@, Some("public_key"@))),
        EventKind::FinalitySignature => Some(("block_hash"@, Some("public_key"@))),
        EventKind::Step => Some(("era_id"@, None)),
        _ => None,
    }
}

/// The names that a pair of field names stands for.
pub open spec fn field_names_view(names: Option<(&str, Option<&str>)>) -> Option<
    (Seq<char>, Option<Seq<char>>),
> {
    match names {
        Some((a, Some(b))) => Some((a@, Some(b@))),
        Some((a, None)) => Some((a@, None)),
        None => None,
    }
}

/// The fields that key the typed row of an event of `kind`.
pub fn key_fields(kind: EventKind) -> (r: Option<(&'static str, Option<&'static str>)>)
    ensures
        field_names_view(r) == key_field_names(kind),
{
    match kind {
        EventKind::BlockAdded => Some(("block_hash", None)),
        EventKind::DeployAccepted => Some(("hash", None)),
        EventKind::DeployProcessed => Some(("deploy_hash", None)),
        EventKind::DeployExpired => Some(("deploy_hash", None)),
        EventKind::Fault => Some(("era_id", Some("public_key"))),
        EventKind::FinalitySignature => Some(("block_hash", Some("public_key"))),
        EventKind::Step => Some(("era_id", None)),
        _ => None,
    }
}

/// The primary key made of the key fields' values.
pub fn typed_row_key(first: &str, second: Option<&str>) -> (r: String)
    ensures
        r@ == match second {
            Some(b) => first@ + "-"@ + b@,
            None => first@,
        },
{
    let mut key = first.to_owned();
    if let Some(b) = second {
        key.append("-");
        key.append(b);
    }
    key
}

/// Writing an event, whether it commits or rolls back, leaves every typed row
/// with exactly one event-log row of matching source, kind and event id.
pub proof fn write_keeps_one_log_row_per_typed_row(t: Tables, entry: EventLogEntry, row: TypedRow)
    requires
        referentially_sound(t),
        row.parent == entry,
    ensures
        referentially_sound(after_write(t, entry, row)),
{
    if write_answer(t, entry, row) is Ok {
        let n = after_write(t, entry, row);
        assert(!t.log.contains(entry));
        assert forall|i: int, j: int|
            0 <= i < n.log.len() && 0 <= j < n.log.len() && i != j implies n.log[i] != n.log[j] by {
            if i == t.log.len() as int {
                assert(t.log[j] == n.log[j]);
            } else if j == t.log.len() as int {
                assert(t.log[i] == n.log[i]);
            }
        }
        assert forall|k: int| 0 <= k < n.typed.len() implies has_parent(n, #[trigger] n.typed[k]) by {
            if k == t.typed.len() as int {
                assert(is_parent(n, t.log.len() as int, n.typed[k]));
            } else {
                assert(has_parent(t, t.typed[k]));
                let i = choose|i: int| is_parent(t, i, t.typed[k]);
                assert(is_parent(n, i, n.typed[k]));
            }
        }
        assert forall|k: int, i: int, j: int|
            0 <= k < n.typed.len() && #[trigger] is_parent(n, i, n.typed[k]) && #[trigger] is_parent(
                n,
                j,
                n.typed[k],
            ) implies i == j by {
            if k == t.typed.len() as int {
                if i != j {
                    assert(n.log[i] == n.log[j]);
                }
            } else {
                assert(has_parent(t, t.typed[k]));
                let w = choose|w: int| is_parent(t, w, t.typed[k]);
                if i == t.log.len() as int {
                    assert(t.log[w] == entry);
                } else if j == t.log.len() as int {
                    assert(t.log[w] == entry);
                } else {
                    assert(is_parent(t, i, t.typed[k]) && is_parent(t, j, t.typed[k]));
                }
            }
        }
    }
}

} // verus!
