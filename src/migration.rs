//! The schema migrations: which to apply at startup, and what is recorded.
//!
//! Migrations are numbered and applied in ascending order, each in its own
//! transaction; every one above the newest successfully recorded version is
//! applied, and the first failure is recorded and aborts startup.
use vstd::prelude::*;

verus! {

/// A row of the migration table.
#[derive(Clone, Copy, Debug, PartialEq, Eq, Structural)]
pub struct MigrationRecord {
    pub version: u32,
    pub is_success: bool,
}

/// The newest version recorded as successful, if any.
pub open spec fn newest_success(records: Seq<MigrationRecord>) -> Option<u32>
    decreases records.len(),
{
    if records.len() == 0 {
        None
    } else {
        let last = records.last();
        let before = newest_success(records.drop_last());
        if !last.is_success {
            before
        } else {
            match before {
                Some(v) => if v >= last.version {
                    Some(v)
                } else {
                    Some(last.version)
                },
                None => Some(last.version),
            }
        }
    }
}

/// Finds the newest version recorded as successful.
pub fn newest_successful_version(records: &Vec<MigrationRecord>) -> (r: Option<u32>)
    ensures
        r == newest_success(records@),
{
    let mut newest: Option<u32> = None;
    let mut i: usize = 0;
    while i < records.len()
        invariant
            i <= records@.len(),
            newest == newest_success(records@.take(i as int)),
        decreases records@.len() - i,
    {
        proof {
            assert(records@.take(i + 1).drop_last() =~= records@.take(i as int));
        }
        let rec = records[i];
        if rec.is_success {
            newest = match newest {
                Some(v) => if v >= rec.version {
                    Some(v)
                } else {
                    Some(rec.version)
                },
                None => Some(rec.version),
            };
        }
        i += 1;
    }
    assert(records@.take(i as int) =~= records@);
    newest
}

/// Whether migration `version` still has to be applied.
pub open spec fn is_pending(version: u32, newest: Option<u32>) -> bool {
    match newest {
        Some(n) => version > n,
        None => true,
    }
}

/// The migrations to apply, in the order of `available`: those above the
/// newest successfully recorded version.
pub fn pending_migrations(available: &Vec<u32>, newest: Option<u32>) -> (r: Vec<u32>)
    ensures
        r@ == available@.filter(|v: u32| is_pending(v, newest)),
{
    let ghost keep = |v: u32| is_pending(v, newest);
    let mut out: Vec<u32> = Vec::new();
    let mut i: usize = 0;
    while i < available.len()
        invariant
            i <= available@.len(),
            keep == (|v: u32| is_pending(v, newest)),
            out@ == available@.take(i as int).filter(keep),
        decreases available@.len() - i,
    {
        proof {
            assert(available@.take(i + 1).drop_last() =~= available@.take(i as int));
            reveal(Seq::filter);
        }
        let v = available[i];
        let pending = match newest {
            Some(n) => v > n,
            None => true,
        };
        if pending {
            out.push(v);
        }
        i += 1;
        assert(out@ =~= available@.take(i as int).filter(keep));
    }
    assert(available@.take(i as int) =~= available@);
    out
}

/// The record written after trying migration `version`.
pub fn migration_record(version: u32, applied: bool) -> (r: MigrationRecord)
    ensures
        r == (MigrationRecord { version, is_success: applied }),
{
    MigrationRecord { version, is_success: applied }
}

} // verus!
