//! The read model over the persisted events: validation of hex parameters,
//! the mapping of query outcomes to results, and the deploy aggregate.
//!
//! The queries themselves run against the database outside this module; the
//! functions here take what a query returned (a database failure's message,
//! or the rows' raw JSON) and decide the result.
use vstd::prelude::*;

use vstd::string::StringSliceAdditionalSpecFns;

use crate::text::{decimal, push_decimal};

verus! {

/// The pattern that a block or deploy hash must match.
pub const HASH_PATTERN: &'static str = "^([0-9A-Fa-f]){64}$";

/// The pattern that a hex-encoded public key must match.
pub const PUBLIC_KEY_PATTERN: &'static str = "^([0-9A-Fa-f]{2}){33,34}$";

/// Whether `c` is an ASCII hex digit.
pub open spec fn is_hex_digit(c: char) -> bool {
    ('0' <= c && c <= '9') || ('a' <= c && c <= 'f') || ('A' <= c && c <= 'F')
}

/// Whether `s` is exactly `len` ASCII hex digits.
pub open spec fn is_hex_of_len(s: Seq<char>, len: nat) -> bool {
    s.len() == len && forall|i: int| 0 <= i < s.len() ==> is_hex_digit(#[trigger] s[i])
}

/// The shape of a hex-encoded hash: 64 hex digits.
pub open spec fn is_hash_hex(s: Seq<char>) -> bool {
    is_hex_of_len(s, 64)
}

/// The shape of a hex-encoded public key: 66 or 68 hex digits.
pub open spec fn is_public_key_hex(s: Seq<char>) -> bool {
    is_hex_of_len(s, 66) || is_hex_of_len(s, 68)
}

/// Declares `regex::Error`, the error of compiling a pattern, so that the
/// result of `full_match` can carry it; nothing is assumed of its contents.
#[verifier::external_type_specification]
#[verifier::external_body]
pub struct ExRegexError(regex::Error);

/// Relies on `regex::Regex::new` and `Regex::is_match`: a pattern anchored by
/// `^` and `$` (without multi-line mode) matches a haystack only as a whole,
/// `[0-9A-Fa-f]` is the class of ASCII hex digits, and `{n}` / `{m,n}` repeat
/// the group exactly `n` / between `m` and `n` times. Compiling fails only on
/// an invalid pattern or one over the size limit; the two fixed patterns here
/// are valid and small, so they compile.
#[verifier::external_body]
fn full_match(pattern: &str, haystack: &str) -> (r: Result<bool, regex::Error>)
    ensures
        pattern@ == HASH_PATTERN@ || pattern@ == PUBLIC_KEY_PATTERN@ ==> r is Ok,
        pattern@ == HASH_PATTERN@ ==> (r matches Ok(b) ==> b == is_hash_hex(haystack@)),
        pattern@ == PUBLIC_KEY_PATTERN@ ==> (r matches Ok(b) ==> b == is_public_key_hex(
            haystack@,
        )),
{
    match regex::Regex::new(pattern) {
        Ok(re) => Ok(re.is_match(haystack)),
        Err(e) => Err(e),
    }
}

/// Relies on `regex::Error`'s `Display`: the text of a pattern error.
#[verifier::external_body]
fn regex_error_text(e: &regex::Error) -> (r: String) {
    e.to_string()
}

/// Why a read of the store failed.
#[derive(Clone, Debug)]
pub enum DatabaseReadError {
    /// Nothing matches the request.
    NotFound,
    /// A client-supplied parameter is malformed.
    InvalidParam(String),
    /// The database or a helper failed; the text says how.
    Unhandled(String),
}

/// The message for a parameter that is not of the expected hex shape.
pub open spec fn invalid_hex_message(what: Seq<char>, received: Seq<char>, byte_len: nat) -> Seq<
    char,
> {
    "Expected hex-encoded "@ + what + ", received: "@ + received + " (length: "@ + decimal(byte_len)
        + ")"@
}

fn invalid_hex_param(what: &str, received: &str) -> (r: DatabaseReadError)
    ensures
        r matches DatabaseReadError::InvalidParam(m) && m@ == invalid_hex_message(
            what@,
            received@,
            received.spec_bytes().len() as usize as nat,
        ),
{
    let mut m = "Expected hex-encoded ".to_owned();
    m.append(what);
    m.append(", received: ");
    m.append(received);
    m.append(" (length: ");
    let n = received.len();
    push_decimal(&mut m, n as u64);
    m.append(")");
    assert(m@ =~= invalid_hex_message(what@, received@, received.spec_bytes().len() as usize as nat));
    DatabaseReadError::InvalidParam(m)
}

/// The result of a hex check from the pattern match's outcome: success on a
/// match, `InvalidParam` naming `what` was expected on a mismatch, and
/// `Unhandled` when the pattern could not be compiled.
pub fn hex_check_outcome(what: &str, received: &str, matched: Result<bool, regex::Error>) -> (r:
    Result<(), DatabaseReadError>)
    ensures
        matched == Ok::<bool, regex::Error>(true) ==> r is Ok,
        matched == Ok::<bool, regex::Error>(false) ==> (r matches Err(
            DatabaseReadError::InvalidParam(m),
        ) && m@ == invalid_hex_message(
            what@,
            received@,
            received.spec_bytes().len() as usize as nat,
        )),
        matched is Err ==> r matches Err(DatabaseReadError::Unhandled(_)),
{
    match matched {
        Err(e) => Err(DatabaseReadError::Unhandled(regex_error_text(&e))),
        Ok(false) => Err(invalid_hex_param(what, received)),
        Ok(true) => Ok(()),
    }
}

/// Whether `e` is the rejection of `received` as a malformed hash.
pub open spec fn rejects_hash(e: DatabaseReadError, received: &str) -> bool {
    e matches DatabaseReadError::InvalidParam(m) && m@ == invalid_hex_message(
        "hash (64 chars)"@,
        received@,
        received.spec_bytes().len() as usize as nat,
    )
}

/// Whether `e` is the rejection of `received` as a malformed public key.
pub open spec fn rejects_public_key(e: DatabaseReadError, received: &str) -> bool {
    e matches DatabaseReadError::InvalidParam(m) && m@ == invalid_hex_message(
        "public key (66/68 chars)"@,
        received@,
        received.spec_bytes().len() as usize as nat,
    )
}

/// Checks that `hash` is 64 hex digits.
pub fn check_hash_is_correct_format(hash: &str) -> (r: Result<(), DatabaseReadError>)
    ensures
        is_hash_hex(hash@) <==> r is Ok,
        !is_hash_hex(hash@) ==> rejects_hash(r->Err_0, hash),
{
    hex_check_outcome("hash (64 chars)", hash, full_match(HASH_PATTERN, hash))
}

/// Checks that `public_key_hex` is 66 or 68 hex digits.
pub fn check_public_key_is_correct_format(public_key_hex: &str) -> (r: Result<
    (),
    DatabaseReadError,
>)
    ensures
        is_public_key_hex(public_key_hex@) <==> r is Ok,
        !is_public_key_hex(public_key_hex@) ==> rejects_public_key(r->Err_0, public_key_hex),
{
    hex_check_outcome(
        "public key (66/68 chars)",
        public_key_hex,
        full_match(PUBLIC_KEY_PATTERN, public_key_hex),
    )
}

/// Every hex validation rejects an empty string, a string of the wrong
/// length, and a string holding a character that is not a hex digit.
pub proof fn hex_validation_rejects_malformed(s: Seq<char>)
    ensures
        (s.len() == 0 || s.len() != 64 || exists|i: int|
            0 <= i < s.len() && !is_hex_digit(#[trigger] s[i])) ==> !is_hash_hex(s),
        (s.len() == 0 || (s.len() != 66 && s.len() != 68) || exists|i: int|
            0 <= i < s.len() && !is_hex_digit(#[trigger] s[i])) ==> !is_public_key_hex(s),
{
}

/// The result of a query for at most one row: the row, `NotFound` when there
/// is none, `Unhandled` when the query failed.
pub open spec fn optional_row<T>(fetched: Result<Option<T>, String>) -> Result<T, DatabaseReadError> {
    match fetched {
        Err(m) => Err(DatabaseReadError::Unhandled(m)),
        Ok(None) => Err(DatabaseReadError::NotFound),
        Ok(Some(row)) => Ok(row),
    }
}

/// Maps the outcome of a query for at most one row to a read result.
pub fn fetch_optional_with_error_check<T>(fetched: Result<Option<T>, String>) -> (r: Result<
    T,
    DatabaseReadError,
>)
    ensures
        r == optional_row(fetched),
{
    match fetched {
        Err(m) => Err(DatabaseReadError::Unhandled(m)),
        Ok(None) => Err(DatabaseReadError::NotFound),
        Ok(Some(row)) => Ok(row),
    }
}

fn row_by_checked_hash<T>(hash: &str, fetched: Result<Option<T>, String>) -> (r: Result<
    T,
    DatabaseReadError,
>)
    ensures
        is_hash_hex(hash@) ==> r == optional_row(fetched),
        !is_hash_hex(hash@) ==> r is Err && rejects_hash(r->Err_0, hash),
{
    match check_hash_is_correct_format(hash) {
        Err(e) => Err(e),
        Ok(()) => fetch_optional_with_error_check(fetched),
    }
}

/// The raw JSON of a block looked up by its hash.
pub fn get_block_by_hash(hash: &str, fetched: Result<Option<String>, String>) -> (r: Result<
    String,
    DatabaseReadError,
>)
    ensures
        is_hash_hex(hash@) ==> r == optional_row(fetched),
        !is_hash_hex(hash@) ==> r is Err && rejects_hash(r->Err_0, hash),
{
    row_by_checked_hash(hash, fetched)
}

/// The raw JSON of an accepted deploy looked up by its hash.
pub fn get_deploy_accepted_by_hash(hash: &str, fetched: Result<Option<String>, String>) -> (r:
    Result<String, DatabaseReadError>)
    ensures
        is_hash_hex(hash@) ==> r == optional_row(fetched),
        !is_hash_hex(hash@) ==> r is Err && rejects_hash(r->Err_0, hash),
{
    row_by_checked_hash(hash, fetched)
}

/// The raw JSON of a processed deploy looked up by its hash.
pub fn get_deploy_processed_by_hash(hash: &str, fetched: Result<Option<String>, String>) -> (r:
    Result<String, DatabaseReadError>)
    ensures
        is_hash_hex(hash@) ==> r == optional_row(fetched),
        !is_hash_hex(hash@) ==> r is Err && rejects_hash(r->Err_0, hash),
{
    row_by_checked_hash(hash, fetched)
}

/// Whether a deploy has expired: `true` when its marker row exists,
/// `NotFound` when it does not; `InvalidParam` for a malformed hash.
pub fn get_deploy_expired_by_hash(hash: &str, fetched: Result<Option<String>, String>) -> (r:
    Result<bool, DatabaseReadError>)
    ensures
        is_hash_hex(hash@) ==> match optional_row(fetched) {
            Ok(_) => r == Ok::<bool, DatabaseReadError>(true),
            Err(e) => r == Err::<bool, DatabaseReadError>(e),
        },
        !is_hash_hex(hash@) ==> r is Err && rejects_hash(r->Err_0, hash),
{
    match row_by_checked_hash(hash, fetched) {
        Ok(_) => Ok(true),
        Err(e) => Err(e),
    }
}

/// The result of a query for at most one row keyed by something other than a
/// hash (a height, an era, or the latest): the row, `NotFound`, or the
/// query's failure.
pub fn get_by_key(fetched: Result<Option<String>, String>) -> (r: Result<String, DatabaseReadError>)
    ensures
        r == optional_row(fetched),
{
    fetch_optional_with_error_check(fetched)
}

/// The raw rows of a query for many rows, up to the first row that could not
/// be read.
pub open spec fn collected_rows(rows: Seq<Result<String, String>>) -> Result<Seq<String>, String>
    decreases rows.len(),
{
    if rows.len() == 0 {
        Ok(Seq::empty())
    } else {
        match collected_rows(rows.drop_last()) {
            Err(m) => Err(m),
            Ok(v) => match rows.last() {
                Err(m) => Err(m),
                Ok(raw) => Ok(v.push(raw)),
            },
        }
    }
}

/// The result of a query for many rows: their raw JSON in order, `NotFound`
/// when there are none, `Unhandled` at the first row that could not be read.
pub open spec fn many_rows(rows: Seq<Result<String, String>>) -> Result<Seq<String>, DatabaseReadError> {
    match collected_rows(rows) {
        Err(m) => Err(DatabaseReadError::Unhandled(m)),
        Ok(v) => if v.len() == 0 {
            Err(DatabaseReadError::NotFound)
        } else {
            Ok(v)
        },
    }
}

proof fn lemma_collected_error_persists(rows: Seq<Result<String, String>>, i: int)
    requires
        0 <= i <= rows.len(),
        collected_rows(rows.take(i)) is Err,
    ensures
        collected_rows(rows) == collected_rows(rows.take(i)),
    decreases rows.len() - i,
{
    if i < rows.len() {
        assert(rows.take(i + 1).drop_last() =~= rows.take(i));
        lemma_collected_error_persists(rows, i + 1);
    } else {
        assert(rows.take(i) =~= rows);
    }
}

fn collect_raw_rows(rows: &Vec<Result<String, String>>) -> (r: Result<Vec<String>, DatabaseReadError>)
    ensures
        match many_rows(rows@) {
            Ok(v) => r is Ok && r->Ok_0@ == v,
            Err(e) => r == Err::<Vec<String>, DatabaseReadError>(e),
        },
{
    let mut out: Vec<String> = Vec::new();
    let mut i: usize = 0;
    assert(rows@.take(0) =~= Seq::<Result<String, String>>::empty());
    while i < rows.len()
        invariant
            i <= rows@.len(),
            collected_rows(rows@.take(i as int)) == Ok::<Seq<String>, String>(out@),
        decreases rows@.len() - i,
    {
        proof {
            assert(rows@.take(i + 1).drop_last() =~= rows@.take(i as int));
        }
        match &rows[i] {
            Err(m) => {
                proof {
                    lemma_collected_error_persists(rows@, i + 1);
                }
                return Err(DatabaseReadError::Unhandled(m.clone()));
            },
            Ok(raw) => {
                out.push(raw.clone());
            },
        }
        i += 1;
    }
    assert(rows@.take(i as int) =~= rows@);
    if out.len() == 0 {
        return Err(DatabaseReadError::NotFound);
    }
    Ok(out)
}

/// The raw JSON of the faults that a query returned.
pub fn parse_faults_from_rows(rows: &Vec<Result<String, String>>) -> (r: Result<
    Vec<String>,
    DatabaseReadError,
>)
    ensures
        match many_rows(rows@) {
            Ok(v) => r is Ok && r->Ok_0@ == v,
            Err(e) => r == Err::<Vec<String>, DatabaseReadError>(e),
        },
{
    collect_raw_rows(rows)
}

/// The raw JSON of the finality signatures that a query returned.
pub fn parse_finality_signatures_from_rows(rows: &Vec<Result<String, String>>) -> (r: Result<
    Vec<String>,
    DatabaseReadError,
>)
    ensures
        match many_rows(rows@) {
            Ok(v) => r is Ok && r->Ok_0@ == v,
            Err(e) => r == Err::<Vec<String>, DatabaseReadError>(e),
        },
{
    collect_raw_rows(rows)
}

/// The faults of a validator, by its hex-encoded public key.
pub fn get_faults_by_public_key(public_key: &str, rows: &Vec<Result<String, String>>) -> (r:
    Result<Vec<String>, DatabaseReadError>)
    ensures
        !is_public_key_hex(public_key@) ==> r is Err && rejects_public_key(r->Err_0, public_key),
        is_public_key_hex(public_key@) ==> match many_rows(rows@) {
            Ok(v) => r is Ok && r->Ok_0@ == v,
            Err(e) => r == Err::<Vec<String>, DatabaseReadError>(e),
        },
{
    match check_public_key_is_correct_format(public_key) {
        Err(e) => Err(e),
        Ok(()) => parse_faults_from_rows(rows),
    }
}

/// The faults of an era.
pub fn get_faults_by_era(rows: &Vec<Result<String, String>>) -> (r: Result<
    Vec<String>,
    DatabaseReadError,
>)
    ensures
        match many_rows(rows@) {
            Ok(v) => r is Ok && r->Ok_0@ == v,
            Err(e) => r == Err::<Vec<String>, DatabaseReadError>(e),
        },
{
    parse_faults_from_rows(rows)
}

/// The finality signatures of a block, by its hex-encoded hash.
pub fn get_finality_signatures_by_block(block_hash: &str, rows: &Vec<Result<String, String>>) -> (r:
    Result<Vec<String>, DatabaseReadError>)
    ensures
        !is_hash_hex(block_hash@) ==> r is Err && rejects_hash(r->Err_0, block_hash),
        is_hash_hex(block_hash@) ==> match many_rows(rows@) {
            Ok(v) => r is Ok && r->Ok_0@ == v,
            Err(e) => r == Err::<Vec<String>, DatabaseReadError>(e),
        },
{
    match check_hash_is_correct_format(block_hash) {
        Err(e) => Err(e),
        Ok(()) => parse_finality_signatures_from_rows(rows),
    }
}

/// A deploy across its lifecycle, with the raw JSON of each stage seen.
#[derive(Clone, Debug)]
pub struct DeployAggregate {
    pub deploy_hash: String,
    pub deploy_accepted: Option<String>,
    pub deploy_processed: Option<String>,
    pub deploy_expired: bool,
}

/// The aggregate of a deploy from the lookups of its three stages: nothing
/// without an accepted row; with a processed row, not expired; else expired
/// exactly when its marker exists. A failed lookup that is reached fails the
/// whole.
pub open spec fn deploy_aggregate(
    hash: String,
    accepted: Result<Option<String>, String>,
    processed: Result<Option<String>, String>,
    expired: Result<Option<String>, String>,
) -> Result<DeployAggregate, DatabaseReadError> {
    match optional_row(accepted) {
        Err(e) => Err(e),
        Ok(a) => match optional_row(processed) {
            Ok(p) => Ok(
                DeployAggregate {
                    deploy_hash: hash,
                    deploy_accepted: Some(a),
                    deploy_processed: Some(p),
                    deploy_expired: false,
                },
            ),
            Err(DatabaseReadError::NotFound) => match optional_row(expired) {
                Ok(_) => Ok(
                    DeployAggregate {
                        deploy_hash: hash,
                        deploy_accepted: Some(a),
                        deploy_processed: None,
                        deploy_expired: true,
                    },
                ),
                Err(DatabaseReadError::NotFound) => Ok(
                    DeployAggregate {
                        deploy_hash: hash,
                        deploy_accepted: Some(a),
                        deploy_processed: None,
                        deploy_expired: false,
                    },
                ),
                Err(e) => Err(e),
            },
            Err(e) => Err(e),
        },
    }
}

/// Composes the deploy aggregate from the outcomes of its three lookups.
pub fn compose_deploy_aggregate(
    hash: String,
    accepted: Result<Option<String>, String>,
    processed: Result<Option<String>, String>,
    expired: Result<Option<String>, String>,
) -> (r: Result<DeployAggregate, DatabaseReadError>)
    ensures
        r == deploy_aggregate(hash, accepted, processed, expired),
{
    let deploy_accepted = match fetch_optional_with_error_check(accepted) {
        Err(e) => {
            return Err(e);
        },
        Ok(a) => a,
    };
    match fetch_optional_with_error_check(processed) {
        Ok(deploy_processed) => Ok(
            DeployAggregate {
                deploy_hash: hash,
                deploy_accepted: Some(deploy_accepted),
                deploy_processed: Some(deploy_processed),
                deploy_expired: false,
            },
        ),
        Err(DatabaseReadError::NotFound) => match fetch_optional_with_error_check(expired) {
            Ok(_) => Ok(
                DeployAggregate {
                    deploy_hash: hash,
                    deploy_accepted: Some(deploy_accepted),
                    deploy_processed: None,
                    deploy_expired: true,
                },
            ),
            Err(DatabaseReadError::NotFound) => Ok(
                DeployAggregate {
                    deploy_hash: hash,
                    deploy_accepted: Some(deploy_accepted),
                    deploy_processed: None,
                    deploy_expired: false,
                },
            ),
            Err(err) => Err(err),
        },
        Err(err) => Err(err),
    }
}

/// The deploy aggregate of `hash`: the hash is checked first.
pub fn get_deploy_aggregate_by_hash(
    hash: &str,
    accepted: Result<Option<String>, String>,
    processed: Result<Option<String>, String>,
    expired: Result<Option<String>, String>,
) -> (r: Result<DeployAggregate, DatabaseReadError>)
    ensures
        !is_hash_hex(hash@) ==> r is Err && rejects_hash(r->Err_0, hash),
        is_hash_hex(hash@) ==> exists|h: String|
            h@ == hash@ && r == #[trigger] deploy_aggregate(h, accepted, processed, expired),
        r is Ok ==> r->Ok_0.deploy_hash@ == hash@,
{
    match check_hash_is_correct_format(hash) {
        Err(e) => {
            return Err(e);
        },
        Ok(()) => {},
    }
    let owned = hash.to_owned();
    let ghost h = owned;
    let r = compose_deploy_aggregate(owned, accepted, processed, expired);
    assert(h@ == hash@ && r == deploy_aggregate(h, accepted, processed, expired));
    r
}

/// The aggregate of a deploy is `NotFound` exactly when no accepted row
/// exists for it.
pub proof fn aggregate_not_found_iff_not_accepted(
    hash: String,
    accepted: Result<Option<String>, String>,
    processed: Result<Option<String>, String>,
    expired: Result<Option<String>, String>,
)
    ensures
        deploy_aggregate(hash, accepted, processed, expired) matches Err(
            DatabaseReadError::NotFound,
        ) <==> accepted == Ok::<Option<String>, String>(None),
{
}

/// The HTTP status of a failed read on the REST surface: 404 for
/// `NotFound`, 400 for `InvalidParam`, 500 otherwise.
pub fn rest_status(e: &DatabaseReadError) -> (r: u16)
    ensures
        r == match *e {
            DatabaseReadError::NotFound => 404u16,
            DatabaseReadError::InvalidParam(_) => 400u16,
            DatabaseReadError::Unhandled(_) => 500u16,
        },
{
    match e {
        DatabaseReadError::NotFound => 404,
        DatabaseReadError::InvalidParam(_) => 400,
        DatabaseReadError::Unhandled(_) => 500,
    }
}

} // verus!
