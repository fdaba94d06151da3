//! Backups and maintenance: the schema version, the names a restore accepts,
//! the machine settings a restore keeps, and the listing records.
use vstd::prelude::*;

use crate::dashboard::{json_string_value, parse_json_string};
use crate::error::{conflict, validation, AppError};
use crate::products::safe_name;
use crate::setup::{json_string, json_string_text};
use crate::text::{owned, str_eq, trim, trim_str};

verus! {

/// The schema version the application expects: the highest migration
/// version, or zero when there is none.
pub open spec fn max_version(versions: Seq<i64>) -> int
    decreases versions.len(),
{
    if versions.len() == 0 {
        0
    } else {
        let rest = max_version(versions.drop_last());
        if versions.len() == 1 || versions.last() > rest {
            versions.last() as int
        } else {
            rest
        }
    }
}

pub fn current_schema_version(versions: &Vec<i64>) -> (r: i64)
    ensures
        r == max_version(versions@),
        versions.len() > 0 ==> versions@.contains(r),
        forall|i: int| 0 <= i < versions.len() ==> versions@[i] <= r,
{
    let mut best: i64 = 0;
    let mut i: usize = 0;
    while i < versions.len()
        invariant
            i <= versions.len(),
            best == max_version(versions@.take(i as int)),
            i > 0 ==> versions@.take(i as int).contains(best),
            forall|j: int| 0 <= j < i ==> versions@[j] <= best,
        decreases versions.len() - i,
    {
        proof {
            assert(versions@.take(i + 1).drop_last() =~= versions@.take(i as int));
            assert(versions@.take(i + 1).last() == versions@[i as int]);
        }
        if i == 0 || versions[i] > best {
            best = versions[i];
            proof {
                assert(versions@.take(i + 1)[i as int] == best);
            }
        } else {
            proof {
                let k = choose|k: int| 0 <= k < i && versions@.take(i as int)[k] == best;
                assert(versions@.take(i + 1)[k] == best);
            }
        }
        i += 1;
    }
    assert(versions@.take(versions@.len() as int) =~= versions@);
    best
}

/// Migrations still to apply: never fewer than none.
pub fn pending_migrations(total: i64, applied: i64) -> (r: i64)
    requires
        i64::MIN <= total - applied <= i64::MAX,
    ensures
        r == (if total - applied > 0 {
            total - applied
        } else {
            0
        }),
{
    let d = total - applied;
    if d > 0 {
        d
    } else {
        0
    }
}

/// A stored flag: `true` once trimmed reads as set, anything else as unset;
/// nothing stored stays unknown.
pub fn settings_bool(value: Option<String>) -> (r: Option<bool>)
    ensures
        r == match value {
            Some(v) => Some(trim(v@) == "true"@),
            None => None::<bool>,
        },
{
    match value {
        Some(v) => {
            let t = trim_str(v.as_str());
            Some(str_eq(t.as_str(), "true"))
        },
        None => None,
    }
}

/// The text an integrity check stores as its outcome.
pub fn integrity_outcome(page_integrity_ok: bool, foreign_key_violations: i64) -> (r: (
    bool,
    String,
))
    ensures
        r.0 == (page_integrity_ok && foreign_key_violations == 0),
        r.1@ == (if r.0 {
            "true"@
        } else {
            "false"@
        }),
{
    let ok = page_integrity_ok && foreign_key_violations == 0;
    (
        ok,
        if ok {
            owned("true")
        } else {
            owned("false")
        },
    )
}

// ---------------------------------------------------------------------------
// Names
// ---------------------------------------------------------------------------

/// A backup picked from the list is named, without a path separator.
pub fn check_listed_backup_name(name: &str) -> (r: Result<(), AppError>)
    ensures
        safe_name(name@) ==> r is Ok,
        !safe_name(name@) ==> (r matches Err(AppError::Validation(m)) && m@
            == "invalid backup name"@),
{
    if !crate::products::safe_relative_filename(name) {
        return Err(validation("invalid backup name"));
    }
    Ok(())
}

/// A backup to delete or restore is named.
pub fn check_backup_name_given(name: &str) -> (r: Result<(), AppError>)
    ensures
        trim(name@).len() > 0 ==> r is Ok,
        trim(name@).len() == 0 ==> (r matches Err(AppError::Validation(m)) && m@
            == "backup name is required"@),
{
    if crate::text::str_is_blank(name) {
        return Err(validation("backup name is required"));
    }
    Ok(())
}

/// A backup that fails verification is never restored.
pub fn check_restorable(name: &str, verified: bool) -> (r: Result<(), AppError>)
    ensures
        verified ==> r is Ok,
        !verified ==> (r matches Err(AppError::Integrity(m)) && m@ == "backup `"@ + name@
            + "` failed integrity verification and was not restored"@),
{
    if !verified {
        let mut m = owned("backup `");
        m.append(name);
        m.append("` failed integrity verification and was not restored");
        return Err(AppError::Integrity(m));
    }
    Ok(())
}

/// Closing the application backs up only when that is switched on.
pub fn check_automatic_backup(enabled: bool) -> (r: Result<(), AppError>)
    ensures
        enabled ==> r is Ok,
        !enabled ==> (r matches Err(AppError::Conflict(m)) && m@
            == "automatic backup on close is disabled"@),
{
    if !enabled {
        return Err(conflict("automatic backup on close is disabled"));
    }
    Ok(())
}

/// The backup folder: the saved preference, or else the folder the setup
/// stored, when that is a non-blank JSON string.
pub fn preferred_directory(saved: Option<String>, setup_setting: &Option<String>) -> (r: Option<
    String,
>)
    ensures
        saved is Some ==> r == saved,
        saved is None ==> match setup_setting {
            Some(raw) => match json_string_value(raw@) {
                Some(v) => if trim(v).len() > 0 {
                    r matches Some(d) && d@ == v
                } else {
                    r is None
                },
                None => r is None,
            },
            None => r is None,
        },
{
    if saved.is_some() {
        return saved;
    }
    match setup_setting {
        Some(raw) => match parse_json_string(raw.as_str()) {
            Some(v) => if crate::text::str_is_blank(v.as_str()) {
                None
            } else {
                Some(v)
            },
            None => None,
        },
        None => None,
    }
}

/// The size recorded in the history: the byte count, capped at `i64::MAX`.
pub fn history_size(bytes: u64) -> (r: i64)
    ensures
        r == (if bytes > i64::MAX as u64 {
            i64::MAX as int
        } else {
            bytes as int
        }),
{
    if bytes > 9223372036854775807u64 {
        i64::MAX
    } else {
        bytes as i64
    }
}

// ---------------------------------------------------------------------------
// What a restore keeps
// ---------------------------------------------------------------------------

pub open spec fn preference_key(key: Seq<char>) -> bool {
    key == "backup.location"@ || key == "backup.auto_on_close"@
}

/// The settings that belong to this computer, not to the restored data: the
/// stored ones other than the backup preferences, then the backup folder and
/// the close-time switch as they are now, as JSON values.
pub fn machine_settings(stored: Vec<(String, String)>, directory: &Option<String>, auto_on_close: bool)
    -> (r: Vec<(String, String)>)
    ensures
        r.len() >= 2,
        r@.subrange(0, r.len() - 2) == stored@.filter(
            |e: (String, String)| !preference_key(e.0@),
        ),
        r@[r.len() - 2].0@ == "backup.location"@,
        r@[r.len() - 2].1@ == match directory {
            Some(d) => json_string_text(d@),
            None => "null"@,
        },
        r@[r.len() - 1].0@ == "backup.auto_on_close"@,
        r@[r.len() - 1].1@ == (if auto_on_close {
            "true"@
        } else {
            "false"@
        }),
{
    let mut out: Vec<(String, String)> = Vec::new();
    let mut i: usize = 0;
    let ghost keep = |e: (String, String)| !preference_key(e.0@);
    while i < stored.len()
        invariant
            i <= stored.len(),
            keep == (|e: (String, String)| !preference_key(e.0@)),
            out@ == stored@.take(i as int).filter(keep),
        decreases stored.len() - i,
    {
        let key = &stored[i].0;
        let drop = str_eq(key.as_str(), "backup.location") || str_eq(
            key.as_str(),
            "backup.auto_on_close",
        );
        proof {
            assert(stored@.take(i + 1).drop_last() =~= stored@.take(i as int));
            reveal(Seq::filter);
        }
        if !drop {
            out.push((stored[i].0.clone(), stored[i].1.clone()));
        }
        i += 1;
    }
    assert(stored@.take(stored@.len() as int) =~= stored@);
    let ghost kept = out@;
    let directory_json = match directory {
        Some(d) => json_string(d.as_str()),
        None => owned("null"),
    };
    out.push((owned("backup.location"), directory_json));
    out.push(
        (
            owned("backup.auto_on_close"),
            if auto_on_close {
                owned("true")
            } else {
                owned("false")
            },
        ),
    );
    assert(out@.subrange(0, out.len() - 2) =~= kept);
    out
}

// ---------------------------------------------------------------------------
// Listing records
// ---------------------------------------------------------------------------

/// A backup package that was just written and checked.
#[derive(Debug)]
pub struct CreatedPackage {
    pub name: String,
    pub path: String,
    pub sha256: String,
    pub bytes: u64,
    pub created_at: String,
    pub kind: String,
}

/// What inspecting a backup file found.
#[derive(Debug)]
pub struct PackageInspection {
    pub name: String,
    pub path: String,
    pub size_bytes: u64,
    pub sha256: String,
    pub created_at: String,
    pub kind: String,
    pub app_version: Option<String>,
    pub schema_version: Option<i64>,
    pub file_count: u64,
    pub legacy_database_only: bool,
}

#[derive(Debug)]
pub struct BackupResult {
    pub name: String,
    pub backup_path: String,
    pub sha256: String,
    pub verified: bool,
    pub bytes: u64,
    pub created_at: String,
    pub kind: String,
}

#[derive(Debug)]
pub struct BackupListItem {
    pub name: String,
    pub full_path: String,
    pub size_bytes: u64,
    pub sha256: String,
    pub created_at: String,
    pub kind: String,
    pub created_by: Option<String>,
    pub verified: bool,
    pub app_version: Option<String>,
    pub schema_version: Option<i64>,
    pub file_count: u64,
    pub legacy_database_only: bool,
}

#[derive(Debug)]
pub struct BackupInspection {
    pub name: String,
    pub full_path: String,
    pub size_bytes: u64,
    pub sha256: String,
    pub created_at: String,
    pub kind: String,
    pub app_version: Option<String>,
    pub schema_version: Option<i64>,
    pub file_count: u64,
    pub legacy_database_only: bool,
}

/// A new package is reported as verified: it was checked as it was written.
pub fn result_dto(package: CreatedPackage) -> (r: BackupResult)
    ensures
        r.name == package.name,
        r.backup_path == package.path,
        r.sha256 == package.sha256,
        r.verified,
        r.bytes == package.bytes,
        r.created_at == package.created_at,
        r.kind == package.kind,
{
    BackupResult {
        name: package.name,
        backup_path: package.path,
        sha256: package.sha256,
        verified: true,
        bytes: package.bytes,
        created_at: package.created_at,
        kind: package.kind,
    }
}

/// A listed package counts as verified when it holds at least one file; who
/// made it is not known from the file.
pub fn list_item(item: PackageInspection) -> (r: BackupListItem)
    ensures
        r.name == item.name,
        r.full_path == item.path,
        r.size_bytes == item.size_bytes,
        r.sha256 == item.sha256,
        r.created_at == item.created_at,
        r.kind == item.kind,
        r.created_by is None,
        r.verified == (item.file_count > 0),
        r.app_version == item.app_version,
        r.schema_version == item.schema_version,
        r.file_count == item.file_count,
        r.legacy_database_only == item.legacy_database_only,
{
    let verified = item.file_count > 0;
    BackupListItem {
        name: item.name,
        full_path: item.path,
        size_bytes: item.size_bytes,
        sha256: item.sha256,
        created_at: item.created_at,
        kind: item.kind,
        created_by: None,
        verified,
        app_version: item.app_version,
        schema_version: item.schema_version,
        file_count: item.file_count,
        legacy_database_only: item.legacy_database_only,
    }
}

pub fn inspection_dto(item: PackageInspection) -> (r: BackupInspection)
    ensures
        r.name == item.name,
        r.full_path == item.path,
        r.size_bytes == item.size_bytes,
        r.sha256 == item.sha256,
        r.created_at == item.created_at,
        r.kind == item.kind,
        r.app_version == item.app_version,
        r.schema_version == item.schema_version,
        r.file_count == item.file_count,
        r.legacy_database_only == item.legacy_database_only,
{
    BackupInspection {
        name: item.name,
        full_path: item.path,
        size_bytes: item.size_bytes,
        sha256: item.sha256,
        created_at: item.created_at,
        kind: item.kind,
        app_version: item.app_version,
        schema_version: item.schema_version,
        file_count: item.file_count,
        legacy_database_only: item.legacy_database_only,
    }
}

/// The backup the status page names as the last one: the last verified entry
/// of the history, or the last entry when none is verified.
pub fn last_backup_name(history: &Vec<(String, bool)>) -> (r: Option<String>)
    ensures
        history.len() == 0 ==> r is None,
        history.len() > 0 ==> (r matches Some(n) && exists|i: int|
            0 <= i < history.len() && history@[i].0 == n && (history@[i].1 || forall|j: int|
                0 <= j < history.len() ==> !(#[trigger] history@[j]).1) && (!history@[i].1 ==> i
                == history.len() - 1) && forall|j: int|
                i < j < history.len() ==> ((#[trigger] history@[j]).1 ==> !history@[i].1)),
{
    if history.len() == 0 {
        return None;
    }
    let mut best: usize = 0;
    let mut i: usize = 1;
    while i < history.len()
        invariant
            1 <= i <= history.len(),
            best < i,
            history@[best as int].1 || forall|j: int| 0 <= j < i ==> !(#[trigger] history@[j]).1,
            !history@[best as int].1 ==> best == i - 1,
            forall|j: int| best < j < i ==> ((#[trigger] history@[j]).1 ==> !history@[best as int].1),
        decreases history.len() - i,
    {
        if history[i].1 || !history[best].1 {
            best = i;
        }
        i += 1;
    }
    Some(history[best].0.clone())
}


// ---------------------------------------------------------------------------
// The restore marker
// ---------------------------------------------------------------------------

/// The last component of a path text, if it has one.
pub uninterp spec fn file_name_of(path: Seq<char>) -> Option<Seq<char>>;

/// The extension of a path text's last component, if it has one.
pub uninterp spec fn extension_of(path: Seq<char>) -> Option<Seq<char>>;

/// `Path::file_name` of std, as text. The result is named, not described.
#[verifier::external_body]
fn path_file_name(path: &str) -> (r: Option<String>)
    ensures
        match file_name_of(path@) {
            Some(n) => r matches Some(x) && x@ == n,
            None => r is None,
        },
{
    std::path::Path::new(path).file_name().map(|v| v.to_string_lossy().into_owned())
}

/// `Path::extension` of std, as text. The result is named, not described.
#[verifier::external_body]
fn path_extension(path: &str) -> (r: Option<String>)
    ensures
        match extension_of(path@) {
            Some(n) => r matches Some(x) && x@ == n,
            None => r is None,
        },
{
    std::path::Path::new(path).extension().map(|v| v.to_string_lossy().into_owned())
}

/// What a scheduled restore records of its source: its file name
/// (`imported backup` when the path has none), and whether it is a bare
/// database file (extension `db`, any case) rather than a package.
pub fn restore_source(source: &str) -> (r: (String, bool))
    ensures
        r.0@ == match file_name_of(source@) {
            Some(n) => n,
            None => "imported backup"@,
        },
        r.1 == match extension_of(source@) {
            Some(e) => crate::text::eq_ignore_ascii_case(e, "db"@),
            None => false,
        },
{
    let name = match path_file_name(source) {
        Some(n) => n,
        None => owned("imported backup"),
    };
    let legacy = match path_extension(source) {
        Some(e) => crate::text::str_eq_ignore_ascii_case(e.as_str(), "db"),
        None => false,
    };
    (name, legacy)
}

} // verus!
