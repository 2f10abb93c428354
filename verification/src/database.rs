//! The extraction engine: opens a history database file, validates its
//! schema for the strategy the browser name resolves to, and, if valid,
//! extracts the records whose visit times fall strictly inside the
//! requested window.
//!
//! The engine reads the file it is given in place and never writes to it.
//! An embedding application that must not touch a live, possibly locked
//! database stages a working copy first and passes that copy's path; the
//! `temp_dir` field names the scratch area this `Database` designates for
//! such copies.

use vstd::prelude::*;
use vstd::string::StringExecFns;

use crate::browser::{
    chromium_schema_valid, extract_chromium, extract_firefox, firefox_schema_valid, get_browser,
    records_model, spec_browser_of, BrowserKind, CatalogEntry, ChromiumRow, FirefoxRow,
};
use crate::error::ReadError;
use crate::timestamp::window_ms_in_range;

verus! {

/// One normalized history entry: a title (possibly empty), a URL, and the
/// visit time in milliseconds since the Unix epoch.
#[derive(Debug, PartialEq, Eq)]
pub struct Record {
    pub title: String,
    pub url: String,
    pub last_visited: u64,
}

/// Mathematical model of a record.
pub struct RecordModel {
    pub title: Seq<char>,
    pub url: Seq<char>,
    pub last_visited: u64,
}

impl View for Record {
    type V = RecordModel;

    open spec fn view(&self) -> RecordModel {
        RecordModel { title: self.title@, url: self.url@, last_visited: self.last_visited }
    }
}

#[verifier::external_type_specification]
#[verifier::external_body]
pub struct ExConnection(rusqlite::Connection);

/// Relies on rusqlite's `Connection::open_with_flags` with the read-only
/// open flag: opens the SQLite file at `path` without ever creating or
/// modifying it, and reports a missing or unreadable path as an error.
#[verifier::external_body]
fn open_history_database(path: &str) -> Result<rusqlite::Connection, rusqlite::Error> {
    rusqlite::Connection::open_with_flags(path, rusqlite::OpenFlags::SQLITE_OPEN_READ_ONLY)
}

/// Relies on rusqlite's `prepare` and `query_map`: returns the kind and
/// name of each object in the database's `sqlite_master` catalog. What
/// comes back depends on the file on disk, so nothing is stated of it;
/// validity is decided by the verified predicates over the result.
#[verifier::external_body]
fn fetch_catalog(conn: &rusqlite::Connection) -> Result<Vec<CatalogEntry>, rusqlite::Error> {
    let mut stmt = conn.prepare("SELECT type, name FROM sqlite_master")?;
    let rows = stmt.query_map([], |row| {
        Ok(CatalogEntry { kind: row.get(0)?, name: row.get(1)? })
    })?;
    rows.collect()
}

/// Relies on rusqlite's `prepare` and `query_map`: returns every row of a
/// Chromium-shaped `urls` table with its native visit time. The window
/// filter and the timestamp conversion are applied afterwards by verified
/// code, so nothing is stated of the result.
#[verifier::external_body]
fn fetch_chromium_rows(conn: &rusqlite::Connection) -> Result<Vec<ChromiumRow>, rusqlite::Error> {
    let mut stmt = conn.prepare("SELECT title, url, last_visit_time FROM urls")?;
    let rows = stmt.query_map([], |row| {
        Ok(ChromiumRow { title: row.get(0)?, url: row.get(1)?, visit_native: row.get(2)? })
    })?;
    rows.collect()
}

/// Relies on rusqlite's `prepare` and `query_map`: returns the Firefox
/// places joined to their visits on place identity, with the place's
/// title (null when absent), its URL, and the native visit time. The
/// window filter, the timestamp conversion and the empty-title
/// substitution are applied afterwards by verified code, so nothing is
/// stated of the result.
#[verifier::external_body]
fn fetch_firefox_rows(conn: &rusqlite::Connection) -> Result<Vec<FirefoxRow>, rusqlite::Error> {
    let mut stmt = conn.prepare(
        "SELECT p.title, p.url, h.visit_date FROM moz_places p, moz_historyvisits h WHERE p.id = h.place_id",
    )?;
    let rows = stmt.query_map([], |row| {
        Ok(FirefoxRow { title: row.get(0)?, url: row.get(1)?, visit_native: row.get(2)? })
    })?;
    rows.collect()
}

/// The extraction engine. `temp_dir` is the scratch area, directly under
/// the base directory the engine was created with, where an embedding
/// application stages working copies of live database files.
pub struct Database {
    pub temp_dir: String,
}

impl Database {
    /// Creates an engine whose scratch area is `temp` under `base`.
    pub fn new(base: &str) -> (r: Database)
        ensures
            r.temp_dir@ == base@ + "/temp"@,
    {
        let temp_dir = base.to_owned().concat("/temp");
        Database { temp_dir }
    }

    /// Reads the history records of the named browser from the database
    /// file at `path`, keeping those whose visit time lies strictly
    /// between `start` and `end` (milliseconds since the Unix epoch; a
    /// visit exactly at either bound is excluded).
    ///
    /// A file whose schema does not match the strategy — including every
    /// file under an unrecognized browser name — yields `Ok` with no
    /// records; only a failure to open or query the file is an error.
    pub fn read(&self, name: &str, path: &str, start: u64, end: u64) -> (r: Result<
        Vec<Record>,
        ReadError,
    >)
        requires
            window_ms_in_range(start as int),
            window_ms_in_range(end as int),
        ensures
            (r matches Ok(records) ==> forall|i: int|
                0 <= i < records@.len() ==> crate::browser::record_in_window(
                    #[trigger] records@[i]@,
                    spec_browser_of(name@),
                    start,
                    end,
                )),
            r matches Ok(records) ==> (spec_browser_of(name@) is Fallback ==> records@.len()
                == 0),
    {
        let conn = match open_history_database(path) {
            Ok(c) => c,
            Err(e) => {
                return Err(ReadError::Database(e));
            },
        };
        match get_browser(name) {
            BrowserKind::Chromium => {
                let catalog = match fetch_catalog(&conn) {
                    Ok(c) => c,
                    Err(e) => {
                        return Err(ReadError::Database(e));
                    },
                };
                if chromium_schema_valid(&catalog) {
                    let rows = match fetch_chromium_rows(&conn) {
                        Ok(r) => r,
                        Err(e) => {
                            return Err(ReadError::Database(e));
                        },
                    };
                    let records = extract_chromium(&rows, start, end);
                    proof {
                        crate::browser::lemma_extract_chromium_in_window(rows@, start, end);
                        assert forall|i: int| 0 <= i < records@.len() implies
                            crate::browser::record_in_window(
                                records@[i]@,
                                BrowserKind::Chromium,
                                start,
                                end,
                            ) by {
                            assert(records@[i]@ == records_model(records@)[i]);
                        }
                    }
                    Ok(records)
                } else {
                    Ok(Vec::new())
                }
            },
            BrowserKind::Firefox => {
                let catalog = match fetch_catalog(&conn) {
                    Ok(c) => c,
                    Err(e) => {
                        return Err(ReadError::Database(e));
                    },
                };
                if firefox_schema_valid(&catalog) {
                    let rows = match fetch_firefox_rows(&conn) {
                        Ok(r) => r,
                        Err(e) => {
                            return Err(ReadError::Database(e));
                        },
                    };
                    let records = extract_firefox(&rows, start, end);
                    proof {
                        crate::browser::lemma_extract_firefox_in_window(rows@, start, end);
                        assert forall|i: int| 0 <= i < records@.len() implies
                            crate::browser::record_in_window(
                                records@[i]@,
                                BrowserKind::Firefox,
                                start,
                                end,
                            ) by {
                            assert(records@[i]@ == records_model(records@)[i]);
                        }
                    }
                    Ok(records)
                } else {
                    Ok(Vec::new())
                }
            },
            BrowserKind::Fallback => Ok(Vec::new()),
        }
    }
}

} // verus!
