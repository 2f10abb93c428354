//! Browser strategies: resolution of a browser's display name to the family
//! that handles it, schema validation over a database's table catalog, and
//! time-windowed extraction of visit rows into normalized records.

use vstd::prelude::*;

use crate::database::{Record, RecordModel};
use crate::timestamp::{
    chromium_ms_to_native, chromium_native_to_ms, firefox_ms_to_native, firefox_native_to_ms,
    spec_chromium_ms_of_native, spec_chromium_native_of_ms, spec_firefox_ms_of_native,
    spec_firefox_native_of_ms, window_ms_in_range,
};

verus! {

/// Equality of two string slices, stated over their character sequences.
pub fn str_eq(a: &str, b: &str) -> (r: bool)
    ensures
        r == (a@ == b@),
{
    let owned_a = a.to_owned();
    let owned_b = b.to_owned();
    owned_a == owned_b
}

/// The handling policy for one browser family: which schema to expect and
/// which timestamp encoding to use. Unrecognized names resolve to
/// `Fallback`, which treats every schema as invalid and yields no records.
#[derive(Clone, Copy, Debug, PartialEq, Eq, Structural)]
pub enum BrowserKind {
    Chromium,
    Firefox,
    Fallback,
}

/// The strategy a browser display name resolves to. Exact, case-sensitive
/// matching; every Chromium-derived browser shares the Chromium strategy.
pub open spec fn spec_browser_of(name: Seq<char>) -> BrowserKind {
    if name == "Google Chrome"@ || name == "Microsoft Edge"@ || name == "Arc"@ {
        BrowserKind::Chromium
    } else if name == "Firefox"@ {
        BrowserKind::Firefox
    } else {
        BrowserKind::Fallback
    }
}

/// Resolves a browser display name to its strategy. Total: every name
/// resolves, unrecognized ones to `BrowserKind::Fallback`.
pub fn get_browser(name: &str) -> (r: BrowserKind)
    ensures
        r == spec_browser_of(name@),
{
    if str_eq(name, "Google Chrome") || str_eq(name, "Microsoft Edge") || str_eq(name, "Arc") {
        BrowserKind::Chromium
    } else if str_eq(name, "Firefox") {
        BrowserKind::Firefox
    } else {
        BrowserKind::Fallback
    }
}

/// One row of a database's table catalog: the object's kind (`table`,
/// `index`, `view`, ...) and its name.
#[derive(Debug)]
pub struct CatalogEntry {
    pub kind: String,
    pub name: String,
}

/// Mathematical model of a catalog entry.
pub struct CatalogEntryModel {
    pub kind: Seq<char>,
    pub name: Seq<char>,
}

impl View for CatalogEntry {
    type V = CatalogEntryModel;

    open spec fn view(&self) -> CatalogEntryModel {
        CatalogEntryModel { kind: self.kind@, name: self.name@ }
    }
}

/// The catalog entries the Chromium validator counts: an entry of kind
/// `table` named `urls`.
pub open spec fn chromium_catalog_match(e: CatalogEntryModel) -> bool {
    e.kind == "table"@ && e.name == "urls"@
}

/// The catalog entries the Firefox validator counts. The kind filter binds
/// only to the `moz_places` comparison: an entry named `moz_historyvisits`
/// matches whatever its kind. Files in the field are accepted or rejected
/// by this exact predicate shape, so it must not be "straightened" to
/// filter both names by kind.
pub open spec fn firefox_catalog_match(e: CatalogEntryModel) -> bool {
    (e.kind == "table"@ && e.name == "moz_places"@) || e.name == "moz_historyvisits"@
}

/// An entry named `moz_historyvisits` is counted by the Firefox validator
/// regardless of its kind: the kind filter reaches only the first name
/// comparison.
pub proof fn lemma_firefox_match_ignores_kind_of_historyvisits(e: CatalogEntryModel)
    requires
        e.name == "moz_historyvisits"@,
    ensures
        firefox_catalog_match(e),
{
}

/// How many catalog entries the Chromium validator counts.
pub open spec fn count_chromium_matches(catalog: Seq<CatalogEntryModel>) -> nat
    decreases catalog.len(),
{
    if catalog.len() == 0 {
        0
    } else {
        count_chromium_matches(catalog.drop_last()) + (if chromium_catalog_match(catalog.last()) {
            1nat
        } else {
            0nat
        })
    }
}

/// How many catalog entries the Firefox validator counts.
pub open spec fn count_firefox_matches(catalog: Seq<CatalogEntryModel>) -> nat
    decreases catalog.len(),
{
    if catalog.len() == 0 {
        0
    } else {
        count_firefox_matches(catalog.drop_last()) + (if firefox_catalog_match(catalog.last()) {
            1nat
        } else {
            0nat
        })
    }
}

/// The catalog of a file the Chromium strategy accepts: exactly one `urls`
/// table. A count of one, not mere existence, so that a degenerate catalog
/// with duplicate entries is rejected.
pub open spec fn spec_chromium_schema_valid(catalog: Seq<CatalogEntryModel>) -> bool {
    count_chromium_matches(catalog) == 1
}

/// The catalog of a file the Firefox strategy accepts: exactly two entries
/// matching `firefox_catalog_match`.
pub open spec fn spec_firefox_schema_valid(catalog: Seq<CatalogEntryModel>) -> bool {
    count_firefox_matches(catalog) == 2
}

/// The view of a catalog, entry by entry.
pub open spec fn catalog_model(catalog: Seq<CatalogEntry>) -> Seq<CatalogEntryModel> {
    catalog.map_values(|e: CatalogEntry| e@)
}

proof fn lemma_count_chromium_take_step(catalog: Seq<CatalogEntryModel>, i: int)
    requires
        0 <= i < catalog.len(),
    ensures
        count_chromium_matches(catalog.take(i + 1)) == count_chromium_matches(catalog.take(i)) + (
        if chromium_catalog_match(catalog[i]) {
            1nat
        } else {
            0nat
        }),
{
    assert(catalog.take(i + 1).drop_last() =~= catalog.take(i));
    assert(catalog.take(i + 1).last() == catalog[i]);
}

proof fn lemma_count_firefox_take_step(catalog: Seq<CatalogEntryModel>, i: int)
    requires
        0 <= i < catalog.len(),
    ensures
        count_firefox_matches(catalog.take(i + 1)) == count_firefox_matches(catalog.take(i)) + (
        if firefox_catalog_match(catalog[i]) {
            1nat
        } else {
            0nat
        }),
{
    assert(catalog.take(i + 1).drop_last() =~= catalog.take(i));
    assert(catalog.take(i + 1).last() == catalog[i]);
}

/// Whether a Chromium-shaped file's catalog is valid: exactly one `urls`
/// table in the catalog.
pub fn chromium_schema_valid(catalog: &Vec<CatalogEntry>) -> (r: bool)
    ensures
        r == spec_chromium_schema_valid(catalog_model(catalog@)),
{
    let ghost model = catalog_model(catalog@);
    let mut count: u64 = 0;
    let mut i: usize = 0;
    while i < catalog.len()
        invariant
            0 <= i <= catalog.len(),
            model == catalog_model(catalog@),
            count <= i,
            count == count_chromium_matches(model.take(i as int)),
        decreases catalog.len() - i,
    {
        let e = &catalog[i];
        if str_eq(e.kind.as_str(), "table") && str_eq(e.name.as_str(), "urls") {
            count = count + 1;
        }
        proof {
            lemma_count_chromium_take_step(model, i as int);
        }
        i = i + 1;
    }
    proof {
        assert(model.take(catalog@.len() as int) =~= model);
    }
    count == 1
}

/// Whether a Firefox-shaped file's catalog is valid: exactly two entries
/// matching the Firefox predicate.
pub fn firefox_schema_valid(catalog: &Vec<CatalogEntry>) -> (r: bool)
    ensures
        r == spec_firefox_schema_valid(catalog_model(catalog@)),
{
    let ghost model = catalog_model(catalog@);
    let mut count: u64 = 0;
    let mut i: usize = 0;
    while i < catalog.len()
        invariant
            0 <= i <= catalog.len(),
            model == catalog_model(catalog@),
            count <= i,
            count == count_firefox_matches(model.take(i as int)),
        decreases catalog.len() - i,
    {
        let e = &catalog[i];
        if (str_eq(e.kind.as_str(), "table") && str_eq(e.name.as_str(), "moz_places")) || str_eq(
            e.name.as_str(),
            "moz_historyvisits",
        ) {
            count = count + 1;
        }
        proof {
            lemma_count_firefox_take_step(model, i as int);
        }
        i = i + 1;
    }
    proof {
        assert(model.take(catalog@.len() as int) =~= model);
    }
    count == 2
}

/// One row fetched from a Chromium `urls` table, with the visit time in
/// the native encoding as stored on disk.
#[derive(Debug)]
pub struct ChromiumRow {
    pub title: String,
    pub url: String,
    pub visit_native: i64,
}

/// One row fetched from the Firefox places/visits join; the title is
/// absent when the place has none.
#[derive(Debug)]
pub struct FirefoxRow {
    pub title: Option<String>,
    pub url: String,
    pub visit_native: i64,
}

/// The view of a record list, record by record.
pub open spec fn records_model(records: Seq<Record>) -> Seq<RecordModel> {
    records.map_values(|r: Record| r@)
}

/// Whether a Chromium row's native visit time lies strictly inside the
/// window: strictly greater than the converted lower bound and strictly
/// less than the converted upper bound.
pub open spec fn chromium_row_selected(row: ChromiumRow, start: u64, end: u64) -> bool {
    &&& (row.visit_native as int) > spec_chromium_native_of_ms(start as int)
    &&& (row.visit_native as int) < spec_chromium_native_of_ms(end as int)
}

/// The record a selected Chromium row normalizes to.
pub open spec fn spec_chromium_record(row: ChromiumRow) -> RecordModel {
    RecordModel {
        title: row.title@,
        url: row.url@,
        last_visited: spec_chromium_ms_of_native(row.visit_native as int) as u64,
    }
}

/// The records a Chromium row list yields for the window: the selected
/// rows, in order, each normalized.
pub open spec fn spec_extract_chromium(rows: Seq<ChromiumRow>, start: u64, end: u64) -> Seq<
    RecordModel,
>
    decreases rows.len(),
{
    if rows.len() == 0 {
        Seq::empty()
    } else {
        let rest = spec_extract_chromium(rows.drop_last(), start, end);
        if chromium_row_selected(rows.last(), start, end) {
            rest.push(spec_chromium_record(rows.last()))
        } else {
            rest
        }
    }
}

/// Whether a Firefox row's native visit time lies strictly inside the
/// window.
pub open spec fn firefox_row_selected(row: FirefoxRow, start: u64, end: u64) -> bool {
    &&& (row.visit_native as int) > spec_firefox_native_of_ms(start as int)
    &&& (row.visit_native as int) < spec_firefox_native_of_ms(end as int)
}

/// The record a selected Firefox row normalizes to; an absent title
/// becomes the empty string.
pub open spec fn spec_firefox_record(row: FirefoxRow) -> RecordModel {
    RecordModel {
        title: match row.title {
            Some(t) => t@,
            None => Seq::empty(),
        },
        url: row.url@,
        last_visited: spec_firefox_ms_of_native(row.visit_native as int) as u64,
    }
}

/// The records a Firefox row list yields for the window.
pub open spec fn spec_extract_firefox(rows: Seq<FirefoxRow>, start: u64, end: u64) -> Seq<
    RecordModel,
>
    decreases rows.len(),
{
    if rows.len() == 0 {
        Seq::empty()
    } else {
        let rest = spec_extract_firefox(rows.drop_last(), start, end);
        if firefox_row_selected(rows.last(), start, end) {
            rest.push(spec_firefox_record(rows.last()))
        } else {
            rest
        }
    }
}

proof fn lemma_extract_chromium_take_step(rows: Seq<ChromiumRow>, start: u64, end: u64, i: int)
    requires
        0 <= i < rows.len(),
    ensures
        spec_extract_chromium(rows.take(i + 1), start, end) == if chromium_row_selected(
            rows[i],
            start,
            end,
        ) {
            spec_extract_chromium(rows.take(i), start, end).push(spec_chromium_record(rows[i]))
        } else {
            spec_extract_chromium(rows.take(i), start, end)
        },
{
    assert(rows.take(i + 1).drop_last() =~= rows.take(i));
    assert(rows.take(i + 1).last() == rows[i]);
}

proof fn lemma_extract_firefox_take_step(rows: Seq<FirefoxRow>, start: u64, end: u64, i: int)
    requires
        0 <= i < rows.len(),
    ensures
        spec_extract_firefox(rows.take(i + 1), start, end) == if firefox_row_selected(
            rows[i],
            start,
            end,
        ) {
            spec_extract_firefox(rows.take(i), start, end).push(spec_firefox_record(rows[i]))
        } else {
            spec_extract_firefox(rows.take(i), start, end)
        },
{
    assert(rows.take(i + 1).drop_last() =~= rows.take(i));
    assert(rows.take(i + 1).last() == rows[i]);
}

/// Normalizes the Chromium rows whose visit time lies strictly inside the
/// window: converts the bounds into the native encoding, keeps the rows
/// strictly between them, and converts each kept visit time back to Unix
/// milliseconds.
pub fn extract_chromium(rows: &Vec<ChromiumRow>, start: u64, end: u64) -> (r: Vec<Record>)
    requires
        window_ms_in_range(start as int),
        window_ms_in_range(end as int),
    ensures
        records_model(r@) == spec_extract_chromium(rows@, start, end),
{
    let start_native = chromium_ms_to_native(start);
    let end_native = chromium_ms_to_native(end);
    let mut out: Vec<Record> = Vec::new();
    let mut i: usize = 0;
    while i < rows.len()
        invariant
            0 <= i <= rows.len(),
            start_native == spec_chromium_native_of_ms(start as int),
            end_native == spec_chromium_native_of_ms(end as int),
            records_model(out@) == spec_extract_chromium(rows@.take(i as int), start, end),
        decreases rows.len() - i,
    {
        let row = &rows[i];
        if 0 <= row.visit_native {
            let native = row.visit_native as u64;
            if start_native < native && native < end_native {
                proof {
                    assert(native as int / 1000000 >= 11644473600) by (nonlinear_arith)
                        requires
                            native as int >= 11644473600 * 1000000,
                    ;
                }
                let ms = chromium_native_to_ms(native);
                let record = Record { title: row.title.clone(), url: row.url.clone(), last_visited: ms };
                proof {
                    assert(records_model(out@.push(record)) =~= records_model(out@).push(record@));
                }
                out.push(record);
            }
        }
        proof {
            lemma_extract_chromium_take_step(rows@, start, end, i as int);
        }
        i = i + 1;
    }
    proof {
        assert(rows@.take(rows@.len() as int) =~= rows@);
    }
    out
}

/// Normalizes the Firefox rows whose visit time lies strictly inside the
/// window, substituting the empty string for an absent title.
pub fn extract_firefox(rows: &Vec<FirefoxRow>, start: u64, end: u64) -> (r: Vec<Record>)
    requires
        window_ms_in_range(start as int),
        window_ms_in_range(end as int),
    ensures
        records_model(r@) == spec_extract_firefox(rows@, start, end),
{
    let start_native = firefox_ms_to_native(start);
    let end_native = firefox_ms_to_native(end);
    let mut out: Vec<Record> = Vec::new();
    let mut i: usize = 0;
    while i < rows.len()
        invariant
            0 <= i <= rows.len(),
            start_native == spec_firefox_native_of_ms(start as int),
            end_native == spec_firefox_native_of_ms(end as int),
            records_model(out@) == spec_extract_firefox(rows@.take(i as int), start, end),
        decreases rows.len() - i,
    {
        let row = &rows[i];
        if 0 <= row.visit_native {
            let native = row.visit_native as u64;
            if start_native < native && native < end_native {
                let ms = firefox_native_to_ms(native);
                let title = match &row.title {
                    Some(t) => t.clone(),
                    None => String::new(),
                };
                let record = Record { title, url: row.url.clone(), last_visited: ms };
                proof {
                    assert(records_model(out@.push(record)) =~= records_model(out@).push(record@));
                }
                out.push(record);
            }
        }
        proof {
            lemma_extract_firefox_take_step(rows@, start, end, i as int);
        }
        i = i + 1;
    }
    proof {
        assert(rows@.take(rows@.len() as int) =~= rows@);
    }
    out
}

/// Where a record produced under the given strategy can lie relative to
/// the request window: within it, up to the truncation the strategy's
/// encoding applies to the lower bound, and always strictly below the
/// upper bound. The fallback strategy produces no records at all.
pub open spec fn record_in_window(rec: RecordModel, kind: BrowserKind, start: u64, end: u64) -> bool {
    match kind {
        BrowserKind::Chromium => (start as int / 1000) * 1000 <= rec.last_visited
            && rec.last_visited < end,
        BrowserKind::Firefox => start <= rec.last_visited && rec.last_visited < end,
        BrowserKind::Fallback => false,
    }
}

/// A visit exactly at either window bound is excluded: the interval is
/// open on both ends.
pub proof fn lemma_chromium_boundary_excluded(row: ChromiumRow, start: u64, end: u64)
    requires
        (row.visit_native as int) == spec_chromium_native_of_ms(start as int) || (row.visit_native
            as int) == spec_chromium_native_of_ms(end as int),
    ensures
        !chromium_row_selected(row, start, end),
{
}

/// A visit exactly at either window bound is excluded: the interval is
/// open on both ends.
pub proof fn lemma_firefox_boundary_excluded(row: FirefoxRow, start: u64, end: u64)
    requires
        (row.visit_native as int) == spec_firefox_native_of_ms(start as int) || (row.visit_native
            as int) == spec_firefox_native_of_ms(end as int),
    ensures
        !firefox_row_selected(row, start, end),
{
}

/// A Chromium row list whose visit times all sit exactly on a window
/// bound yields no records.
pub proof fn lemma_chromium_boundary_rows_yield_nothing(
    rows: Seq<ChromiumRow>,
    start: u64,
    end: u64,
)
    requires
        forall|i: int|
            0 <= i < rows.len() ==> ((#[trigger] rows[i].visit_native as int)
                == spec_chromium_native_of_ms(start as int) || (rows[i].visit_native as int)
                == spec_chromium_native_of_ms(end as int)),
    ensures
        spec_extract_chromium(rows, start, end) == Seq::<RecordModel>::empty(),
    decreases rows.len(),
{
    if rows.len() > 0 {
        lemma_chromium_boundary_rows_yield_nothing(rows.drop_last(), start, end);
        lemma_chromium_boundary_excluded(rows.last(), start, end);
    }
}

/// A Firefox row list whose visit times all sit exactly on a window
/// bound yields no records.
pub proof fn lemma_firefox_boundary_rows_yield_nothing(rows: Seq<FirefoxRow>, start: u64, end: u64)
    requires
        forall|i: int|
            0 <= i < rows.len() ==> ((#[trigger] rows[i].visit_native as int)
                == spec_firefox_native_of_ms(start as int) || (rows[i].visit_native as int)
                == spec_firefox_native_of_ms(end as int)),
    ensures
        spec_extract_firefox(rows, start, end) == Seq::<RecordModel>::empty(),
    decreases rows.len(),
{
    if rows.len() > 0 {
        lemma_firefox_boundary_rows_yield_nothing(rows.drop_last(), start, end);
        lemma_firefox_boundary_excluded(rows.last(), start, end);
    }
}

proof fn lemma_chromium_selected_in_window(row: ChromiumRow, start: u64, end: u64)
    requires
        window_ms_in_range(start as int),
        window_ms_in_range(end as int),
        chromium_row_selected(row, start, end),
    ensures
        record_in_window(spec_chromium_record(row), BrowserKind::Chromium, start, end),
{
    let v = row.visit_native as int;
    let s = start as int / 1000 + 11644473600;
    let e = end as int / 1000 + 11644473600;
    assert(v / 1000000 >= s) by (nonlinear_arith)
        requires
            v > s * 1000000,
            s >= 0,
    ;
    assert(v / 1000000 <= e - 1) by (nonlinear_arith)
        requires
            v < e * 1000000,
            v >= 0,
            e >= 1,
    ;
    vstd::arithmetic::div_mod::lemma_fundamental_div_mod(end as int, 1000);
}

proof fn lemma_firefox_selected_in_window(row: FirefoxRow, start: u64, end: u64)
    requires
        window_ms_in_range(start as int),
        window_ms_in_range(end as int),
        firefox_row_selected(row, start, end),
    ensures
        record_in_window(spec_firefox_record(row), BrowserKind::Firefox, start, end),
{
    let v = row.visit_native as int;
    let s = start as int;
    let e = end as int;
    assert(v / 1000 >= s) by (nonlinear_arith)
        requires
            v > s * 1000,
            s >= 0,
    ;
    assert(v / 1000 <= e - 1) by (nonlinear_arith)
        requires
            v < e * 1000,
            v >= 0,
            e >= 1,
    ;
}

/// Every record extracted under the Chromium strategy lies within the
/// request window: at or above the lower bound truncated to whole
/// seconds, and strictly below the upper bound.
pub proof fn lemma_extract_chromium_in_window(rows: Seq<ChromiumRow>, start: u64, end: u64)
    requires
        window_ms_in_range(start as int),
        window_ms_in_range(end as int),
    ensures
        forall|i: int|
            0 <= i < spec_extract_chromium(rows, start, end).len() ==> record_in_window(
                #[trigger] spec_extract_chromium(rows, start, end)[i],
                BrowserKind::Chromium,
                start,
                end,
            ),
    decreases rows.len(),
{
    if rows.len() > 0 {
        let all = spec_extract_chromium(rows, start, end);
        let rest = spec_extract_chromium(rows.drop_last(), start, end);
        lemma_extract_chromium_in_window(rows.drop_last(), start, end);
        if chromium_row_selected(rows.last(), start, end) {
            lemma_chromium_selected_in_window(rows.last(), start, end);
            assert forall|i: int| 0 <= i < all.len() implies record_in_window(
                all[i],
                BrowserKind::Chromium,
                start,
                end,
            ) by {
                if i < rest.len() {
                    assert(all[i] == rest[i]);
                } else {
                    assert(all[i] == spec_chromium_record(rows.last()));
                }
            }
        } else {
            assert(all == rest);
        }
    }
}

/// Every record extracted under the Firefox strategy lies within the
/// request window: at or above the lower bound and strictly below the
/// upper bound.
pub proof fn lemma_extract_firefox_in_window(rows: Seq<FirefoxRow>, start: u64, end: u64)
    requires
        window_ms_in_range(start as int),
        window_ms_in_range(end as int),
    ensures
        forall|i: int|
            0 <= i < spec_extract_firefox(rows, start, end).len() ==> record_in_window(
                #[trigger] spec_extract_firefox(rows, start, end)[i],
                BrowserKind::Firefox,
                start,
                end,
            ),
    decreases rows.len(),
{
    if rows.len() > 0 {
        let all = spec_extract_firefox(rows, start, end);
        let rest = spec_extract_firefox(rows.drop_last(), start, end);
        lemma_extract_firefox_in_window(rows.drop_last(), start, end);
        if firefox_row_selected(rows.last(), start, end) {
            lemma_firefox_selected_in_window(rows.last(), start, end);
            assert forall|i: int| 0 <= i < all.len() implies record_in_window(
                all[i],
                BrowserKind::Firefox,
                start,
                end,
            ) by {
                if i < rest.len() {
                    assert(all[i] == rest[i]);
                } else {
                    assert(all[i] == spec_firefox_record(rows.last()));
                }
            }
        } else {
            assert(all == rest);
        }
    }
}

} // verus!
