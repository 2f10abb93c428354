//! The in-memory shape of the persisted per-browser configuration: one
//! sync cursor per browser, and the rules that keep the cursor list in
//! step with the catalogue of known browsers. Reading and writing the
//! configuration file is the embedding application's business.

use vstd::prelude::*;

use crate::browser::str_eq;
use crate::history::BrowserDatabase;

verus! {

/// One browser's persisted state: its display name and the moment, in
/// milliseconds since the Unix epoch, up to which its history was last
/// synchronized.
#[derive(Debug)]
pub struct Browser {
    pub name: String,
    pub last_sync: u64,
}

/// Mathematical model of a browser's persisted state.
pub struct BrowserStateModel {
    pub name: Seq<char>,
    pub last_sync: u64,
}

impl View for Browser {
    type V = BrowserStateModel;

    open spec fn view(&self) -> BrowserStateModel {
        BrowserStateModel { name: self.name@, last_sync: self.last_sync }
    }
}

/// The view of a cursor list, entry by entry.
pub open spec fn browsers_model(browsers: Seq<Browser>) -> Seq<BrowserStateModel> {
    browsers.map_values(|b: Browser| b@)
}

/// Whether some entry of the list carries this name.
pub open spec fn has_browser_named(browsers: Seq<BrowserStateModel>, name: Seq<char>) -> bool {
    exists|i: int| 0 <= i < browsers.len() && browsers[i].name == name
}

/// Whether some catalogue entry carries this name.
pub open spec fn name_in_catalogue(
    list: Seq<crate::history::BrowserDatabaseModel>,
    name: Seq<char>,
) -> bool {
    exists|k: int| 0 <= k < list.len() && list[k].name == name
}

/// The configuration: one cursor per known browser.
#[derive(Debug)]
pub struct InnerConfig {
    pub browsers: Vec<Browser>,
}

/// Whether the list holds an entry named `name`.
pub fn has_browser(browsers: &Vec<Browser>, name: &str) -> (r: bool)
    ensures
        r == has_browser_named(browsers_model(browsers@), name@),
{
    let mut i: usize = 0;
    while i < browsers.len()
        invariant
            0 <= i <= browsers.len(),
            forall|j: int|
                0 <= j < i ==> browsers_model(browsers@)[j].name != name@,
        decreases browsers.len() - i,
    {
        if str_eq(browsers[i].name.as_str(), name) {
            proof {
                assert(browsers_model(browsers@)[i as int].name == name@);
            }
            return true;
        }
        i = i + 1;
    }
    false
}

impl InnerConfig {
    /// A fresh configuration for the given catalogue: one cursor per
    /// catalogue entry, in catalogue order, each starting at zero.
    pub fn from_database_list(list: &Vec<BrowserDatabase>) -> (r: InnerConfig)
        ensures
            r.browsers@.len() == list@.len(),
            forall|i: int|
                0 <= i < list@.len() ==> #[trigger] r.browsers@[i]@.name == list@[i]@.name
                    && r.browsers@[i]@.last_sync == 0,
    {
        let mut browsers: Vec<Browser> = Vec::new();
        let mut i: usize = 0;
        while i < list.len()
            invariant
                0 <= i <= list.len(),
                browsers@.len() == i,
                forall|j: int|
                    0 <= j < i ==> #[trigger] browsers@[j]@.name == list@[j]@.name
                        && browsers@[j]@.last_sync == 0,
            decreases list.len() - i,
        {
            browsers.push(Browser { name: list[i].name.clone(), last_sync: 0 });
            i = i + 1;
        }
        InnerConfig { browsers }
    }

    /// Brings the configuration in step with the catalogue: every
    /// catalogue entry missing from the cursor list is appended with a
    /// zero cursor; existing entries are kept untouched, in place, and
    /// nothing else is added.
    pub fn merge_database_list(&mut self, list: &Vec<BrowserDatabase>)
        ensures
            final(self).browsers@.len() >= old(self).browsers@.len(),
            final(self).browsers@.take(old(self).browsers@.len() as int) == old(self).browsers@,
            forall|j: int|
                old(self).browsers@.len() <= j < final(self).browsers@.len()
                    ==> #[trigger] final(self).browsers@[j]@.last_sync == 0,
            forall|j: int|
                old(self).browsers@.len() <= j < final(self).browsers@.len()
                    ==> !has_browser_named(
                    browsers_model(final(self).browsers@.take(j)),
                    #[trigger] final(self).browsers@[j]@.name,
                ),
            forall|j: int|
                old(self).browsers@.len() <= j < final(self).browsers@.len() ==> name_in_catalogue(
                    crate::history::databases_model(list@),
                    #[trigger] final(self).browsers@[j]@.name,
                ),
            forall|k: int|
                0 <= k < list@.len() ==> has_browser_named(
                    browsers_model(final(self).browsers@),
                    #[trigger] list@[k]@.name,
                ),
    {
        let ghost orig = self.browsers@;
        let mut i: usize = 0;
        while i < list.len()
            invariant
                0 <= i <= list.len(),
                self.browsers@.len() >= orig.len(),
                self.browsers@.take(orig.len() as int) == orig,
                forall|j: int|
                    orig.len() <= j < self.browsers@.len()
                        ==> #[trigger] self.browsers@[j]@.last_sync == 0,
                forall|j: int|
                    orig.len() <= j < self.browsers@.len() ==> !has_browser_named(
                        browsers_model(self.browsers@.take(j)),
                        #[trigger] self.browsers@[j]@.name,
                    ),
                forall|j: int|
                    orig.len() <= j < self.browsers@.len() ==> name_in_catalogue(
                        crate::history::databases_model(list@),
                        #[trigger] self.browsers@[j]@.name,
                    ),
                forall|k: int|
                    0 <= k < i ==> has_browser_named(
                        browsers_model(self.browsers@),
                        #[trigger] list@[k]@.name,
                    ),
            decreases list.len() - i,
        {
            let name = &list[i].name;
            if !has_browser(&self.browsers, name.as_str()) {
                let ghost before = self.browsers@;
                self.browsers.push(Browser { name: name.clone(), last_sync: 0 });
                proof {
                    assert(self.browsers@.take(before.len() as int) =~= before);
                    assert(self.browsers@.take(orig.len() as int) =~= orig);
                    assert(browsers_model(self.browsers@.take(before.len() as int))
                        =~= browsers_model(before));
                    assert forall|j: int| orig.len() <= j < before.len() implies
                        !has_browser_named(
                            browsers_model(self.browsers@.take(j)),
                            #[trigger] self.browsers@[j]@.name,
                        ) by {
                        assert(self.browsers@.take(j) =~= before.take(j));
                        assert(self.browsers@[j] == before[j]);
                    }
                    let last = self.browsers@.len() - 1;
                    assert(self.browsers@[last]@.name == list@[i as int]@.name);
                    assert(crate::history::databases_model(list@)[i as int].name == list@[
                        i as int
                    ]@.name);
                    assert(name_in_catalogue(
                        crate::history::databases_model(list@),
                        self.browsers@[last]@.name,
                    ));
                    assert forall|k: int| 0 <= k < i + 1 implies has_browser_named(
                        browsers_model(self.browsers@),
                        #[trigger] list@[k]@.name,
                    ) by {
                        if k < i {
                            assert(has_browser_named(browsers_model(before), list@[k]@.name));
                            let w = choose|w: int|
                                0 <= w < browsers_model(before).len() && browsers_model(
                                    before,
                                )[w].name == list@[k]@.name;
                            assert(browsers_model(self.browsers@)[w].name == list@[k]@.name);
                        } else {
                            assert(browsers_model(self.browsers@)[last].name == list@[k]@.name);
                        }
                    }
                }
            }
            i = i + 1;
        }
    }
}

} // verus!
