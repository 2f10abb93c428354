//! The catalogue of known browser install locations: per platform, each
//! supported browser's display name and the glob pattern, relative to the
//! user's home directory, under which its history database files live.
//! An embedding application expands the patterns on disk; the catalogue
//! itself is a fixed table.

use vstd::prelude::*;

use crate::browser::str_eq;

verus! {

/// The operating systems the catalogue distinguishes.
#[derive(Clone, Copy, Debug, PartialEq, Eq, Structural)]
pub enum Platform {
    Windows,
    Mac,
    Linux,
    Unknown,
}

/// The platform a standard operating-system name denotes.
pub open spec fn spec_platform_of(os: Seq<char>) -> Platform {
    if os == "windows"@ {
        Platform::Windows
    } else if os == "macos"@ {
        Platform::Mac
    } else if os == "linux"@ {
        Platform::Linux
    } else {
        Platform::Unknown
    }
}

/// Maps a standard operating-system name (as `std::env::consts::OS`
/// spells it) to the platform it denotes.
pub fn get_platform(os: &str) -> (r: Platform)
    ensures
        r == spec_platform_of(os@),
{
    if str_eq(os, "windows") {
        Platform::Windows
    } else if str_eq(os, "macos") {
        Platform::Mac
    } else if str_eq(os, "linux") {
        Platform::Linux
    } else {
        Platform::Unknown
    }
}

/// One known browser install location.
#[derive(Debug)]
pub struct BrowserDatabase {
    pub platform: Platform,
    pub name: String,
    pub pattern: String,
}

/// Mathematical model of a catalogue entry.
pub struct BrowserDatabaseModel {
    pub platform: Platform,
    pub name: Seq<char>,
    pub pattern: Seq<char>,
}

impl View for BrowserDatabase {
    type V = BrowserDatabaseModel;

    open spec fn view(&self) -> BrowserDatabaseModel {
        BrowserDatabaseModel { platform: self.platform, name: self.name@, pattern: self.pattern@ }
    }
}

/// The view of a catalogue, entry by entry.
pub open spec fn databases_model(list: Seq<BrowserDatabase>) -> Seq<BrowserDatabaseModel> {
    list.map_values(|d: BrowserDatabase| d@)
}

/// The catalogue entries for one platform. Every currently known install
/// location is a Windows one; adding a browser is one more line here and,
/// for a new family, one more arm in the strategy resolution.
pub open spec fn spec_database_list(platform: Platform) -> Seq<BrowserDatabaseModel> {
    if platform is Windows {
        seq![
            BrowserDatabaseModel {
                platform: Platform::Windows,
                name: "Google Chrome"@,
                pattern: "AppData/Local/Google/Chrome/User Data/*/History"@,
            },
            BrowserDatabaseModel {
                platform: Platform::Windows,
                name: "Microsoft Edge"@,
                pattern: "AppData/Local/Microsoft/Edge/User Data/*/History"@,
            },
            BrowserDatabaseModel {
                platform: Platform::Windows,
                name: "Firefox"@,
                pattern: "AppData/Roaming/Mozilla/Firefox/Profiles/*/places.sqlite"@,
            },
            BrowserDatabaseModel {
                platform: Platform::Windows,
                name: "Arc"@,
                pattern: "AppData/Local/Packages/TheBrowserCompany.Arc_ttt1ap7aakyb4/LocalCache/Local/Arc/User Data/*/History"@,
            },
        ]
    } else {
        Seq::empty()
    }
}

/// The known install locations for the given platform.
pub fn get_database_list(platform: Platform) -> (r: Vec<BrowserDatabase>)
    ensures
        databases_model(r@) == spec_database_list(platform),
{
    match platform {
        Platform::Windows => {
            let mut list: Vec<BrowserDatabase> = Vec::new();
            list.push(
                BrowserDatabase {
                    platform: Platform::Windows,
                    name: "Google Chrome".to_owned(),
                    pattern: "AppData/Local/Google/Chrome/User Data/*/History".to_owned(),
                },
            );
            list.push(
                BrowserDatabase {
                    platform: Platform::Windows,
                    name: "Microsoft Edge".to_owned(),
                    pattern: "AppData/Local/Microsoft/Edge/User Data/*/History".to_owned(),
                },
            );
            list.push(
                BrowserDatabase {
                    platform: Platform::Windows,
                    name: "Firefox".to_owned(),
                    pattern: "AppData/Roaming/Mozilla/Firefox/Profiles/*/places.sqlite".to_owned(),
                },
            );
            list.push(
                BrowserDatabase {
                    platform: Platform::Windows,
                    name: "Arc".to_owned(),
                    pattern: "AppData/Local/Packages/TheBrowserCompany.Arc_ttt1ap7aakyb4/LocalCache/Local/Arc/User Data/*/History".to_owned(),
                },
            );
            proof {
                assert(databases_model(list@) =~= spec_database_list(platform));
            }
            list
        },
        _ => {
            let list: Vec<BrowserDatabase> = Vec::new();
            proof {
                assert(databases_model(list@) =~= spec_database_list(platform));
            }
            list
        },
    }
}

} // verus!
