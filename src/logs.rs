//! Where the launcher's log file lives.
use vstd::prelude::*;
use crate::path::{joined, DirPath, PathModel};
use crate::platform::Platform;

verus! {

/// The per-user log directory: under the home directory on macOS, under the
/// local application data directory on Windows; `base` is that directory,
/// absent when the environment does not name it.
pub open spec fn logs_dir_model(platform: Platform, base: Option<PathModel>) -> PathModel {
    match (platform, base) {
        (Platform::MacOs, Some(home)) => joined(joined(joined(home, "Library"@), "Logs"@), "Livuals"@),
        (Platform::MacOs, None) => PathModel { root: "/"@, parts: seq!["tmp"@, "Livuals"@] },
        (Platform::Windows, Some(b)) => joined(joined(b, "Livuals"@), "logs"@),
        (Platform::Windows, None) => PathModel { root: Seq::empty(), parts: seq!["."@, "logs"@] },
    }
}

/// The log directory.
pub fn logs_dir(platform: Platform, base: &Option<DirPath>) -> (r: DirPath)
    ensures
        r@ == logs_dir_model(
            platform,
            match base {
                Some(b) => Some(b@),
                None => None,
            },
        ),
{
    match (platform, base) {
        (Platform::MacOs, Some(home)) => home.join("Library").join("Logs").join("Livuals"),
        (Platform::MacOs, None) => {
            let r = DirPath::new("/".to_owned(), vec!["tmp".to_owned(), "Livuals".to_owned()]);
            assert(r@.parts =~= seq!["tmp"@, "Livuals"@]);
            r
        },
        (Platform::Windows, Some(b)) => b.join("Livuals").join("logs"),
        (Platform::Windows, None) => {
            let r = DirPath::new(String::new(), vec![".".to_owned(), "logs".to_owned()]);
            assert(r@.parts =~= seq!["."@, "logs"@]);
            assert(r@.root =~= Seq::<char>::empty());
            r
        },
    }
}

/// The log file, in the log directory.
pub fn log_file_path(platform: Platform, base: &Option<DirPath>) -> (r: DirPath)
    ensures
        r@ == joined(
            logs_dir_model(
                platform,
                match base {
                    Some(b) => Some(b@),
                    None => None,
                },
            ),
            "livuals-wrapper.log"@,
        ),
{
    logs_dir(platform, base).join("livuals-wrapper.log")
}

} // verus!
