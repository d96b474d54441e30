//! Locations of the program's data.
//!
//! ```text
//! <data_dir>/
//!   global_config.json     global configuration
//!   cookies.json           account cookies
//!   config/                account configurations (<qq>.json)
//!   logs/                  logs
//! ```
//!
//! Finding `<data_dir>` (from the platform's conventions) and creating the directories
//! is left to the caller.
use vstd::prelude::*;

use crate::text::owned;

verus! {

/// A file or directory name that `Path::join` appends as it is: not empty, not `.` or `..`,
/// and without separators or drive marks.
pub open spec fn is_plain_name(name: Seq<char>) -> bool {
    &&& name.len() > 0
    &&& name != seq!['.']
    &&& name != seq!['.', '.']
    &&& forall|i: int| 0 <= i < name.len() ==> #[trigger] name[i] != '/' && name[i] != '\\' && name[i] != ':'
}

/// A Windows verbatim path (`\\?\...`), whose components `Path::join` may rewrite.
pub open spec fn is_verbatim(base: Seq<char>) -> bool {
    base.len() >= 4 && base[0] == '\\' && base[1] == '\\' && base[2] == '?' && base[3] == '\\'
}

/// `base` followed by `name`, with at most one separator in between.
pub open spec fn joined(base: Seq<char>, name: Seq<char>, r: Seq<char>) -> bool {
    exists|sep: Seq<char>| sep.len() <= 1 && r == base + sep + name
}

/// Appends a relative name to a path with `std::path::Path::join`. The contract claims,
/// as `PathBuf::push` documents for relative names, that the result is the base, then a
/// separator when one is needed, then the name; which separator (if any) is not stated,
/// as it depends on the platform and on how the base ends. Nothing is stated for a
/// Windows verbatim base, where `push` normalises what it appends.
#[verifier::external_body]
fn join_path(base: &str, name: &str) -> (r: String)
    requires
        is_plain_name(name@),
    ensures
        !is_verbatim(base@) ==> joined(base@, name@, r@),
{
    std::path::Path::new(base).join(name).to_string_lossy().into_owned()
}

/// The program's data locations.
#[derive(Clone, Debug)]
pub struct Paths {
    data_dir: String,
    logs_dir: String,
    config_dir: String,
    cookies_file: String,
    global_config_file: String,
}

impl Paths {
    pub closed spec fn data_dir_view(&self) -> Seq<char> {
        self.data_dir@
    }

    pub closed spec fn logs_dir_view(&self) -> Seq<char> {
        self.logs_dir@
    }

    pub closed spec fn config_dir_view(&self) -> Seq<char> {
        self.config_dir@
    }

    pub closed spec fn cookies_file_view(&self) -> Seq<char> {
        self.cookies_file@
    }

    pub closed spec fn global_config_file_view(&self) -> Seq<char> {
        self.global_config_file@
    }

    /// The locations under the data directory `data_dir`: `logs`, `config`,
    /// `cookies.json` and `global_config.json` (for a Windows verbatim directory, only
    /// the directory itself is stated).
    pub fn with_data_dir(data_dir: &str) -> (r: Paths)
        ensures
            r.data_dir_view() == data_dir@,
            !is_verbatim(data_dir@) ==> joined(data_dir@, "logs"@, r.logs_dir_view()),
            !is_verbatim(data_dir@) ==> joined(data_dir@, "config"@, r.config_dir_view()),
            !is_verbatim(data_dir@) ==> joined(data_dir@, "cookies.json"@, r.cookies_file_view()),
            !is_verbatim(data_dir@) ==> joined(data_dir@, "global_config.json"@, r.global_config_file_view()),
    {
        proof {
            reveal_strlit("logs");
            reveal_strlit("config");
            reveal_strlit("cookies.json");
            reveal_strlit("global_config.json");
            assert(seq!['.'].len() == 1 && seq!['.', '.'].len() == 2);
            assert("logs"@.len() == 4 && "config"@.len() == 6 && "global_config.json"@.len() == 18);
        }
        Paths {
            logs_dir: join_path(data_dir, "logs"),
            config_dir: join_path(data_dir, "config"),
            cookies_file: join_path(data_dir, "cookies.json"),
            global_config_file: join_path(data_dir, "global_config.json"),
            data_dir: owned(data_dir),
        }
    }

    /// The cookie file.
    pub fn cookies_file(&self) -> (r: &str)
        ensures
            r@ == self.cookies_file_view(),
    {
        self.cookies_file.as_str()
    }

    /// The global configuration file.
    pub fn global_config_file(&self) -> (r: &str)
        ensures
            r@ == self.global_config_file_view(),
    {
        self.global_config_file.as_str()
    }

    /// The data directory.
    pub fn data_dir(&self) -> (r: &str)
        ensures
            r@ == self.data_dir_view(),
    {
        self.data_dir.as_str()
    }

    /// The log directory.
    pub fn logs_dir(&self) -> (r: &str)
        ensures
            r@ == self.logs_dir_view(),
    {
        self.logs_dir.as_str()
    }

    /// The directory of the account configurations.
    pub fn config_dir(&self) -> (r: &str)
        ensures
            r@ == self.config_dir_view(),
    {
        self.config_dir.as_str()
    }
}

} // verus!
