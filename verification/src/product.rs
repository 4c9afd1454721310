//! Product configuration: the application's name, version, identifiers and
//! links, as in VS Code's `product.json`. Reading an override file next to
//! the binary is the application's part.

use vstd::prelude::*;

use vstd::utf8::{decode_utf8, encode_utf8, encode_utf8_decode_utf8, is_char_boundary};

use crate::paths::{join_path, path_join};

verus! {

/// Calls `dirs::home_dir`, converting the path to text (lossily, for a home
/// directory that is not valid UTF-8). The answer depends on the user and
/// the machine, so nothing is claimed of it.
#[verifier::external_body]
fn home_dir() -> Option<String> {
    dirs::home_dir().map(|p| p.to_string_lossy().into_owned())
}

/// Application-level product configuration.
#[derive(Debug, Clone)]
pub struct ProductConfig {
    /// Short product name (such as `"SideX"`).
    pub name: String,
    /// SemVer version (such as `"0.2.0"`).
    pub version: String,
    /// Long product name.
    pub name_long: String,
    /// Binary and application identifier (data directories, IPC).
    pub application_name: String,
    /// Dot-directory name for user data (such as `".sidex"`).
    pub data_folder_name: String,
    /// Custom URL protocol.
    pub url_protocol: String,
    /// Extension marketplace API endpoint.
    pub extension_gallery_url: Option<String>,
    /// Auto-update endpoint.
    pub update_url: Option<String>,
    /// Git commit hash at build time.
    pub commit: Option<String>,
    /// ISO-8601 build date.
    pub date: Option<String>,
    /// Release quality channel (`"stable"` or `"insiders"`).
    pub quality: String,
    /// License URL.
    pub license_url: Option<String>,
    /// Issue tracker URL.
    pub report_issue_url: Option<String>,
    /// Documentation URL.
    pub documentation_url: Option<String>,
}

/// The commit as shown in a version line: its first seven bytes when it has
/// that many, else all of it.
pub open spec fn short_commit(c: Seq<char>) -> Seq<char> {
    if encode_utf8(c).len() >= 7 {
        decode_utf8(encode_utf8(c).subrange(0, 7))
    } else {
        c
    }
}

/// Whether the first seven bytes of `c` (when it has that many) end on a
/// character boundary, so that the short commit can be cut there.
pub open spec fn commit_cuttable(c: Seq<char>) -> bool {
    encode_utf8(c).len() >= 7 ==> is_char_boundary(encode_utf8(c), 7)
}

/// `NAME VERSION`, followed by ` (SHORT)` when a commit is known.
pub open spec fn version_line(name: Seq<char>, version: Seq<char>, commit: Option<Seq<char>>) -> Seq<char> {
    let base = name + " "@ + version;
    match commit {
        Some(c) => base + " ("@ + short_commit(c) + ")"@,
        None => base,
    }
}

impl ProductConfig {
    /// A one-line version string for `--version` output.
    pub fn version_string(&self) -> (r: String)
        requires
            self.commit matches Some(c) ==> commit_cuttable(c@),
        ensures
            r@ == version_line(
                self.name@,
                self.version@,
                match self.commit {
                    Some(c) => Some(c@),
                    None => None,
                },
            ),
    {
        let mut s = self.name.clone();
        s.append(" ");
        s.append(self.version.as_str());
        match &self.commit {
            Some(commit) => {
                let c = commit.as_str();
                let bytes = c.as_bytes();
                let short: &str = if bytes.len() >= 7 {
                    let (head, _) = c.split_at(7);
                    proof {
                        encode_utf8_decode_utf8(head@);
                    }
                    head
                } else {
                    c
                };
                let ghost base = s@;
                s.append(" (");
                s.append(short);
                s.append(")");
                assert(short@ == short_commit(commit@));
                assert(s@ =~= base + " ("@ + short_commit(commit@) + ")"@);
            },
            None => {},
        }
        s
    }

    /// The user-data directory for home directory `home`: the data folder
    /// under it; none without a home directory.
    pub fn data_dir_in(&self, home: Option<&str>) -> (r: Option<String>)
        ensures
            match home {
                Some(h) => r matches Some(p) && p@ == path_join(h@, self.data_folder_name@),
                None => r is None,
            },
    {
        match home {
            Some(h) => Some(join_path(h, self.data_folder_name.as_str())),
            None => None,
        }
    }

    /// The user-data directory: the data folder under the home directory,
    /// when the home directory is known (see `data_dir_in`). Whether it is
    /// known, and where, depends on the user and the machine.
    pub fn data_dir(&self) -> (r: Option<String>)
        ensures
            r matches Some(p) ==> exists|home: Seq<char>| p@ == path_join(home, self.data_folder_name@),
    {
        match home_dir() {
            Some(home) => self.data_dir_in(Some(home.as_str())),
            None => self.data_dir_in(None),
        }
    }
}

impl Default for ProductConfig {
    /// The built-in configuration.
    fn default() -> (r: Self)
        ensures
            r.name@ == "SideX"@,
            r.version@ == "0.1.0"@,
            r.name_long@ == "SideX - Code Editor"@,
            r.application_name@ == "sidex"@,
            r.data_folder_name@ == ".sidex"@,
            r.url_protocol@ == "sidex"@,
            r.extension_gallery_url is None,
            r.update_url is None,
            r.commit is None,
            r.date is None,
            r.quality@ == "stable"@,
            r.license_url matches Some(u) && u@ == "https://github.com/sidenai/sidex/blob/main/LICENSE"@,
            r.report_issue_url matches Some(u) && u@ == "https://github.com/sidenai/sidex/issues"@,
            r.documentation_url matches Some(u) && u@ == "https://github.com/sidenai/sidex/wiki"@,
    {
        ProductConfig {
            name: String::from_str("SideX"),
            version: String::from_str("0.1.0"),
            name_long: String::from_str("SideX - Code Editor"),
            application_name: String::from_str("sidex"),
            data_folder_name: String::from_str(".sidex"),
            url_protocol: String::from_str("sidex"),
            extension_gallery_url: None,
            update_url: None,
            commit: None,
            date: None,
            quality: String::from_str("stable"),
            license_url: Some(String::from_str("https://github.com/sidenai/sidex/blob/main/LICENSE")),
            report_issue_url: Some(String::from_str("https://github.com/sidenai/sidex/issues")),
            documentation_url: Some(String::from_str("https://github.com/sidenai/sidex/wiki")),
        }
    }
}

} // verus!
