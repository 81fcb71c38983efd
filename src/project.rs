//! Deciding whether a directory holds a site project, from what its
//! configuration and package files hold; and the helpers for showing a
//! folder in the system's file manager.
use vstd::prelude::*;

use crate::platform::Platform;
use crate::text::{chars_of, contains, has_substring, push_char, string_of};

verus! {

/// What reading one file of the directory gave.
pub enum FileProbe {
    /// The file does not exist.
    Missing,
    /// The file exists but could not be read as text.
    Unreadable,
    /// The file's text.
    Text(String),
}

/// The answer to a project check.
pub struct ValidationResult {
    pub valid: bool,
    pub message: String,
}

/// `probe` read a text for which `has` holds.
pub open spec fn text_has(probe: FileProbe, pat: Seq<char>) -> bool {
    match probe {
        FileProbe::Text(t) => has_substring(t@, pat),
        _ => false,
    }
}

/// The message for a valid project, in English for "en" and Chinese
/// otherwise.
pub open spec fn valid_text(language: Seq<char>) -> Seq<char> {
    if language == "en"@ {
        "Valid Hexo Project"@
    } else {
        "有效的Hexo项目"@
    }
}

/// The message for a directory that is no project.
pub open spec fn invalid_text(language: Seq<char>) -> Seq<char> {
    if language == "en"@ {
        "Not a valid Hexo project directory"@
    } else {
        "不是有效的Hexo项目目录"@
    }
}

/// The message for a directory whose configuration file exists but names
/// neither a title nor a theme, with no package file naming the tool.
pub open spec fn config_found_text() -> Seq<char> {
    "找到Hexo配置文件"@
}

/// The verdict of a project check: valid exactly when the configuration
/// file exists, with a message that tells how sure the check is.
pub open spec fn validation(config: FileProbe, package: FileProbe, language: Seq<char>) -> (bool, Seq<char>) {
    if config is Missing {
        (false, invalid_text(language))
    } else if text_has(config, "title:"@) || text_has(config, "theme:"@) || text_has(
        package,
        "hexo"@,
    ) {
        (true, valid_text(language))
    } else {
        (true, config_found_text())
    }
}

/// Whether `probe` read a text holding `pat`.
fn probe_has(probe: &FileProbe, pat: &str) -> (r: bool)
    ensures
        r == text_has(*probe, pat@),
{
    match probe {
        FileProbe::Text(t) => contains(t.as_str(), pat),
        _ => false,
    }
}

/// Checks a project directory from its configuration file (`_config.yml`)
/// and its package file (`package.json`).
pub fn validate_hexo_project(config: &FileProbe, package: &FileProbe, language: &str) -> (r: ValidationResult)
    ensures
        (r.valid, r.message@) == validation(*config, *package, language@),
{
    let english = String::from_str(language) == String::from_str("en");
    if let FileProbe::Missing = config {
        let message = if english {
            String::from_str("Not a valid Hexo project directory")
        } else {
            String::from_str("不是有效的Hexo项目目录")
        };
        return ValidationResult { valid: false, message };
    }
    if probe_has(config, "title:") || probe_has(config, "theme:") || probe_has(package, "hexo") {
        let message = if english {
            String::from_str("Valid Hexo Project")
        } else {
            String::from_str("有效的Hexo项目")
        };
        return ValidationResult { valid: true, message };
    }
    ValidationResult { valid: true, message: String::from_str("找到Hexo配置文件") }
}

/// A path as the platform's file manager takes it: on Windows each `/`
/// becomes `\`.
pub open spec fn normalized_path(path: Seq<char>, p: Platform) -> Seq<char> {
    if p is Windows {
        path.map_values(|c: char| if c == '/' { '\\' } else { c })
    } else {
        path
    }
}

/// Writes a path the way the platform's file manager takes it.
pub fn normalize_path(path: &str, platform: Platform) -> (r: String)
    ensures
        r@ == normalized_path(path@, platform),
{
    let v = chars_of(path);
    match platform {
        Platform::Windows => {
            let mut r = String::new();
            let mut i: usize = 0;
            while i < v.len()
                invariant
                    i <= v.len(),
                    v@ == path@,
                    r@ == v@.subrange(0, i as int).map_values(
                        |c: char|
                            if c == '/' {
                                '\\'
                            } else {
                                c
                            },
                    ),
                decreases v.len() - i,
            {
                let c = v[i];
                push_char(&mut r, if c == '/' { '\\' } else { c });
                i = i + 1;
                assert(r@ =~= v@.subrange(0, i as int).map_values(
                    |c: char|
                        if c == '/' {
                            '\\'
                        } else {
                            c
                        },
                ));
            }
            assert(v@.subrange(0, v.len() as int) =~= v@);
            r
        },
        _ => string_of(&v),
    }
}

/// The program that opens a folder on `p`.
pub open spec fn opener(p: Platform) -> Seq<char> {
    match p {
        Platform::Windows => "explorer"@,
        Platform::MacOs => "open"@,
        Platform::Linux => "xdg-open"@,
    }
}

/// The program that opens a folder: Explorer, `open`, or `xdg-open`.
pub fn folder_opener(platform: Platform) -> (r: &'static str)
    ensures
        r@ == opener(platform),
{
    match platform {
        Platform::Windows => "explorer",
        Platform::MacOs => "open",
        Platform::Linux => "xdg-open",
    }
}

/// The error for a path that does not exist.
pub fn missing_path_error(path: &str) -> (r: String)
    ensures
        r@ == "Path does not exist: "@ + path@,
{
    let mut s = String::from_str("Path does not exist: ");
    s.append(path);
    s
}

/// The error for a folder the opener could not be started on.
pub fn open_failed_error(message: &str) -> (r: String)
    ensures
        r@ == "Failed to open folder: "@ + message@,
{
    let mut s = String::from_str("Failed to open folder: ");
    s.append(message);
    s
}

} // verus!
