//! User-facing configuration of the extension: the solution-search mode and
//! the language-server log level, with validation of the latter.

use vstd::prelude::*;
use vstd::string::*;
use crate::text;

verus! {

/// Configuration for the C# extension.
pub struct ExtensionConfig {
    /// Enable broad search for solution files (searches parent directories).
    pub broad_search: bool,
    /// Log level for the language server.
    pub log_level: String,
}

/// The log levels the language server accepts.
pub open spec fn valid_log_level(level: Seq<char>) -> bool {
    level == "Debug"@ || level == "Information"@ || level == "Warning"@ || level == "Error"@
}

impl Default for ExtensionConfig {
    /// Broad search off, log level `Information`.
    fn default() -> (r: Self)
        ensures
            r.broad_search == false,
            r.log_level@ == "Information"@,
    {
        ExtensionConfig { broad_search: false, log_level: "Information".to_owned() }
    }
}

impl ExtensionConfig {
    /// The default configuration with any provided settings applied over it.
    /// A setting left out keeps its default.
    pub fn from_settings(broad_search: Option<bool>, log_level: Option<String>) -> (r: Self)
        ensures
            r.broad_search == match broad_search {
                Some(b) => b,
                None => false,
            },
            r.log_level@ == match log_level {
                Some(l) => l@,
                None => "Information"@,
            },
    {
        let base_level: String = match log_level {
            Some(l) => l,
            None => "Information".to_owned(),
        };
        ExtensionConfig {
            broad_search: match broad_search {
                Some(b) => b,
                None => false,
            },
            log_level: base_level,
        }
    }

    /// Accepts exactly the four known log levels and reports any other value
    /// in the error text.
    pub fn validate(&self) -> (r: Result<(), String>)
        ensures
            r is Ok <==> valid_log_level(self.log_level@),
            r matches Err(e) ==> e@ == "Invalid log_level '"@ + self.log_level@
                + "'. Expected one of: Debug, Information, Warning, Error"@,
    {
        let level = self.log_level.as_str();
        if text::str_eq(level, "Debug") || text::str_eq(level, "Information") || text::str_eq(
            level,
            "Warning",
        ) || text::str_eq(level, "Error") {
            Ok(())
        } else {
            Err(
                text::concat3(
                    "Invalid log_level '",
                    level,
                    "'. Expected one of: Debug, Information, Warning, Error",
                ),
            )
        }
    }
}

} // verus!
