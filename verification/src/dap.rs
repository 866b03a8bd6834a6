//! Decisions around debug-adapter launch requests: which adapter names are
//! served and how a debug configuration's request kind is read.

use vstd::prelude::*;
use vstd::string::*;
use crate::text;

verus! {

broadcast use vstd::string::group_string_axioms;

/// How a debug session is started.
#[derive(Clone, Copy, PartialEq, Eq, Structural, Debug)]
pub enum RequestKind {
    Launch,
    Attach,
}

/// The adapter names served: the debug adapter's own name, and `coreclr` as
/// an accepted alias.
pub open spec fn adapter_supported_spec(name: Seq<char>) -> bool {
    name == "netcoredbg"@ || name == "coreclr"@
}

/// Whether a requested adapter name is served.
pub fn adapter_supported(name: &str) -> (r: bool)
    ensures
        r == adapter_supported_spec(name@),
{
    text::str_eq(name, "netcoredbg") || text::str_eq(name, "coreclr")
}

/// Reads the request kind out of a debug configuration's `request` value:
/// `launch` and `attach` are accepted, anything else is reported, a missing
/// value is reported as missing.
pub fn parse_request_kind(request: Option<String>) -> (r: Result<RequestKind, String>)
    ensures
        match request {
            Some(v) => {
                if v@ == "launch"@ {
                    r == Ok::<RequestKind, String>(RequestKind::Launch)
                } else if v@ == "attach"@ {
                    r == Ok::<RequestKind, String>(RequestKind::Attach)
                } else {
                    r matches Err(e) && e@ == "Invalid 'request' value: '"@ + v@
                        + "'. Expected 'launch' or 'attach'"@
                }
            },
            None => r matches Err(e) && e@
                == "Debug configuration missing required 'request' field. Must be 'launch' or 'attach'"@,
        },
{
    match request {
        Some(v) => {
            if text::str_eq(v.as_str(), "launch") {
                Ok(RequestKind::Launch)
            } else if text::str_eq(v.as_str(), "attach") {
                Ok(RequestKind::Attach)
            } else {
                Err(
                    text::concat3(
                        "Invalid 'request' value: '",
                        v.as_str(),
                        "'. Expected 'launch' or 'attach'",
                    ),
                )
            }
        },
        None => Err(
            "Debug configuration missing required 'request' field. Must be 'launch' or 'attach'".to_owned(),
        ),
    }
}

/// Whether a serialized debug configuration asks for a launch: the fallback
/// used when only the raw configuration text is at hand.
pub fn config_requests_launch(configuration: &str) -> (r: bool)
    ensures
        r == text::contains_seq(configuration@, "\"request\":\"launch\""@),
{
    text::str_contains(configuration, "\"request\":\"launch\"")
}

} // verus!
