//! The chassis: which of the four servers the command line asks for.
use vstd::prelude::*;

use crate::text::{text_eq, to_lowercase, unicode_lowercase};

verus! {

/// The four servers of the chassis.
#[derive(Clone, Copy, Debug, PartialEq, Eq, Structural)]
pub enum ServerKind {
    Firecrawl,
    Crates,
    Borrow,
    Appliance,
}

pub const SERVER_FLAG: &'static str = "--server";

pub const FIRECRAWL_NAME: &'static str = "firecrawl";

pub const CRATES_NAME: &'static str = "crates";

pub const BORROW_NAME: &'static str = "borrow";

pub const APPLIANCE_NAME: &'static str = "appliance";

/// How to start the chassis, as printed when the command line selects no server.
pub const USAGE: &'static str = "\n=== Antigravity Core MCP Server Chassis ===\nUsage: antigravity_core_mcp --server <target>\n\nAvailable Targets:\n  firecrawl   : Launches the Firecrawl search engine client\n  crates      : Launches the Smart Cargo dependency auditor\n  borrow      : Launches the Borrow-Checker and Lifetime Visualizer\n  appliance   : Launches the Idiomatic Pattern Generator\n============================================\n\n";

/// The name that selects a server.
pub open spec fn server_name(k: ServerKind) -> Seq<char> {
    match k {
        ServerKind::Firecrawl => FIRECRAWL_NAME@,
        ServerKind::Crates => CRATES_NAME@,
        ServerKind::Borrow => BORROW_NAME@,
        ServerKind::Appliance => APPLIANCE_NAME@,
    }
}

/// Argument `i` is `--server` and another argument follows it.
pub open spec fn is_server_flag(args: Seq<String>, i: int) -> bool {
    args[i]@ == SERVER_FLAG@ && i + 1 < args.len()
}

/// The position of the argument that names the server: the one after the
/// first `--server` that has an argument after it.
pub fn server_argument(args: &Vec<String>) -> (r: Option<usize>)
    ensures
        match r {
            Some(j) => {
                &&& 1 <= j < args@.len()
                &&& is_server_flag(args@, j - 1)
                &&& forall|i: int| 0 <= i < j - 1 ==> !is_server_flag(args@, i)
            },
            None => forall|i: int| 0 <= i < args@.len() ==> !is_server_flag(args@, i),
        },
{
    let mut i: usize = 0;
    while i < args.len()
        invariant
            i <= args@.len(),
            forall|k: int| 0 <= k < i ==> !is_server_flag(args@, k),
        decreases args@.len() - i,
    {
        if text_eq(args[i].as_str(), SERVER_FLAG) && i + 1 < args.len() {
            return Some(i + 1);
        }
        i += 1;
    }
    None
}

/// The server named by `selection`, matched after lower-casing it; an
/// unknown name comes back lower-cased as the error.
pub fn server_kind(selection: &str) -> (r: Result<ServerKind, String>)
    ensures
        match r {
            Ok(k) => server_name(k) == unicode_lowercase(selection@),
            Err(lower) => {
                &&& lower@ == unicode_lowercase(selection@)
                &&& forall|k: ServerKind| server_name(k) != unicode_lowercase(selection@)
            },
        },
{
    let lower = to_lowercase(selection);
    if text_eq(lower.as_str(), FIRECRAWL_NAME) {
        Ok(ServerKind::Firecrawl)
    } else if text_eq(lower.as_str(), CRATES_NAME) {
        Ok(ServerKind::Crates)
    } else if text_eq(lower.as_str(), BORROW_NAME) {
        Ok(ServerKind::Borrow)
    } else if text_eq(lower.as_str(), APPLIANCE_NAME) {
        Ok(ServerKind::Appliance)
    } else {
        assert forall|k: ServerKind| server_name(k) != unicode_lowercase(selection@) by {
            match k {
                ServerKind::Firecrawl => {},
                ServerKind::Crates => {},
                ServerKind::Borrow => {},
                ServerKind::Appliance => {},
            }
        }
        Err(lower)
    }
}

} // verus!
