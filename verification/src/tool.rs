//! Decisions of the external-tool backend: classifying the tool's
//! failure text and reading its transfer statistics output.
//!
//! Rendering the configuration the tool consumes is the codec's job;
//! writing it to disk and invoking the tool are platform work done by
//! the surrounding application, which hands the tool's text back here.

use vstd::prelude::*;
use vstd::string::StrSliceExecFns;
use vstd::string::StringExecFns;

use crate::text::contains_seq;
use crate::text::contains_substr;
use crate::text::find_char;
use crate::text::find_char_in;
use crate::text::parse_u64_dec;
use crate::text::parse_u64_spec;
use crate::types::VpnError;

verus! {

/// Whether the tool's failure text names a permission or elevation
/// problem.
pub open spec fn spec_tool_permission_fault(s: Seq<char>) -> bool {
    contains_seq(s, "Operation not permitted"@) || contains_seq(s, "Permission denied"@)
}

/// Classifies the failure text of the external tunnel tool: a
/// permission or elevation phrase means missing privileges; anything
/// else is a generic tunnel error carrying the text.
pub fn classify_tool_failure(stderr: String) -> (r: VpnError)
    ensures
        spec_tool_permission_fault(stderr@) ==> (r matches VpnError::PermissionDenied(t) && t@
            == "WireGuard requires root privileges"@),
        !spec_tool_permission_fault(stderr@) ==> (r matches VpnError::WireGuardError(t) && t@
            == "wg-quick failed: "@ + stderr@),
{
    if contains_substr(stderr.as_str(), "Operation not permitted") || contains_substr(
        stderr.as_str(),
        "Permission denied",
    ) {
        VpnError::PermissionDenied(String::from_str("WireGuard requires root privileges"))
    } else {
        let mut t = String::from_str("wg-quick failed: ");
        t.append(stderr.as_str());
        VpnError::WireGuardError(t)
    }
}

/// What the tool's statistics query yields: the first line is read as
/// tab-separated `peer`, `received`, `sent`; on any shape or number
/// fault the counters default to zero, because statistics are
/// advisory.
pub open spec fn spec_tool_stats(s: Seq<char>) -> (u64, u64) {
    let line = match find_char(s, '\n') {
        None => s,
        Some(i) => s.take(i),
    };
    match find_char(line, '\t') {
        None => (0u64, 0u64),
        Some(i) => {
            let rest = line.skip(i + 1);
            match find_char(rest, '\t') {
                None => (0u64, 0u64),
                Some(j) => match (parse_u64_spec(rest.take(j)), parse_u64_spec(rest.skip(j + 1))) {
                    (Some(rx), Some(tx)) => (rx, tx),
                    _ => (0u64, 0u64),
                },
            }
        },
    }
}

/// Reads the tool's statistics output as `(received, sent)`.
pub fn parse_tool_stats(out: &str) -> (r: (u64, u64))
    ensures
        r == spec_tool_stats(out@),
{
    let line = match find_char_in(out, '\n') {
        None => out,
        Some(i) => {
            let l = out.substring_char(0, i);
            proof {
                assert(l@ =~= out@.take(i as int));
            }
            l
        },
    };
    let ln = line.unicode_len();
    let i = match find_char_in(line, '\t') {
        None => {
            return (0, 0);
        },
        Some(i) => i,
    };
    let rest = line.substring_char(i + 1, ln);
    proof {
        assert(rest@ =~= line@.skip(i + 1));
    }
    let rn = rest.unicode_len();
    let j = match find_char_in(rest, '\t') {
        None => {
            return (0, 0);
        },
        Some(j) => j,
    };
    let rx_text = rest.substring_char(0, j);
    let tx_text = rest.substring_char(j + 1, rn);
    proof {
        assert(rx_text@ =~= rest@.take(j as int));
        assert(tx_text@ =~= rest@.skip(j + 1));
    }
    match (parse_u64_dec(rx_text), parse_u64_dec(tx_text)) {
        (Some(rx), Some(tx)) => (rx, tx),
        _ => (0, 0),
    }
}

} // verus!
