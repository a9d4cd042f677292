//! The persistent anchor: its marker, the anchor line, and the idempotent
//! insertion of that line into the main packet-filter configuration.

use vstd::prelude::*;
use vstd::string::StringExecFns;

use crate::text::contains_seq_at;
use crate::text::seq_contains;
use crate::text::str_contains;

verus! {

/// The marker that identifies this tool's rules inside the system
/// configuration: the name of the anchor file it installs.
pub open spec fn marker() -> Seq<char> {
    "com.wifi-kicker"@
}

/// The line that hooks the installed anchor file into the main
/// configuration: `anchor "com.wifi-kicker"`.
pub open spec fn anchor_line() -> Seq<char> {
    "anchor \""@ + marker() + "\""@
}

/// `conf` followed by a blank separator, the anchor line, and a final
/// newline: the configuration after the anchor has been hooked in.
pub open spec fn spec_with_anchor(conf: Seq<char>) -> Seq<char> {
    conf + "\n"@ + anchor_line() + "\n"@
}

/// Whether the main configuration already names this tool's anchor.
pub fn conf_contains_marker(conf: &str) -> (r: bool)
    ensures
        r == seq_contains(conf@, marker()),
{
    str_contains(conf, "com.wifi-kicker")
}

/// Appends the anchor line to `conf`.
pub fn with_anchor(conf: &str) -> (r: String)
    ensures
        r@ == spec_with_anchor(conf@),
{
    let mut r = String::from_str(conf);
    r.append("\n");
    r.append("anchor \"");
    r.append("com.wifi-kicker");
    r.append("\"");
    r.append("\n");
    proof {
        assert(r@ =~= spec_with_anchor(conf@));
    }
    r
}

/// The configuration update the persistent flag asks for: `None` when the
/// marker is already present (nothing to change), otherwise the
/// configuration with the anchor line appended.
pub fn updated_pf_conf(conf: &str) -> (r: Option<String>)
    ensures
        r is None <==> seq_contains(conf@, marker()),
        r matches Some(u) ==> u@ == spec_with_anchor(conf@),
{
    if conf_contains_marker(conf) {
        None
    } else {
        Some(with_anchor(conf))
    }
}

/// Inserting the anchor line is idempotent: a configuration that has just
/// received it carries the marker, so a second insertion finds the marker
/// and changes nothing.
pub proof fn lemma_anchor_insertion_idempotent(conf: Seq<char>)
    ensures
        seq_contains(spec_with_anchor(conf), marker()),
{
    reveal_strlit("\n");
    reveal_strlit("anchor \"");
    reveal_strlit("\"");
    let w = spec_with_anchor(conf);
    let i: int = conf.len() as int + 1 + 8;
    assert(w.subrange(i, i + marker().len() as int) =~= marker());
    assert(contains_seq_at(w, marker(), i));
}

} // verus!
