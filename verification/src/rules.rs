//! The text of the packet-filter rule files, stated character for character.
//!
//! Every rule file the tool writes is regenerated in full from the target
//! address and the requested limits; the spec functions here are the exact
//! contents.

use vstd::prelude::*;
use vstd::string::StringExecFns;

use crate::text::decimal_chars;
use crate::text::u32_to_string;

verus! {

/// The monitoring rule file for the address `ip`: a comment line, then a
/// rule blocking inbound traffic from the address and one blocking outbound
/// traffic to it.
pub open spec fn spec_monitoring_rules(ip: Seq<char>) -> Seq<char> {
    "# Monitoring rules for "@ + ip + "\nblock drop in proto {tcp udp icmp} from "@ + ip
        + " to any\nblock drop out proto {tcp udp icmp} from any to "@ + ip + "\n"@
}

/// The rate-limiting rule for traffic leaving `ip`, capped at `up`.
pub open spec fn spec_upload_rule(ip: Seq<char>, up: u32) -> Seq<char> {
    "pass out proto tcp from "@ + ip + " to any flags S/SA keep state (max-src-states "@
        + decimal_chars(up as nat) + ", max-src-conn-rate "@ + decimal_chars(up as nat) + "/5)\n"@
}

/// The rate-limiting rule for traffic reaching `ip`, capped at `down`.
pub open spec fn spec_download_rule(ip: Seq<char>, down: u32) -> Seq<char> {
    "pass in proto tcp from any to "@ + ip + " flags S/SA keep state (max-src-states "@
        + decimal_chars(down as nat) + ", max-src-conn-rate "@ + decimal_chars(down as nat)
        + "/5)\n"@
}

/// The bandwidth-limit rule file for `ip`: a comment line, then one rule per
/// requested direction. With neither limit given, the file is the comment
/// alone.
pub open spec fn spec_bandwidth_rules(
    ip: Seq<char>,
    upload: Option<u32>,
    download: Option<u32>,
) -> Seq<char> {
    "# Bandwidth limiting rules for "@ + ip + "\n"@ + (match upload {
        Some(up) => spec_upload_rule(ip, up),
        None => Seq::<char>::empty(),
    }) + (match download {
        Some(down) => spec_download_rule(ip, down),
        None => Seq::<char>::empty(),
    })
}

/// Builds the monitoring rule file for `ip`.
pub fn monitoring_rules(ip: &str) -> (r: String)
    ensures
        r@ == spec_monitoring_rules(ip@),
{
    let mut r = String::from_str("# Monitoring rules for ");
    r.append(ip);
    r.append("\nblock drop in proto {tcp udp icmp} from ");
    r.append(ip);
    r.append(" to any\nblock drop out proto {tcp udp icmp} from any to ");
    r.append(ip);
    r.append("\n");
    proof {
        assert(r@ =~= spec_monitoring_rules(ip@));
    }
    r
}

/// Builds the bandwidth-limit rule file for `ip` with the requested caps.
pub fn bandwidth_limit_rules(ip: &str, upload: Option<u32>, download: Option<u32>) -> (r: String)
    ensures
        r@ == spec_bandwidth_rules(ip@, upload, download),
{
    let mut r = String::from_str("# Bandwidth limiting rules for ");
    r.append(ip);
    r.append("\n");
    if let Some(up) = upload {
        let cap = u32_to_string(up);
        r.append("pass out proto tcp from ");
        r.append(ip);
        r.append(" to any flags S/SA keep state (max-src-states ");
        r.append(cap.as_str());
        r.append(", max-src-conn-rate ");
        r.append(cap.as_str());
        r.append("/5)\n");
    }
    if let Some(down) = download {
        let cap = u32_to_string(down);
        r.append("pass in proto tcp from any to ");
        r.append(ip);
        r.append(" flags S/SA keep state (max-src-states ");
        r.append(cap.as_str());
        r.append(", max-src-conn-rate ");
        r.append(cap.as_str());
        r.append("/5)\n");
    }
    proof {
        assert(r@ =~= spec_bandwidth_rules(ip@, upload, download));
    }
    r
}

} // verus!
