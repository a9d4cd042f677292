use wifi_kicker::bandwidth_limit_rules;
use wifi_kicker::monitoring_rules;
use wifi_kicker::str_contains;
use wifi_kicker::u32_to_string;
use wifi_kicker::updated_pf_conf;

#[test]
fn monitoring_rules_match_template() {
    let text = monitoring_rules("10.0.0.5");
    assert_eq!(
        text,
        "# Monitoring rules for 10.0.0.5\n\
         block drop in proto {tcp udp icmp} from 10.0.0.5 to any\n\
         block drop out proto {tcp udp icmp} from any to 10.0.0.5\n"
    );
}

#[test]
fn bandwidth_rules_with_both_limits() {
    let text = bandwidth_limit_rules("192.168.1.7", Some(100), Some(200));
    assert_eq!(
        text,
        "# Bandwidth limiting rules for 192.168.1.7\n\
         pass out proto tcp from 192.168.1.7 to any flags S/SA keep state \
         (max-src-states 100, max-src-conn-rate 100/5)\n\
         pass in proto tcp from any to 192.168.1.7 flags S/SA keep state \
         (max-src-states 200, max-src-conn-rate 200/5)\n"
    );
}

#[test]
fn bandwidth_rules_upload_only() {
    let text = bandwidth_limit_rules("10.1.1.1", Some(50), None);
    assert_eq!(
        text,
        "# Bandwidth limiting rules for 10.1.1.1\n\
         pass out proto tcp from 10.1.1.1 to any flags S/SA keep state \
         (max-src-states 50, max-src-conn-rate 50/5)\n"
    );
}

#[test]
fn bandwidth_rules_download_only() {
    let text = bandwidth_limit_rules("10.1.1.2", None, Some(75));
    assert_eq!(
        text,
        "# Bandwidth limiting rules for 10.1.1.2\n\
         pass in proto tcp from any to 10.1.1.2 flags S/SA keep state \
         (max-src-states 75, max-src-conn-rate 75/5)\n"
    );
}

#[test]
fn bandwidth_rules_without_limits_is_header_only() {
    let text = bandwidth_limit_rules("10.1.1.3", None, None);
    assert_eq!(text, "# Bandwidth limiting rules for 10.1.1.3\n");
}

#[test]
fn decimal_formatting() {
    assert_eq!(u32_to_string(0), "0");
    assert_eq!(u32_to_string(7), "7");
    assert_eq!(u32_to_string(42), "42");
    assert_eq!(u32_to_string(100), "100");
    assert_eq!(u32_to_string(1000), "1000");
    assert_eq!(u32_to_string(4294967295), "4294967295");
}

#[test]
fn substring_search() {
    assert!(str_contains("hello world", "lo w"));
    assert!(str_contains("hello", "hello"));
    assert!(!str_contains("hello", "world"));
    assert!(str_contains("abc", ""));
    assert!(!str_contains("", "x"));
    assert!(str_contains("aaab", "aab"));
    assert!(!str_contains("aab", "aaab"));
}

#[test]
fn conf_update_appends_anchor_line() {
    let updated = updated_pf_conf("set skip on lo0");
    assert_eq!(
        updated.as_deref(),
        Some("set skip on lo0\nanchor \"com.wifi-kicker\"\n")
    );
}

#[test]
fn conf_update_skips_marked_configuration() {
    let conf = "set skip on lo0\nanchor \"com.wifi-kicker\"\n";
    assert_eq!(updated_pf_conf(conf), None);
}

#[test]
fn conf_update_is_idempotent() {
    let first = updated_pf_conf("").expect("empty configuration lacks the marker");
    assert_eq!(first, "\nanchor \"com.wifi-kicker\"\n");
    assert_eq!(updated_pf_conf(&first), None);
}
