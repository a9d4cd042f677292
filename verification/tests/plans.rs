use wifi_kicker::is_root;
use wifi_kicker::plan::CliError;
use wifi_kicker::plan::Step;
use wifi_kicker::remove_rules;
use wifi_kicker::save_state;
use wifi_kicker::scan_network;
use wifi_kicker::setup_bandwidth_limit;
use wifi_kicker::setup_monitoring;
use wifi_kicker::show_status;

fn write(path: &str, contents: &str) -> Step {
    Step::Write { path: path.to_string(), contents: contents.to_string() }
}

fn sudo(program: &str, args: &[&str]) -> Step {
    Step::Command {
        program: program.to_string(),
        args: args.iter().map(|a| a.to_string()).collect(),
        sudo: true,
        ignore_failure: false,
    }
}

fn plain(program: &str, args: &[&str]) -> Step {
    Step::Command {
        program: program.to_string(),
        args: args.iter().map(|a| a.to_string()).collect(),
        sudo: false,
        ignore_failure: false,
    }
}

fn enable_filter() -> Step {
    Step::Command {
        program: "pfctl".to_string(),
        args: vec!["-e".to_string()],
        sudo: true,
        ignore_failure: true,
    }
}

#[test]
fn root_id_outputs() {
    assert!(is_root("0\n"));
    assert!(is_root("0"));
    assert!(is_root(" 0\t\n"));
    assert!(!is_root("501\n"));
    assert!(!is_root(""));
    assert!(!is_root("00"));
    assert!(!is_root("10"));
    assert!(!is_root(" \n"));
}

#[test]
fn monitor_refused_without_root() {
    let r = setup_monitoring("10.0.0.9", false, false, None);
    assert_eq!(r, Err(CliError::RootRequired));
    assert_eq!(
        CliError::RootRequired.message(),
        "This command requires root privileges. Please run with sudo."
    );
}

#[test]
fn monitor_plan_without_persistence() {
    let plan = setup_monitoring("10.0.0.9", false, true, None).unwrap();
    let rules = "# Monitoring rules for 10.0.0.9\n\
                 block drop in proto {tcp udp icmp} from 10.0.0.9 to any\n\
                 block drop out proto {tcp udp icmp} from any to 10.0.0.9\n";
    assert_eq!(
        plan,
        vec![
            write("/tmp/pf.rules", rules),
            enable_filter(),
            sudo("pfctl", &["-f", "/tmp/pf.rules"]),
        ]
    );
}

#[test]
fn monitor_plan_persistent_inserts_anchor_once() {
    let conf = "set skip on lo0";
    let plan = setup_monitoring("10.0.0.9", true, true, Some(conf)).unwrap();
    assert_eq!(plan.len(), 6);
    assert_eq!(
        plan[1],
        sudo("cp", &["/tmp/pf.rules", "/etc/pf.anchors/com.wifi-kicker"])
    );
    assert_eq!(
        plan[2],
        write(
            "/tmp/pf.conf",
            "set skip on lo0\nanchor \"com.wifi-kicker\"\n"
        )
    );
    assert_eq!(plan[3], sudo("cp", &["/tmp/pf.conf", "/etc/pf.conf"]));
}

#[test]
fn monitor_plan_persistent_skips_marked_conf() {
    let conf = "set skip on lo0\nanchor \"com.wifi-kicker\"\n";
    let plan = setup_monitoring("10.0.0.9", true, true, Some(conf)).unwrap();
    assert_eq!(plan.len(), 4);
    assert_eq!(
        plan[1],
        sudo("cp", &["/tmp/pf.rules", "/etc/pf.anchors/com.wifi-kicker"])
    );
    assert_eq!(plan[2], enable_filter());
    assert_eq!(plan[3], sudo("pfctl", &["-f", "/tmp/pf.rules"]));
}

#[test]
fn save_state_twice_stages_conf_update_only_once() {
    let first = save_state("rules-a\n", true, Some(""));
    assert_eq!(first.len(), 4);
    let staged = match &first[2] {
        Step::Write { path, contents } => {
            assert_eq!(path, "/tmp/pf.conf");
            contents.clone()
        }
        other => panic!("expected a staged configuration write, got {:?}", other),
    };
    let second = save_state("rules-b\n", true, Some(&staged));
    assert_eq!(
        second,
        vec![
            write("/tmp/pf.rules", "rules-b\n"),
            sudo("cp", &["/tmp/pf.rules", "/etc/pf.anchors/com.wifi-kicker"]),
        ]
    );
}

#[test]
fn limit_refused_without_root() {
    let r = setup_bandwidth_limit("10.0.0.9", Some(10), None, false, false, None);
    assert_eq!(r, Err(CliError::RootRequired));
}

#[test]
fn limit_plan_without_persistence() {
    let plan = setup_bandwidth_limit("10.0.0.9", Some(10), Some(20), false, true, None).unwrap();
    let rules = "# Bandwidth limiting rules for 10.0.0.9\n\
                 pass out proto tcp from 10.0.0.9 to any flags S/SA keep state \
                 (max-src-states 10, max-src-conn-rate 10/5)\n\
                 pass in proto tcp from any to 10.0.0.9 flags S/SA keep state \
                 (max-src-states 20, max-src-conn-rate 20/5)\n";
    assert_eq!(
        plan,
        vec![
            write("/tmp/pf.rules", rules),
            enable_filter(),
            sudo("pfctl", &["-f", "/tmp/pf.rules"]),
        ]
    );
}

#[test]
fn remove_refused_without_root() {
    let r = remove_rules("10.0.0.9", false, false);
    assert_eq!(r, Err(CliError::RootRequired));
}

#[test]
fn remove_plan_with_installed_anchor() {
    let plan = remove_rules("10.0.0.9", true, true).unwrap();
    assert_eq!(
        plan,
        vec![
            sudo("pfctl", &["-F", "all"]),
            sudo("rm", &["/etc/pf.anchors/com.wifi-kicker"]),
        ]
    );
}

#[test]
fn remove_plan_without_anchor() {
    let plan = remove_rules("10.0.0.9", true, false).unwrap();
    assert_eq!(plan, vec![sudo("pfctl", &["-F", "all"])]);
}

#[test]
fn status_refused_without_root() {
    let r = show_status(false);
    assert_eq!(r, Err(CliError::RootRequired));
}

#[test]
fn status_plan_lists_rules_then_states() {
    let plan = show_status(true).unwrap();
    assert_eq!(
        plan,
        vec![sudo("pfctl", &["-sr"]), sudo("pfctl", &["-ss"])]
    );
}

#[test]
fn scan_refused_for_missing_interface() {
    let r = scan_network("en5", false);
    let err = r.expect_err("a missing interface is refused");
    assert_eq!(
        err,
        CliError::InterfaceNotFound { interface: "en5".to_string() }
    );
    assert_eq!(err.message(), "Interface en5 not found");
}

#[test]
fn scan_plan_for_existing_interface() {
    let plan = scan_network("en0", true).unwrap();
    assert_eq!(
        plan,
        vec![
            plain("networksetup", &["-getairportnetwork", "en0"]),
            plain("ifconfig", &["en0"]),
            plain("nmap", &["-sn", "-een0", "-oG", "-"]),
            plain("arp", &["-a"]),
        ]
    );
}
