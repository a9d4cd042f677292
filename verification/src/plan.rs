//! The command handlers. Each subcommand is a decision from its inputs (the
//! target address, the flags, what the probes reported) to either an error
//! or the exact plan of file writes and commands to perform, stated step by
//! step in its contract. The binary around the library runs the plan.

use vstd::prelude::*;
use vstd::string::StringExecFns;

use crate::conf::marker;
use crate::conf::spec_with_anchor;
use crate::conf::updated_pf_conf;
use crate::rules::bandwidth_limit_rules;
use crate::rules::monitoring_rules;
use crate::rules::spec_bandwidth_rules;
use crate::rules::spec_monitoring_rules;
use crate::text::seq_contains;

verus! {

/// A step of a plan, as the contracts speak of it.
pub enum SpecStep {
    /// Overwrite the file at `path` with `contents`.
    Write { path: Seq<char>, contents: Seq<char> },
    /// Run `program` with `args`; under `sudo` when set. When
    /// `ignore_failure` is set a non-zero exit does not abort the plan.
    Command { program: Seq<char>, args: Seq<Seq<char>>, sudo: bool, ignore_failure: bool },
}

/// A step of a plan: a file write or a command to spawn.
#[derive(Debug, PartialEq, Eq)]
pub enum Step {
    /// Overwrite the file at `path` with `contents`.
    Write { path: String, contents: String },
    /// Run `program` with `args`; under `sudo` when set. When
    /// `ignore_failure` is set a non-zero exit does not abort the plan.
    Command { program: String, args: Vec<String>, sudo: bool, ignore_failure: bool },
}

impl View for Step {
    type V = SpecStep;

    open spec fn view(&self) -> SpecStep {
        match self {
            Step::Write { path, contents } => SpecStep::Write {
                path: path@,
                contents: contents@,
            },
            Step::Command { program, args, sudo, ignore_failure } => SpecStep::Command {
                program: program@,
                args: args.deep_view(),
                sudo: *sudo,
                ignore_failure: *ignore_failure,
            },
        }
    }
}

impl DeepView for Step {
    type V = SpecStep;

    open spec fn deep_view(&self) -> SpecStep {
        self.view()
    }
}

/// Why a subcommand was refused before any step ran.
#[derive(Debug, PartialEq, Eq)]
pub enum CliError {
    /// A privileged subcommand was invoked without root privileges.
    RootRequired,
    /// The interface handed to the scan does not exist.
    InterfaceNotFound { interface: String },
}

impl CliError {
    /// The message shown for this error.
    pub open spec fn spec_message(&self) -> Seq<char> {
        match self {
            CliError::RootRequired => {
                "This command requires root privileges. Please run with sudo."@
            },
            CliError::InterfaceNotFound { interface } => {
                "Interface "@ + interface@ + " not found"@
            },
        }
    }

    /// Renders the message shown for this error.
    pub fn message(&self) -> (r: String)
        ensures
            r@ == self.spec_message(),
    {
        match self {
            CliError::RootRequired => {
                String::from_str("This command requires root privileges. Please run with sudo.")
            },
            CliError::InterfaceNotFound { interface } => {
                let mut r = String::from_str("Interface ");
                r.append(interface.as_str());
                r.append(" not found");
                proof {
                    assert(r@ =~= self.spec_message());
                }
                r
            },
        }
    }
}

/// The fixed path the rule file is regenerated at.
pub open spec fn pf_rules_path() -> Seq<char> {
    "/tmp/pf.rules"@
}

/// The staging path for an updated main configuration.
pub open spec fn tmp_conf_path() -> Seq<char> {
    "/tmp/pf.conf"@
}

/// The system's main packet-filter configuration file.
pub open spec fn main_conf_path() -> Seq<char> {
    "/etc/pf.conf"@
}

/// Where the persistent copy of the rule file is installed.
pub open spec fn anchor_file_path() -> Seq<char> {
    "/etc/pf.anchors/com.wifi-kicker"@
}

/// A command run under sudo whose failure aborts the plan.
pub open spec fn sudo_cmd(program: Seq<char>, args: Seq<Seq<char>>) -> SpecStep {
    SpecStep::Command { program, args, sudo: true, ignore_failure: false }
}

/// The steps that store a freshly generated rule file: write it at the
/// fixed path; when persistence is asked for, also install a copy as the
/// anchor file and, only when the main configuration `conf` does not name
/// the anchor yet, stage and install a configuration with the anchor line
/// appended.
pub open spec fn spec_save_state_steps(
    rules: Seq<char>,
    persistent: bool,
    conf: Seq<char>,
) -> Seq<SpecStep> {
    seq![SpecStep::Write { path: pf_rules_path(), contents: rules }] + if persistent {
        seq![sudo_cmd("cp"@, seq![pf_rules_path(), anchor_file_path()])] + if !seq_contains(
            conf,
            marker(),
        ) {
            seq![
                SpecStep::Write { path: tmp_conf_path(), contents: spec_with_anchor(conf) },
                sudo_cmd("cp"@, seq![tmp_conf_path(), main_conf_path()]),
            ]
        } else {
            Seq::<SpecStep>::empty()
        }
    } else {
        Seq::<SpecStep>::empty()
    }
}

/// The steps that load the stored rule file into the packet filter:
/// enabling the filter (tolerated to fail, it may already be enabled), then
/// loading the file.
pub open spec fn spec_reload_steps() -> Seq<SpecStep> {
    seq![
        SpecStep::Command {
            program: "pfctl"@,
            args: seq!["-e"@],
            sudo: true,
            ignore_failure: true,
        },
        sudo_cmd("pfctl"@, seq!["-f"@, pf_rules_path()]),
    ]
}

/// The whole plan of the monitor subcommand.
pub open spec fn spec_monitor_plan(ip: Seq<char>, persistent: bool, conf: Seq<char>) -> Seq<
    SpecStep,
> {
    spec_save_state_steps(spec_monitoring_rules(ip), persistent, conf) + spec_reload_steps()
}

/// The whole plan of the limit subcommand.
pub open spec fn spec_limit_plan(
    ip: Seq<char>,
    upload: Option<u32>,
    download: Option<u32>,
    persistent: bool,
    conf: Seq<char>,
) -> Seq<SpecStep> {
    spec_save_state_steps(spec_bandwidth_rules(ip, upload, download), persistent, conf)
        + spec_reload_steps()
}

/// The whole plan of the remove subcommand: flush all rules, and delete the
/// anchor file when one is installed.
pub open spec fn spec_remove_plan(anchor_installed: bool) -> Seq<SpecStep> {
    seq![sudo_cmd("pfctl"@, seq!["-F"@, "all"@])] + if anchor_installed {
        seq![sudo_cmd("rm"@, seq![anchor_file_path()])]
    } else {
        Seq::<SpecStep>::empty()
    }
}

/// The whole plan of the status subcommand: list the loaded rules, then the
/// tracked states.
pub open spec fn spec_status_plan() -> Seq<SpecStep> {
    seq![sudo_cmd("pfctl"@, seq!["-sr"@]), sudo_cmd("pfctl"@, seq!["-ss"@])]
}

/// The whole plan of the scan subcommand: ask for the current network name,
/// the interface details, an active scan, and the neighbour cache.
pub open spec fn spec_scan_plan(interface: Seq<char>) -> Seq<SpecStep> {
    seq![
        SpecStep::Command {
            program: "networksetup"@,
            args: seq!["-getairportnetwork"@, interface],
            sudo: false,
            ignore_failure: false,
        },
        SpecStep::Command {
            program: "ifconfig"@,
            args: seq![interface],
            sudo: false,
            ignore_failure: false,
        },
        SpecStep::Command {
            program: "nmap"@,
            args: seq!["-sn"@, "-e"@ + interface, "-oG"@, "-"@],
            sudo: false,
            ignore_failure: false,
        },
        SpecStep::Command {
            program: "arp"@,
            args: seq!["-a"@],
            sudo: false,
            ignore_failure: false,
        },
    ]
}

/// The main configuration handed in, or nothing when none was read.
pub open spec fn opt_conf_view(pf_conf: Option<&str>) -> Seq<char> {
    match pf_conf {
        Some(c) => c@,
        None => Seq::<char>::empty(),
    }
}

/// Appends `arg` to an argument list.
fn push_arg(args: &mut Vec<String>, arg: String)
    ensures
        final(args).deep_view() == old(args).deep_view() + seq![arg@],
{
    let ghost before = args.deep_view();
    args.push(arg);
    proof {
        assert(args.deep_view() =~= before + seq![args@.last()@]);
    }
}

/// A step that writes `contents` at `path`.
fn write_step(path: &str, contents: String) -> (s: Step)
    ensures
        s@ == (SpecStep::Write { path: path@, contents: contents@ }),
{
    Step::Write { path: String::from_str(path), contents }
}

/// A command step.
fn command_step(program: &str, args: Vec<String>, sudo: bool, ignore_failure: bool) -> (s: Step)
    ensures
        s@ == (SpecStep::Command {
            program: program@,
            args: args.deep_view(),
            sudo: sudo,
            ignore_failure: ignore_failure,
        }),
{
    Step::Command { program: String::from_str(program), args, sudo, ignore_failure }
}

/// A sudo command step with one argument.
fn sudo_step1(program: &str, a0: &str, ignore_failure: bool) -> (s: Step)
    ensures
        s@ == (SpecStep::Command {
            program: program@,
            args: seq![a0@],
            sudo: true,
            ignore_failure: ignore_failure,
        }),
{
    let mut args: Vec<String> = Vec::new();
    proof {
        assert(args.deep_view() =~= Seq::<Seq<char>>::empty());
    }
    push_arg(&mut args, String::from_str(a0));
    proof {
        assert(args.deep_view() =~= seq![a0@]);
    }
    command_step(program, args, true, ignore_failure)
}

/// A sudo command step with two arguments.
fn sudo_step2(program: &str, a0: &str, a1: &str) -> (s: Step)
    ensures
        s@ == (SpecStep::Command {
            program: program@,
            args: seq![a0@, a1@],
            sudo: true,
            ignore_failure: false,
        }),
{
    let mut args: Vec<String> = Vec::new();
    proof {
        assert(args.deep_view() =~= Seq::<Seq<char>>::empty());
    }
    push_arg(&mut args, String::from_str(a0));
    push_arg(&mut args, String::from_str(a1));
    proof {
        assert(args.deep_view() =~= seq![a0@, a1@]);
    }
    command_step(program, args, true, false)
}

/// The steps that store the rule file `rules`, exactly
/// `spec_save_state_steps`. When `persistent` is set the caller hands in
/// the current main configuration, read beforehand, so that the anchor line
/// is appended only when it is missing.
pub fn save_state(rules: &str, persistent: bool, pf_conf: Option<&str>) -> (plan: Vec<Step>)
    requires
        persistent ==> pf_conf is Some,
    ensures
        plan.deep_view() == spec_save_state_steps(rules@, persistent, opt_conf_view(pf_conf)),
{
    let ghost conf = opt_conf_view(pf_conf);
    let mut plan: Vec<Step> = Vec::new();
    plan.push(write_step("/tmp/pf.rules", String::from_str(rules)));
    if persistent {
        let conf_text = match pf_conf {
            Some(c) => c,
            None => "",
        };
        plan.push(sudo_step2("cp", "/tmp/pf.rules", "/etc/pf.anchors/com.wifi-kicker"));
        match updated_pf_conf(conf_text) {
            Some(new_conf) => {
                plan.push(write_step("/tmp/pf.conf", new_conf));
                plan.push(sudo_step2("cp", "/tmp/pf.conf", "/etc/pf.conf"));
            },
            None => {},
        }
    }
    proof {
        assert(plan.deep_view() =~= spec_save_state_steps(rules@, persistent, conf));
    }
    plan
}

/// Appends the two steps that load the stored rule file into the filter.
fn append_reload_steps(plan: &mut Vec<Step>)
    ensures
        final(plan).deep_view() == old(plan).deep_view() + spec_reload_steps(),
{
    let ghost before = plan.deep_view();
    let mut args: Vec<String> = Vec::new();
    proof {
        assert(args.deep_view() =~= Seq::<Seq<char>>::empty());
    }
    push_arg(&mut args, String::from_str("-e"));
    proof {
        assert(args.deep_view() =~= seq!["-e"@]);
    }
    plan.push(command_step("pfctl", args, true, true));
    plan.push(sudo_step2("pfctl", "-f", "/tmp/pf.rules"));
    proof {
        assert(plan.deep_view() =~= before + spec_reload_steps());
    }
}

/// The monitor subcommand: refused without root; otherwise the plan that
/// stores the monitoring rule file for `ip` and loads it, with the
/// persistent installation when asked for.
pub fn setup_monitoring(ip: &str, persistent: bool, root: bool, pf_conf: Option<&str>) -> (r:
    Result<Vec<Step>, CliError>)
    requires
        persistent ==> pf_conf is Some,
    ensures
        !root ==> (r matches Err(e) && e == CliError::RootRequired),
        root ==> (r matches Ok(plan) && plan.deep_view() == spec_monitor_plan(
            ip@,
            persistent,
            opt_conf_view(pf_conf),
        )),
{
    if !root {
        return Err(CliError::RootRequired);
    }
    let rules_text = monitoring_rules(ip);
    let mut plan = save_state(rules_text.as_str(), persistent, pf_conf);
    append_reload_steps(&mut plan);
    Ok(plan)
}

/// The limit subcommand: refused without root; otherwise the plan that
/// stores the bandwidth-limit rule file for `ip` and loads it, with the
/// persistent installation when asked for.
pub fn setup_bandwidth_limit(
    ip: &str,
    upload: Option<u32>,
    download: Option<u32>,
    persistent: bool,
    root: bool,
    pf_conf: Option<&str>,
) -> (r: Result<Vec<Step>, CliError>)
    requires
        persistent ==> pf_conf is Some,
    ensures
        !root ==> (r matches Err(e) && e == CliError::RootRequired),
        root ==> (r matches Ok(plan) && plan.deep_view() == spec_limit_plan(
            ip@,
            upload,
            download,
            persistent,
            opt_conf_view(pf_conf),
        )),
{
    if !root {
        return Err(CliError::RootRequired);
    }
    let rules_text = bandwidth_limit_rules(ip, upload, download);
    let mut plan = save_state(rules_text.as_str(), persistent, pf_conf);
    append_reload_steps(&mut plan);
    Ok(plan)
}

/// The remove subcommand: refused without root; otherwise the plan that
/// flushes all rules and deletes the anchor file when one is installed.
/// The address is what the user asked to clear; the flush takes everything
/// with it.
pub fn remove_rules(ip: &str, root: bool, anchor_installed: bool) -> (r: Result<
    Vec<Step>,
    CliError,
>)
    ensures
        !root ==> (r matches Err(e) && e == CliError::RootRequired),
        root ==> (r matches Ok(plan) && plan.deep_view() == spec_remove_plan(anchor_installed)),
{
    let _ = ip;
    if !root {
        return Err(CliError::RootRequired);
    }
    let mut plan: Vec<Step> = Vec::new();
    plan.push(sudo_step2("pfctl", "-F", "all"));
    if anchor_installed {
        plan.push(sudo_step1("rm", "/etc/pf.anchors/com.wifi-kicker", false));
    }
    proof {
        assert(plan.deep_view() =~= spec_remove_plan(anchor_installed));
    }
    Ok(plan)
}

/// The status subcommand: refused without root; otherwise the plan that
/// lists the loaded rules and the tracked states.
pub fn show_status(root: bool) -> (r: Result<Vec<Step>, CliError>)
    ensures
        !root ==> (r matches Err(e) && e == CliError::RootRequired),
        root ==> (r matches Ok(plan) && plan.deep_view() == spec_status_plan()),
{
    if !root {
        return Err(CliError::RootRequired);
    }
    let mut plan: Vec<Step> = Vec::new();
    plan.push(sudo_step1("pfctl", "-sr", false));
    plan.push(sudo_step1("pfctl", "-ss", false));
    proof {
        assert(plan.deep_view() =~= spec_status_plan());
    }
    Ok(plan)
}

/// The scan subcommand: refused when the probe found no such interface;
/// otherwise the plan that names the current network, shows the interface,
/// scans actively and lists the neighbour cache.
pub fn scan_network(interface: &str, interface_exists: bool) -> (r: Result<Vec<Step>, CliError>)
    ensures
        !interface_exists ==> (r matches Err(e) && (e matches CliError::InterfaceNotFound {
            interface: i,
        } && i@ == interface@)),
        interface_exists ==> (r matches Ok(plan) && plan.deep_view() == spec_scan_plan(
            interface@,
        )),
{
    if !interface_exists {
        return Err(CliError::InterfaceNotFound { interface: String::from_str(interface) });
    }
    let mut plan: Vec<Step> = Vec::new();

    let mut args: Vec<String> = Vec::new();
    proof {
        assert(args.deep_view() =~= Seq::<Seq<char>>::empty());
    }
    push_arg(&mut args, String::from_str("-getairportnetwork"));
    push_arg(&mut args, String::from_str(interface));
    proof {
        assert(args.deep_view() =~= seq!["-getairportnetwork"@, interface@]);
    }
    plan.push(command_step("networksetup", args, false, false));

    let mut args: Vec<String> = Vec::new();
    proof {
        assert(args.deep_view() =~= Seq::<Seq<char>>::empty());
    }
    push_arg(&mut args, String::from_str(interface));
    proof {
        assert(args.deep_view() =~= seq![interface@]);
    }
    plan.push(command_step("ifconfig", args, false, false));

    let mut args: Vec<String> = Vec::new();
    proof {
        assert(args.deep_view() =~= Seq::<Seq<char>>::empty());
    }
    push_arg(&mut args, String::from_str("-sn"));
    let iface_flag = String::from_str("-e").concat(interface);
    push_arg(&mut args, iface_flag);
    push_arg(&mut args, String::from_str("-oG"));
    push_arg(&mut args, String::from_str("-"));
    proof {
        assert(args.deep_view() =~= seq!["-sn"@, "-e"@ + interface@, "-oG"@, "-"@]);
    }
    plan.push(command_step("nmap", args, false, false));

    let mut args: Vec<String> = Vec::new();
    proof {
        assert(args.deep_view() =~= Seq::<Seq<char>>::empty());
    }
    push_arg(&mut args, String::from_str("-a"));
    proof {
        assert(args.deep_view() =~= seq!["-a"@]);
    }
    plan.push(command_step("arp", args, false, false));

    proof {
        assert(plan.deep_view() =~= spec_scan_plan(interface@));
    }
    Ok(plan)
}

/// Storing a rule file persistently is idempotent at the plan level: once
/// the anchor line has been appended to the main configuration, a later
/// persistent store finds the marker and stages no configuration update;
/// only the rule-file write and the anchor-file copy remain.
pub proof fn lemma_persistent_save_idempotent(rules: Seq<char>, conf: Seq<char>)
    ensures
        spec_save_state_steps(rules, true, spec_with_anchor(conf)) == seq![
            SpecStep::Write { path: pf_rules_path(), contents: rules },
            sudo_cmd("cp"@, seq![pf_rules_path(), anchor_file_path()]),
        ],
{
    crate::conf::lemma_anchor_insertion_idempotent(conf);
    assert(spec_save_state_steps(rules, true, spec_with_anchor(conf)) =~= seq![
        SpecStep::Write { path: pf_rules_path(), contents: rules },
        sudo_cmd("cp"@, seq![pf_rules_path(), anchor_file_path()]),
    ]);
}

} // verus!
