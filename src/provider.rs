//! The argument lists of the provider agent's commands. Running the agent
//! is left to the caller; what it is asked is decided here.

use vstd::prelude::*;

verus! {

/// An execution unit the provider agent offers.
#[derive(Clone, Debug)]
pub struct RuntimeInfo {
    pub name: String,
    pub description: Option<String>,
}

/// The characters of each argument.
pub open spec fn args_view(v: Seq<String>) -> Seq<Seq<char>> {
    v.map_values(|s: String| s@)
}

/// `flag value` for each value, in order.
pub open spec fn flag_each(flag: Seq<char>, values: Seq<Seq<char>>) -> Seq<Seq<char>>
    decreases values.len(),
{
    if values.len() == 0 {
        Seq::empty()
    } else {
        flag_each(flag, values.drop_last()) + seq![flag, values.last()]
    }
}

/// `flag value` when there is a value, nothing otherwise.
pub open spec fn flag_opt(flag: Seq<char>, value: Option<String>) -> Seq<Seq<char>> {
    match value {
        Some(v) => seq![flag, v@],
        None => Seq::empty(),
    }
}

fn push_str(out: &mut Vec<String>, s: &str)
    ensures
        args_view(final(out)@) == args_view(old(out)@).push(s@),
{
    let ghost before = out@;
    out.push(String::from_str(s));
    assert(args_view(out@) =~= args_view(before).push(s@));
}

fn push_string(out: &mut Vec<String>, s: String)
    ensures
        args_view(final(out)@) == args_view(old(out)@).push(s@),
{
    let ghost before = out@;
    let ghost v = s@;
    out.push(s);
    assert(args_view(out@) =~= args_view(before).push(v));
}

fn push_all(out: &mut Vec<String>, values: &Vec<String>)
    ensures
        args_view(final(out)@) == args_view(old(out)@) + args_view(values@),
{
    let ghost start = args_view(out@);
    let mut i: usize = 0;
    while i < values.len()
        invariant
            0 <= i <= values.len(),
            args_view(out@) == start + args_view(values@.subrange(0, i as int)),
        decreases values.len() - i,
    {
        push_string(out, values[i].clone());
        i = i + 1;
        assert(args_view(values@.subrange(0, i as int)) =~= args_view(
            values@.subrange(0, i as int - 1),
        ).push(values@[i as int - 1]@));
        assert(args_view(out@) =~= start + args_view(values@.subrange(0, i as int)));
    }
    assert(values@.subrange(0, values@.len() as int) =~= values@);
}

fn push_flag_each(out: &mut Vec<String>, flag: &str, values: &Vec<String>)
    ensures
        args_view(final(out)@) == args_view(old(out)@) + flag_each(flag@, args_view(values@)),
{
    let ghost start = args_view(out@);
    let mut i: usize = 0;
    while i < values.len()
        invariant
            0 <= i <= values.len(),
            args_view(out@) == start + flag_each(flag@, args_view(values@.subrange(0, i as int))),
        decreases values.len() - i,
    {
        push_str(out, flag);
        push_string(out, values[i].clone());
        i = i + 1;
        let ghost pre = args_view(values@.subrange(0, i as int));
        assert(pre.drop_last() =~= args_view(values@.subrange(0, i as int - 1)));
        assert(args_view(out@) =~= start + flag_each(flag@, pre));
    }
    assert(values@.subrange(0, values@.len() as int) =~= values@);
}

fn push_flag_opt(out: &mut Vec<String>, flag: &str, value: Option<String>)
    ensures
        args_view(final(out)@) == args_view(old(out)@) + flag_opt(flag@, value),
{
    let ghost start = args_view(out@);
    match value {
        Some(v) => {
            push_str(out, flag);
            push_string(out, v);
            assert(args_view(out@) =~= start + flag_opt(flag@, value));
        },
        None => {
            assert(args_view(out@) =~= start + flag_opt(flag@, value));
        },
    }
}

/// `--json preset activate|deactivate <profile>`.
pub fn set_profile_activity_args(profile_name: &str, activate: bool) -> (r: Vec<String>)
    ensures
        args_view(r@) == seq![
            "--json"@,
            "preset"@,
            if activate {
                "activate"@
            } else {
                "deactivate"@
            },
            profile_name@,
        ],
{
    let mut out: Vec<String> = Vec::new();
    push_str(&mut out, "--json");
    push_str(&mut out, "preset");
    if activate {
        push_str(&mut out, "activate");
    } else {
        push_str(&mut out, "deactivate");
    }
    push_str(&mut out, profile_name);
    assert(args_view(out@) =~= seq![
        "--json"@,
        "preset"@,
        if activate {
            "activate"@
        } else {
            "deactivate"@
        },
        profile_name@,
    ]);
    out
}

/// `whitelist add -t <type> -p <entries...>`.
pub fn extend_whitelist_args(whitelist_type: String, entries: &Vec<String>) -> (r: Vec<String>)
    ensures
        args_view(r@) == seq!["whitelist"@, "add"@, "-t"@, whitelist_type@, "-p"@] + args_view(
            entries@,
        ),
{
    let ghost t = whitelist_type@;
    let mut out: Vec<String> = Vec::new();
    push_str(&mut out, "whitelist");
    push_str(&mut out, "add");
    push_str(&mut out, "-t");
    push_string(&mut out, whitelist_type);
    push_str(&mut out, "-p");
    assert(args_view(out@) =~= seq!["whitelist"@, "add"@, "-t"@, t, "-p"@]);
    push_all(&mut out, entries);
    out
}

/// `keystore add -p outbound-manifest unverified-permissions-chain -w <certs...>`.
pub fn add_certs_args(certs: &Vec<String>) -> (r: Vec<String>)
    ensures
        args_view(r@) == seq![
            "keystore"@,
            "add"@,
            "-p"@,
            "outbound-manifest"@,
            "unverified-permissions-chain"@,
            "-w"@,
        ] + args_view(certs@),
{
    let mut out: Vec<String> = Vec::new();
    push_str(&mut out, "keystore");
    push_str(&mut out, "add");
    push_str(&mut out, "-p");
    push_str(&mut out, "outbound-manifest");
    push_str(&mut out, "unverified-permissions-chain");
    push_str(&mut out, "-w");
    assert(args_view(out@) =~= seq![
        "keystore"@,
        "add"@,
        "-p"@,
        "outbound-manifest"@,
        "unverified-permissions-chain"@,
        "-w"@,
    ]);
    push_all(&mut out, certs);
    out
}

/// `--json config set`, then the node name and account when given, then
/// `--payment-network` for each network of the group.
pub fn set_config_args(
    node_name: Option<String>,
    account: Option<String>,
    payment_networks: &Vec<String>,
) -> (r: Vec<String>)
    ensures
        args_view(r@) == seq!["--json"@, "config"@, "set"@] + flag_opt("--node-name"@, node_name)
            + flag_opt("--account"@, account) + flag_each(
            "--payment-network"@,
            args_view(payment_networks@),
        ),
{
    let mut out: Vec<String> = Vec::new();
    push_str(&mut out, "--json");
    push_str(&mut out, "config");
    push_str(&mut out, "set");
    assert(args_view(out@) =~= seq!["--json"@, "config"@, "set"@]);
    push_flag_opt(&mut out, "--node-name", node_name);
    push_flag_opt(&mut out, "--account", account);
    push_flag_each(&mut out, "--payment-network", payment_networks);
    out
}

/// `run`, `--payment-network` for each network, then the node name, subnet
/// and account when given, `--debug` when asked, and the log directory
/// when given.
pub fn spawn_args(
    payment_networks: &Vec<String>,
    node_name: Option<String>,
    subnet: Option<String>,
    account: Option<String>,
    debug: bool,
    log_dir: Option<String>,
) -> (r: Vec<String>)
    ensures
        args_view(r@) == seq!["run"@] + flag_each("--payment-network"@, args_view(payment_networks@))
            + flag_opt("--node-name"@, node_name) + flag_opt("--subnet"@, subnet) + flag_opt(
            "--account"@,
            account,
        ) + (if debug {
            seq!["--debug"@]
        } else {
            Seq::empty()
        }) + flag_opt("--log-dir"@, log_dir),
{
    let mut out: Vec<String> = Vec::new();
    push_str(&mut out, "run");
    assert(args_view(out@) =~= seq!["run"@]);
    push_flag_each(&mut out, "--payment-network", payment_networks);
    push_flag_opt(&mut out, "--node-name", node_name);
    push_flag_opt(&mut out, "--subnet", subnet);
    push_flag_opt(&mut out, "--account", account);
    let ghost before_debug = args_view(out@);
    if debug {
        push_str(&mut out, "--debug");
    }
    assert(args_view(out@) =~= before_debug + (if debug {
        seq!["--debug"@]
    } else {
        Seq::empty()
    }));
    push_flag_opt(&mut out, "--log-dir", log_dir);
    out
}

} // verus!
