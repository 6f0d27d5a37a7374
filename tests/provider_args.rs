use erc20_driver::provider::{
    add_certs_args, extend_whitelist_args, set_config_args, set_profile_activity_args, spawn_args,
    RuntimeInfo,
};

fn s(v: &[&str]) -> Vec<String> {
    v.iter().map(|x| x.to_string()).collect()
}

#[test]
fn profile_activity() {
    assert_eq!(set_profile_activity_args("vm", true), s(&["--json", "preset", "activate", "vm"]));
    assert_eq!(set_profile_activity_args("wasm", false), s(&["--json", "preset", "deactivate", "wasm"]));
}

#[test]
fn whitelist_and_certs() {
    assert_eq!(
        extend_whitelist_args("strict".to_string(), &s(&["a.com", "b.org"])),
        s(&["whitelist", "add", "-t", "strict", "-p", "a.com", "b.org"])
    );
    assert_eq!(
        add_certs_args(&s(&["c1.pem"])),
        s(&["keystore", "add", "-p", "outbound-manifest", "unverified-permissions-chain", "-w", "c1.pem"])
    );
}

#[test]
fn config_and_spawn() {
    assert_eq!(
        set_config_args(Some("node".to_string()), None, &s(&["polygon", "mainnet"])),
        s(&["--json", "config", "set", "--node-name", "node", "--payment-network", "polygon", "--payment-network", "mainnet"])
    );
    assert_eq!(set_config_args(None, None, &vec![]), s(&["--json", "config", "set"]));
    assert_eq!(
        spawn_args(&s(&["goerli"]), None, Some("public".to_string()), Some("0xab".to_string()), true, Some("/tmp/l".to_string())),
        s(&["run", "--payment-network", "goerli", "--subnet", "public", "--account", "0xab", "--debug", "--log-dir", "/tmp/l"])
    );
    let r = RuntimeInfo { name: "vm".to_string(), description: None };
    assert_eq!(r.clone().name, "vm");
}
