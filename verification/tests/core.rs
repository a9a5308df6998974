use controller::controller::ControllerState;
use controller::mode::Mode;
use controller::rules::apply_internet_mode;
use controller::rules::apply_tool_node_mode;
use controller::rules::init_nftables;
use controller::rules::nft_outcome;
use controller::secret::parse_jwt_secret;

#[test]
fn default_posture_is_tool_node() {
    let state = ControllerState::new();
    assert_eq!(state.mode, Mode::ToolNodeOnly);
    assert_eq!(controller::http::get_mode(&state), "tool-node");
}

#[test]
fn mode_strings() {
    assert_eq!(Mode::InternetOnly.as_str(), "internet");
    assert_eq!(Mode::ToolNodeOnly.as_str(), "tool-node");
}

#[test]
fn toggled_is_the_other_posture() {
    assert_eq!(Mode::InternetOnly.toggled(), Mode::ToolNodeOnly);
    assert_eq!(Mode::ToolNodeOnly.toggled(), Mode::InternetOnly);
}

#[test]
fn internet_ruleset_text() {
    let script = apply_internet_mode("172.20.0.10");
    assert_eq!(
        script,
        "flush chain ip filter output\n\
         flush chain ip filter input\n\
         add rule ip filter output ct state established,related accept\n\
         add rule ip filter output ip daddr 172.20.0.10 drop"
    );
}

#[test]
fn tool_node_ruleset_text() {
    let script = apply_tool_node_mode("172.20.0.10", "172.20.0.0/24");
    assert_eq!(
        script,
        "flush chain ip filter output\n\
         flush chain ip filter input\n\
         add rule ip filter input tcp dport 22 drop\n\
         add rule ip filter output ip daddr 127.0.0.0/8 accept\n\
         add rule ip filter output ct state established,related accept\n\
         add rule ip filter output ip daddr 172.20.0.10 accept\n\
         add rule ip filter output ip daddr 172.20.0.0/24 accept\n\
         add rule ip filter output drop"
    );
}

#[test]
fn rulesets_differ() {
    let a = apply_internet_mode("172.20.0.10");
    let b = apply_tool_node_mode("172.20.0.10", "172.20.0.0/24");
    assert_ne!(a, b);
}

#[test]
fn init_commands() {
    let cmds = init_nftables();
    assert_eq!(cmds.len(), 4);
    assert_eq!(cmds[0].args, vec!["delete", "table", "ip", "filter"]);
    assert!(!cmds[0].required);
    assert_eq!(cmds[1].args, vec!["add", "table", "ip", "filter"]);
    assert!(cmds[1].required);
    assert_eq!(
        cmds[2].args,
        vec![
            "add",
            "chain",
            "ip",
            "filter",
            "output",
            "{ type filter hook output priority 0 ; policy accept ; }"
        ]
    );
    assert!(cmds[2].required);
    assert_eq!(
        cmds[3].args,
        vec![
            "add",
            "chain",
            "ip",
            "filter",
            "input",
            "{ type filter hook input priority 0 ; policy accept ; }"
        ]
    );
    assert!(cmds[3].required);
}

#[test]
fn nft_outcome_maps_exit_status() {
    assert!(nft_outcome(true, "").is_ok());
    assert!(nft_outcome(true, "ignored").is_ok());
    let e = nft_outcome(false, "bad rule near 'daddr'").unwrap_err();
    assert_eq!(e, "nft atomic transaction failed: bad rule near 'daddr'");
}

#[test]
fn secret_plain_hex() {
    let content = "000102030405060708090a0b0c0d0e0f101112131415161718191a1b1c1d1e1f";
    let secret = parse_jwt_secret(content);
    let expected: Vec<u8> = (0u8..32u8).collect();
    assert_eq!(secret, expected);
}

#[test]
fn secret_with_prefix_and_whitespace() {
    let content = "  0xffeeddccbbaa99887766554433221100ffeeddccbbaa99887766554433221100\n";
    let secret = parse_jwt_secret(content);
    assert_eq!(secret, hex::decode("ffeeddccbbaa99887766554433221100ffeeddccbbaa99887766554433221100").unwrap());
}

#[test]
fn secret_uppercase_hex() {
    let content = "AABBCCDDEEFF00112233445566778899AABBCCDDEEFF00112233445566778899";
    let secret = parse_jwt_secret(content);
    assert_eq!(secret[0], 0xaa);
    assert_eq!(secret[31], 0x99);
}

#[test]
fn secret_double_prefix_is_zero() {
    let content = "0x0x000102030405060708090a0b0c0d0e0f101112131415161718191a1b1c1d1e1f";
    assert_eq!(parse_jwt_secret(content), vec![0u8; 32]);
}

#[test]
fn secret_wrong_length_is_zero() {
    let secret = parse_jwt_secret("aabbcc");
    assert_eq!(secret, vec![0u8; 32]);
}

#[test]
fn secret_odd_length_is_zero() {
    let secret = parse_jwt_secret("abc");
    assert_eq!(secret, vec![0u8; 32]);
}

#[test]
fn secret_non_hex_is_zero() {
    let content = "zz0102030405060708090a0b0c0d0e0f101112131415161718191a1b1c1d1e1f";
    let secret = parse_jwt_secret(content);
    assert_eq!(secret, vec![0u8; 32]);
}

#[test]
fn secret_empty_is_zero() {
    assert_eq!(parse_jwt_secret(""), vec![0u8; 32]);
    assert_eq!(parse_jwt_secret("   \n"), vec![0u8; 32]);
}
