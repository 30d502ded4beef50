use covenant_chain::config_file::{default_config, ConfigFile, Network};
use covenant_chain::descriptor::{covenant_descriptor_string, generate_ephemeral_covenant_descriptor};
use covenant_chain::driver::{classify_response, parse_amount, trim_ascii};
use covenant_chain::script::{build_bump_script, build_bump_spk, p2wsh_script_pubkey};

fn hex_to_bytes(s: &str) -> Vec<u8> {
    (0..s.len())
        .step_by(2)
        .map(|i| u8::from_str_radix(&s[i..i + 2], 16).unwrap())
        .collect()
}

#[test]
fn bump_script_untagged() {
    assert_eq!(build_bump_script(false), vec![0x00u8, 0xb2, 0x8b]);
}

#[test]
fn bump_script_tagged() {
    assert_eq!(build_bump_script(true), vec![0x03u8, 0x00, 0xb2, 0x8b]);
}

#[test]
fn p2wsh_known_vector() {
    let mut expected = vec![0x00u8, 0x20];
    expected.extend(hex_to_bytes(
        "ba7816bf8f01cfea414140de5dae2223b00361a396177a9cb410ff61f20015ad",
    ));
    assert_eq!(p2wsh_script_pubkey(&b"abc".to_vec()), expected);
}

#[test]
fn bump_spk_known_vector() {
    let mut expected = vec![0x00u8, 0x20];
    expected.extend(hex_to_bytes(
        "6e2f499941ed89ed7a24781dc9b0ced8ed9ac038578b480dd71aa2fafbba84c8",
    ));
    assert_eq!(build_bump_spk(), expected);
}

#[test]
fn descriptor_template() {
    let d = covenant_descriptor_string(&"abc".to_string());
    assert_eq!(d, "wsh(and_v(v:pk(abc),older(1)))");
}

#[test]
fn descriptor_shapes() {
    let descs = generate_ephemeral_covenant_descriptor(Network::Signet);
    assert!(descs.private_desc.starts_with("wsh(and_v(v:pk("));
    assert!(descs.private_desc.ends_with("),older(1)))"));
    assert!(descs.public_desc.starts_with("wsh(and_v(v:pk("));
    assert!(descs.public_desc.ends_with("),older(1)))"));
    let key = &descs.public_desc["wsh(and_v(v:pk(".len()..descs.public_desc.len() - "),older(1)))".len()];
    assert_eq!(key, descs.public_key_hex);
    assert_eq!(key.len(), 66);
    assert!(key.chars().all(|c| c.is_ascii_hexdigit() && !c.is_ascii_uppercase()));
}

fn config_with_network(network: &str) -> ConfigFile {
    let mut cfg = default_config();
    cfg.network = network.to_string();
    cfg
}

#[test]
fn network_signet() {
    assert_eq!(config_with_network("signet").get_network(), Ok(Network::Signet));
}

#[test]
fn network_testnet() {
    assert_eq!(config_with_network("testnet").get_network(), Ok(Network::Testnet));
}

#[test]
fn network_rejected() {
    assert_eq!(
        config_with_network("mainnet").get_network(),
        Err("Only signet supported for now".to_string())
    );
}

#[test]
fn default_config_values() {
    let cfg = default_config();
    assert_eq!(cfg.network, "signet");
    assert_eq!(cfg.electrum_url, "tcp://127.0.0.1:50001");
    assert_eq!(cfg.receiving_desc, "");
    assert_eq!(cfg.change_desc, "");
    assert_eq!(cfg.dust_limit, 800);
    assert_eq!(cfg.fee_amount, 1200);
}

#[test]
fn missing_descriptors_sentinel() {
    let mut cfg = default_config();
    assert!(cfg.missing_descriptors());
    cfg.receiving_desc = "wpkh(k)".to_string();
    assert!(cfg.missing_descriptors());
    cfg.change_desc = "wpkh(k)".to_string();
    assert!(!cfg.missing_descriptors());
}

#[test]
fn classify_affirmative() {
    for ans in ["y", "Y", "yes", "Yes", "YES"] {
        assert_eq!(classify_response(&ans.as_bytes().to_vec()), Some(true));
    }
}

#[test]
fn classify_negative() {
    for ans in ["n", "N", "no", "No", "NO"] {
        assert_eq!(classify_response(&ans.as_bytes().to_vec()), Some(false));
    }
}

#[test]
fn classify_rejects_everything_else() {
    for ans in ["", "maybe", "yess", "nO", "YeS", "0", "y ", "NoO"] {
        assert_eq!(classify_response(&ans.as_bytes().to_vec()), None);
    }
}

#[test]
fn operator_decline_line_classifies_as_no() {
    let line = b" no\n".to_vec();
    let trimmed = trim_ascii(&line);
    assert_eq!(trimmed, b"no".to_vec());
    assert_eq!(classify_response(&trimmed), Some(false));
}

#[test]
fn trim_whitespace() {
    assert_eq!(trim_ascii(&b"\t yes \r\n".to_vec()), b"yes".to_vec());
    assert_eq!(trim_ascii(&b"".to_vec()), Vec::<u8>::new());
    assert_eq!(trim_ascii(&b" \n ".to_vec()), Vec::<u8>::new());
    assert_eq!(trim_ascii(&b"a b".to_vec()), b"a b".to_vec());
}

#[test]
fn parse_amount_values() {
    assert_eq!(parse_amount(&b"10000".to_vec()), Some(10000));
    assert_eq!(parse_amount(&b"2800".to_vec()), Some(2800));
    assert_eq!(parse_amount(&b"+42".to_vec()), Some(42));
    assert_eq!(parse_amount(&b"0".to_vec()), Some(0));
    assert_eq!(parse_amount(&b"18446744073709551615".to_vec()), Some(u64::MAX));
}

#[test]
fn parse_amount_rejects() {
    assert_eq!(parse_amount(&b"".to_vec()), None);
    assert_eq!(parse_amount(&b"+".to_vec()), None);
    assert_eq!(parse_amount(&b"12a".to_vec()), None);
    assert_eq!(parse_amount(&b"-5".to_vec()), None);
    assert_eq!(parse_amount(&b"18446744073709551616".to_vec()), None);
}
