use dojo_world::felt::Felt;
use dojo_world::genesis::{
    account_class_hash, genesis_accounts_text, genesis_contracts_text, intro_text, seed_text,
    server_started_text, GenesisAccount, GenesisContract,
};
use starknet_crypto::FieldElement;

fn felt_of(v: FieldElement) -> Felt {
    Felt { bytes: v.to_bytes_be() }
}

fn felt(hex: &str) -> Felt {
    felt_of(FieldElement::from_hex_be(hex).unwrap())
}

#[test]
fn hex_of_zero_is_0x0() {
    let zero = Felt { bytes: [0u8; 32] };
    assert_eq!(zero.to_hex(), "0x0");
    assert_eq!(zero.to_hex_padded(), format!("0x{}", "0".repeat(64)));
}

#[test]
fn hex_drops_leading_zeros() {
    assert_eq!(felt("0x1234").to_hex(), "0x1234");
    assert_eq!(felt("0x0abc").to_hex(), "0xabc");
    assert_eq!(felt("0x1").to_hex(), "0x1");
}

#[test]
fn padded_hex_has_64_digits() {
    let text = felt("0x1234").to_hex_padded();
    assert_eq!(text.len(), 66);
    assert_eq!(text, format!("0x{}1234", "0".repeat(60)));
}

#[test]
fn hex_is_what_field_element_prints() {
    for hex in [
        "0x0",
        "0x1",
        "0x49d36570d4e46f48e99674bd3fcc84644ddd6b96f7c741b1562b82f9e004dc7",
        "0x7dc7899aa655b0aae51eadff6d801a58e97dd99cf4666ee59e704249e51adf2",
        "0x800000000000011000000000000000000000000000000000000000000000000",
    ] {
        let v = FieldElement::from_hex_be(hex).unwrap();
        let f = felt_of(v);
        assert_eq!(f.to_hex(), format!("{:#x}", v));
        assert_eq!(f.to_hex_padded(), format!("{:#064x}", v));
    }
}

fn fee_token() -> GenesisContract {
    GenesisContract { address: felt("0x49d3"), class_hash: felt("0x2a8") }
}

fn account(address: &str, private_key: Option<&str>) -> GenesisAccount {
    GenesisAccount {
        address: felt(address),
        class_hash: felt("0x5400"),
        public_key: felt("0xbeef"),
        private_key: private_key.map(felt),
    }
}

fn pad(hex: &str) -> String {
    format!("0x{:0>64}", hex)
}

#[test]
fn contracts_table_without_optional_rows() {
    let text = genesis_contracts_text(&fee_token(), &None, None);
    assert_eq!(
        text,
        format!(
            "\nPREDEPLOYED CONTRACTS\n==================\n\n| Contract        | Fee Token\n| Address         | 0x49d3\n| Class Hash      | {}\n",
            pad("2a8")
        )
    );
}

#[test]
fn contracts_table_with_deployer_and_account_class() {
    let udc = GenesisContract { address: felt("0x41a7"), class_hash: felt("0x7b3") };
    let text = genesis_contracts_text(&fee_token(), &Some(udc), Some(felt("0x5400")));
    let expected = format!(
        "\nPREDEPLOYED CONTRACTS\n==================\n\n| Contract        | Fee Token\n| Address         | 0x49d3\n| Class Hash      | {}\n\
         \n| Contract        | Universal Deployer\n| Address         | 0x41a7\n| Class Hash      | {}\n\
         \n| Contract        | Account Contract\n| Class Hash      | {}\n",
        pad("2a8"),
        pad("7b3"),
        pad("5400")
    );
    assert_eq!(text, expected);
}

#[test]
fn accounts_list_shows_private_keys_only_where_known() {
    let accounts = vec![account("0x11", Some("0x22")), account("0x33", None)];
    let text = genesis_accounts_text(&accounts);
    assert_eq!(
        text,
        "\n\nPREFUNDED ACCOUNTS\n==================\n\
         \n| Account address |  0x11\n| Private key     |  0x22\n| Public key      |  0xbeef\n\
         \n| Account address |  0x33\n| Public key      |  0xbeef\n"
    );
    assert_eq!(genesis_accounts_text(&vec![]), "\n\nPREFUNDED ACCOUNTS\n==================\n");
}

#[test]
fn accounts_rows_concatenate() {
    let first = vec![account("0x11", Some("0x22"))];
    let second = vec![account("0x33", None)];
    let both: Vec<GenesisAccount> = first.iter().chain(second.iter()).copied().collect();
    let heading = "\n\nPREFUNDED ACCOUNTS\n==================\n";
    let rows = |v: &Vec<GenesisAccount>| genesis_accounts_text(v)[heading.len()..].to_string();
    assert_eq!(rows(&both), format!("{}{}", rows(&first), rows(&second)));
}

#[test]
fn account_class_hash_is_that_of_the_first_account() {
    assert_eq!(account_class_hash(&vec![]), None);
    let accounts = vec![account("0x1", None), GenesisAccount { class_hash: felt("0x9"), ..account("0x2", None) }];
    assert_eq!(account_class_hash(&accounts), Some(felt("0x5400")));
}

#[test]
fn seed_and_server_lines() {
    assert_eq!(seed_text("0"), "\n\nACCOUNTS SEED\n=============\n0\n    \n");
    assert_eq!(
        server_started_text("http://127.0.0.1:5050"),
        "\n🚀 JSON-RPC server started: http://127.0.0.1:5050\n\n\n"
    );
}

#[test]
fn intro_puts_the_parts_in_order() {
    let accounts = vec![account("0x11", Some("0x22"))];
    let text = intro_text("KATANA", &fee_token(), &None, &accounts, "0", "http://127.0.0.1:5050");
    let expected = format!(
        "KATANA\n{}{}{}{}",
        genesis_contracts_text(&fee_token(), &None, Some(felt("0x5400"))),
        genesis_accounts_text(&accounts),
        seed_text("0"),
        server_started_text("http://127.0.0.1:5050")
    );
    assert_eq!(text, expected);
}
