use dojo_world::abi::{embedded_abi, AbiFormat, AbiString, AbstractManifestError, Embedding};

#[test]
fn to_path_gives_the_path_of_a_path_abi_only() {
    let path = AbiFormat::Path("manifests/dev/abis/base/dojo_world_world.json".to_string());
    assert_eq!(path.to_path().unwrap(), "manifests/dev/abis/base/dojo_world_world.json");
    let embed = AbiFormat::Embed(vec![]);
    assert!(embed.to_path().is_none());
}

fn file_of(abi: &AbiFormat, root: &str) -> String {
    match abi.load_abi_string(root) {
        Ok(AbiString::InFile(f)) => f,
        _ => panic!("a path ABI is read from its file"),
    }
}

#[test]
fn the_abi_file_is_the_path_joined_to_the_root_directory() {
    let path = AbiFormat::Path("abis/world.json".to_string());
    assert_eq!(file_of(&path, "/project"), "/project/abis/world.json");
    assert_eq!(file_of(&path, "/project/"), "/project/abis/world.json");
    let absolute = AbiFormat::Path("/elsewhere/world.json".to_string());
    assert_eq!(file_of(&absolute, "/project"), "/elsewhere/world.json");
}

#[test]
fn load_abi_string_names_the_file_of_a_path_abi() {
    let path = AbiFormat::Path("abis/world.json".to_string());
    match path.load_abi_string("root") {
        Ok(AbiString::InFile(f)) => assert_eq!(f, "root/abis/world.json"),
        _ => panic!("a path ABI is read from its file"),
    }
}

#[test]
fn load_abi_string_writes_embedded_entries_as_json() {
    let embed = AbiFormat::Embed(vec![]);
    match embed.load_abi_string("root") {
        Ok(AbiString::Text(t)) => assert_eq!(t, "[]"),
        _ => panic!("embedded entries are written as JSON"),
    }
    let entries: Vec<starknet::core::types::contract::AbiEntry> = serde_json::from_str(
        r#"[{"type":"struct","name":"dojo::Position","members":[{"name":"x","type":"core::integer::u32"}]}]"#,
    )
    .unwrap();
    let expected = serde_json::to_string(&entries).unwrap();
    match AbiFormat::Embed(entries).load_abi_string("root") {
        Ok(AbiString::Text(t)) => {
            assert_eq!(t, expected);
            assert!(t.contains("dojo::Position"));
        }
        _ => panic!("embedded entries are written as JSON"),
    }
}

#[test]
fn to_embed_parses_a_path_abi_and_keeps_an_embedded_one() {
    match AbiFormat::Path("a.json".to_string()).to_embed("dir") {
        Embedding::ParseFile(f) => assert_eq!(f, "dir/a.json"),
        Embedding::Ready(_) => panic!("a path ABI is parsed from its file"),
    }
    match AbiFormat::Embed(vec![]).to_embed("dir") {
        Embedding::Ready(AbiFormat::Embed(e)) => assert!(e.is_empty()),
        _ => panic!("embedded entries are kept"),
    }
}

#[test]
fn clone_keeps_the_path() {
    let path = AbiFormat::Path("x/y.json".to_string());
    let copy = path.clone();
    assert_eq!(copy.to_path().unwrap(), "x/y.json");
}

#[test]
fn abi_equality_compares_paths_and_json() {
    let a = AbiFormat::Path("abis/world.json".to_string());
    assert!(a == AbiFormat::Path("abis/world.json".to_string()));
    assert!(a == AbiFormat::Path("abis//world.json".to_string()));
    assert!(a != AbiFormat::Path("abis/base.json".to_string()));
    assert!(a != AbiFormat::Embed(vec![]));
    let entries: Vec<starknet::core::types::contract::AbiEntry> = serde_json::from_str(
        r#"[{"type":"struct","name":"dojo::Position","members":[{"name":"x","type":"core::integer::u32"}]}]"#,
    )
    .unwrap();
    assert!(AbiFormat::Embed(entries.clone()) == AbiFormat::Embed(entries.clone()));
    assert!(AbiFormat::Embed(entries) != AbiFormat::Embed(vec![]));
    assert!(dojo_world::abi::abi_format_eq(&AbiFormat::Embed(vec![]), &AbiFormat::Embed(vec![])));
}

#[test]
fn embedded_abi_keeps_entries_and_refuses_a_path() {
    match embedded_abi(AbiFormat::Embed(vec![])) {
        Ok(AbiFormat::Embed(e)) => assert!(e.is_empty()),
        _ => panic!("embedded entries are the embedded form"),
    }
    match embedded_abi(AbiFormat::Path("other.json".to_string())) {
        Err(AbstractManifestError::NotEmbedded(p)) => assert_eq!(p, "other.json"),
        _ => panic!("a path is not the embedded form"),
    }
}

#[test]
fn abi_equality_is_an_equivalence_on_examples() {
    let x = AbiFormat::Path("a/b.json".to_string());
    let y = AbiFormat::Path("a/./b.json".to_string());
    let z = AbiFormat::Path("a//b.json".to_string());
    assert!(x == x);
    assert_eq!(x == y, y == x);
    assert!(x == y && y == z && x == z);
}
