use dojo_world::abi::AbiFormat;
use dojo_world::manifest::{
    Class, DojoContract, DojoModel, Manifest, ManifestMethods, OverlayClass, OverlayDojoContract,
    OverlayDojoModel, WorldContract,
};
use smol_str::SmolStr;
use starknet_crypto::FieldElement;

fn felt(v: u64) -> FieldElement {
    FieldElement::from(v)
}

fn strings(items: &[&str]) -> Vec<String> {
    items.iter().map(|s| s.to_string()).collect()
}

fn sample_contract() -> DojoContract {
    DojoContract {
        address: Some(felt(7)),
        class_hash: felt(1),
        original_class_hash: felt(2),
        base_class_hash: felt(3),
        abi: Some(AbiFormat::Path("abis/actions.json".to_string())),
        reads: strings(&["Position"]),
        writes: vec![],
        computed: vec![],
        init_calldata: vec![],
        name: "actions".to_string(),
        namespace: "dojo_examples".to_string(),
    }
}

#[test]
fn manifest_new_keeps_its_arguments() {
    let m = Manifest::new(Class::default(), "dojo_world_world".to_string(), "dojo::world::world".to_string());
    assert_eq!(m.manifest_name, "dojo_world_world");
    assert_eq!(m.artifact_name, "dojo::world::world");
    assert_eq!(m.inner.class_hash, FieldElement::ZERO);
    assert!(m.inner.abi.is_none());
}

#[test]
fn contract_merge_takes_over_the_values_that_the_overlay_sets() {
    let mut contract = sample_contract();
    let overlay = OverlayDojoContract {
        name: SmolStr::new("actions"),
        namespace: "dojo_examples".to_string(),
        original_class_hash: Some(felt(42)),
        reads: None,
        writes: Some(strings(&["Moves", "Position"])),
        init_calldata: Some(strings(&["0x1", "$contract_address:other"])),
    };
    contract.merge(overlay);
    assert_eq!(contract.original_class_hash, felt(42));
    assert_eq!(contract.reads, strings(&["Position"]));
    assert_eq!(contract.writes, strings(&["Moves", "Position"]));
    assert_eq!(contract.init_calldata, strings(&["0x1", "$contract_address:other"]));
    assert_eq!(contract.class_hash, felt(1));
    assert_eq!(contract.base_class_hash, felt(3));
    assert_eq!(contract.address, Some(felt(7)));
    assert_eq!(contract.name, "actions");
    assert_eq!(contract.abi.unwrap().to_path().unwrap(), "abis/actions.json");
}

#[test]
fn unset_contract_overlay_changes_nothing() {
    let mut contract = sample_contract();
    contract.merge(OverlayDojoContract::default());
    let before = sample_contract();
    assert_eq!(contract.original_class_hash, before.original_class_hash);
    assert_eq!(contract.reads, before.reads);
    assert_eq!(contract.writes, before.writes);
    assert_eq!(contract.init_calldata, before.init_calldata);
    assert_eq!(contract.class_hash, before.class_hash);
}

#[test]
fn merging_the_same_contract_overlay_twice_is_merging_it_once() {
    let overlay = OverlayDojoContract {
        reads: Some(strings(&["A"])),
        original_class_hash: Some(felt(9)),
        ..Default::default()
    };
    let mut once = sample_contract();
    once.merge(overlay.clone());
    let mut twice = sample_contract();
    twice.merge(overlay.clone());
    twice.merge(overlay);
    assert_eq!(once.reads, twice.reads);
    assert_eq!(once.original_class_hash, twice.original_class_hash);
    assert_eq!(twice.reads, strings(&["A"]));
}

#[test]
fn later_contract_overlay_wins() {
    let mut contract = sample_contract();
    contract.merge(OverlayDojoContract { reads: Some(strings(&["A"])), writes: Some(strings(&["W"])), ..Default::default() });
    contract.merge(OverlayDojoContract { reads: Some(strings(&["B"])), ..Default::default() });
    assert_eq!(contract.reads, strings(&["B"]));
    assert_eq!(contract.writes, strings(&["W"]));
}

#[test]
fn model_merge_takes_over_the_original_class_hash() {
    let mut model = DojoModel { class_hash: felt(5), original_class_hash: felt(6), ..Default::default() };
    model.merge(OverlayDojoModel { original_class_hash: Some(felt(11)), ..Default::default() });
    assert_eq!(*model.original_class_hash(), felt(11));
    assert_eq!(*model.class_hash(), felt(5));
    model.merge(OverlayDojoModel::default());
    assert_eq!(*model.original_class_hash(), felt(11));
}

#[test]
fn world_and_class_merge_take_over_the_original_class_hash() {
    let mut world = WorldContract { seed: "dojo".to_string(), block_number: Some(3), ..Default::default() };
    world.merge(OverlayClass { name: SmolStr::new("world"), original_class_hash: Some(felt(12)) });
    assert_eq!(world.original_class_hash, felt(12));
    assert_eq!(world.seed, "dojo");
    assert_eq!(world.block_number, Some(3));

    let mut class = Class { class_hash: felt(1), original_class_hash: felt(1), abi: None };
    class.merge(OverlayClass { name: SmolStr::new("base"), original_class_hash: None });
    assert_eq!(class.original_class_hash, felt(1));
    class.merge(OverlayClass { name: SmolStr::new("base"), original_class_hash: Some(felt(13)) });
    assert_eq!(class.original_class_hash, felt(13));
}

#[test]
fn abi_reads_back_what_was_set() {
    let mut class = Class::default();
    assert!(class.abi().is_none());
    class.set_abi(Some(AbiFormat::Path("abis/base.json".to_string())));
    assert_eq!(class.abi().unwrap().to_path().unwrap(), "abis/base.json");
    assert_eq!(*class.class_hash(), FieldElement::ZERO);
    class.set_abi(None);
    assert!(class.abi().is_none());
}

#[test]
fn class_hash_reads_back_what_was_set() {
    let mut contract = sample_contract();
    contract.set_class_hash(felt(99));
    assert_eq!(*contract.class_hash(), felt(99));
    assert_eq!(*contract.original_class_hash(), felt(2));
    assert!(contract.abi().is_some());
}

#[test]
fn manifests_compare_by_value() {
    let m1 = Manifest::new(sample_contract(), "a".to_string(), "b".to_string());
    let m2 = Manifest::new(sample_contract(), "a".to_string(), "b".to_string());
    assert!(m1 == m2);
    let mut other = sample_contract();
    other.set_class_hash(felt(100));
    assert!(m1 != Manifest::new(other, "a".to_string(), "b".to_string()));
}
