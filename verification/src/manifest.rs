//! The kinds of manifest that the compiler and the migration tool produce:
//! `BaseManifest`, generated by the compiler; `DeploymentManifest`, the world
//! as it will stand on chain after a migration; and `OverlayManifest`, what
//! users set by hand over a base manifest.
use vstd::prelude::*;
use smol_str::SmolStr;
use starknet_crypto::FieldElement;
use crate::abi::AbiFormat;

verus! {

/// The manifest that the compiler generates.
#[derive(Clone, Debug, PartialEq)]
pub struct BaseManifest {
    pub world: Manifest<Class>,
    pub base: Manifest<Class>,
    pub contracts: Vec<Manifest<DojoContract>>,
    pub models: Vec<Manifest<DojoModel>>,
}

/// The world as it stands on chain after a successful migration.
#[derive(Clone, Debug, PartialEq)]
pub struct DeploymentManifest {
    pub world: Manifest<WorldContract>,
    pub base: Manifest<Class>,
    pub contracts: Vec<Manifest<DojoContract>>,
    pub models: Vec<Manifest<DojoModel>>,
}

/// Values that users set by hand over those of the base manifest.
#[derive(Default, Clone, Debug, PartialEq)]
pub struct OverlayManifest {
    pub world: Option<OverlayClass>,
    pub base: Option<OverlayClass>,
    pub contracts: Vec<OverlayDojoContract>,
    pub models: Vec<OverlayDojoModel>,
}

/// One manifest entry, with the names under which it is stored.
#[derive(Clone, Default, Debug, PartialEq)]
pub struct Manifest<T> where T: ManifestMethods {
    pub inner: T,
    /// Name of the manifest, which is used as its file name.
    pub manifest_name: String,
    /// Name of the artifact that the compiler produced for this entry, by
    /// which manifests and artifacts are matched.
    pub artifact_name: String,
}

/// What every kind of manifest entry offers: its ABI and class hashes, and
/// how it takes over the values that users set by hand.
pub trait ManifestMethods: Sized {
    type OverlayType;

    /// The ABI of the entry.
    spec fn spec_abi(&self) -> Option<AbiFormat>;

    /// The class hash of the entry.
    spec fn spec_class_hash(&self) -> FieldElement;

    /// The class hash that the entry was first declared with.
    spec fn spec_original_class_hash(&self) -> FieldElement;

    /// The entry with its ABI replaced.
    spec fn spec_with_abi(self, abi: Option<AbiFormat>) -> Self;

    /// The entry with its class hash replaced.
    spec fn spec_with_class_hash(self, class_hash: FieldElement) -> Self;

    /// The entry after the values that `overlay` sets have been taken over.
    spec fn spec_merge(self, overlay: Self::OverlayType) -> Self;

    fn abi(&self) -> (r: Option<&AbiFormat>)
        ensures
            r is Some <==> self.spec_abi() is Some,
            r matches Some(a) ==> *a == self.spec_abi()->0,
    ;

    fn set_abi(&mut self, abi: Option<AbiFormat>)
        ensures
            *final(self) == (*old(self)).spec_with_abi(abi),
    ;

    fn class_hash(&self) -> (r: &FieldElement)
        ensures
            *r == self.spec_class_hash(),
    ;

    fn set_class_hash(&mut self, class_hash: FieldElement)
        ensures
            *final(self) == (*old(self)).spec_with_class_hash(class_hash),
    ;

    fn original_class_hash(&self) -> (r: &FieldElement)
        ensures
            *r == self.spec_original_class_hash(),
    ;

    /// Called when, during compilation, the base manifest file already
    /// exists: the generated entry lacks the properties that users updated
    /// by hand (such as calldata), so these are taken over from `overlay`.
    fn merge(&mut self, overlay: Self::OverlayType)
        ensures
            *final(self) == (*old(self)).spec_merge(overlay),
    ;

    /// Reading the ABI gives back what was set, and setting it leaves both
    /// class hashes as they were.
    proof fn lemma_abi_read_after_write(self, abi: Option<AbiFormat>)
        ensures
            self.spec_with_abi(abi).spec_abi() == abi,
            self.spec_with_abi(abi).spec_class_hash() == self.spec_class_hash(),
            self.spec_with_abi(abi).spec_original_class_hash() == self.spec_original_class_hash(),
    ;

    /// Reading the class hash gives back what was set, and setting it leaves
    /// the ABI and the original class hash as they were.
    proof fn lemma_class_hash_read_after_write(self, class_hash: FieldElement)
        ensures
            self.spec_with_class_hash(class_hash).spec_class_hash() == class_hash,
            self.spec_with_class_hash(class_hash).spec_abi() == self.spec_abi(),
            self.spec_with_class_hash(class_hash).spec_original_class_hash()
                == self.spec_original_class_hash(),
    ;

    /// Merging keeps what the compiler generated: the ABI and the class hash.
    proof fn lemma_merge_keeps_generated(self, overlay: Self::OverlayType)
        ensures
            self.spec_merge(overlay).spec_abi() == self.spec_abi(),
            self.spec_merge(overlay).spec_class_hash() == self.spec_class_hash(),
    ;

    /// Taking over the same overlay twice is taking it over once.
    proof fn lemma_merge_idempotent(self, overlay: Self::OverlayType)
        ensures
            self.spec_merge(overlay).spec_merge(overlay) == self.spec_merge(overlay),
    ;
}

impl<T> Manifest<T> where T: ManifestMethods {
    pub fn new(inner: T, manifest_name: String, artifact_name: String) -> (r: Self)
        ensures
            r == (Manifest { inner, manifest_name, artifact_name }),
    {
        Self { inner, manifest_name, artifact_name }
    }
}

/// A contract of the world.
#[derive(Clone, Default, Debug, PartialEq)]
pub struct DojoContract {
    pub address: Option<FieldElement>,
    pub class_hash: FieldElement,
    pub original_class_hash: FieldElement,
    /// Base class hash used to deploy the contract.
    pub base_class_hash: FieldElement,
    pub abi: Option<AbiFormat>,
    pub reads: Vec<String>,
    pub writes: Vec<String>,
    pub computed: Vec<ComputedValueEntrypoint>,
    pub init_calldata: Vec<String>,
    pub name: String,
    pub namespace: String,
}

/// The declaration of a model.
#[derive(Clone, Default, Debug, PartialEq)]
pub struct DojoModel {
    pub members: Vec<Member>,
    pub class_hash: FieldElement,
    pub original_class_hash: FieldElement,
    pub abi: Option<AbiFormat>,
    pub name: String,
    pub namespace: String,
}

/// The world contract, as deployed.
#[derive(Clone, Default, Debug, PartialEq)]
pub struct WorldContract {
    pub class_hash: FieldElement,
    pub original_class_hash: FieldElement,
    pub abi: Option<AbiFormat>,
    pub address: Option<FieldElement>,
    pub transaction_hash: Option<FieldElement>,
    pub block_number: Option<u64>,
    pub seed: String,
    pub metadata: Option<WorldMetadata>,
}

/// A declared class.
#[derive(Clone, Default, Debug, PartialEq)]
pub struct Class {
    pub class_hash: FieldElement,
    pub original_class_hash: FieldElement,
    pub abi: Option<AbiFormat>,
}

/// The values of a contract that users may set by hand.
#[derive(Clone, Default, Debug, PartialEq)]
pub struct OverlayDojoContract {
    pub name: SmolStr,
    pub namespace: String,
    pub original_class_hash: Option<FieldElement>,
    pub reads: Option<Vec<String>>,
    pub writes: Option<Vec<String>>,
    pub init_calldata: Option<Vec<String>>,
}

/// The values of a model that users may set by hand.
#[derive(Clone, Default, Debug, PartialEq)]
pub struct OverlayDojoModel {
    pub name: SmolStr,
    pub namespace: String,
    pub original_class_hash: Option<FieldElement>,
}

/// The values of a contract that users may set by hand.
#[derive(Clone, Default, Debug, PartialEq)]
pub struct OverlayContract {
    pub name: SmolStr,
    pub original_class_hash: Option<FieldElement>,
}

/// The values of a class that users may set by hand.
#[derive(Clone, Default, Debug, PartialEq)]
pub struct OverlayClass {
    pub name: SmolStr,
    pub original_class_hash: Option<FieldElement>,
}

/// A member of a model.
#[derive(Clone, Debug, PartialEq)]
pub struct Member {
    /// Name of the member.
    pub name: String,
    /// Type of the member.
    pub ty: String,
    pub key: bool,
}

/// An entrypoint that computes a value for a model.
#[derive(Clone, Default, Debug, PartialEq)]
pub struct ComputedValueEntrypoint {
    /// Name of the contract containing the entrypoint.
    pub contract: SmolStr,
    /// Name of the entrypoint that computes the value.
    pub entrypoint: SmolStr,
    /// Namespace of the model to compute for.
    pub namespace: Option<String>,
    /// Model to compute for.
    pub model: Option<String>,
}

/// System input ABI.
#[derive(Clone, Default, Debug, PartialEq)]
pub struct Input {
    pub name: String,
    pub ty: String,
}

/// System output ABI.
#[derive(Clone, Default, Debug, PartialEq)]
pub struct Output {
    pub ty: String,
}

/// Where the world was migrated from.
#[derive(Clone, Default, Debug, PartialEq)]
pub struct WorldMetadata {
    pub profile_name: String,
    pub rpc_url: String,
}

/// The value that an overlay sets, or the current one where it sets none.
pub open spec fn overridden<A>(current: A, set: Option<A>) -> A {
    match set {
        Some(v) => v,
        None => current,
    }
}

impl ManifestMethods for DojoContract {
    type OverlayType = OverlayDojoContract;

    open spec fn spec_abi(&self) -> Option<AbiFormat> {
        self.abi
    }

    open spec fn spec_class_hash(&self) -> FieldElement {
        self.class_hash
    }

    open spec fn spec_original_class_hash(&self) -> FieldElement {
        self.original_class_hash
    }

    open spec fn spec_with_abi(self, abi: Option<AbiFormat>) -> Self {
        DojoContract { abi, ..self }
    }

    open spec fn spec_with_class_hash(self, class_hash: FieldElement) -> Self {
        DojoContract { class_hash, ..self }
    }

    /// Takes over the original class hash, the reads, the writes and the
    /// initialisation calldata that the overlay sets.
    open spec fn spec_merge(self, overlay: OverlayDojoContract) -> Self {
        DojoContract {
            original_class_hash: overridden(self.original_class_hash, overlay.original_class_hash),
            reads: overridden(self.reads, overlay.reads),
            writes: overridden(self.writes, overlay.writes),
            init_calldata: overridden(self.init_calldata, overlay.init_calldata),
            ..self
        }
    }

    fn abi(&self) -> (r: Option<&AbiFormat>) {
        self.abi.as_ref()
    }

    fn set_abi(&mut self, abi: Option<AbiFormat>) {
        self.abi = abi;
    }

    fn class_hash(&self) -> (r: &FieldElement) {
        &self.class_hash
    }

    fn set_class_hash(&mut self, class_hash: FieldElement) {
        self.class_hash = class_hash;
    }

    fn original_class_hash(&self) -> (r: &FieldElement) {
        &self.original_class_hash
    }

    fn merge(&mut self, overlay: OverlayDojoContract) {
        if let Some(class_hash) = overlay.original_class_hash {
            self.original_class_hash = class_hash;
        }
        if let Some(reads) = overlay.reads {
            self.reads = reads;
        }
        if let Some(writes) = overlay.writes {
            self.writes = writes;
        }
        if let Some(init_calldata) = overlay.init_calldata {
            self.init_calldata = init_calldata;
        }
    }

    proof fn lemma_abi_read_after_write(self, abi: Option<AbiFormat>) {
    }

    proof fn lemma_class_hash_read_after_write(self, class_hash: FieldElement) {
    }

    proof fn lemma_merge_keeps_generated(self, overlay: OverlayDojoContract) {
    }

    proof fn lemma_merge_idempotent(self, overlay: OverlayDojoContract) {
    }
}

impl ManifestMethods for DojoModel {
    type OverlayType = OverlayDojoModel;

    open spec fn spec_abi(&self) -> Option<AbiFormat> {
        self.abi
    }

    open spec fn spec_class_hash(&self) -> FieldElement {
        self.class_hash
    }

    open spec fn spec_original_class_hash(&self) -> FieldElement {
        self.original_class_hash
    }

    open spec fn spec_with_abi(self, abi: Option<AbiFormat>) -> Self {
        DojoModel { abi, ..self }
    }

    open spec fn spec_with_class_hash(self, class_hash: FieldElement) -> Self {
        DojoModel { class_hash, ..self }
    }

    /// Takes over the original class hash that the overlay sets.
    open spec fn spec_merge(self, overlay: OverlayDojoModel) -> Self {
        DojoModel {
            original_class_hash: overridden(self.original_class_hash, overlay.original_class_hash),
            ..self
        }
    }

    fn abi(&self) -> (r: Option<&AbiFormat>) {
        self.abi.as_ref()
    }

    fn set_abi(&mut self, abi: Option<AbiFormat>) {
        self.abi = abi;
    }

    fn class_hash(&self) -> (r: &FieldElement) {
        &self.class_hash
    }

    fn set_class_hash(&mut self, class_hash: FieldElement) {
        self.class_hash = class_hash;
    }

    fn original_class_hash(&self) -> (r: &FieldElement) {
        &self.original_class_hash
    }

    fn merge(&mut self, overlay: OverlayDojoModel) {
        if let Some(class_hash) = overlay.original_class_hash {
            self.original_class_hash = class_hash;
        }
    }

    proof fn lemma_abi_read_after_write(self, abi: Option<AbiFormat>) {
    }

    proof fn lemma_class_hash_read_after_write(self, class_hash: FieldElement) {
    }

    proof fn lemma_merge_keeps_generated(self, overlay: OverlayDojoModel) {
    }

    proof fn lemma_merge_idempotent(self, overlay: OverlayDojoModel) {
    }
}

impl ManifestMethods for WorldContract {
    type OverlayType = OverlayClass;

    open spec fn spec_abi(&self) -> Option<AbiFormat> {
        self.abi
    }

    open spec fn spec_class_hash(&self) -> FieldElement {
        self.class_hash
    }

    open spec fn spec_original_class_hash(&self) -> FieldElement {
        self.original_class_hash
    }

    open spec fn spec_with_abi(self, abi: Option<AbiFormat>) -> Self {
        WorldContract { abi, ..self }
    }

    open spec fn spec_with_class_hash(self, class_hash: FieldElement) -> Self {
        WorldContract { class_hash, ..self }
    }

    /// Takes over the original class hash that the overlay sets.
    open spec fn spec_merge(self, overlay: OverlayClass) -> Self {
        WorldContract {
            original_class_hash: overridden(self.original_class_hash, overlay.original_class_hash),
            ..self
        }
    }

    fn abi(&self) -> (r: Option<&AbiFormat>) {
        self.abi.as_ref()
    }

    fn set_abi(&mut self, abi: Option<AbiFormat>) {
        self.abi = abi;
    }

    fn class_hash(&self) -> (r: &FieldElement) {
        &self.class_hash
    }

    fn set_class_hash(&mut self, class_hash: FieldElement) {
        self.class_hash = class_hash;
    }

    fn original_class_hash(&self) -> (r: &FieldElement) {
        &self.original_class_hash
    }

    fn merge(&mut self, overlay: OverlayClass) {
        if let Some(class_hash) = overlay.original_class_hash {
            self.original_class_hash = class_hash;
        }
    }

    proof fn lemma_abi_read_after_write(self, abi: Option<AbiFormat>) {
    }

    proof fn lemma_class_hash_read_after_write(self, class_hash: FieldElement) {
    }

    proof fn lemma_merge_keeps_generated(self, overlay: OverlayClass) {
    }

    proof fn lemma_merge_idempotent(self, overlay: OverlayClass) {
    }
}

impl ManifestMethods for Class {
    type OverlayType = OverlayClass;

    open spec fn spec_abi(&self) -> Option<AbiFormat> {
        self.abi
    }

    open spec fn spec_class_hash(&self) -> FieldElement {
        self.class_hash
    }

    open spec fn spec_original_class_hash(&self) -> FieldElement {
        self.original_class_hash
    }

    open spec fn spec_with_abi(self, abi: Option<AbiFormat>) -> Self {
        Class { abi, ..self }
    }

    open spec fn spec_with_class_hash(self, class_hash: FieldElement) -> Self {
        Class { class_hash, ..self }
    }

    /// Takes over the original class hash that the overlay sets.
    open spec fn spec_merge(self, overlay: OverlayClass) -> Self {
        Class {
            original_class_hash: overridden(self.original_class_hash, overlay.original_class_hash),
            ..self
        }
    }

    fn abi(&self) -> (r: Option<&AbiFormat>) {
        self.abi.as_ref()
    }

    fn set_abi(&mut self, abi: Option<AbiFormat>) {
        self.abi = abi;
    }

    fn class_hash(&self) -> (r: &FieldElement) {
        &self.class_hash
    }

    fn set_class_hash(&mut self, class_hash: FieldElement) {
        self.class_hash = class_hash;
    }

    fn original_class_hash(&self) -> (r: &FieldElement) {
        &self.original_class_hash
    }

    fn merge(&mut self, overlay: OverlayClass) {
        if let Some(class_hash) = overlay.original_class_hash {
            self.original_class_hash = class_hash;
        }
    }

    proof fn lemma_abi_read_after_write(self, abi: Option<AbiFormat>) {
    }

    proof fn lemma_class_hash_read_after_write(self, class_hash: FieldElement) {
    }

    proof fn lemma_merge_keeps_generated(self, overlay: OverlayClass) {
    }

    proof fn lemma_merge_idempotent(self, overlay: OverlayClass) {
    }
}

/// For every kind of entry, merging takes over the original class hash that
/// the overlay sets, and keeps the entry's own where the overlay sets none.
pub proof fn lemma_merge_takes_over_the_original_class_hash(
    contract: DojoContract,
    contract_overlay: OverlayDojoContract,
    model: DojoModel,
    model_overlay: OverlayDojoModel,
    world: WorldContract,
    class: Class,
    class_overlay: OverlayClass,
)
    ensures
        contract_overlay.original_class_hash matches Some(h)
            ==> contract.spec_merge(contract_overlay).spec_original_class_hash() == h,
        contract_overlay.original_class_hash is None
            ==> contract.spec_merge(contract_overlay).spec_original_class_hash() == contract.spec_original_class_hash(),
        model_overlay.original_class_hash matches Some(h)
            ==> model.spec_merge(model_overlay).spec_original_class_hash() == h,
        model_overlay.original_class_hash is None
            ==> model.spec_merge(model_overlay).spec_original_class_hash() == model.spec_original_class_hash(),
        class_overlay.original_class_hash matches Some(h)
            ==> world.spec_merge(class_overlay).spec_original_class_hash() == h,
        class_overlay.original_class_hash is None
            ==> world.spec_merge(class_overlay).spec_original_class_hash() == world.spec_original_class_hash(),
        class_overlay.original_class_hash matches Some(h)
            ==> class.spec_merge(class_overlay).spec_original_class_hash() == h,
        class_overlay.original_class_hash is None
            ==> class.spec_merge(class_overlay).spec_original_class_hash() == class.spec_original_class_hash(),
{
}

/// Merging a contract takes over the reads, the writes and the
/// initialisation calldata that the overlay sets, and keeps the contract's
/// own where it sets none.
pub proof fn lemma_contract_merge_takes_over_user_values(contract: DojoContract, overlay: OverlayDojoContract)
    ensures
        overlay.reads matches Some(r) ==> contract.spec_merge(overlay).reads == r,
        overlay.reads is None ==> contract.spec_merge(overlay).reads == contract.reads,
        overlay.writes matches Some(w) ==> contract.spec_merge(overlay).writes == w,
        overlay.writes is None ==> contract.spec_merge(overlay).writes == contract.writes,
        overlay.init_calldata matches Some(c) ==> contract.spec_merge(overlay).init_calldata == c,
        overlay.init_calldata is None ==> contract.spec_merge(overlay).init_calldata == contract.init_calldata,
{
}

/// An overlay of a contract that sets nothing leaves the contract as it is.
pub proof fn lemma_unset_contract_overlay_changes_nothing(contract: DojoContract, overlay: OverlayDojoContract)
    requires
        overlay.original_class_hash is None,
        overlay.reads is None,
        overlay.writes is None,
        overlay.init_calldata is None,
    ensures
        contract.spec_merge(overlay) == contract,
{
}

/// An overlay of a model that sets nothing leaves the model as it is.
pub proof fn lemma_unset_model_overlay_changes_nothing(model: DojoModel, overlay: OverlayDojoModel)
    requires
        overlay.original_class_hash is None,
    ensures
        model.spec_merge(overlay) == model,
{
}

/// An overlay of a class that sets nothing leaves the class, and the world
/// contract, as they are.
pub proof fn lemma_unset_class_overlay_changes_nothing(class: Class, world: WorldContract, overlay: OverlayClass)
    requires
        overlay.original_class_hash is None,
    ensures
        class.spec_merge(overlay) == class,
        world.spec_merge(overlay) == world,
{
}

/// Of two overlays of a contract, the later one wins for each value that it
/// sets, and the earlier one's value stands for each that the later leaves unset.
pub proof fn lemma_later_contract_overlay_wins(
    contract: DojoContract,
    earlier: OverlayDojoContract,
    later: OverlayDojoContract,
)
    ensures
        ({
            let both = contract.spec_merge(earlier).spec_merge(later);
            &&& both.original_class_hash == overridden(
                overridden(contract.original_class_hash, earlier.original_class_hash),
                later.original_class_hash,
            )
            &&& both.reads == overridden(overridden(contract.reads, earlier.reads), later.reads)
            &&& both.writes == overridden(overridden(contract.writes, earlier.writes), later.writes)
            &&& both.init_calldata == overridden(
                overridden(contract.init_calldata, earlier.init_calldata),
                later.init_calldata,
            )
        }),
{
}

} // verus!
