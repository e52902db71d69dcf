use vstd::prelude::*;

verus! {

/// One field of a call, event or error variant, as the chain declares it.
/// Either name may be absent in the self-describing type information; a
/// field is shown only when both are present.
#[derive(Clone, Debug, PartialEq, Eq)]
pub struct FieldDef {
    pub name: Option<String>,
    pub declared_type: Option<String>,
}

/// One named case of a call, event or error grouping, with its field list
/// and documentation lines.
#[derive(Clone, Debug, PartialEq, Eq)]
pub struct VariantDef {
    pub name: String,
    pub docs: Vec<String>,
    pub fields: Vec<FieldDef>,
}

/// One storage entry of a pallet: its name and documentation lines.
#[derive(Clone, Debug, PartialEq, Eq)]
pub struct StorageEntry {
    pub name: String,
    pub docs: Vec<String>,
}

/// One pallet of the runtime: name, documentation, optional storage
/// entries, and optional named groups of variants for calls, events and
/// errors. Absent groups are drawn as nothing at all.
#[derive(Clone, Debug, PartialEq, Eq)]
pub struct Pallet {
    pub name: String,
    pub docs: Vec<String>,
    pub storage: Option<Vec<StorageEntry>>,
    pub calls: Option<Vec<VariantDef>>,
    pub events: Option<Vec<VariantDef>>,
    pub errors: Option<Vec<VariantDef>>,
}

/// The runtime metadata a node answered with, reduced to what the explorer
/// reads: a sequence of pallets. Immutable once received.
#[derive(Clone, Debug, PartialEq, Eq)]
pub struct MetadataTree {
    pub pallets: Vec<Pallet>,
}

} // verus!
