use substrate_api_explorer::metadata::{FieldDef, MetadataTree, Pallet, StorageEntry, VariantDef};
use substrate_api_explorer::render::{
    concat_docs, render_pallet_metadata, render_storage_metadata, render_tree, render_variant,
    render_variants, Group, Row,
};

fn field(name: &str, ty: &str) -> FieldDef {
    FieldDef { name: Some(name.to_string()), declared_type: Some(ty.to_string()) }
}

fn variant(name: &str, docs: &[&str], fields: Vec<FieldDef>) -> VariantDef {
    VariantDef {
        name: name.to_string(),
        docs: docs.iter().map(|d| d.to_string()).collect(),
        fields,
    }
}

fn sample_pallet() -> Pallet {
    Pallet {
        name: "Balances".to_string(),
        docs: vec!["The balances pallet.".to_string()],
        storage: Some(vec![StorageEntry {
            name: "TotalIssuance".to_string(),
            docs: vec!["The total units issued.".to_string()],
        }]),
        calls: Some(vec![variant(
            "transfer",
            &["Transfer some balance."],
            vec![field("dest", "T::AccountId"), field("value", "BalanceOf<T>")],
        )]),
        events: Some(vec![variant("Transfer", &[], vec![])]),
        errors: None,
    }
}

#[test]
fn concat_docs_joins_lines_with_breaks() {
    let lines = vec!["Line one.".to_string(), "Line two.".to_string()];
    assert_eq!(concat_docs(&lines), "Line one.\nLine two.\n");
}

#[test]
fn concat_docs_of_nothing_is_empty() {
    let lines: Vec<String> = Vec::new();
    assert_eq!(concat_docs(&lines), "");
}

#[test]
fn variant_signature_lists_named_fields() {
    let v = variant(
        "transfer",
        &["Transfer some balance.", "May fail."],
        vec![field("dest", "T::AccountId"), field("value", "BalanceOf<T>")],
    );
    let rows = render_variant(&v);
    assert_eq!(
        rows,
        vec![
            Row::CodeLabel("transfer(dest: T::AccountId, value: BalanceOf<T>)".to_string()),
            Row::Markup("Transfer some balance.\nMay fail.\n".to_string()),
        ]
    );
}

#[test]
fn variant_without_fields_shows_bare_name() {
    let v = variant("remark", &[], vec![]);
    assert_eq!(render_variant(&v), vec![Row::CodeLabel("remark".to_string())]);
}

#[test]
fn variant_skips_fields_missing_a_name_or_type() {
    let v = variant(
        "set",
        &[],
        vec![
            FieldDef { name: None, declared_type: Some("u32".to_string()) },
            field("now", "T::Moment"),
            FieldDef { name: Some("lost".to_string()), declared_type: None },
        ],
    );
    assert_eq!(render_variant(&v), vec![Row::CodeLabel("set(now: T::Moment)".to_string())]);
}

#[test]
fn storage_entry_shows_name_then_docs() {
    let e = StorageEntry {
        name: "Account".to_string(),
        docs: vec!["The balance of an account.".to_string()],
    };
    assert_eq!(
        render_storage_metadata(&e),
        vec![
            Row::CodeLabel("Account".to_string()),
            Row::Markup("The balance of an account.\n".to_string()),
        ]
    );
}

#[test]
fn storage_entry_without_docs_shows_name_only() {
    let e = StorageEntry { name: "Now".to_string(), docs: vec![] };
    assert_eq!(render_storage_metadata(&e), vec![Row::CodeLabel("Now".to_string())]);
}

#[test]
fn absent_variant_group_draws_nothing() {
    assert_eq!(render_variants(None, "Calls"), None);
}

#[test]
fn variant_group_titles_its_rows() {
    let vs = vec![variant("remark", &[], vec![]), variant("set_code", &[], vec![])];
    assert_eq!(
        render_variants(Some(&vs), "Calls"),
        Some(Group {
            title: "Calls".to_string(),
            rows: vec![
                Row::CodeLabel("remark".to_string()),
                Row::CodeLabel("set_code".to_string()),
            ],
        })
    );
}

#[test]
fn pallet_section_has_only_present_parts() {
    let section = render_pallet_metadata(&sample_pallet());
    assert_eq!(section.name, "Balances");
    assert_eq!(section.docs, Some("The balances pallet.\n".to_string()));
    let storage = section.storage.expect("storage present");
    assert_eq!(storage.title, "Storage");
    assert_eq!(
        storage.rows,
        vec![
            Row::CodeLabel("TotalIssuance".to_string()),
            Row::Markup("The total units issued.\n".to_string()),
        ]
    );
    assert_eq!(section.calls.as_ref().map(|g| g.title.as_str()), Some("Calls"));
    assert_eq!(section.events.as_ref().map(|g| g.title.as_str()), Some("Events"));
    assert_eq!(section.errors, None);
}

#[test]
fn pallet_without_docs_or_groups_draws_header_alone() {
    let p = Pallet {
        name: "Empty".to_string(),
        docs: vec![],
        storage: None,
        calls: None,
        events: None,
        errors: None,
    };
    let section = render_pallet_metadata(&p);
    assert_eq!(section.docs, None);
    assert_eq!(section.storage, None);
    assert_eq!(section.calls, None);
    assert_eq!(section.events, None);
    assert_eq!(section.errors, None);
}

#[test]
fn rendering_the_same_tree_twice_is_identical() {
    let tree = MetadataTree { pallets: vec![sample_pallet(), sample_pallet()] };
    let first = render_tree(&tree);
    let second = render_tree(&tree);
    assert_eq!(first, second);
    assert_eq!(first.len(), 2);
}
