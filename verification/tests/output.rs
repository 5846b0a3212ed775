use wash_config::control::{
    ActorDescription, Claim, GetClaimsResponse, Host, HostInventory, KeyValue, LinkDefinition,
    LinkDefinitionList, ProviderDescription,
};
use wash_config::output::{
    apply_manifest_output, claims_table, get_claims_output, get_host_inventory_output,
    get_hosts_output, host_inventory_table, hosts_table, link_del_output, link_put_output,
    link_query_output, links_table,
};
use wash_config::table::decimal;

fn kv(k: &str, v: &str) -> KeyValue {
    KeyValue {
        key: k.to_string(),
        value: v.to_string(),
    }
}

#[test]
fn decimal_writes_exact_digits() {
    assert_eq!(decimal(0), "0");
    assert_eq!(decimal(7), "7");
    assert_eq!(decimal(42), "42");
    assert_eq!(decimal(1234567890), "1234567890");
    assert_eq!(decimal(u64::MAX), "18446744073709551615");
}

#[test]
fn link_del_output_success_and_failure() {
    let ok = link_del_output("actorid", "wasmcloud:httpserver", "default", None).unwrap();
    assert_eq!(
        ok.0,
        "Deleted link for actorid on wasmcloud:httpserver (default) successfully"
    );
    assert_eq!(
        ok.1,
        vec![
            kv("actor_id", "actorid"),
            kv("contract_id", "wasmcloud:httpserver"),
            kv("link_name", "default"),
        ]
    );
    let err = link_del_output("a", "c", "l", Some("boom".to_string())).unwrap_err();
    assert_eq!(err, "Error deleting link: boom");
}

#[test]
fn link_put_output_success_and_failure() {
    let ok = link_put_output("actorid", "providerid", None).unwrap();
    assert_eq!(ok.0, "Published link (actorid) <-> (providerid) successfully");
    assert_eq!(
        ok.1,
        vec![kv("actor_id", "actorid"), kv("provider_id", "providerid")]
    );
    let err = link_put_output("a", "p", Some("boom".to_string())).unwrap_err();
    assert_eq!(err, "Error advertising link: boom");
}

#[test]
fn apply_manifest_output_joins_results() {
    let (text, key) = apply_manifest_output(&vec![
        "first applied".to_string(),
        "second applied".to_string(),
    ]);
    assert_eq!(text, "\nManifest application results:\nfirst applied\nsecond applied");
    assert_eq!(key, "results");
    let (empty, _) = apply_manifest_output(&Vec::new());
    assert_eq!(empty, "\nManifest application results:\n");
}

#[test]
fn hosts_table_holds_ids_and_uptime() {
    let hosts = vec![Host {
        id: "NHOSTID".to_string(),
        uptime_seconds: 360,
    }];
    let text = hosts_table(&hosts);
    assert!(text.contains("Host ID"));
    assert!(text.contains("Uptime (seconds)"));
    assert!(text.contains("NHOSTID"));
    assert!(text.contains("360"));
    let (same, key) = get_hosts_output(&hosts);
    assert_eq!(same, text);
    assert_eq!(key, "hosts");
}

#[test]
fn links_table_holds_all_identifiers() {
    let list = LinkDefinitionList {
        links: vec![LinkDefinition {
            actor_id: "MACTOR".to_string(),
            provider_id: "VPROVIDER".to_string(),
            contract_id: "wasmcloud:keyvalue".to_string(),
            link_name: "default".to_string(),
        }],
    };
    let text = links_table(&list);
    for needle in ["MACTOR", "VPROVIDER", "wasmcloud:keyvalue", "default", "Actor ID"] {
        assert!(text.contains(needle), "missing {needle} in {text}");
    }
    let (same, key) = link_query_output(&list);
    assert_eq!(same, text);
    assert_eq!(key, "links");
}

#[test]
fn claims_table_reads_fields_with_empty_defaults() {
    let list = GetClaimsResponse {
        claims: vec![Claim {
            fields: vec![kv("iss", "ACCOUNTKEY"), kv("sub", "MODULEKEY")],
        }],
    };
    let text = claims_table(&list);
    assert!(text.contains("Claims"));
    assert!(text.contains("Issuer"));
    assert!(text.contains("ACCOUNTKEY"));
    assert!(text.contains("MODULEKEY"));
    assert!(text.contains("Revision"));
    let (same, key) = get_claims_output(&list);
    assert_eq!(same, text);
    assert_eq!(key, "claims");
}

#[test]
fn claims_table_takes_first_match() {
    let list = GetClaimsResponse {
        claims: vec![Claim {
            fields: vec![kv("iss", "FIRST"), kv("iss", "SECOND")],
        }],
    };
    let text = claims_table(&list);
    assert!(text.contains("FIRST"));
    assert!(!text.contains("SECOND"));
}

#[test]
fn inventory_table_with_everything_present() {
    let inv = HostInventory {
        host_id: "NHOST".to_string(),
        labels: vec![kv("hostcore.os", "linux")],
        actors: vec![ActorDescription {
            id: "MACTOR".to_string(),
            name: Some("echo".to_string()),
            image_ref: None,
        }],
        providers: vec![ProviderDescription {
            id: "VPROVIDER".to_string(),
            name: None,
            link_name: "default".to_string(),
            image_ref: Some("registry/provider:0.1.0".to_string()),
        }],
    };
    let text = host_inventory_table(&inv);
    for needle in [
        "Host Inventory (NHOST)",
        "hostcore.os",
        "linux",
        "MACTOR",
        "echo",
        "VPROVIDER",
        "registry/provider:0.1.0",
        "N/A",
    ] {
        assert!(text.contains(needle), "missing {needle} in {text}");
    }
    let (same, key) = get_host_inventory_output(&inv);
    assert_eq!(same, text);
    assert_eq!(key, "inventory");
}

#[test]
fn inventory_table_with_everything_absent() {
    let inv = HostInventory {
        host_id: "NHOST".to_string(),
        labels: Vec::new(),
        actors: Vec::new(),
        providers: Vec::new(),
    };
    let text = host_inventory_table(&inv);
    assert!(text.contains("No labels present"));
    assert!(text.contains("No actors found"));
    assert!(text.contains("No providers found"));
}
