use trustify::config::{ApiDoc, Config};
use trustify::organization::{OrganizationHead, OrganizationSummary, SummaryCollector};
use trustify::package::{PackageContext, PackageModel, PackageVersionRangeContext, PackageVersionRangeModel};

fn head(id: u128, name: &str) -> OrganizationHead {
    OrganizationHead { id, name: name.to_string(), cpe_key: None, website: Some("https://example.com".to_string()) }
}

#[test]
fn summaries_keep_order() {
    let heads: Vec<Result<OrganizationHead, String>> = vec![Ok(head(1, "Red Hat")), Ok(head(2, "Apache"))];
    let summaries = OrganizationSummary::from_entities(heads).unwrap();
    assert_eq!(summaries.len(), 2);
    assert_eq!(summaries[0].head.name, "Red Hat");
    assert_eq!(summaries[1].head.id, 2);
}

#[test]
fn summaries_stop_at_first_error() {
    let heads: Vec<Result<OrganizationHead, String>> =
        vec![Ok(head(1, "Red Hat")), Err("first".to_string()), Err("second".to_string())];
    assert_eq!(OrganizationSummary::from_entities(heads).unwrap_err(), "first");
    let none: Vec<Result<OrganizationHead, String>> = vec![];
    assert!(OrganizationSummary::from_entities(none).unwrap().is_empty());
}

#[test]
fn summary_of_one_entity() {
    let s = OrganizationSummary::from_entity::<String>(Ok(head(9, "Eclipse"))).unwrap();
    assert_eq!(s.head.id, 9);
    assert!(OrganizationSummary::from_entity::<&str>(Err("db")).is_err());
}

#[test]
fn default_config_has_no_limits_set() {
    let c = Config::default();
    assert_eq!(c, Config { sbom_upload_limit: 0, advisory_upload_limit: 0 });
    assert_eq!(ApiDoc, ApiDoc);
}

#[test]
fn version_range_context_from_parts() {
    let package = PackageContext {
        package: PackageModel {
            id: 4,
            package_type: "maven".to_string(),
            namespace: Some("io.quarkus".to_string()),
            name: "quarkus-core".to_string(),
        },
    };
    let range = PackageVersionRangeModel { id: 8, package_id: 4, start: "1.0.2".to_string(), end: "1.2.0".to_string() };
    let ctx = PackageVersionRangeContext::from((&package, range));
    assert_eq!(ctx.package.package.name, "quarkus-core");
    assert_eq!(ctx.package.package.namespace.as_deref(), Some("io.quarkus"));
    assert_eq!(ctx.package_version_range.start, "1.0.2");
    assert_eq!(ctx.package_version_range.id, 8);
}

#[test]
fn collector_stops_at_first_failure() {
    let mut c: SummaryCollector<String> = SummaryCollector::new(3);
    assert_eq!(c.next_index(), Some(0));
    c.accept(Ok(head(1, "Red Hat")));
    assert_eq!(c.next_index(), Some(1));
    c.accept(Err("db".to_string()));
    assert_eq!(c.next_index(), None);
    assert_eq!(c.finish().unwrap_err(), "db");

    let mut c: SummaryCollector<String> = SummaryCollector::new(1);
    c.accept(Ok(head(5, "Apache")));
    assert_eq!(c.next_index(), None);
    let done = c.finish().unwrap();
    assert_eq!(done.len(), 1);
    assert_eq!(done[0].head.id, 5);
}
