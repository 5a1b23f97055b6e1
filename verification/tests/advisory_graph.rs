use trustify::advisory::{AdvisoryContext, AdvisoryModel, InnerSystem, IngestAdvisory, IngestAdvisoryStep};
use trustify::cve::{AdvisoryCveContext, CveModel, IngestCveStep};
use trustify::package_link::{PackageLink, PackageLinkModel, PackageLinkStep, PackageRef};

/// An in-memory database that answers the protocols' requests.
#[derive(Default)]
struct Db {
    next_id: i32,
    advisories: Vec<AdvisoryModel>,
    cves: Vec<CveModel>,
    advisory_cves: Vec<(i32, i32)>,
    packages: Vec<(i32, String, Option<(String, String)>)>,
    links: Vec<(trustify::package_link::LinkKind, PackageLinkModel)>,
}

impl Db {
    fn fresh_id(&mut self) -> i32 {
        self.next_id += 1;
        self.next_id
    }

    fn ingest_advisory(&mut self, identifier: &str, location: &str, sha256: &str) -> AdvisoryContext {
        let flow: IngestAdvisory = InnerSystem::ingest_advisory(identifier, location, sha256);
        let found = self
            .advisories
            .iter()
            .find(|a| {
                a.identifier == flow.key.identifier && a.location == flow.key.location && a.sha256 == flow.key.sha256
            })
            .cloned();
        match flow.after_lookup(found) {
            IngestAdvisoryStep::Existing(ctx) => ctx,
            IngestAdvisoryStep::Insert(key) => {
                let row = AdvisoryModel {
                    id: self.fresh_id(),
                    identifier: key.identifier,
                    location: key.location,
                    sha256: key.sha256,
                };
                self.advisories.push(row.clone());
                IngestAdvisory::after_insert(row)
            }
        }
    }

    fn ingest_cve(&mut self, advisory: &AdvisoryContext, identifier: &str) -> AdvisoryCveContext {
        let flow = advisory.ingest_cve(identifier);
        let q = flow.lookup();
        let found = self
            .cves
            .iter()
            .find(|c| c.identifier == q.identifier && self.advisory_cves.contains(&(q.advisory_id, c.id)))
            .cloned();
        match flow.after_lookup(found) {
            IngestCveStep::Existing(ctx) => ctx,
            IngestCveStep::IngestCve(identifier) => {
                let cve = match self.cves.iter().find(|c| c.identifier == identifier) {
                    Some(c) => c.clone(),
                    None => {
                        let c = CveModel { id: self.fresh_id(), identifier };
                        self.cves.push(c.clone());
                        c
                    }
                };
                let link = flow.link_for(&cve);
                self.advisory_cves.push((link.advisory_id, link.cve_id));
                flow.after_link(cve)
            }
        }
    }

    fn package_key(p: &PackageRef) -> (String, Option<(String, String)>) {
        match p {
            PackageRef::Version { purl } => (purl.clone(), None),
            PackageRef::Range { purl, start, end } => (purl.clone(), Some((start.clone(), end.clone()))),
        }
    }

    fn resolve(&self, p: &PackageRef) -> Option<i32> {
        let (purl, range) = Db::package_key(p);
        self.packages.iter().find(|(_, u, r)| *u == purl && *r == range).map(|(id, _, _)| *id)
    }

    fn run_link(&mut self, flow: PackageLink) -> Option<PackageLinkModel> {
        let mut step = flow.after_resolve(self.resolve(&flow.package_to_resolve()));
        loop {
            step = match step {
                PackageLinkStep::Find(q) => {
                    let found = self
                        .links
                        .iter()
                        .find(|(k, l)| *k == q.kind && l.advisory_id == q.advisory_id && l.package_id == q.package_id)
                        .map(|(_, l)| *l);
                    flow.after_find(found)
                }
                PackageLinkStep::IngestPackage(p) => {
                    let id = match self.resolve(&p) {
                        Some(id) => id,
                        None => {
                            let id = self.fresh_id();
                            let (purl, range) = Db::package_key(&p);
                            self.packages.push((id, purl, range));
                            id
                        }
                    };
                    flow.after_ingest_package(id)
                }
                PackageLinkStep::Insert(q) => {
                    let row = PackageLinkModel { id: self.fresh_id(), advisory_id: q.advisory_id, package_id: q.package_id };
                    self.links.push((q.kind, row));
                    flow.after_insert(row)
                }
                PackageLinkStep::Done(answer) => return answer,
            }
        }
    }
}

#[test]
fn ingest_advisories() {
    let mut db = Db::default();
    let advisory1 = db.ingest_advisory("RHSA-GHSA-1", "http://db.com/rhsa-ghsa-2", "2");
    let advisory2 = db.ingest_advisory("RHSA-GHSA-1", "http://db.com/rhsa-ghsa-2", "2");
    let advisory3 = db.ingest_advisory("RHSA-GHSA-1", "http://db.com/rhsa-ghsa-2", "89");
    assert_eq!(advisory1.advisory.id, advisory2.advisory.id);
    assert_ne!(advisory1.advisory.id, advisory3.advisory.id);
}

#[test]
fn ingest_affected_package_version_range() {
    let mut db = Db::default();
    let advisory = db.ingest_advisory("RHSA-GHSA-1", "http://db.com/rhsa-ghsa-2", "2");
    let affected1 = db
        .run_link(advisory.ingest_affected_package_range("pkg://maven/io.quarkus/quarkus-core", "1.0.2", "1.2.0"))
        .unwrap();
    let affected2 = db
        .run_link(advisory.ingest_affected_package_range("pkg://maven/io.quarkus/quarkus-core", "1.0.2", "1.2.0"))
        .unwrap();
    let affected3 = db
        .run_link(advisory.ingest_affected_package_range("pkg://maven/io.quarkus/quarkus-addons", "1.0.2", "1.2.0"))
        .unwrap();
    assert_eq!(affected1.id, affected2.id);
    assert_ne!(affected1.id, affected3.id);
}

#[test]
fn ingest_fixed_package_version() {
    let mut db = Db::default();
    let advisory = db.ingest_advisory("RHSA-GHSA-1", "http://db.com/rhsa-ghsa-2", "2");
    let _affected = db
        .run_link(advisory.ingest_affected_package_range("pkg://maven/io.quarkus/quarkus-core", "1.0.2", "1.2.0"))
        .unwrap();
    let fixed1 = db.run_link(advisory.ingest_fixed_package_version("pkg://maven/io.quarkus/quarkus-core@1.2.0")).unwrap();
    let fixed2 = db.run_link(advisory.ingest_fixed_package_version("pkg://maven/io.quarkus/quarkus-core@1.2.0")).unwrap();
    let fixed3 = db.run_link(advisory.ingest_fixed_package_version("pkg://maven/io.quarkus/quarkus-addons@1.2.0")).unwrap();
    assert_eq!(fixed1.id, fixed2.id);
    assert_ne!(fixed1.id, fixed3.id);
}

#[test]
fn ingest_advisory_cve() {
    let mut db = Db::default();
    let advisory = db.ingest_advisory("RHSA-GHSA-1", "http://db.com/rhsa-ghsa-2", "2");
    let cve1 = db.ingest_cve(&advisory, "CVE-123");
    let cve2 = db.ingest_cve(&advisory, "CVE-123");
    let cve3 = db.ingest_cve(&advisory, "CVE-456");
    assert_eq!(cve1.cve.id, cve2.cve.id);
    assert_ne!(cve1.cve.id, cve3.cve.id);
}

#[test]
fn get_after_ingest_finds_the_link() {
    let mut db = Db::default();
    let advisory = db.ingest_advisory("RHSA-GHSA-1", "http://db.com/rhsa-ghsa-2", "2");
    assert!(db.run_link(advisory.get_fixed_package_version("pkg://maven/io.quarkus/quarkus-core@1.2.0")).is_none());
    let packages_before = db.packages.len();
    assert_eq!(packages_before, 0);
    let fixed = db.run_link(advisory.ingest_fixed_package_version("pkg://maven/io.quarkus/quarkus-core@1.2.0")).unwrap();
    let found = db.run_link(advisory.get_fixed_package_version("pkg://maven/io.quarkus/quarkus-core@1.2.0")).unwrap();
    assert_eq!(found, fixed);
    // A fixed version is not a not-affected version.
    assert!(db
        .run_link(advisory.get_not_affected_package_version("pkg://maven/io.quarkus/quarkus-core@1.2.0"))
        .is_none());
    let not_affected = db
        .run_link(advisory.ingest_not_affected_package_version("pkg://maven/io.quarkus/quarkus-core@1.2.0"))
        .unwrap();
    assert_ne!(not_affected.id, fixed.id);
    assert_eq!(not_affected.package_id, fixed.package_id);
    let range = db
        .run_link(advisory.ingest_affected_package_range("pkg://maven/io.quarkus/quarkus-core", "1.0.2", "1.2.0"))
        .unwrap();
    let range_found = db
        .run_link(advisory.get_affected_package_range("pkg://maven/io.quarkus/quarkus-core", "1.0.2", "1.2.0"))
        .unwrap();
    assert_eq!(range, range_found);
}

#[test]
fn get_advisory_names_all_three_attributes() {
    let key = InnerSystem::get_advisory("RHSA-GHSA-1", "http://db.com/rhsa-ghsa-2", "2");
    assert_eq!(key.identifier, "RHSA-GHSA-1");
    assert_eq!(key.location, "http://db.com/rhsa-ghsa-2");
    assert_eq!(key.sha256, "2");
}

#[test]
fn get_cve_looks_up_through_the_advisory() {
    let ctx = AdvisoryContext::from(AdvisoryModel {
        id: 7,
        identifier: "RHSA-GHSA-1".to_string(),
        location: "here".to_string(),
        sha256: "2".to_string(),
    });
    let q = ctx.get_cve("CVE-123");
    assert_eq!(q.advisory_id, 7);
    assert_eq!(q.identifier, "CVE-123");
    let found = ctx.cve_context(CveModel { id: 3, identifier: "CVE-123".to_string() });
    assert_eq!(found.advisory.id, 7);
    assert_eq!(found.cve.id, 3);
}

#[test]
fn advisory_contexts_compare_by_row() {
    let row = AdvisoryModel {
        id: 1,
        identifier: "A".to_string(),
        location: "L".to_string(),
        sha256: "S".to_string(),
    };
    let a = AdvisoryContext::from(row.clone());
    let b = AdvisoryContext::from(row.clone());
    let c = AdvisoryContext::from(AdvisoryModel { sha256: "T".to_string(), ..row });
    assert!(a == b);
    assert!(a != c);
}
