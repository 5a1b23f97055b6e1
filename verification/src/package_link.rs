//! Package versions and version ranges that an advisory names as fixed, not
//! affected, or affected: their lookups and the get-or-create protocol.
use vstd::prelude::*;
use crate::advisory::AdvisoryContext;

verus! {

/// Which link table between advisories and packages.
#[derive(Debug, Clone, Copy, PartialEq, Eq, Structural)]
pub enum LinkKind {
    /// The advisory's fixed package versions.
    FixedPackageVersion,
    /// The package versions that the advisory declares not affected.
    NotAffectedPackageVersion,
    /// The package version ranges that the advisory declares affected.
    AffectedPackageVersionRange,
}

/// A package version (a purl with a version) or a version range of a package.
#[derive(Debug)]
pub enum PackageRef {
    Version { purl: String },
    Range { purl: String, start: String, end: String },
}

impl PackageRef {
    fn duplicate(&self) -> (res: PackageRef)
        ensures
            res == *self,
    {
        match self {
            PackageRef::Version { purl } => PackageRef::Version { purl: purl.clone() },
            PackageRef::Range { purl, start, end } => PackageRef::Range {
                purl: purl.clone(),
                start: start.clone(),
                end: end.clone(),
            },
        }
    }
}

/// A row of a link table: which advisory names which package version (or range).
#[derive(Debug, Clone, Copy, PartialEq, Eq, Structural)]
pub struct PackageLinkModel {
    pub id: i32,
    pub advisory_id: i32,
    pub package_id: i32,
}

/// A lookup in (or a row to insert into) a link table.
#[derive(Debug, Clone, Copy, PartialEq, Eq, Structural)]
pub struct LinkQuery {
    pub kind: LinkKind,
    pub advisory_id: i32,
    pub package_id: i32,
}

/// The next thing a link protocol asks for, or its answer.
#[derive(Debug)]
pub enum PackageLinkStep {
    /// Look up the link row named by this query.
    Find(LinkQuery),
    /// Ingest this package version (or range): the system's own get-or-create.
    IngestPackage(PackageRef),
    /// Insert a link row with these attributes.
    Insert(LinkQuery),
    /// The answer.
    Done(Option<PackageLinkModel>),
}

/// A link protocol between an advisory and a package: `get_*` looks up only,
/// `ingest_*` creates what is missing.
#[derive(Debug)]
pub struct PackageLink {
    pub kind: LinkKind,
    pub advisory_id: i32,
    pub package: PackageRef,
    pub create: bool,
}

impl PackageLink {
    /// The kind of link and the kind of package agree.
    pub open spec fn wf(self) -> bool {
        match self.kind {
            LinkKind::AffectedPackageVersionRange => self.package is Range,
            _ => self.package is Version,
        }
    }

    pub open spec fn query(self, package_id: i32) -> LinkQuery {
        LinkQuery { kind: self.kind, advisory_id: self.advisory_id, package_id }
    }

    /// After the package has been resolved (`None`: it is unknown).
    pub open spec fn resolved_step(self, package_id: Option<i32>) -> PackageLinkStep {
        match package_id {
            Some(id) => PackageLinkStep::Find(self.query(id)),
            None => if self.create {
                PackageLinkStep::IngestPackage(self.package)
            } else {
                PackageLinkStep::Done(None)
            },
        }
    }

    /// After the link table has answered the lookup.
    pub open spec fn found_step(self, found: Option<PackageLinkModel>) -> PackageLinkStep {
        match found {
            Some(link) => PackageLinkStep::Done(Some(link)),
            None => if self.create {
                PackageLinkStep::IngestPackage(self.package)
            } else {
                PackageLinkStep::Done(None)
            },
        }
    }
}

fn version_link(ctx: &AdvisoryContext, kind: LinkKind, purl: &str, create: bool) -> (flow: PackageLink)
    ensures
        flow.kind == kind,
        flow.advisory_id == ctx.advisory.id,
        flow.package matches PackageRef::Version { purl: p } && p@ == purl@,
        flow.create == create,
{
    PackageLink {
        kind,
        advisory_id: ctx.advisory.id,
        package: PackageRef::Version { purl: String::from_str(purl) },
        create,
    }
}

fn range_link(ctx: &AdvisoryContext, purl: &str, start: &str, end: &str, create: bool) -> (flow: PackageLink)
    ensures
        flow.kind == LinkKind::AffectedPackageVersionRange,
        flow.advisory_id == ctx.advisory.id,
        flow.package matches PackageRef::Range { purl: p, start: s, end: e } && p@ == purl@ && s@ == start@
            && e@ == end@,
        flow.create == create,
{
    PackageLink {
        kind: LinkKind::AffectedPackageVersionRange,
        advisory_id: ctx.advisory.id,
        package: PackageRef::Range {
            purl: String::from_str(purl),
            start: String::from_str(start),
            end: String::from_str(end),
        },
        create,
    }
}

impl AdvisoryContext {
    /// Looks up the fixed version `purl` of this advisory.
    pub fn get_fixed_package_version(&self, purl: &str) -> (flow: PackageLink)
        ensures
            flow.wf(),
            flow.kind == LinkKind::FixedPackageVersion,
            flow.advisory_id == self.advisory.id,
            flow.package matches PackageRef::Version { purl: p } && p@ == purl@,
            !flow.create,
    {
        version_link(self, LinkKind::FixedPackageVersion, purl, false)
    }

    /// Looks up the not-affected version `purl` of this advisory.
    pub fn get_not_affected_package_version(&self, purl: &str) -> (flow: PackageLink)
        ensures
            flow.wf(),
            flow.kind == LinkKind::NotAffectedPackageVersion,
            flow.advisory_id == self.advisory.id,
            flow.package matches PackageRef::Version { purl: p } && p@ == purl@,
            !flow.create,
    {
        version_link(self, LinkKind::NotAffectedPackageVersion, purl, false)
    }

    /// Looks up the affected range `start`..`end` of package `purl`.
    pub fn get_affected_package_range(&self, purl: &str, start: &str, end: &str) -> (flow: PackageLink)
        ensures
            flow.wf(),
            flow.kind == LinkKind::AffectedPackageVersionRange,
            flow.advisory_id == self.advisory.id,
            flow.package matches PackageRef::Range { purl: p, start: s, end: e } && p@ == purl@ && s@
                == start@ && e@ == end@,
            !flow.create,
    {
        range_link(self, purl, start, end, false)
    }

    /// Records `purl` as a fixed version of this advisory, unless it is already.
    pub fn ingest_fixed_package_version(&self, purl: &str) -> (flow: PackageLink)
        ensures
            flow.wf(),
            flow.kind == LinkKind::FixedPackageVersion,
            flow.advisory_id == self.advisory.id,
            flow.package matches PackageRef::Version { purl: p } && p@ == purl@,
            flow.create,
    {
        version_link(self, LinkKind::FixedPackageVersion, purl, true)
    }

    /// Records `purl` as not affected by this advisory, unless it is already.
    pub fn ingest_not_affected_package_version(&self, purl: &str) -> (flow: PackageLink)
        ensures
            flow.wf(),
            flow.kind == LinkKind::NotAffectedPackageVersion,
            flow.advisory_id == self.advisory.id,
            flow.package matches PackageRef::Version { purl: p } && p@ == purl@,
            flow.create,
    {
        version_link(self, LinkKind::NotAffectedPackageVersion, purl, true)
    }

    /// Records the range `start`..`end` of `purl` as affected, unless it is already.
    pub fn ingest_affected_package_range(&self, purl: &str, start: &str, end: &str) -> (flow: PackageLink)
        ensures
            flow.wf(),
            flow.kind == LinkKind::AffectedPackageVersionRange,
            flow.advisory_id == self.advisory.id,
            flow.package matches PackageRef::Range { purl: p, start: s, end: e } && p@ == purl@ && s@
                == start@ && e@ == end@,
            flow.create,
    {
        range_link(self, purl, start, end, true)
    }
}

impl PackageLink {
    /// The package to resolve first (the system's lookup of the package
    /// version or range).
    pub fn package_to_resolve(&self) -> (p: PackageRef)
        ensures
            p == self.package,
    {
        self.package.duplicate()
    }

    /// Decides on the package lookup's answer: the id of the package version
    /// (or range), or `None` when there is none.
    pub fn after_resolve(&self, package_id: Option<i32>) -> (step: PackageLinkStep)
        ensures
            step == self.resolved_step(package_id),
            package_id matches Some(id) ==> step == PackageLinkStep::Find(
                LinkQuery { kind: self.kind, advisory_id: self.advisory_id, package_id: id },
            ),
            package_id is None && self.create ==> step == PackageLinkStep::IngestPackage(self.package),
            package_id is None && !self.create ==> step == PackageLinkStep::Done(None),
    {
        match package_id {
            Some(id) => PackageLinkStep::Find(
                LinkQuery { kind: self.kind, advisory_id: self.advisory_id, package_id: id },
            ),
            None => if self.create {
                PackageLinkStep::IngestPackage(self.package.duplicate())
            } else {
                PackageLinkStep::Done(None)
            },
        }
    }

    /// Decides on the link lookup's answer.
    pub fn after_find(&self, found: Option<PackageLinkModel>) -> (step: PackageLinkStep)
        ensures
            step == self.found_step(found),
            found matches Some(l) ==> step == PackageLinkStep::Done(Some(l)),
            found is None && self.create ==> step == PackageLinkStep::IngestPackage(self.package),
            found is None && !self.create ==> step == PackageLinkStep::Done(None),
    {
        match found {
            Some(link) => PackageLinkStep::Done(Some(link)),
            None => if self.create {
                PackageLinkStep::IngestPackage(self.package.duplicate())
            } else {
                PackageLinkStep::Done(None)
            },
        }
    }

    /// The link row to insert once the package has been ingested as `package_id`.
    pub fn after_ingest_package(&self, package_id: i32) -> (step: PackageLinkStep)
        ensures
            step == PackageLinkStep::Insert(self.query(package_id)),
            step == PackageLinkStep::Insert(
                LinkQuery { kind: self.kind, advisory_id: self.advisory_id, package_id },
            ),
    {
        PackageLinkStep::Insert(LinkQuery { kind: self.kind, advisory_id: self.advisory_id, package_id })
    }

    /// The answer once the link row is inserted.
    pub fn after_insert(&self, inserted: PackageLinkModel) -> (step: PackageLinkStep)
        ensures
            step == PackageLinkStep::Done(Some(inserted)),
    {
        PackageLinkStep::Done(Some(inserted))
    }
}

// ---------------------------------------------------------------------------
// The package and link tables as the protocol sees them, and its laws.

/// A row of the package table: a package version or range and its id.
pub struct PackageRow {
    pub id: i32,
    pub package: PackageRef,
}

/// Two package references with the same text: the same purl, and for ranges
/// the same start and end.
pub open spec fn same_text(a: PackageRef, b: PackageRef) -> bool {
    match (a, b) {
        (PackageRef::Version { purl: p }, PackageRef::Version { purl: q }) => p@ == q@,
        (PackageRef::Range { purl: p, start: s, end: e }, PackageRef::Range { purl: q, start: t, end: f }) => p@
            == q@ && s@ == t@ && e@ == f@,
        _ => false,
    }
}

/// `same` says when two package references name one package. The package
/// service decides it (for instance by comparing parsed package URLs): it is
/// an equivalence under which references with the same text name the same
/// package. The laws below hold for every such notion.
pub open spec fn is_identity(same: spec_fn(PackageRef, PackageRef) -> bool) -> bool {
    &&& forall|a: PackageRef, b: PackageRef| #[trigger] same_text(a, b) ==> same(a, b)
    &&& forall|a: PackageRef| #[trigger] same(a, a)
    &&& forall|a: PackageRef, b: PackageRef| #[trigger] same(a, b) ==> same(b, a)
    &&& forall|a: PackageRef, b: PackageRef, c: PackageRef| #[trigger] same(a, b) && #[trigger] same(b, c) ==> same(a, c)
}

/// Each package row has its own id and names its own package.
pub open spec fn packages_wf(same: spec_fn(PackageRef, PackageRef) -> bool, pkgs: Seq<PackageRow>) -> bool {
    forall|i: int, j: int|
        0 <= i < pkgs.len() && 0 <= j < pkgs.len() && i != j ==> #[trigger] pkgs[i].id != #[trigger] pkgs[j].id
            && !same(pkgs[i].package, pkgs[j].package)
}

pub open spec fn package_id_fresh(pkgs: Seq<PackageRow>, id: i32) -> bool {
    forall|i: int| 0 <= i < pkgs.len() ==> #[trigger] pkgs[i].id != id
}

/// Each link row has its own id and links its own (advisory, package) pair.
pub open spec fn links_wf(links: Seq<PackageLinkModel>) -> bool {
    forall|i: int, j: int|
        0 <= i < links.len() && 0 <= j < links.len() && i != j ==> #[trigger] links[i].id != #[trigger] links[j].id
            && (links[i].advisory_id != links[j].advisory_id || links[i].package_id != links[j].package_id)
}

/// Every link row names a package of the package table.
pub open spec fn links_refer(pkgs: Seq<PackageRow>, links: Seq<PackageLinkModel>) -> bool {
    forall|i: int|
        0 <= i < links.len() ==> exists|k: int| 0 <= k < pkgs.len() && #[trigger] pkgs[k].id == (#[trigger] links[i]).package_id
}

pub open spec fn link_id_fresh(links: Seq<PackageLinkModel>, id: i32) -> bool {
    forall|i: int| 0 <= i < links.len() ==> #[trigger] links[i].id != id
}

/// The system's lookup of a package version or range.
pub open spec fn resolve_package(same: spec_fn(PackageRef, PackageRef) -> bool, pkgs: Seq<PackageRow>, p: PackageRef) -> Option<i32> {
    if exists|i: int| 0 <= i < pkgs.len() && same((#[trigger] pkgs[i]).package, p) {
        Some(pkgs[choose|i: int| 0 <= i < pkgs.len() && same((#[trigger] pkgs[i]).package, p)].id)
    } else {
        None
    }
}

/// The system's get-or-create of a package version or range, where a new row
/// gets id `new_id`.
pub open spec fn ingest_package(
    same: spec_fn(PackageRef, PackageRef) -> bool,
    pkgs: Seq<PackageRow>,
    p: PackageRef,
    new_id: i32,
) -> (Seq<PackageRow>, i32) {
    match resolve_package(same, pkgs, p) {
        Some(id) => (pkgs, id),
        None => (pkgs.push(PackageRow { id: new_id, package: p }), new_id),
    }
}

pub open spec fn link_matches(l: PackageLinkModel, q: LinkQuery) -> bool {
    l.advisory_id == q.advisory_id && l.package_id == q.package_id
}

/// What the link table (the one of the query's kind) answers to a lookup.
pub open spec fn find_link(links: Seq<PackageLinkModel>, q: LinkQuery) -> Option<PackageLinkModel> {
    if exists|i: int| 0 <= i < links.len() && link_matches(#[trigger] links[i], q) {
        Some(links[choose|i: int| 0 <= i < links.len() && link_matches(#[trigger] links[i], q)])
    } else {
        None
    }
}

/// The tail of an ingestion: ingest the package, insert the link.
pub open spec fn create_link(
    same: spec_fn(PackageRef, PackageRef) -> bool,
    pkgs: Seq<PackageRow>,
    links: Seq<PackageLinkModel>,
    flow: PackageLink,
    p: PackageRef,
    new_pkg: i32,
    new_link: i32,
) -> (Seq<PackageRow>, Seq<PackageLinkModel>, Option<PackageLinkModel>) {
    let (pkgs2, pid) = ingest_package(same, pkgs, p, new_pkg);
    let q = flow.query(pid);
    let row = PackageLinkModel { id: new_link, advisory_id: q.advisory_id, package_id: q.package_id };
    (pkgs2, links.push(row), Some(row))
}

/// One run of a link protocol against the package table and the link table
/// of its kind: both tables afterwards, and the answer.
pub open spec fn package_link_run(
    same: spec_fn(PackageRef, PackageRef) -> bool,
    pkgs: Seq<PackageRow>,
    links: Seq<PackageLinkModel>,
    flow: PackageLink,
    new_pkg: i32,
    new_link: i32,
) -> (Seq<PackageRow>, Seq<PackageLinkModel>, Option<PackageLinkModel>) {
    match flow.resolved_step(resolve_package(same, pkgs, flow.package)) {
        PackageLinkStep::Find(q) => match flow.found_step(find_link(links, q)) {
            PackageLinkStep::IngestPackage(p) => create_link(same, pkgs, links, flow, p, new_pkg, new_link),
            PackageLinkStep::Done(answer) => (pkgs, links, answer),
            _ => (pkgs, links, None),
        },
        PackageLinkStep::IngestPackage(p) => create_link(same, pkgs, links, flow, p, new_pkg, new_link),
        PackageLinkStep::Done(answer) => (pkgs, links, answer),
        _ => (pkgs, links, None),
    }
}

proof fn lemma_resolve_unique(same: spec_fn(PackageRef, PackageRef) -> bool, pkgs: Seq<PackageRow>, p: PackageRef, k: int)
    requires
        is_identity(same),
        packages_wf(same, pkgs),
        0 <= k < pkgs.len(),
        same(pkgs[k].package, p),
    ensures
        resolve_package(same, pkgs, p) == Some(pkgs[k].id),
{
    let c = choose|i: int| 0 <= i < pkgs.len() && same((#[trigger] pkgs[i]).package, p);
    if c != k {
        assert(pkgs[c].id != pkgs[k].id);
        assert(same(p, pkgs[c].package));
        assert(same(pkgs[k].package, pkgs[c].package));
    }
}

proof fn lemma_package_links_push(links: Seq<PackageLinkModel>, q: LinkQuery, new_link: i32)
    requires
        links_wf(links),
        link_id_fresh(links, new_link),
        !(exists|i: int| 0 <= i < links.len() && link_matches(#[trigger] links[i], q)),
    ensures
        links_wf(links.push(PackageLinkModel { id: new_link, advisory_id: q.advisory_id, package_id: q.package_id })),
{
    let row = PackageLinkModel { id: new_link, advisory_id: q.advisory_id, package_id: q.package_id };
    let l1 = links.push(row);
    assert forall|i: int, j: int|
        0 <= i < l1.len() && 0 <= j < l1.len() && i != j implies #[trigger] l1[i].id != #[trigger] l1[j].id
            && (l1[i].advisory_id != l1[j].advisory_id || l1[i].package_id != l1[j].package_id) by {
        if i < links.len() && j < links.len() {
            assert(l1[i] == links[i] && l1[j] == links[j]);
            assert(links[i].id != links[j].id);
        } else if i < links.len() {
            assert(l1[i] == links[i]);
            assert(!link_matches(links[i], q));
            assert(links[i].id != new_link);
        } else {
            assert(l1[j] == links[j]);
            assert(!link_matches(links[j], q));
            assert(links[j].id != new_link);
        }
    }
}

/// An ingesting link run keeps both tables well formed and every row they
/// held, and answers a link row of the new link table, for the flow's
/// advisory and for the package that the flow's package resolves to.
pub proof fn lemma_package_link_wf(
    same: spec_fn(PackageRef, PackageRef) -> bool,
    pkgs: Seq<PackageRow>,
    links: Seq<PackageLinkModel>,
    flow: PackageLink,
    new_pkg: i32,
    new_link: i32,
)
    requires
        flow.create,
        is_identity(same),
        packages_wf(same, pkgs),
        links_wf(links),
        links_refer(pkgs, links),
        package_id_fresh(pkgs, new_pkg),
        link_id_fresh(links, new_link),
    ensures
        ({
            let (pkgs1, links1, answer) = package_link_run(same, pkgs, links, flow, new_pkg, new_link);
            &&& packages_wf(same, pkgs1)
            &&& links_wf(links1)
            &&& links_refer(pkgs1, links1)
            &&& answer is Some
            &&& links1.contains(answer->0)
            &&& answer->0.advisory_id == flow.advisory_id
            &&& resolve_package(same, pkgs1, flow.package) == Some(answer->0.package_id)
            &&& forall|i: int| 0 <= i < links.len() ==> links1[i] == links[i]
            &&& links.len() <= links1.len()
            &&& forall|i: int| 0 <= i < pkgs.len() ==> pkgs1[i] == pkgs[i]
            &&& pkgs.len() <= pkgs1.len()
        }),
{
    let (pkgs1, links1, answer) = package_link_run(same, pkgs, links, flow, new_pkg, new_link);
    let p = flow.package;
    assert(same(p, p));
    match resolve_package(same, pkgs, p) {
        Some(pid) => {
            let k = choose|i: int| 0 <= i < pkgs.len() && same((#[trigger] pkgs[i]).package, p);
            let q = flow.query(pid);
            if exists|i: int| 0 <= i < links.len() && link_matches(#[trigger] links[i], q) {
                let j = choose|i: int| 0 <= i < links.len() && link_matches(#[trigger] links[i], q);
                assert(links1[j] == answer->0);
            } else {
                lemma_package_links_push(links, q, new_link);
                assert(links1[links.len() as int] == answer->0);
                assert forall|i: int| 0 <= i < links1.len() implies exists|m: int|
                    0 <= m < pkgs1.len() && #[trigger] pkgs1[m].id == (#[trigger] links1[i]).package_id by {
                    if i < links.len() {
                        assert(links1[i] == links[i]);
                    } else {
                        assert(pkgs1[k].id == links1[i].package_id);
                    }
                }
            }
        },
        None => {
            assert forall|i: int, j: int|
                0 <= i < pkgs1.len() && 0 <= j < pkgs1.len() && i != j implies #[trigger] pkgs1[i].id
                    != #[trigger] pkgs1[j].id && !same(pkgs1[i].package, pkgs1[j].package) by {
                if i < pkgs.len() && j < pkgs.len() {
                    assert(pkgs1[i] == pkgs[i] && pkgs1[j] == pkgs[j]);
                    assert(pkgs[i].id != pkgs[j].id);
                } else if i < pkgs.len() {
                    assert(pkgs1[i] == pkgs[i]);
                    assert(!same(pkgs[i].package, p));
                    assert(pkgs[i].id != new_pkg);
                } else {
                    assert(pkgs1[j] == pkgs[j]);
                    assert(!same(pkgs[j].package, p));
                    if same(p, pkgs[j].package) {
                        assert(same(pkgs[j].package, p));
                    }
                    assert(pkgs[j].id != new_pkg);
                }
            }
            lemma_resolve_unique(same, pkgs1, p, pkgs.len() as int);
            assert forall|i: int| 0 <= i < links.len() implies !link_matches(
                #[trigger] links[i],
                flow.query(new_pkg),
            ) by {
                let m = choose|m: int| 0 <= m < pkgs.len() && #[trigger] pkgs[m].id == links[i].package_id;
                assert(pkgs[m].id != new_pkg);
            }
            lemma_package_links_push(links, flow.query(new_pkg), new_link);
            assert(links1[links.len() as int] == answer->0);
            assert forall|i: int| 0 <= i < links1.len() implies exists|m: int|
                0 <= m < pkgs1.len() && #[trigger] pkgs1[m].id == (#[trigger] links1[i]).package_id by {
                if i < links.len() {
                    assert(links1[i] == links[i]);
                    let m = choose|m: int| 0 <= m < pkgs.len() && #[trigger] pkgs[m].id == links[i].package_id;
                    assert(pkgs1[m] == pkgs[m]);
                } else {
                    assert(pkgs1[pkgs.len() as int].id == links1[i].package_id);
                }
            }
        },
    }
}

/// When link row `l` joins the flow's advisory to package row `prow`, which
/// the flow's package names, a lookup (`get_*`) or an ingestion (`ingest_*`)
/// answers `l` and changes no table.
pub proof fn lemma_link_found(
    same: spec_fn(PackageRef, PackageRef) -> bool,
    pkgs: Seq<PackageRow>,
    links: Seq<PackageLinkModel>,
    flow: PackageLink,
    prow: PackageRow,
    l: PackageLinkModel,
    new_pkg: i32,
    new_link: i32,
)
    requires
        is_identity(same),
        packages_wf(same, pkgs),
        links_wf(links),
        pkgs.contains(prow),
        same(prow.package, flow.package),
        links.contains(l),
        l.advisory_id == flow.advisory_id,
        l.package_id == prow.id,
    ensures
        package_link_run(same, pkgs, links, flow, new_pkg, new_link) == (pkgs, links, Some(l)),
{
    let k = choose|i: int| 0 <= i < pkgs.len() && pkgs[i] == prow;
    lemma_resolve_unique(same, pkgs, flow.package, k);
    let q = flow.query(prow.id);
    let j = choose|i: int| 0 <= i < links.len() && links[i] == l;
    assert(link_matches(links[j], q));
    let c = choose|i: int| 0 <= i < links.len() && link_matches(#[trigger] links[i], q);
    if c != j {
        assert(links[c].id != links[j].id);
    }
}

/// An ingestion for a package that the package table already names links
/// that very package row, whatever the advisory, and adds no package row.
pub proof fn lemma_link_package_shared(
    same: spec_fn(PackageRef, PackageRef) -> bool,
    pkgs: Seq<PackageRow>,
    links: Seq<PackageLinkModel>,
    flow: PackageLink,
    prow: PackageRow,
    new_pkg: i32,
    new_link: i32,
)
    requires
        flow.create,
        is_identity(same),
        packages_wf(same, pkgs),
        pkgs.contains(prow),
        same(prow.package, flow.package),
    ensures
        package_link_run(same, pkgs, links, flow, new_pkg, new_link).0 == pkgs,
        package_link_run(same, pkgs, links, flow, new_pkg, new_link).2 matches Some(r) && r.package_id == prow.id,
{
    let k = choose|i: int| 0 <= i < pkgs.len() && pkgs[i] == prow;
    lemma_resolve_unique(same, pkgs, flow.package, k);
}

/// Against well-formed tables that hold link row `l` to package row `prow`,
/// an ingestion answers `l`'s id exactly when it is for `l`'s advisory and
/// names `prow`'s package: one link row per (advisory, package) pair.
pub proof fn lemma_link_ids(
    same: spec_fn(PackageRef, PackageRef) -> bool,
    pkgs: Seq<PackageRow>,
    links: Seq<PackageLinkModel>,
    flow: PackageLink,
    prow: PackageRow,
    l: PackageLinkModel,
    new_pkg: i32,
    new_link: i32,
)
    requires
        flow.create,
        is_identity(same),
        packages_wf(same, pkgs),
        links_wf(links),
        links_refer(pkgs, links),
        package_id_fresh(pkgs, new_pkg),
        link_id_fresh(links, new_link),
        pkgs.contains(prow),
        links.contains(l),
        l.package_id == prow.id,
    ensures
        (package_link_run(same, pkgs, links, flow, new_pkg, new_link).2->0.id == l.id) == (flow.advisory_id
            == l.advisory_id && same(prow.package, flow.package)),
{
    lemma_package_link_wf(same, pkgs, links, flow, new_pkg, new_link);
    let (pkgs1, links1, answer) = package_link_run(same, pkgs, links, flow, new_pkg, new_link);
    let r2 = answer->0;
    if flow.advisory_id == l.advisory_id && same(prow.package, flow.package) {
        lemma_link_found(same, pkgs, links, flow, prow, l, new_pkg, new_link);
    } else {
        let ka = choose|i: int| 0 <= i < pkgs.len() && pkgs[i] == prow;
        assert(pkgs1[ka] == prow);
        let kb = choose|i: int| 0 <= i < pkgs1.len() && same((#[trigger] pkgs1[i]).package, flow.package);
        assert(pkgs1[kb].id == r2.package_id);
        if r2.advisory_id == l.advisory_id && r2.package_id == l.package_id {
            if ka != kb {
                assert(pkgs1[ka].id != pkgs1[kb].id);
            }
            assert(same(prow.package, flow.package));
        }
        let a = choose|i: int| 0 <= i < links.len() && links[i] == l;
        let b = choose|i: int| 0 <= i < links1.len() && links1[i] == r2;
        assert(links1[a] == l);
        assert(a != b);
        assert(links1[a].id != links1[b].id);
    }
}

/// After an ingestion, a second call for the same package text and the same
/// advisory, a lookup (`get_*`) or another ingestion, answers the same link
/// row and changes no table.
pub proof fn lemma_link_round_trip(
    same: spec_fn(PackageRef, PackageRef) -> bool,
    pkgs: Seq<PackageRow>,
    links: Seq<PackageLinkModel>,
    flow: PackageLink,
    again: PackageLink,
    pkg1: i32,
    link1: i32,
    pkg2: i32,
    link2: i32,
)
    requires
        flow.create,
        is_identity(same),
        packages_wf(same, pkgs),
        links_wf(links),
        links_refer(pkgs, links),
        package_id_fresh(pkgs, pkg1),
        link_id_fresh(links, link1),
        same_text(flow.package, again.package),
        again.advisory_id == flow.advisory_id,
    ensures
        ({
            let (pkgs1, links1, answer1) = package_link_run(same, pkgs, links, flow, pkg1, link1);
            package_link_run(same, pkgs1, links1, again, pkg2, link2) == (pkgs1, links1, answer1)
        }),
{
    lemma_package_link_wf(same, pkgs, links, flow, pkg1, link1);
    let (pkgs1, links1, answer1) = package_link_run(same, pkgs, links, flow, pkg1, link1);
    let k = choose|i: int| 0 <= i < pkgs1.len() && same((#[trigger] pkgs1[i]).package, flow.package);
    assert(pkgs1[k].id == answer1->0.package_id);
    assert(same(flow.package, again.package));
    assert(same(pkgs1[k].package, again.package));
    assert(pkgs1.contains(pkgs1[k]));
    lemma_link_found(same, pkgs1, links1, again, pkgs1[k], answer1->0, pkg2, link2);
}

/// After one advisory's ingestion, another advisory's ingestion of the same
/// package text links the same package row with a link row of its own, and
/// keeps the first link row.
pub proof fn lemma_link_second_advisory(
    same: spec_fn(PackageRef, PackageRef) -> bool,
    pkgs: Seq<PackageRow>,
    links: Seq<PackageLinkModel>,
    flow1: PackageLink,
    flow2: PackageLink,
    pkg1: i32,
    link1: i32,
    pkg2: i32,
    link2: i32,
)
    requires
        flow1.create,
        flow2.create,
        is_identity(same),
        packages_wf(same, pkgs),
        links_wf(links),
        links_refer(pkgs, links),
        package_id_fresh(pkgs, pkg1),
        link_id_fresh(links, link1),
        package_id_fresh(package_link_run(same, pkgs, links, flow1, pkg1, link1).0, pkg2),
        link_id_fresh(package_link_run(same, pkgs, links, flow1, pkg1, link1).1, link2),
        same_text(flow1.package, flow2.package),
        flow1.advisory_id != flow2.advisory_id,
    ensures
        ({
            let (pkgs1, links1, answer1) = package_link_run(same, pkgs, links, flow1, pkg1, link1);
            let (pkgs2, links2, answer2) = package_link_run(same, pkgs1, links1, flow2, pkg2, link2);
            &&& pkgs2 == pkgs1
            &&& answer2->0.package_id == answer1->0.package_id
            &&& answer2->0.id != answer1->0.id
            &&& links2.contains(answer1->0)
        }),
{
    lemma_package_link_wf(same, pkgs, links, flow1, pkg1, link1);
    let (pkgs1, links1, answer1) = package_link_run(same, pkgs, links, flow1, pkg1, link1);
    let k = choose|i: int| 0 <= i < pkgs1.len() && same((#[trigger] pkgs1[i]).package, flow1.package);
    let prow = pkgs1[k];
    assert(prow.id == answer1->0.package_id);
    assert(same(flow1.package, flow2.package));
    assert(same(prow.package, flow2.package));
    assert(pkgs1.contains(prow));
    lemma_link_package_shared(same, pkgs1, links1, flow2, prow, pkg2, link2);
    lemma_link_ids(same, pkgs1, links1, flow2, prow, answer1->0, pkg2, link2);
    lemma_package_link_wf(same, pkgs1, links1, flow2, pkg2, link2);
    let (pkgs2, links2, answer2) = package_link_run(same, pkgs1, links1, flow2, pkg2, link2);
    let j = choose|i: int| 0 <= i < links1.len() && links1[i] == answer1->0;
    assert(links2[j] == answer1->0);
}

/// Every lookup and every insertion that a link protocol asks for is in the
/// link table of the flow's own kind, for the flow's advisory and the package
/// id at hand; a lookup flow never asks to create anything.
pub proof fn lemma_link_steps(flow: PackageLink, id: i32, found: Option<PackageLinkModel>)
    ensures
        flow.resolved_step(Some(id)) matches PackageLinkStep::Find(q) && q.kind == flow.kind && q.advisory_id
            == flow.advisory_id && q.package_id == id,
        flow.query(id).kind == flow.kind && flow.query(id).advisory_id == flow.advisory_id && flow.query(id).package_id
            == id,
        !flow.create ==> flow.resolved_step(None) == PackageLinkStep::Done(None),
        !flow.create ==> flow.found_step(found) == PackageLinkStep::Done(found),
        flow.create ==> flow.resolved_step(None) == PackageLinkStep::IngestPackage(flow.package),
        flow.create ==> (found matches Some(l) ==> flow.found_step(found) == PackageLinkStep::Done(Some(l))),
        flow.create ==> (found is None ==> flow.found_step(found) == PackageLinkStep::IngestPackage(flow.package)),
{
}

/// A lookup (`get_*`) changes neither table, and answers a link row exactly
/// when one joins the flow's advisory to the package that the flow's package
/// resolves to; that row is what it answers.
pub proof fn lemma_lookup_changes_nothing(
    same: spec_fn(PackageRef, PackageRef) -> bool,
    pkgs: Seq<PackageRow>,
    links: Seq<PackageLinkModel>,
    flow: PackageLink,
    new_pkg: i32,
    new_link: i32,
)
    requires
        !flow.create,
    ensures
        ({
            let (pkgs1, links1, answer) = package_link_run(same, pkgs, links, flow, new_pkg, new_link);
            &&& pkgs1 == pkgs
            &&& links1 == links
            &&& answer is Some <==> exists|i: int|
                0 <= i < links.len() && (#[trigger] links[i]).advisory_id == flow.advisory_id && resolve_package(
                    same,
                    pkgs,
                    flow.package,
                ) == Some(links[i].package_id)
            &&& answer matches Some(l) ==> links.contains(l) && l.advisory_id == flow.advisory_id
                && resolve_package(same, pkgs, flow.package) == Some(l.package_id)
        }),
{
    let (pkgs1, links1, answer) = package_link_run(same, pkgs, links, flow, new_pkg, new_link);
    match resolve_package(same, pkgs, flow.package) {
        Some(pid) => {
            let q = flow.query(pid);
            if exists|i: int| 0 <= i < links.len() && link_matches(#[trigger] links[i], q) {
                let j = choose|i: int| 0 <= i < links.len() && link_matches(#[trigger] links[i], q);
                assert(links[j] == answer->0);
            } else {
                assert forall|i: int| 0 <= i < links.len() implies !((#[trigger] links[i]).advisory_id
                    == flow.advisory_id && resolve_package(same, pkgs, flow.package) == Some(links[i].package_id)) by {
                    assert(!link_matches(links[i], q));
                }
            }
        },
        None => {},
    }
}

} // verus!
