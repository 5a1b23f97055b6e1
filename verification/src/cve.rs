//! Vulnerabilities (CVEs) that an advisory refers to: the lookup through the
//! advisory-CVE link table, and the get-or-create protocol that links one.
use vstd::prelude::*;
use crate::advisory::{AdvisoryContext, AdvisoryModel};

verus! {

/// A stored vulnerability row.
#[derive(Debug)]
pub struct CveModel {
    pub id: i32,
    pub identifier: String,
}

impl Clone for CveModel {
    fn clone(&self) -> (res: Self)
        ensures
            res == *self,
    {
        CveModel { id: self.id, identifier: self.identifier.clone() }
    }
}

/// A row of the link table between advisories and vulnerabilities.
#[derive(Debug, Clone, Copy, PartialEq, Eq, Structural)]
pub struct AdvisoryCveModel {
    pub advisory_id: i32,
    pub cve_id: i32,
}

/// A vulnerability as seen from an advisory that refers to it.
#[derive(Debug)]
pub struct AdvisoryCveContext {
    pub advisory: AdvisoryModel,
    pub cve: CveModel,
}

/// The lookup behind `get_cve`: the vulnerability with this identifier that
/// is linked to this advisory.
#[derive(Debug)]
pub struct CveLinkQuery {
    pub advisory_id: i32,
    pub identifier: String,
}

/// Linking a vulnerability to an advisory: look the link up, and otherwise
/// ingest the vulnerability and insert the link.
#[derive(Debug)]
pub struct IngestCve {
    pub advisory: AdvisoryModel,
    pub identifier: String,
}

/// What linking does next.
#[derive(Debug)]
pub enum IngestCveStep {
    /// The advisory already refers to the vulnerability: this is the answer.
    Existing(AdvisoryCveContext),
    /// Ingest the vulnerability with this identifier (the system's own
    /// get-or-create), then insert the link.
    IngestCve(String),
}

impl AdvisoryContext {
    /// The lookup behind `get_cve`.
    pub fn get_cve(&self, identifier: &str) -> (q: CveLinkQuery)
        ensures
            q.advisory_id == self.advisory.id,
            q.identifier@ == identifier@,
    {
        CveLinkQuery { advisory_id: self.advisory.id, identifier: String::from_str(identifier) }
    }

    /// The answer of `get_cve` for what the lookup found.
    pub fn cve_context(&self, cve: CveModel) -> (ctx: AdvisoryCveContext)
        ensures
            ctx.advisory == self.advisory,
            ctx.cve == cve,
    {
        AdvisoryCveContext { advisory: self.advisory.clone(), cve }
    }

    /// Starts linking the vulnerability `identifier` to this advisory.
    pub fn ingest_cve(&self, identifier: &str) -> (flow: IngestCve)
        ensures
            flow.advisory == self.advisory,
            flow.identifier@ == identifier@,
    {
        IngestCve { advisory: self.advisory.clone(), identifier: String::from_str(identifier) }
    }
}

pub open spec fn ingest_cve_step(flow: IngestCve, found: Option<CveModel>) -> IngestCveStep {
    match found {
        Some(cve) => IngestCveStep::Existing(AdvisoryCveContext { advisory: flow.advisory, cve }),
        None => IngestCveStep::IngestCve(flow.identifier),
    }
}

impl IngestCve {
    /// The lookup that comes first.
    pub fn lookup(&self) -> (q: CveLinkQuery)
        ensures
            q.advisory_id == self.advisory.id,
            q.identifier@ == self.identifier@,
    {
        CveLinkQuery { advisory_id: self.advisory.id, identifier: self.identifier.clone() }
    }

    /// Decides on the lookup's answer.
    pub fn after_lookup(&self, found: Option<CveModel>) -> (step: IngestCveStep)
        ensures
            step == ingest_cve_step(*self, found),
            found matches Some(c) ==> (step matches IngestCveStep::Existing(ctx) && ctx.advisory == self.advisory
                && ctx.cve == c),
            found is None ==> (step matches IngestCveStep::IngestCve(identifier) && identifier == self.identifier),
    {
        match found {
            Some(cve) => IngestCveStep::Existing(AdvisoryCveContext { advisory: self.advisory.clone(), cve }),
            None => IngestCveStep::IngestCve(self.identifier.clone()),
        }
    }

    /// The link row to insert once the vulnerability has been ingested.
    pub fn link_for(&self, cve: &CveModel) -> (link: AdvisoryCveModel)
        ensures
            link == (AdvisoryCveModel { advisory_id: self.advisory.id, cve_id: cve.id }),
    {
        AdvisoryCveModel { advisory_id: self.advisory.id, cve_id: cve.id }
    }

    /// The answer once the link is inserted.
    pub fn after_link(self, cve: CveModel) -> (ctx: AdvisoryCveContext)
        ensures
            ctx.advisory == self.advisory,
            ctx.cve == cve,
    {
        AdvisoryCveContext { advisory: self.advisory, cve }
    }
}

// ---------------------------------------------------------------------------
// The tables as the protocol sees them, and the laws of linking.

/// Linking answers for the advisory it was started from: a vulnerability that
/// the lookup found comes back in a context of the flow's advisory; one that
/// was not found is ingested under the flow's identifier.
pub proof fn lemma_cve_step_keeps_advisory(flow: IngestCve, found: Option<CveModel>)
    ensures
        found matches Some(c) ==> (ingest_cve_step(flow, found) matches IngestCveStep::Existing(ctx) && ctx.advisory
            == flow.advisory && ctx.cve == c),
        found is None ==> ingest_cve_step(flow, found) == IngestCveStep::IngestCve(flow.identifier),
{
}

/// Each vulnerability row has its own id and its own identifier.
pub open spec fn cves_wf(cves: Seq<CveModel>) -> bool {
    forall|i: int, j: int|
        0 <= i < cves.len() && 0 <= j < cves.len() && i != j ==> #[trigger] cves[i].id != #[trigger] cves[j].id
            && cves[i].identifier@ != cves[j].identifier@
}

/// Each link row joins its own (advisory, vulnerability) pair, and names a
/// row of the vulnerability table.
pub open spec fn cve_links_wf(cves: Seq<CveModel>, links: Seq<AdvisoryCveModel>) -> bool {
    &&& forall|i: int, j: int|
        0 <= i < links.len() && 0 <= j < links.len() && i != j ==> #[trigger] links[i] != #[trigger] links[j]
    &&& forall|i: int|
        0 <= i < links.len() ==> exists|k: int| 0 <= k < cves.len() && #[trigger] cves[k].id == (#[trigger] links[i]).cve_id
}

pub open spec fn cve_id_fresh(cves: Seq<CveModel>, id: i32) -> bool {
    forall|i: int| 0 <= i < cves.len() ==> #[trigger] cves[i].id != id
}

pub open spec fn linked_match(cves: Seq<CveModel>, links: Seq<AdvisoryCveModel>, q: CveLinkQuery, i: int) -> bool {
    &&& 0 <= i < cves.len()
    &&& cves[i].identifier@ == q.identifier@
    &&& links.contains(AdvisoryCveModel { advisory_id: q.advisory_id, cve_id: cves[i].id })
}

/// What the database answers to the lookup `q`.
pub open spec fn find_linked_cve(cves: Seq<CveModel>, links: Seq<AdvisoryCveModel>, q: CveLinkQuery) -> Option<CveModel> {
    if exists|i: int| linked_match(cves, links, q, i) {
        Some(cves[choose|i: int| linked_match(cves, links, q, i)])
    } else {
        None
    }
}

/// The system's get-or-create of a vulnerability by identifier, where a new
/// row gets id `new_id`.
pub open spec fn ingest_cve_row(cves: Seq<CveModel>, identifier: String, new_id: i32) -> (Seq<CveModel>, CveModel) {
    if exists|i: int| 0 <= i < cves.len() && (#[trigger] cves[i]).identifier@ == identifier@ {
        (cves, cves[choose|i: int| 0 <= i < cves.len() && (#[trigger] cves[i]).identifier@ == identifier@])
    } else {
        (cves.push(CveModel { id: new_id, identifier }), CveModel { id: new_id, identifier })
    }
}

/// One run of linking: the vulnerability table, the link table, and the
/// vulnerability returned.
pub open spec fn ingest_cve_run(
    cves: Seq<CveModel>,
    links: Seq<AdvisoryCveModel>,
    flow: IngestCve,
    new_id: i32,
) -> (Seq<CveModel>, Seq<AdvisoryCveModel>, CveModel) {
    let q = CveLinkQuery { advisory_id: flow.advisory.id, identifier: flow.identifier };
    match ingest_cve_step(flow, find_linked_cve(cves, links, q)) {
        IngestCveStep::Existing(ctx) => (cves, links, ctx.cve),
        IngestCveStep::IngestCve(identifier) => {
            let (cves2, cve) = ingest_cve_row(cves, identifier, new_id);
            (cves2, links.push(AdvisoryCveModel { advisory_id: flow.advisory.id, cve_id: cve.id }), cve)
        },
    }
}

/// Linking keeps both tables well formed and keeps every row they held; what
/// it returns is a row of the new vulnerability table with the identifier
/// asked for, joined to the advisory by exactly one link row. When the lookup
/// finds the vulnerability nothing changes; otherwise the only new rows are
/// that link and, when no row had the identifier, the vulnerability itself.
pub proof fn lemma_ingest_cve_wf(cves: Seq<CveModel>, links: Seq<AdvisoryCveModel>, flow: IngestCve, new_id: i32)
    requires
        cves_wf(cves),
        cve_links_wf(cves, links),
        cve_id_fresh(cves, new_id),
    ensures
        ({
            let (cves1, links1, cve) = ingest_cve_run(cves, links, flow, new_id);
            let link = AdvisoryCveModel { advisory_id: flow.advisory.id, cve_id: cve.id };
            let q = CveLinkQuery { advisory_id: flow.advisory.id, identifier: flow.identifier };
            &&& cves_wf(cves1)
            &&& cve_links_wf(cves1, links1)
            &&& cves1.contains(cve)
            &&& cve.identifier@ == flow.identifier@
            &&& links1.contains(link)
            &&& forall|i: int, j: int|
                0 <= i < links1.len() && 0 <= j < links1.len() && links1[i] == link && links1[j] == link ==> i == j
            &&& find_linked_cve(cves, links, q) is Some ==> cves1 == cves && links1 == links
            &&& find_linked_cve(cves, links, q) is None ==> links1 == links.push(link)
            &&& cves1 == cves || (cves1 == cves.push(cve) && forall|i: int|
                0 <= i < cves.len() ==> (#[trigger] cves[i]).identifier@ != flow.identifier@)
            &&& forall|i: int| 0 <= i < cves.len() ==> cves1[i] == cves[i]
            &&& cves.len() <= cves1.len()
            &&& forall|i: int| 0 <= i < links.len() ==> links1[i] == links[i]
            &&& links.len() <= links1.len()
        }),
{
    let q = CveLinkQuery { advisory_id: flow.advisory.id, identifier: flow.identifier };
    let (cves1, links1, cve) = ingest_cve_run(cves, links, flow, new_id);
    let l = AdvisoryCveModel { advisory_id: flow.advisory.id, cve_id: cve.id };
    if exists|i: int| linked_match(cves, links, q, i) {
        let i = choose|i: int| linked_match(cves, links, q, i);
        assert(cves1[i] == cve);
    } else {
        assert(links1[links.len() as int] == l);
        if exists|i: int| 0 <= i < cves.len() && (#[trigger] cves[i]).identifier@ == flow.identifier@ {
            let i = choose|i: int| 0 <= i < cves.len() && (#[trigger] cves[i]).identifier@ == flow.identifier@;
            assert(cves1[i] == cve);
            if links.contains(l) {
                assert(linked_match(cves, links, q, i));
            }
        } else {
            assert(cves1[cves.len() as int] == cve);
            assert forall|i: int, j: int|
                0 <= i < cves1.len() && 0 <= j < cves1.len() && i != j implies #[trigger] cves1[i].id != #[trigger] cves1[j].id
                    && cves1[i].identifier@ != cves1[j].identifier@ by {
                if i < cves.len() && j < cves.len() {
                    assert(cves1[i] == cves[i] && cves1[j] == cves[j]);
                    assert(cves[i].id != cves[j].id);
                } else if i < cves.len() {
                    assert(cves1[i] == cves[i]);
                    assert(cves[i].identifier@ != flow.identifier@);
                    assert(cves[i].id != new_id);
                } else {
                    assert(cves1[j] == cves[j]);
                    assert(cves[j].identifier@ != flow.identifier@);
                    assert(cves[j].id != new_id);
                }
            }
            if links.contains(l) {
                let m = choose|m: int| 0 <= m < links.len() && links[m] == l;
                let k = choose|k: int| 0 <= k < cves.len() && #[trigger] cves[k].id == links[m].cve_id;
                assert(cves[k].id != new_id);
            }
        }
        assert(!links.contains(l));
        assert forall|i: int, j: int|
            0 <= i < links1.len() && 0 <= j < links1.len() && i != j implies #[trigger] links1[i] != #[trigger] links1[j] by {
            if i < links.len() && j < links.len() {
                assert(links1[i] == links[i] && links1[j] == links[j]);
            } else if i < links.len() {
                assert(links1[i] == links[i]);
            } else {
                assert(links1[j] == links[j]);
            }
        }
        let kc = choose|k: int| 0 <= k < cves1.len() && cves1[k] == cve;
        assert forall|i: int| 0 <= i < links1.len() implies exists|k: int|
            0 <= k < cves1.len() && #[trigger] cves1[k].id == (#[trigger] links1[i]).cve_id by {
            if i < links.len() {
                assert(links1[i] == links[i]);
                let k = choose|k: int| 0 <= k < cves.len() && #[trigger] cves[k].id == links[i].cve_id;
                assert(cves1[k] == cves[k]);
            } else {
                assert(cves1[kc].id == links1[i].cve_id);
            }
        }
    }
    assert forall|i: int, j: int|
        0 <= i < links1.len() && 0 <= j < links1.len() && links1[i] == l && links1[j] == l implies i == j by {
        if i != j {
            assert(links1[i] != links1[j]);
        }
    }
}

/// When vulnerability `c` is linked to the flow's advisory, the lookup finds
/// `c`, and linking it again returns `c` and changes no table.
pub proof fn lemma_cve_found(
    cves: Seq<CveModel>,
    links: Seq<AdvisoryCveModel>,
    flow: IngestCve,
    c: CveModel,
    new_id: i32,
)
    requires
        cves_wf(cves),
        cves.contains(c),
        c.identifier@ == flow.identifier@,
        links.contains(AdvisoryCveModel { advisory_id: flow.advisory.id, cve_id: c.id }),
    ensures
        find_linked_cve(cves, links, CveLinkQuery { advisory_id: flow.advisory.id, identifier: flow.identifier })
            == Some(c),
        ingest_cve_run(cves, links, flow, new_id) == (cves, links, c),
{
    let q = CveLinkQuery { advisory_id: flow.advisory.id, identifier: flow.identifier };
    let k = choose|i: int| 0 <= i < cves.len() && cves[i] == c;
    assert(linked_match(cves, links, q, k));
    let m = choose|i: int| linked_match(cves, links, q, i);
    if m != k {
        assert(cves[m].id != cves[k].id);
    }
}

/// Against a well-formed vulnerability table that holds row `c`, linking any
/// advisory returns `c`'s id exactly when the identifier is `c`'s; then it
/// returns `c` itself: one row per identifier, shared by all advisories.
pub proof fn lemma_cve_ids(
    cves: Seq<CveModel>,
    links: Seq<AdvisoryCveModel>,
    flow: IngestCve,
    c: CveModel,
    new_id: i32,
)
    requires
        cves_wf(cves),
        cve_links_wf(cves, links),
        cves.contains(c),
        cve_id_fresh(cves, new_id),
    ensures
        (ingest_cve_run(cves, links, flow, new_id).2.id == c.id) == (flow.identifier@ == c.identifier@),
        flow.identifier@ == c.identifier@ ==> ingest_cve_run(cves, links, flow, new_id).2 == c,
{
    lemma_ingest_cve_wf(cves, links, flow, new_id);
    let (cves1, links1, c2) = ingest_cve_run(cves, links, flow, new_id);
    let a = choose|i: int| 0 <= i < cves.len() && cves[i] == c;
    let b = choose|i: int| 0 <= i < cves1.len() && cves1[i] == c2;
    assert(cves1[a] == c);
    if a != b {
        assert(cves1[a].id != cves1[b].id);
        assert(cves1[a].identifier@ != cves1[b].identifier@);
    }
}

} // verus!
