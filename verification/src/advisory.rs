//! Advisories: the lookup that finds an advisory by identifier, location and
//! digest, and the get-or-create protocol that ingests one.
use vstd::prelude::*;

verus! {

/// A stored advisory row.
#[derive(Debug)]
pub struct AdvisoryModel {
    pub id: i32,
    pub identifier: String,
    pub location: String,
    pub sha256: String,
}

impl Clone for AdvisoryModel {
    fn clone(&self) -> (res: Self)
        ensures
            res == *self,
    {
        AdvisoryModel {
            id: self.id,
            identifier: self.identifier.clone(),
            location: self.location.clone(),
            sha256: self.sha256.clone(),
        }
    }
}

/// What names an advisory: its identifier, where it was found, and the
/// SHA-256 digest of its document.
#[derive(Debug)]
pub struct AdvisoryKey {
    pub identifier: String,
    pub location: String,
    pub sha256: String,
}

impl AdvisoryKey {
    pub open spec fn matches(self, row: AdvisoryModel) -> bool {
        &&& row.identifier@ == self.identifier@
        &&& row.location@ == self.location@
        &&& row.sha256@ == self.sha256@
    }

    /// The row that the database stores when it inserts this key under `id`.
    pub open spec fn row(self, id: i32) -> AdvisoryModel {
        AdvisoryModel {
            id,
            identifier: self.identifier,
            location: self.location,
            sha256: self.sha256,
        }
    }
}

/// An advisory as the graph hands it out.
#[derive(Debug)]
pub struct AdvisoryContext {
    pub advisory: AdvisoryModel,
}

impl Clone for AdvisoryContext {
    fn clone(&self) -> (res: Self)
        ensures
            res == *self,
    {
        AdvisoryContext { advisory: self.advisory.clone() }
    }
}

impl AdvisoryModel {
    pub open spec fn same_row(self, other: AdvisoryModel) -> bool {
        &&& self.id == other.id
        &&& self.identifier@ == other.identifier@
        &&& self.location@ == other.location@
        &&& self.sha256@ == other.sha256@
    }
}

/// Two contexts are equal when they hold equal advisory rows.
impl PartialEq for AdvisoryContext {
    fn eq(&self, other: &Self) -> (res: bool) {
        self.advisory.id == other.advisory.id && self.advisory.identifier == other.advisory.identifier
            && self.advisory.location == other.advisory.location && self.advisory.sha256
            == other.advisory.sha256
    }
}

impl vstd::std_specs::cmp::PartialEqSpecImpl for AdvisoryContext {
    open spec fn obeys_eq_spec() -> bool {
        true
    }

    open spec fn eq_spec(&self, other: &Self) -> bool {
        self.advisory.same_row(other.advisory)
    }
}

impl From<AdvisoryModel> for AdvisoryContext {
    fn from(advisory: AdvisoryModel) -> (res: Self) {
        AdvisoryContext { advisory }
    }
}

impl vstd::std_specs::convert::FromSpecImpl<AdvisoryModel> for AdvisoryContext {
    open spec fn obeys_from_spec() -> bool {
        true
    }

    open spec fn from_spec(advisory: AdvisoryModel) -> Self {
        AdvisoryContext { advisory }
    }
}

/// The system-wide entry points that concern advisories.
pub struct InnerSystem;

impl InnerSystem {
    /// The lookup behind `get_advisory`: the advisory whose identifier,
    /// location and digest are exactly these.
    pub fn get_advisory(identifier: &str, location: &str, sha256: &str) -> (key: AdvisoryKey)
        ensures
            key.identifier@ == identifier@,
            key.location@ == location@,
            key.sha256@ == sha256@,
    {
        AdvisoryKey {
            identifier: String::from_str(identifier),
            location: String::from_str(location),
            sha256: String::from_str(sha256),
        }
    }

    /// Starts ingesting the advisory with these attributes: first look it up.
    pub fn ingest_advisory(identifier: &str, location: &str, sha256: &str) -> (flow: IngestAdvisory)
        ensures
            flow.key.identifier@ == identifier@,
            flow.key.location@ == location@,
            flow.key.sha256@ == sha256@,
    {
        IngestAdvisory { key: InnerSystem::get_advisory(identifier, location, sha256) }
    }
}

/// Ingesting an advisory: look it up by key, and insert it only when absent.
#[derive(Debug)]
pub struct IngestAdvisory {
    pub key: AdvisoryKey,
}

/// What ingestion does once the lookup has answered.
#[derive(Debug)]
pub enum IngestAdvisoryStep {
    /// The advisory exists: this is the answer.
    Existing(AdvisoryContext),
    /// The advisory is absent: insert a row with these attributes.
    Insert(AdvisoryKey),
}

pub open spec fn ingest_advisory_step(key: AdvisoryKey, found: Option<AdvisoryModel>) -> IngestAdvisoryStep {
    match found {
        Some(row) => IngestAdvisoryStep::Existing(AdvisoryContext { advisory: row }),
        None => IngestAdvisoryStep::Insert(key),
    }
}

impl IngestAdvisory {
    /// Decides on the lookup's answer: keep what was found, or insert.
    pub fn after_lookup(self, found: Option<AdvisoryModel>) -> (step: IngestAdvisoryStep)
        ensures
            step == ingest_advisory_step(self.key, found),
            found matches Some(row) ==> (step matches IngestAdvisoryStep::Existing(ctx) && ctx.advisory == row),
            found is None ==> step == IngestAdvisoryStep::Insert(self.key),
    {
        match found {
            Some(row) => IngestAdvisoryStep::Existing(AdvisoryContext::from(row)),
            None => IngestAdvisoryStep::Insert(self.key),
        }
    }

    /// The answer once the database has inserted the row.
    pub fn after_insert(inserted: AdvisoryModel) -> (ctx: AdvisoryContext)
        ensures
            ctx.advisory == inserted,
    {
        AdvisoryContext::from(inserted)
    }
}

// ---------------------------------------------------------------------------
// The advisory table as the protocol sees it, and the laws of ingestion.

/// Ingestion answers the row that the lookup found, unchanged, and asks to
/// insert exactly its own key when the lookup found nothing.
pub proof fn lemma_advisory_step(key: AdvisoryKey, found: Option<AdvisoryModel>)
    ensures
        found matches Some(row) ==> (ingest_advisory_step(key, found) matches IngestAdvisoryStep::Existing(ctx)
            && ctx.advisory == row),
        found is None ==> ingest_advisory_step(key, found) == IngestAdvisoryStep::Insert(key),
{
}

/// Each row has its own id and its own key.
pub open spec fn advisories_wf(t: Seq<AdvisoryModel>) -> bool {
    forall|i: int, j: int|
        0 <= i < t.len() && 0 <= j < t.len() && i != j ==> #[trigger] t[i].id != #[trigger] t[j].id
            && !(AdvisoryKey { identifier: t[i].identifier, location: t[i].location, sha256: t[i].sha256 }).matches(t[j])
}

/// No row of `t` has this id.
pub open spec fn advisory_id_fresh(t: Seq<AdvisoryModel>, id: i32) -> bool {
    forall|i: int| 0 <= i < t.len() ==> #[trigger] t[i].id != id
}

/// What the database answers to the lookup of `key`.
pub open spec fn find_advisory(t: Seq<AdvisoryModel>, key: AdvisoryKey) -> Option<AdvisoryModel> {
    if exists|i: int| 0 <= i < t.len() && key.matches(#[trigger] t[i]) {
        Some(t[choose|i: int| 0 <= i < t.len() && key.matches(#[trigger] t[i])])
    } else {
        None
    }
}

/// One run of ingestion against table `t`, where an insert gets id `new_id`:
/// the table afterwards and the advisory returned.
pub open spec fn ingest_advisory_run(t: Seq<AdvisoryModel>, key: AdvisoryKey, new_id: i32) -> (Seq<AdvisoryModel>, AdvisoryModel) {
    match ingest_advisory_step(key, find_advisory(t, key)) {
        IngestAdvisoryStep::Existing(ctx) => (t, ctx.advisory),
        IngestAdvisoryStep::Insert(k) => (t.push(k.row(new_id)), k.row(new_id)),
    }
}

/// Ingestion keeps the table well formed and keeps every row it held; what it
/// returns is a row of the new table that matches the key.
pub proof fn lemma_ingest_advisory_wf(t: Seq<AdvisoryModel>, key: AdvisoryKey, new_id: i32)
    requires
        advisories_wf(t),
        advisory_id_fresh(t, new_id),
    ensures
        advisories_wf(ingest_advisory_run(t, key, new_id).0),
        key.matches(ingest_advisory_run(t, key, new_id).1),
        ingest_advisory_run(t, key, new_id).0.contains(ingest_advisory_run(t, key, new_id).1),
        t.len() <= ingest_advisory_run(t, key, new_id).0.len(),
        forall|i: int| 0 <= i < t.len() ==> ingest_advisory_run(t, key, new_id).0[i] == t[i],
{
    let (t1, r) = ingest_advisory_run(t, key, new_id);
    if exists|i: int| 0 <= i < t.len() && key.matches(#[trigger] t[i]) {
        let i = choose|i: int| 0 <= i < t.len() && key.matches(#[trigger] t[i]);
        assert(t1[i] == r);
    } else {
        assert(t1[t.len() as int] == r);
        assert forall|i: int, j: int|
            0 <= i < t1.len() && 0 <= j < t1.len() && i != j implies #[trigger] t1[i].id != #[trigger] t1[j].id
                && !(AdvisoryKey { identifier: t1[i].identifier, location: t1[i].location, sha256: t1[i].sha256 }).matches(t1[j]) by {
            if i < t.len() && j < t.len() {
                assert(t1[i] == t[i] && t1[j] == t[j]);
            } else if i < t.len() {
                assert(t1[i] == t[i]);
                assert(!key.matches(t[i]));
            } else {
                assert(t1[j] == t[j]);
                assert(!key.matches(t[j]));
            }
        }
    }
}

/// In a well-formed table that holds row `r`, looking up `r`'s key finds `r`,
/// and ingesting that key again returns `r` and inserts nothing.
pub proof fn lemma_advisory_found(t: Seq<AdvisoryModel>, key: AdvisoryKey, r: AdvisoryModel, new_id: i32)
    requires
        advisories_wf(t),
        t.contains(r),
        key.matches(r),
    ensures
        find_advisory(t, key) == Some(r),
        ingest_advisory_run(t, key, new_id) == (t, r),
{
    let k = choose|i: int| 0 <= i < t.len() && t[i] == r;
    assert(key.matches(t[k]));
    let c = choose|i: int| 0 <= i < t.len() && key.matches(#[trigger] t[i]);
    if c != k {
        assert(t[k].id != t[c].id);
        assert(!(AdvisoryKey { identifier: t[k].identifier, location: t[k].location, sha256: t[k].sha256 }).matches(t[c]));
    }
}

/// Against a well-formed table that holds row `r`, ingestion returns `r`'s id
/// exactly when the key is `r`'s key; then it returns `r` itself.
pub proof fn lemma_advisory_ids(t: Seq<AdvisoryModel>, key: AdvisoryKey, r: AdvisoryModel, new_id: i32)
    requires
        advisories_wf(t),
        t.contains(r),
        advisory_id_fresh(t, new_id),
    ensures
        (ingest_advisory_run(t, key, new_id).1.id == r.id) == key.matches(r),
        key.matches(r) ==> ingest_advisory_run(t, key, new_id).1 == r,
{
    lemma_ingest_advisory_wf(t, key, new_id);
    let (t1, r2) = ingest_advisory_run(t, key, new_id);
    if key.matches(r) {
        lemma_advisory_found(t, key, r, new_id);
    } else {
        let a = choose|i: int| 0 <= i < t.len() && t[i] == r;
        let b = choose|i: int| 0 <= i < t1.len() && t1[i] == r2;
        assert(t1[a] == r);
        assert(a != b);
        assert(t1[a].id != t1[b].id);
    }
}

} // verus!
