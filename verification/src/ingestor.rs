//! Accepting an uploaded CSAF advisory: its digest, its JSON form, a check of
//! its CVSS v3 vectors, and its parse as CSAF.
use vstd::prelude::*;
use crate::digest::{lower_hex, sha256_hex, sha256_spec};

verus! {

#[verifier::external_type_specification]
#[verifier::external_body]
pub struct ExCsaf(csaf::Csaf);

#[verifier::external_type_specification]
#[verifier::external_body]
pub struct ExJsonValue(serde_json::Value);

#[verifier::external_type_specification]
#[verifier::external_body]
pub struct ExJsonError(serde_json::Error);

/// The JSON value that `data` holds, or `None` when it is not JSON.
pub uninterp spec fn json_value(data: Seq<u8>) -> Option<serde_json::Value>;

/// The member `key` of a JSON object (`None` for other values or a missing key).
pub uninterp spec fn json_field(v: serde_json::Value, key: Seq<char>) -> Option<serde_json::Value>;

/// The items of a JSON array (`None` for other values).
pub uninterp spec fn json_items(v: serde_json::Value) -> Option<Seq<serde_json::Value>>;

/// The text of a JSON string (`None` for other values).
pub uninterp spec fn json_text(v: serde_json::Value) -> Option<Seq<char>>;

/// Whether the `cvss` crate accepts `s` as a CVSS v3 base vector.
pub uninterp spec fn cvss_v3_parses(s: Seq<char>) -> bool;

/// The CSAF document that a JSON value deserialises to, or `None` when it
/// does not deserialise.
pub uninterp spec fn csaf_document(v: serde_json::Value) -> Option<csaf::Csaf>;

/// Calls `serde_json::from_slice::<serde_json::Value>` on `data`. Trusted: it
/// succeeds exactly when the named `json_value` is `Some`, with that value.
#[verifier::external_body]
fn parse_json(data: &[u8]) -> (res: Result<serde_json::Value, serde_json::Error>)
    ensures
        res is Ok == json_value(data@) is Some,
        res matches Ok(v) ==> json_value(data@) == Some(v),
{
    serde_json::from_slice::<serde_json::Value>(data)
}

/// Calls `serde_json::Value::get` with a string key. Trusted: the answer is
/// the named member.
#[verifier::external_body]
fn json_get<'a>(v: &'a serde_json::Value, key: &str) -> (res: Option<&'a serde_json::Value>)
    ensures
        res is Some == json_field(*v, key@) is Some,
        res matches Some(x) ==> json_field(*v, key@) == Some(*x),
{
    v.get(key)
}

/// Calls `serde_json::Value::as_array`. Trusted: the answer is the named items.
#[verifier::external_body]
fn json_array<'a>(v: &'a serde_json::Value) -> (res: Option<&'a Vec<serde_json::Value>>)
    ensures
        res is Some == json_items(*v) is Some,
        res matches Some(a) ==> json_items(*v) == Some(a@),
{
    v.as_array()
}

/// Calls `serde_json::Value::as_str`. Trusted: the answer is the named text.
#[verifier::external_body]
fn json_str<'a>(v: &'a serde_json::Value) -> (res: Option<&'a str>)
    ensures
        res is Some == json_text(*v) is Some,
        res matches Some(s) ==> json_text(*v) == Some(s@),
{
    v.as_str()
}

/// Calls `cvss::v3::Base::from_str` on `s` (which returns errors and does not
/// panic). Trusted: it succeeds exactly when the named predicate holds.
#[verifier::external_body]
fn cvss_v3_valid(s: &str) -> (res: bool)
    ensures
        res == cvss_v3_parses(s@),
{
    match <cvss::v3::Base as std::str::FromStr>::from_str(s) {
        Ok(_) => true,
        Err(_) => false,
    }
}

/// Member `name` of an object, or item `index` of an array: the two JSON forms
/// from which serde reads field number `index`, named `name`, of a struct.
pub open spec fn member(v: serde_json::Value, name: Seq<char>, index: int) -> Option<serde_json::Value> {
    match json_field(v, name) {
        Some(x) => Some(x),
        None => match json_items(v) {
            Some(items) => if 0 <= index < items.len() {
                Some(items[index])
            } else {
                None
            },
            None => None,
        },
    }
}

/// A CVSS v3 object whose `vectorString` text, if it has one, parses.
pub open spec fn cvss_object_ok(c: serde_json::Value) -> bool {
    match member(c, "vectorString"@, 1) {
        Some(t) => match json_text(t) {
            Some(s) => cvss_v3_parses(s),
            None => true,
        },
        None => true,
    }
}

/// A score whose `cvss_v3` object, if it has one, is acceptable.
pub open spec fn score_ok(s: serde_json::Value) -> bool {
    match member(s, "cvss_v3"@, 2) {
        Some(c) => cvss_object_ok(c),
        None => true,
    }
}

/// A vulnerability all of whose scores are acceptable.
pub open spec fn vulnerability_ok(v: serde_json::Value) -> bool {
    match member(v, "scores"@, 12) {
        Some(a) => match json_items(a) {
            Some(scores) => forall|j: int| 0 <= j < scores.len() ==> score_ok(#[trigger] scores[j]),
            None => true,
        },
        None => true,
    }
}

/// Every CVSS v3 vector that a CSAF document's vulnerabilities carry parses.
pub open spec fn cvss_vectors_ok(doc: serde_json::Value) -> bool {
    match member(doc, "vulnerabilities"@, 2) {
        Some(a) => match json_items(a) {
            Some(vulns) => forall|i: int| 0 <= i < vulns.len() ==> vulnerability_ok(#[trigger] vulns[i]),
            None => true,
        },
        None => true,
    }
}

/// Calls `serde_json::from_value::<csaf::Csaf>` on `v`. Trusted: it succeeds
/// exactly when the named document exists, and gives that document. The
/// `csaf` crate turns each score's `cvss_v3` object into a `cvss::v3::Base`
/// with an `expect` on the vector's parse, so a vector that does not parse
/// panics; `requires` keeps such values out (a struct is read from an object
/// by field name or from an array by position, and `member` covers both).
#[verifier::external_body]
fn csaf_from_json(v: serde_json::Value) -> (res: Result<csaf::Csaf, serde_json::Error>)
    requires
        cvss_vectors_ok(v),
    ensures
        res is Ok == csaf_document(v) is Some,
        res matches Ok(c) ==> csaf_document(v) == Some(c),
{
    serde_json::from_value::<csaf::Csaf>(v)
}

fn member_of<'a>(v: &'a serde_json::Value, name: &str, index: usize) -> (res: Option<&'a serde_json::Value>)
    ensures
        res is Some == member(*v, name@, index as int) is Some,
        res matches Some(x) ==> member(*v, name@, index as int) == Some(*x),
{
    match json_get(v, name) {
        Some(x) => Some(x),
        None => match json_array(v) {
            Some(items) => if index < items.len() {
                Some(&items[index])
            } else {
                None
            },
            None => None,
        },
    }
}

fn check_cvss_object(c: &serde_json::Value) -> (ok: bool)
    ensures
        ok == cvss_object_ok(*c),
{
    match member_of(c, "vectorString", 1) {
        Some(t) => match json_str(t) {
            Some(s) => cvss_v3_valid(s),
            None => true,
        },
        None => true,
    }
}

fn check_score(s: &serde_json::Value) -> (ok: bool)
    ensures
        ok == score_ok(*s),
{
    match member_of(s, "cvss_v3", 2) {
        Some(c) => check_cvss_object(c),
        None => true,
    }
}

fn check_vulnerability(v: &serde_json::Value) -> (ok: bool)
    ensures
        ok == vulnerability_ok(*v),
{
    match member_of(v, "scores", 12) {
        Some(a) => match json_array(a) {
            Some(scores) => {
                let n = scores.len();
                for j in 0..n
                    invariant
                        n == scores@.len(),
                        member(*v, "scores"@, 12) == Some(*a),
                        json_items(*a) == Some(scores@),
                        forall|k: int| 0 <= k < j ==> score_ok(#[trigger] scores@[k]),
                {
                    if !check_score(&scores[j]) {
                        assert(!score_ok(scores@[j as int]));
                        assert(json_items(*a)->0 == scores@);
                        assert(member(*v, "scores"@, 12)->0 == *a);
                        return false;
                    }
                }
                true
            },
            None => true,
        },
        None => true,
    }
}

/// `x` is what serde reads as field number `index`, named `name`, of the
/// struct that `v` holds: the member `name` of an object, or item `index` of
/// an array.
pub open spec fn reads_field(v: serde_json::Value, name: Seq<char>, index: int, x: serde_json::Value) -> bool {
    ||| json_field(v, name) == Some(x)
    ||| (json_field(v, name) is None && json_items(v) is Some && 0 <= index < json_items(v)->0.len()
        && json_items(v)->0[index] == x)
}

/// Some vulnerability of `doc` has a score whose `cvss_v3` object holds a
/// `vectorString` text that the `cvss` crate does not accept.
pub open spec fn has_bad_vector(doc: serde_json::Value) -> bool {
    exists|
        vs: serde_json::Value,
        vulns: Seq<serde_json::Value>,
        i: int,
        scs: serde_json::Value,
        scores: Seq<serde_json::Value>,
        j: int,
        c: serde_json::Value,
        t: serde_json::Value,
        s: Seq<char>,
    |
        #![trigger reads_field(doc, "vulnerabilities"@, 2, vs), reads_field(vulns[i], "scores"@, 12, scs), reads_field(scores[j], "cvss_v3"@, 2, c), reads_field(c, "vectorString"@, 1, t), cvss_v3_parses(s)]
        {
            &&& reads_field(doc, "vulnerabilities"@, 2, vs)
            &&& json_items(vs) == Some(vulns)
            &&& 0 <= i < vulns.len()
            &&& reads_field(vulns[i], "scores"@, 12, scs)
            &&& json_items(scs) == Some(scores)
            &&& 0 <= j < scores.len()
            &&& reads_field(scores[j], "cvss_v3"@, 2, c)
            &&& reads_field(c, "vectorString"@, 1, t)
            &&& json_text(t) == Some(s)
            &&& !cvss_v3_parses(s)
        }
}

proof fn lemma_member_reads(v: serde_json::Value, name: Seq<char>, index: int, x: serde_json::Value)
    ensures
        (member(v, name, index) == Some(x)) == reads_field(v, name, index, x),
{
}

/// The CVSS check refuses a document exactly when one of its scores carries
/// a vector text that does not parse; a document without vulnerabilities,
/// scores or CVSS v3 vectors passes.
pub proof fn lemma_cvss_check_refuses_only_bad_vectors(doc: serde_json::Value)
    ensures
        cvss_vectors_ok(doc) == !has_bad_vector(doc),
{
    if has_bad_vector(doc) {
        let (vs, vulns, i, scs, scores, j, c, t, s) = choose|
            vs: serde_json::Value,
            vulns: Seq<serde_json::Value>,
            i: int,
            scs: serde_json::Value,
            scores: Seq<serde_json::Value>,
            j: int,
            c: serde_json::Value,
            t: serde_json::Value,
            s: Seq<char>,
        |
            #![trigger reads_field(doc, "vulnerabilities"@, 2, vs), reads_field(vulns[i], "scores"@, 12, scs), reads_field(scores[j], "cvss_v3"@, 2, c), reads_field(c, "vectorString"@, 1, t), cvss_v3_parses(s)]
            {
                &&& reads_field(doc, "vulnerabilities"@, 2, vs)
                &&& json_items(vs) == Some(vulns)
                &&& 0 <= i < vulns.len()
                &&& reads_field(vulns[i], "scores"@, 12, scs)
                &&& json_items(scs) == Some(scores)
                &&& 0 <= j < scores.len()
                &&& reads_field(scores[j], "cvss_v3"@, 2, c)
                &&& reads_field(c, "vectorString"@, 1, t)
                &&& json_text(t) == Some(s)
                &&& !cvss_v3_parses(s)
            };
        lemma_member_reads(doc, "vulnerabilities"@, 2, vs);
        lemma_member_reads(vulns[i], "scores"@, 12, scs);
        lemma_member_reads(scores[j], "cvss_v3"@, 2, c);
        lemma_member_reads(c, "vectorString"@, 1, t);
        assert(!cvss_object_ok(c));
        assert(!score_ok(scores[j]));
        assert(member(vulns[i], "scores"@, 12) == Some(scs));
        assert(json_items(member(vulns[i], "scores"@, 12)->0)->0 == scores);
        assert(!vulnerability_ok(vulns[i]));
    } else if !cvss_vectors_ok(doc) {
        let vs = member(doc, "vulnerabilities"@, 2)->0;
        let vulns = json_items(vs)->0;
        let i = choose|i: int| 0 <= i < vulns.len() && !vulnerability_ok(#[trigger] vulns[i]);
        let scs = member(vulns[i], "scores"@, 12)->0;
        let scores = json_items(scs)->0;
        let j = choose|j: int| 0 <= j < scores.len() && !score_ok(#[trigger] scores[j]);
        let c = member(scores[j], "cvss_v3"@, 2)->0;
        let t = member(c, "vectorString"@, 1)->0;
        let s = json_text(t)->0;
        lemma_member_reads(doc, "vulnerabilities"@, 2, vs);
        lemma_member_reads(vulns[i], "scores"@, 12, scs);
        lemma_member_reads(scores[j], "cvss_v3"@, 2, c);
        lemma_member_reads(c, "vectorString"@, 1, t);
        assert(reads_field(doc, "vulnerabilities"@, 2, vs) && reads_field(vulns[i], "scores"@, 12, scs)
            && reads_field(scores[j], "cvss_v3"@, 2, c) && reads_field(c, "vectorString"@, 1, t)
            && !cvss_v3_parses(s));
        assert(has_bad_vector(doc));
    }
}

/// Whether every CVSS v3 vector in the vulnerabilities of `doc` parses.
pub fn check_cvss_vectors(doc: &serde_json::Value) -> (ok: bool)
    ensures
        ok == cvss_vectors_ok(*doc),
        ok == !has_bad_vector(*doc),
{
    proof {
        lemma_cvss_check_refuses_only_bad_vectors(*doc);
    }
    match member_of(doc, "vulnerabilities", 2) {
        Some(a) => match json_array(a) {
            Some(vulns) => {
                let n = vulns.len();
                for i in 0..n
                    invariant
                        n == vulns@.len(),
                        member(*doc, "vulnerabilities"@, 2) == Some(*a),
                        cvss_vectors_ok(*doc) == !has_bad_vector(*doc),
                        json_items(*a) == Some(vulns@),
                        forall|k: int| 0 <= k < i ==> vulnerability_ok(#[trigger] vulns@[k]),
                {
                    if !check_vulnerability(&vulns[i]) {
                        assert(!vulnerability_ok(vulns@[i as int]));
                        assert(json_items(*a)->0 == vulns@);
                        assert(member(*doc, "vulnerabilities"@, 2)->0 == *a);
                        return false;
                    }
                }
                true
            },
            None => true,
        },
        None => true,
    }
}

/// An upload refused before ingestion.
#[derive(Debug)]
pub enum UploadError {
    /// The payload is not a CSAF document.
    BadRequest { msg: String, status: u16 },
}

/// An accepted upload, ready for the graph to ingest.
pub struct AdvisoryUpload {
    pub csaf: csaf::Csaf,
    /// Lower-case hexadecimal SHA-256 digest of the uploaded bytes.
    pub sha256: String,
    /// Where the advisory was uploaded to (the request path).
    pub location: String,
}

pub open spec fn unparsable_message() -> Seq<char> {
    "File could not be parsed"@
}

/// Checks an uploaded advisory: digests the payload, reads it as JSON (an
/// object that repeats a key keeps its last member), checks its CVSS v3
/// vectors and parses it as CSAF. A payload that is not a CSAF document, or
/// that carries a CVSS v3 vector that does not parse, is a bad request
/// (status 400).
pub fn upload_advisory(payload: &[u8], location: &str) -> (res: Result<AdvisoryUpload, UploadError>)
    ensures
        res is Ok <==> (json_value(payload@) matches Some(v) && cvss_vectors_ok(v) && csaf_document(v) is Some),
        res is Ok <==> (json_value(payload@) matches Some(v) && !has_bad_vector(v) && csaf_document(v) is Some),
        res matches Ok(u) ==> Some(u.csaf) == csaf_document(json_value(payload@)->0) && u.sha256@ == lower_hex(
            sha256_spec(payload@),
        ) && u.sha256@.len() == 64 && u.location@ == location@,
        res matches Err(UploadError::BadRequest { msg, status }) ==> msg@ == unparsable_message() && status == 400,
{
    let sha256 = sha256_hex(payload);
    proof {
        if json_value(payload@) is Some {
            lemma_cvss_check_refuses_only_bad_vectors(json_value(payload@)->0);
        }
    }
    let value = match parse_json(payload) {
        Ok(v) => v,
        Err(_) => {
            return Err(
                UploadError::BadRequest { msg: String::from_str("File could not be parsed"), status: 400 },
            );
        },
    };
    if !check_cvss_vectors(&value) {
        return Err(
            UploadError::BadRequest { msg: String::from_str("File could not be parsed"), status: 400 },
        );
    }
    match csaf_from_json(value) {
        Ok(csaf) => Ok(AdvisoryUpload { csaf, sha256, location: String::from_str(location) }),
        Err(_) => Err(
            UploadError::BadRequest { msg: String::from_str("File could not be parsed"), status: 400 },
        ),
    }
}

} // verus!
