//! Keys that name a stored document: a digest prefixed by its hash type
//! (`sha256:<hash>`, `sha384:<hash>`, `sha512:<hash>`) or `urn:uuid:<uuid>`.
use vstd::prelude::*;

verus! {

/// How a document key identifies its document.
#[derive(Clone, Copy, Debug, PartialEq, Eq, Structural)]
pub enum IdKind {
    Sha256,
    Sha384,
    Sha512,
    Uuid,
}

/// A parsed document key: its kind and the text after the prefix.
#[derive(Debug)]
pub struct DocumentId {
    pub kind: IdKind,
    pub value: String,
}

/// Why a document key was refused.
#[derive(Debug)]
pub enum IdError {
    /// The key holds no `:`, so it names no hash type.
    MissingPrefix,
    /// The text before the first `:` is not a supported hash type.
    UnsupportedAlgorithm(String),
}

/// The outcome of parsing a key, over views.
pub enum KeyParse {
    Missing,
    Unsupported(Seq<char>),
    Parsed(IdKind, Seq<char>),
}

pub open spec fn sha256_prefix() -> Seq<char> { seq!['s', 'h', 'a', '2', '5', '6'] }
pub open spec fn sha384_prefix() -> Seq<char> { seq!['s', 'h', 'a', '3', '8', '4'] }
pub open spec fn sha512_prefix() -> Seq<char> { seq!['s', 'h', 'a', '5', '1', '2'] }
pub open spec fn urn_prefix() -> Seq<char> { seq!['u', 'r', 'n'] }
pub open spec fn uuid_scheme() -> Seq<char> { seq!['u', 'u', 'i', 'd', ':'] }

/// `i` is the position of the first `:` in `s`.
pub open spec fn is_first_colon(s: Seq<char>, i: int) -> bool {
    &&& 0 <= i < s.len()
    &&& s[i] == ':'
    &&& forall|j: int| 0 <= j < i ==> s[j] != ':'
}

pub open spec fn has_colon(s: Seq<char>) -> bool {
    exists|i: int| 0 <= i < s.len() && s[i] == ':'
}

/// What a key means: the hash type before the first `:` and the value after
/// it; `urn:uuid:<uuid>` for a UUID.
pub open spec fn parse_key(s: Seq<char>) -> KeyParse {
    if !has_colon(s) {
        KeyParse::Missing
    } else {
        let i = choose|i: int| is_first_colon(s, i);
        let prefix = s.take(i);
        let rest = s.skip(i + 1);
        if prefix == sha256_prefix() {
            KeyParse::Parsed(IdKind::Sha256, rest)
        } else if prefix == sha384_prefix() {
            KeyParse::Parsed(IdKind::Sha384, rest)
        } else if prefix == sha512_prefix() {
            KeyParse::Parsed(IdKind::Sha512, rest)
        } else if prefix == urn_prefix() && rest.len() >= 5 && rest.take(5) == uuid_scheme() {
            KeyParse::Parsed(IdKind::Uuid, rest.skip(5))
        } else {
            KeyParse::Unsupported(prefix)
        }
    }
}

/// A key made of `prefix`, a `:` and `rest`, where `prefix` holds no `:`,
/// splits into exactly those two parts.
proof fn lemma_split_key(prefix: Seq<char>, rest: Seq<char>)
    requires
        forall|j: int| 0 <= j < prefix.len() ==> prefix[j] != ':',
    ensures
        has_colon(prefix + seq![':'] + rest),
        (choose|i: int| is_first_colon(prefix + seq![':'] + rest, i)) == prefix.len(),
        (prefix + seq![':'] + rest).take(prefix.len() as int) == prefix,
        (prefix + seq![':'] + rest).skip(prefix.len() + 1int) == rest,
{
    let s = prefix + seq![':'] + rest;
    let n = prefix.len() as int;
    assert(s[n] == ':');
    assert(is_first_colon(s, n));
    let c = choose|i: int| is_first_colon(s, i);
    if c < n {
        assert(s[c] == prefix[c]);
    } else if c > n {
        assert(s[n] != ':');
    }
    assert(s.take(n) =~= prefix);
    assert(s.skip(n + 1) =~= rest);
}

/// Every digest key parses to its hash type and the whole text after the
/// `:`, whatever that text is; `urn:uuid:` keys give the text after them;
/// a key without `:` names no hash type.
pub proof fn lemma_document_keys(h: Seq<char>)
    ensures
        parse_key(sha256_prefix() + seq![':'] + h) == KeyParse::Parsed(IdKind::Sha256, h),
        parse_key(sha384_prefix() + seq![':'] + h) == KeyParse::Parsed(IdKind::Sha384, h),
        parse_key(sha512_prefix() + seq![':'] + h) == KeyParse::Parsed(IdKind::Sha512, h),
        parse_key(urn_prefix() + seq![':'] + (uuid_scheme() + h)) == KeyParse::Parsed(IdKind::Uuid, h),
        (forall|j: int| 0 <= j < h.len() ==> h[j] != ':') ==> parse_key(h) == KeyParse::Missing,
{
    lemma_split_key(sha256_prefix(), h);
    lemma_split_key(sha384_prefix(), h);
    lemma_split_key(sha512_prefix(), h);
    lemma_split_key(urn_prefix(), uuid_scheme() + h);
    assert((uuid_scheme() + h).take(5) =~= uuid_scheme());
    assert((uuid_scheme() + h).skip(5) =~= h);
    assert(sha384_prefix() != sha256_prefix());
    assert(sha512_prefix() != sha256_prefix() && sha512_prefix() != sha384_prefix());
    assert(urn_prefix().len() != sha256_prefix().len());
}

/// The result of `parse_document_id` agrees with `parse_key`.
pub open spec fn parse_agrees(key: Seq<char>, res: Result<DocumentId, IdError>) -> bool {
    match parse_key(key) {
        KeyParse::Missing => res matches Err(IdError::MissingPrefix),
        KeyParse::Unsupported(p) => res matches Err(IdError::UnsupportedAlgorithm(q)) && q@ == p,
        KeyParse::Parsed(kind, v) => res matches Ok(id) && id.kind == kind && id.value@ == v,
    }
}

fn same_text(a: &str, b: &str) -> (res: bool)
    ensures
        res == (a@ == b@),
{
    let x = String::from_str(a);
    let y = String::from_str(b);
    x == y
}

/// Parses a document key such as `sha256:<hash>` or `urn:uuid:<uuid>`.
pub fn parse_document_id(key: &str) -> (res: Result<DocumentId, IdError>)
    ensures
        parse_agrees(key@, res),
        forall|h: Seq<char>|
            key@ == #[trigger] (sha256_prefix() + seq![':'] + h) ==> (res matches Ok(id) && id.kind == IdKind::Sha256
                && id.value@ == h),
        forall|h: Seq<char>|
            key@ == #[trigger] (sha384_prefix() + seq![':'] + h) ==> (res matches Ok(id) && id.kind == IdKind::Sha384
                && id.value@ == h),
        forall|h: Seq<char>|
            key@ == #[trigger] (sha512_prefix() + seq![':'] + h) ==> (res matches Ok(id) && id.kind == IdKind::Sha512
                && id.value@ == h),
        forall|h: Seq<char>|
            key@ == #[trigger] (urn_prefix() + seq![':'] + (uuid_scheme() + h)) ==> (res matches Ok(id) && id.kind
                == IdKind::Uuid && id.value@ == h),
        (forall|j: int| 0 <= j < key@.len() ==> key@[j] != ':') ==> (res matches Err(IdError::MissingPrefix)),
{
    proof {
        lemma_document_keys(key@);
        assert forall|h: Seq<char>| key@ == #[trigger] (sha256_prefix() + seq![':'] + h) implies parse_key(key@)
            == KeyParse::Parsed(IdKind::Sha256, h) by {
            lemma_document_keys(h);
        }
        assert forall|h: Seq<char>| key@ == #[trigger] (sha384_prefix() + seq![':'] + h) implies parse_key(key@)
            == KeyParse::Parsed(IdKind::Sha384, h) by {
            lemma_document_keys(h);
        }
        assert forall|h: Seq<char>| key@ == #[trigger] (sha512_prefix() + seq![':'] + h) implies parse_key(key@)
            == KeyParse::Parsed(IdKind::Sha512, h) by {
            lemma_document_keys(h);
        }
        assert forall|h: Seq<char>| key@ == #[trigger] (urn_prefix() + seq![':'] + (uuid_scheme() + h)) implies parse_key(
            key@,
        ) == KeyParse::Parsed(IdKind::Uuid, h) by {
            lemma_document_keys(h);
        }
    }
    let n = key.unicode_len();
    let mut i: usize = 0;
    while i < n && key.get_char(i) != ':'
        invariant
            n == key@.len(),
            i <= n,
            forall|j: int| 0 <= j < i ==> key@[j] != ':',
        decreases n - i,
    {
        i = i + 1;
    }
    if i == n {
        return Err(IdError::MissingPrefix);
    }
    assert(key@[i as int] == ':');
    assert(is_first_colon(key@, i as int));
    assert(has_colon(key@));
    let ghost chosen = choose|c: int| is_first_colon(key@, c);
    assert(chosen == i as int) by {
        if chosen < i as int {
            assert(key@[chosen] != ':');
        } else if chosen > i as int {
            assert(key@[i as int] != ':');
        }
    }
    let prefix = key.substring_char(0, i);
    let rest = key.substring_char(i + 1, n);
    proof {
        reveal_strlit("sha256");
        reveal_strlit("sha384");
        reveal_strlit("sha512");
        reveal_strlit("urn");
        reveal_strlit("uuid:");
        assert("sha256"@ =~= sha256_prefix());
        assert("sha384"@ =~= sha384_prefix());
        assert("sha512"@ =~= sha512_prefix());
        assert("urn"@ =~= urn_prefix());
        assert("uuid:"@ =~= uuid_scheme());
        assert(prefix@ =~= key@.take(i as int));
        assert(rest@ =~= key@.skip(i + 1));
    }
    if same_text(prefix, "sha256") {
        Ok(DocumentId { kind: IdKind::Sha256, value: String::from_str(rest) })
    } else if same_text(prefix, "sha384") {
        Ok(DocumentId { kind: IdKind::Sha384, value: String::from_str(rest) })
    } else if same_text(prefix, "sha512") {
        Ok(DocumentId { kind: IdKind::Sha512, value: String::from_str(rest) })
    } else if same_text(prefix, "urn") && rest.unicode_len() >= 5 && same_text(
        rest.substring_char(0, 5),
        "uuid:",
    ) {
        let m = rest.unicode_len();
        let uuid = rest.substring_char(5, m);
        proof {
            assert(uuid@ =~= rest@.skip(5));
        }
        Ok(DocumentId { kind: IdKind::Uuid, value: String::from_str(uuid) })
    } else {
        Err(IdError::UnsupportedAlgorithm(String::from_str(prefix)))
    }
}

} // verus!
