use vstd::prelude::*;

use sha2::Digest;

use super::schema::PolicyFile;
use super::validate::{validate, validation_message};
use super::{LoadedPolicy, PolicyError};
use crate::text::{owned, push_char, push_str};

verus! {

/// Where `--policy-id` looks for a policy, in order: the directories listed
/// in `ASSESS_POLICY_PATH`, the builtin policies, then the user policy
/// directory.
pub const RESOLUTION_ORDER: [&'static str; 3] = [
    "ASSESS_POLICY_PATH",
    "builtin-policies",
    "~/.cmdrvl/config/assess/policies/",
];

pub fn resolution_order() -> (r: &'static [&'static str; 3])
    ensures
        r@.len() == 3,
        r@[0]@ == "ASSESS_POLICY_PATH"@,
        r@[1]@ == "builtin-policies"@,
        r@[2]@ == "~/.cmdrvl/config/assess/policies/"@,
{
    &RESOLUTION_ORDER
}

/// Where a policy document was found.
#[derive(Debug, Clone, PartialEq, Eq)]
pub enum PolicySource {
    /// The file named by `--policy`.
    Path(String),
    /// A file in a directory of `ASSESS_POLICY_PATH`.
    SearchPath(String),
    /// A policy compiled into the binary, by its ID.
    Builtin(String),
    /// A file in the user policy directory.
    UserDir(String),
}

/// The raw bytes of a policy document and what parsing them as a policy
/// gave (the parser's message when they are not one).
#[derive(Debug, PartialEq, Eq)]
pub struct PolicyText {
    pub bytes: Vec<u8>,
    pub parsed: Result<PolicyFile, String>,
}

/// A policy document as the caller found it: where, and its text or the
/// reason it could not be read.
#[derive(Debug, PartialEq, Eq)]
pub struct PolicyDocument {
    pub source: PolicySource,
    pub content: Result<PolicyText, String>,
}

/// The policies compiled into the binary: each ID with its YAML text.
pub open spec fn builtin_ids() -> Seq<Seq<char>> {
    seq!["loan_tape.monthly.v1"@, "default.v0"@]
}

pub const LOAN_TAPE_MONTHLY_V1: &'static str = "schema_version: 1
policy_id: loan_tape.monthly.v1
policy_version: 1
description: \"Monthly loan tape reconciliation policy\"
requires:
  - shape
  - rvl
  - verify

rules:
  - name: clean_reconciliation
    when:
      shape:
        outcome: COMPATIBLE
      rvl:
        outcome_in: [REAL_CHANGE, NO_REAL_CHANGE]
      verify:
        outcome: PASS
    then:
      decision_band: PROCEED

  - name: partial_overlap_acceptable
    when:
      shape:
        outcome: INCOMPATIBLE
        signals:
          compatibility_band: PARTIAL
      rvl:
        outcome_in: [REAL_CHANGE, NO_REAL_CHANGE]
      verify:
        outcome: PASS
    then:
      decision_band: PROCEED_WITH_RISK
      risk_code: PARTIAL_SCHEMA_OVERLAP

  - name: diffuse_requires_review
    when:
      shape:
        outcome: COMPATIBLE
      rvl:
        refusal: E_DIFFUSE
      verify:
        outcome: PASS
    then:
      decision_band: ESCALATE
      risk_code: DIFFUSE_CHANGE

  - name: tolerable_missingness
    when:
      shape:
        outcome: COMPATIBLE
      rvl:
        refusal: E_MISSINGNESS
        signals:
          missingness_band: TOLERABLE
      verify:
        outcome: PASS
    then:
      decision_band: PROCEED_WITH_RISK
      risk_code: MISSINGNESS_TOLERATED

  - name: verify_fail_requires_review
    when:
      verify:
        outcome: FAIL
    then:
      decision_band: ESCALATE
      risk_code: VERIFY_FAIL

  - name: default_block
    default: true
    then:
      decision_band: BLOCK
      risk_code: UNHANDLED_CONDITION
";

pub const DEFAULT_V0: &'static str = "schema_version: 1
policy_id: default.v0
policy_version: 1
description: \"Block everything no other policy decides\"
rules:
  - name: default_block
    default: true
    then:
      decision_band: BLOCK
      risk_code: UNHANDLED_CONDITION
";

/// A builtin policy: its ID and its YAML text.
#[derive(Debug, Clone, Copy, PartialEq, Eq)]
pub struct BuiltinPolicy {
    pub id: &'static str,
    pub text: &'static str,
}

/// The builtin policies, in search order.
pub fn builtin_policies() -> (r: Vec<BuiltinPolicy>)
    ensures
        r@.map_values(|b: BuiltinPolicy| b.id@) == builtin_ids(),
        r@[0].text@ == LOAN_TAPE_MONTHLY_V1@,
        r@[1].text@ == DEFAULT_V0@,
{
    let mut r: Vec<BuiltinPolicy> = Vec::new();
    r.push(BuiltinPolicy { id: "loan_tape.monthly.v1", text: LOAN_TAPE_MONTHLY_V1 });
    r.push(BuiltinPolicy { id: "default.v0", text: DEFAULT_V0 });
    assert(r@.map_values(|b: BuiltinPolicy| b.id@) =~= builtin_ids());
    r
}

/// The SHA-256 digest of a byte string.
pub uninterp spec fn sha256_of(bytes: Seq<u8>) -> Seq<u8>;

/// `sha2::Sha256::digest`.
///
/// Trusted: the sha2 crate's `Sha256` computes the SHA-256 digest, which is
/// a function of the input bytes alone and is 32 bytes long; the contract
/// names the digest and claims its length, nothing more.
#[verifier::external_body]
fn sha256_digest(bytes: &[u8]) -> (r: Vec<u8>)
    ensures
        r@ == sha256_of(bytes@),
        r@.len() == 32,
{
    sha2::Sha256::digest(bytes).to_vec()
}

/// The lowercase hexadecimal digit of a value below 16.
pub open spec fn hex_digit(n: int) -> char {
    if n < 10 {
        (('0' as int) + n) as char
    } else {
        (('a' as int) + n - 10) as char
    }
}

/// Bytes as lowercase hexadecimal, two digits per byte.
pub open spec fn hex_text(bytes: Seq<u8>) -> Seq<char>
    decreases bytes.len(),
{
    if bytes.len() == 0 {
        Seq::empty()
    } else {
        hex_text(bytes.drop_last()).push(hex_digit((bytes.last() / 16) as int)).push(
            hex_digit((bytes.last() % 16) as int),
        )
    }
}

/// The content hash a policy is identified by: `sha256:` and the digest of
/// its raw bytes in lowercase hexadecimal.
pub open spec fn content_hash_text(bytes: Seq<u8>) -> Seq<char> {
    "sha256:"@ + hex_text(sha256_of(bytes))
}

fn hex_char(n: u8) -> (c: char)
    requires
        n < 16,
    ensures
        c == hex_digit(n as int),
{
    if n < 10 {
        ((('0' as u8) + n) as char)
    } else {
        ((('a' as u8) + n - 10) as char)
    }
}

/// The content hash of a policy's raw bytes.
pub fn content_hash(bytes: &Vec<u8>) -> (r: String)
    ensures
        r@ == content_hash_text(bytes@),
{
    let digest = sha256_digest(bytes.as_slice());
    let mut r = owned("sha256:");
    let ghost head = r@;
    let mut i: usize = 0;
    while i < digest.len()
        invariant
            i <= digest@.len(),
            head == "sha256:"@,
            r@ == head + hex_text(digest@.take(i as int)),
        decreases digest@.len() - i,
    {
        let b = digest[i];
        push_char(&mut r, hex_char(b / 16));
        push_char(&mut r, hex_char(b % 16));
        assert(digest@.take(i + 1).drop_last() =~= digest@.take(i as int));
        i = i + 1;
    }
    assert(digest@.take(digest@.len() as int) =~= digest@);
    r
}

/// The text naming a document's location in read errors.
pub open spec fn source_text(s: PolicySource) -> Seq<char> {
    match s {
        PolicySource::Path(p) => p@,
        PolicySource::SearchPath(p) => p@,
        PolicySource::Builtin(id) => "builtin:"@ + id@,
        PolicySource::UserDir(p) => p@,
    }
}

/// What loading a document gives: a read failure, a parse failure, a
/// policy that fails validation, or the policy with its content hash and
/// source.
pub open spec fn document_loads_as(doc: PolicyDocument, r: Result<LoadedPolicy, PolicyError>) -> bool {
    match doc.content {
        Err(m) => r matches Err(PolicyError::Io(x)) && x@ == "failed to read policy "@ + source_text(
            doc.source,
        ) + ": "@ + m@,
        Ok(t) => match t.parsed {
            Err(m) => r matches Err(PolicyError::YamlParse(x)) && x@ == "failed to parse policy "@
                + source_text(doc.source) + ": "@ + m@,
            Ok(p) => match validation_message(p@) {
                Some(m) => r matches Err(PolicyError::SchemaViolation(x)) && x@ == m,
                None => r matches Ok(l) && l.policy == p && l.sha256@ == content_hash_text(t.bytes@)
                    && l.source == doc.source,
            },
        },
    }
}

fn source_label(s: &PolicySource) -> (r: String)
    ensures
        r@ == source_text(*s),
{
    match s {
        PolicySource::Path(p) => owned(p.as_str()),
        PolicySource::SearchPath(p) => owned(p.as_str()),
        PolicySource::Builtin(id) => {
            let mut r = owned("builtin:");
            push_str(&mut r, id.as_str());
            r
        },
        PolicySource::UserDir(p) => owned(p.as_str()),
    }
}

/// Load one policy document: it must be readable, parse as a policy and
/// pass validation; the result carries the hash of its raw bytes.
pub fn load_document(doc: PolicyDocument) -> (r: Result<LoadedPolicy, PolicyError>)
    ensures
        document_loads_as(doc, r),
{
    let ghost whole = doc;
    let label = source_label(&doc.source);
    match doc.content {
        Err(m) => {
            let mut x = owned("failed to read policy ");
            push_str(&mut x, label.as_str());
            push_str(&mut x, ": ");
            push_str(&mut x, m.as_str());
            Err(PolicyError::Io(x))
        },
        Ok(text) => {
            let hash = content_hash(&text.bytes);
            match text.parsed {
                Err(m) => {
                    let mut x = owned("failed to parse policy ");
                    push_str(&mut x, label.as_str());
                    push_str(&mut x, ": ");
                    push_str(&mut x, m.as_str());
                    Err(PolicyError::YamlParse(x))
                },
                Ok(policy) => match validate(&policy) {
                    Err(e) => Err(e),
                    Ok(()) => Ok(LoadedPolicy { policy, sha256: hash, source: doc.source }),
                },
            }
        },
    }
}

/// The documents `--policy-id` searches, in the order `RESOLUTION_ORDER`
/// names: those found through `ASSESS_POLICY_PATH`, then the builtin
/// policies, then those in the user policy directory.
pub fn search_documents(
    from_search_path: Vec<PolicyDocument>,
    builtins: Vec<PolicyDocument>,
    from_user_dir: Vec<PolicyDocument>,
) -> (r: Vec<PolicyDocument>)
    ensures
        r@ == from_search_path@ + builtins@ + from_user_dir@,
{
    let mut r = from_search_path;
    let mut builtins = builtins;
    let mut from_user_dir = from_user_dir;
    r.append(&mut builtins);
    r.append(&mut from_user_dir);
    r
}

/// A document holds a policy with this ID.
pub open spec fn declares_id(doc: PolicyDocument, id: Seq<char>) -> bool {
    doc.content matches Ok(t) && t.parsed matches Ok(p) && p.policy_id@ == id
}

/// The index of the first document that holds a policy with this ID.
pub open spec fn first_with_id(docs: Seq<PolicyDocument>, id: Seq<char>) -> Option<int>
    decreases docs.len(),
{
    if docs.len() == 0 {
        None
    } else {
        match first_with_id(docs.drop_last(), id) {
            Some(i) => Some(i),
            None => if declares_id(docs.last(), id) {
                Some(docs.len() - 1)
            } else {
                None
            },
        }
    }
}

proof fn lemma_first_with_id(docs: Seq<PolicyDocument>, id: Seq<char>)
    ensures
        match first_with_id(docs, id) {
            Some(i) => 0 <= i < docs.len() && declares_id(docs[i], id) && forall|j: int|
                0 <= j < i ==> !declares_id(#[trigger] docs[j], id),
            None => forall|j: int| 0 <= j < docs.len() ==> !declares_id(#[trigger] docs[j], id),
        },
    decreases docs.len(),
{
    if docs.len() > 0 {
        lemma_first_with_id(docs.drop_last(), id);
        assert forall|j: int| 0 <= j < docs.len() - 1 implies #[trigger] docs[j] == docs.drop_last()[j] by {}
    }
}

/// Resolve a policy ID among the documents found, in resolution order: the
/// first document that holds a policy with that ID is loaded (and must
/// pass validation); documents that could not be read or parsed are passed
/// over; with none, the ID is unknown.
pub fn resolve_policy_id(id: &str, documents: Vec<PolicyDocument>) -> (r: Result<
    LoadedPolicy,
    PolicyError,
>)
    ensures
        match first_with_id(documents@, id@) {
            Some(i) => document_loads_as(documents@[i], r),
            None => r matches Err(PolicyError::NotFound { id: x }) && x@ == id@,
        },
{
    proof {
        lemma_first_with_id(documents@, id@);
    }
    let mut i: usize = 0;
    while i < documents.len()
        invariant
            i <= documents@.len(),
            forall|j: int| 0 <= j < i ==> !declares_id(#[trigger] documents@[j], id@),
        decreases documents@.len() - i,
    {
        let found = match &documents[i].content {
            Ok(text) => match &text.parsed {
                Ok(p) => crate::text::same_text(p.policy_id.as_str(), id),
                Err(_) => false,
            },
            Err(_) => false,
        };
        if found {
            assert(declares_id(documents@[i as int], id@));
            proof {
                lemma_first_with_id(documents@, id@);
                let k = first_with_id(documents@, id@)->Some_0;
                assert(k == i);
            }
            let mut documents = documents;
            let doc = documents.remove(i);
            return load_document(doc);
        }
        i = i + 1;
    }
    Err(PolicyError::NotFound { id: owned(id) })
}

} // verus!
