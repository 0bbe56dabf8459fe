//! The policy decision adapter: what is asked of the policy engine for a
//! piece of evidence, and what its reply means.
//!
//! The engine itself is called by the caller. This module builds the three
//! strings of the call and reads the decision out of the string that comes back.

use crate::canonical::base64_text;
use crate::evidence::{CsvEvidence, SgxEvidence};
use crate::json::{
    all_plain, insert_number, insert_text, json_members, json_object_text, member, member_of,
    new_object, no_fields, object_fields, object_text, parse_value, JsonMember, JsonMemberView,
    Scalar,
};
use vstd::prelude::*;

verus! {

/// The policy that judges SGX evidence.
pub const SGX_POLICY: &'static str = "sgxPolicy.rego";

/// The dataset that the SGX policy reads.
pub const SGX_DATASET: &'static str = "sgxData";

/// The policy that judges CSV evidence.
pub const CSV_POLICY: &'static str = "csvPolicy.rego";

/// The dataset that the CSV policy reads.
pub const CSV_DATASET: &'static str = "csvData";

/// Member of the SGX input document: the measurement of the enclave.
pub const KEY_MR_ENCLAVE: &'static str = "mrEnclave";

/// Member of the SGX input document: the measurement of the enclave's signer.
pub const KEY_MR_SIGNER: &'static str = "mrSigner";

/// Member of the SGX input document: the product identifier.
pub const KEY_PRODUCT_ID: &'static str = "productId";

/// Member of the SGX input document: the security version.
pub const KEY_SVN: &'static str = "svn";

/// Member of the CSV input document: the measurement of the guest.
pub const KEY_MEASURE: &'static str = "measure";

/// Member of the decision document: the decision itself, a boolean.
pub const KEY_ALLOW: &'static str = "allow";

/// Member of the decision document: the engine's explanation, a string.
pub const KEY_PARSE_INFO: &'static str = "parseInfo";

/// The input document of a policy: the fields of the evidence in their
/// canonical form, measurements as base64 text and integers as they are.
#[derive(Clone, Debug, PartialEq, Eq)]
pub enum PolicyInput {
    Sgx { mr_enclave: String, mr_signer: String, product_id: u32, svn: u32 },
    Csv { measure: String },
}

/// A `PolicyInput` with its strings as sequences of characters.
pub enum PolicyInputView {
    Sgx { mr_enclave: Seq<char>, mr_signer: Seq<char>, product_id: u32, svn: u32 },
    Csv { measure: Seq<char> },
}

impl View for PolicyInput {
    type V = PolicyInputView;

    open spec fn view(&self) -> PolicyInputView {
        match *self {
            PolicyInput::Sgx { mr_enclave, mr_signer, product_id, svn } => PolicyInputView::Sgx {
                mr_enclave: mr_enclave@,
                mr_signer: mr_signer@,
                product_id,
                svn,
            },
            PolicyInput::Csv { measure } => PolicyInputView::Csv { measure: measure@ },
        }
    }
}

/// The input document for SGX evidence.
pub open spec fn input_for_sgx(ev: SgxEvidence) -> PolicyInputView {
    PolicyInputView::Sgx {
        mr_enclave: base64_text(ev.mr_enclave@),
        mr_signer: base64_text(ev.mr_signer@),
        product_id: ev.product_id,
        svn: ev.security_version,
    }
}

/// The input document for CSV evidence.
pub open spec fn input_for_csv(ev: CsvEvidence) -> PolicyInputView {
    PolicyInputView::Csv { measure: base64_text(ev.measure@) }
}

impl PolicyInputView {
    /// The members of the JSON object that carries the document to the engine.
    pub open spec fn fields(self) -> Map<Seq<char>, Scalar> {
        match self {
            PolicyInputView::Sgx { mr_enclave, mr_signer, product_id, svn } => no_fields().insert(
                KEY_MR_ENCLAVE@,
                Scalar::Text(mr_enclave),
            ).insert(KEY_MR_SIGNER@, Scalar::Text(mr_signer)).insert(
                KEY_PRODUCT_ID@,
                Scalar::Number(product_id as nat),
            ).insert(KEY_SVN@, Scalar::Number(svn as nat)),
            PolicyInputView::Csv { measure } => no_fields().insert(
                KEY_MEASURE@,
                Scalar::Text(measure),
            ),
        }
    }

    /// The JSON text that carries the document to the engine.
    pub open spec fn json(self) -> Seq<char> {
        json_object_text(self.fields())
    }
}

/// The SGX document has four members, and each field of the evidence is
/// found under its own key.
pub proof fn lemma_sgx_members(
    mr_enclave: Seq<char>,
    mr_signer: Seq<char>,
    product_id: u32,
    svn: u32,
)
    ensures
        ({
            let fields = (PolicyInputView::Sgx { mr_enclave, mr_signer, product_id, svn }).fields();
            &&& fields.dom() =~= set![KEY_MR_ENCLAVE@, KEY_MR_SIGNER@, KEY_PRODUCT_ID@, KEY_SVN@]
            &&& fields[KEY_MR_ENCLAVE@] == Scalar::Text(mr_enclave)
            &&& fields[KEY_MR_SIGNER@] == Scalar::Text(mr_signer)
            &&& fields[KEY_PRODUCT_ID@] == Scalar::Number(product_id as nat)
            &&& fields[KEY_SVN@] == Scalar::Number(svn as nat)
            &&& all_plain(fields)
        }),
{
    reveal_strlit("mrEnclave");
    reveal_strlit("mrSigner");
    reveal_strlit("productId");
    reveal_strlit("svn");
    assert(KEY_MR_ENCLAVE@.len() == 9 && KEY_MR_SIGNER@.len() == 8);
    assert(KEY_PRODUCT_ID@.len() == 9 && KEY_SVN@.len() == 3);
    assert(KEY_MR_ENCLAVE@[0] == 'm' && KEY_PRODUCT_ID@[0] == 'p');
}

/// The CSV document has one member, the measurement under its key.
pub proof fn lemma_csv_members(measure: Seq<char>)
    ensures
        ({
            let fields = (PolicyInputView::Csv { measure }).fields();
            &&& fields.dom() =~= set![KEY_MEASURE@]
            &&& fields[KEY_MEASURE@] == Scalar::Text(measure)
            &&& all_plain(fields)
        }),
{
}

impl PolicyInput {
    /// Builds the input document for SGX evidence.
    pub fn from_sgx(ev: &SgxEvidence) -> (doc: PolicyInput)
        ensures
            doc@ == input_for_sgx(*ev),
    {
        PolicyInput::Sgx {
            mr_enclave: ev.mr_enclave.to_canonical(),
            mr_signer: ev.mr_signer.to_canonical(),
            product_id: ev.product_id,
            svn: ev.security_version,
        }
    }

    /// Builds the input document for CSV evidence.
    pub fn from_csv(ev: &CsvEvidence) -> (doc: PolicyInput)
        ensures
            doc@ == input_for_csv(*ev),
    {
        PolicyInput::Csv { measure: ev.measure.to_canonical() }
    }

    /// Writes the document as the JSON text that the engine reads.
    pub fn to_json(&self) -> (text: String)
        ensures
            text@ == self@.json(),
    {
        let mut object = new_object();
        match self {
            PolicyInput::Sgx { mr_enclave, mr_signer, product_id, svn } => {
                insert_text(&mut object, KEY_MR_ENCLAVE, mr_enclave.as_str());
                insert_text(&mut object, KEY_MR_SIGNER, mr_signer.as_str());
                insert_number(&mut object, KEY_PRODUCT_ID, *product_id);
                insert_number(&mut object, KEY_SVN, *svn);
            },
            PolicyInput::Csv { measure } => {
                insert_text(&mut object, KEY_MEASURE, measure.as_str());
            },
        }
        assert(object_fields(object) == self@.fields());
        assert(all_plain(object_fields(object)));
        object_text(object)
    }
}

/// One call of the policy engine: the policy, the dataset, and the input document as JSON text.
#[derive(Clone, Debug, PartialEq, Eq)]
pub struct PolicyQuery {
    pub policy_id: String,
    pub dataset_id: String,
    pub input: String,
}

/// A `PolicyQuery` with its strings as sequences of characters.
pub struct PolicyQueryView {
    pub policy_id: Seq<char>,
    pub dataset_id: Seq<char>,
    pub input: Seq<char>,
}

impl View for PolicyQuery {
    type V = PolicyQueryView;

    open spec fn view(&self) -> PolicyQueryView {
        PolicyQueryView {
            policy_id: self.policy_id@,
            dataset_id: self.dataset_id@,
            input: self.input@,
        }
    }
}

/// The call of the engine for SGX evidence.
pub open spec fn query_for_sgx(ev: SgxEvidence) -> PolicyQueryView {
    PolicyQueryView {
        policy_id: SGX_POLICY@,
        dataset_id: SGX_DATASET@,
        input: input_for_sgx(ev).json(),
    }
}

/// The call of the engine for CSV evidence.
pub open spec fn query_for_csv(ev: CsvEvidence) -> PolicyQueryView {
    PolicyQueryView {
        policy_id: CSV_POLICY@,
        dataset_id: CSV_DATASET@,
        input: input_for_csv(ev).json(),
    }
}

impl PolicyQuery {
    /// Builds the call of the engine for SGX evidence.
    pub fn for_sgx(ev: &SgxEvidence) -> (query: PolicyQuery)
        ensures
            query@ == query_for_sgx(*ev),
    {
        PolicyQuery {
            policy_id: SGX_POLICY.to_owned(),
            dataset_id: SGX_DATASET.to_owned(),
            input: PolicyInput::from_sgx(ev).to_json(),
        }
    }

    /// Builds the call of the engine for CSV evidence.
    pub fn for_csv(ev: &CsvEvidence) -> (query: PolicyQuery)
        ensures
            query@ == query_for_csv(*ev),
    {
        PolicyQuery {
            policy_id: CSV_POLICY.to_owned(),
            dataset_id: CSV_DATASET.to_owned(),
            input: PolicyInput::from_csv(ev).to_json(),
        }
    }
}

/// What the engine decided, and its explanation if it gave one.
#[derive(Clone, Debug, PartialEq, Eq)]
pub struct Decision {
    pub allow: bool,
    pub parse_info: Option<String>,
}

/// A `Decision` with its string as a sequence of characters.
pub struct DecisionView {
    pub allow: bool,
    pub parse_info: Option<Seq<char>>,
}

impl View for Decision {
    type V = DecisionView;

    open spec fn view(&self) -> DecisionView {
        DecisionView {
            allow: self.allow,
            parse_info: match self.parse_info {
                Some(s) => Some(s@),
                None => None,
            },
        }
    }
}

/// Why the adapter has no decision.
#[derive(Clone, Debug, PartialEq, Eq)]
pub enum AdapterError {
    /// The call of the engine failed; the message is the engine's.
    Engine(String),
    /// The reply of the engine is not JSON.
    MalformedResponse,
    /// The reply holds no boolean under `allow`.
    MissingAllow,
}

/// An `AdapterError` with its string as a sequence of characters.
pub enum AdapterErrorView {
    Engine(Seq<char>),
    MalformedResponse,
    MissingAllow,
}

impl View for AdapterError {
    type V = AdapterErrorView;

    open spec fn view(&self) -> AdapterErrorView {
        match *self {
            AdapterError::Engine(message) => AdapterErrorView::Engine(message@),
            AdapterError::MalformedResponse => AdapterErrorView::MalformedResponse,
            AdapterError::MissingAllow => AdapterErrorView::MissingAllow,
        }
    }
}

/// What the adapter returns, as seen in contracts.
pub type Outcome = Result<DecisionView, AdapterErrorView>;

/// The view of what the adapter returns.
pub open spec fn outcome_view(r: Result<Decision, AdapterError>) -> Outcome {
    match r {
        Ok(decision) => Ok(decision@),
        Err(error) => Err(error@),
    }
}

/// The view of what the engine returned: its reply, or the message of its failure.
pub open spec fn reply_view(reply: Result<String, String>) -> Result<Seq<char>, Seq<char>> {
    match reply {
        Ok(text) => Ok(text@),
        Err(message) => Err(message@),
    }
}

/// The decision that the members `allow` and `parseInfo` of a reply stand
/// for. Only a boolean under `allow` is a decision; the explanation is kept
/// where it is a string.
pub open spec fn decision_of(allow: JsonMemberView, parse_info: JsonMemberView) -> Outcome {
    match allow {
        JsonMemberView::Bool(b) => Ok(
            DecisionView {
                allow: b,
                parse_info: match parse_info {
                    JsonMemberView::Text(s) => Some(s),
                    _ => None,
                },
            },
        ),
        _ => Err(AdapterErrorView::MissingAllow),
    }
}

/// The decision that a reply of the engine stands for.
pub open spec fn decision_in(text: Seq<char>) -> Outcome {
    match json_members(text) {
        Some(members) => decision_of(
            member_of(members, KEY_ALLOW@),
            member_of(members, KEY_PARSE_INFO@),
        ),
        None => Err(AdapterErrorView::MalformedResponse),
    }
}

/// The decision that the result of calling the engine stands for.
pub open spec fn decision_for(reply: Result<Seq<char>, Seq<char>>) -> Outcome {
    match reply {
        Ok(text) => decision_in(text),
        Err(message) => Err(AdapterErrorView::Engine(message)),
    }
}

impl Decision {
    /// Reads a decision from the members `allow` and `parseInfo` of a reply.
    pub fn from_members(allow: JsonMember, parse_info: JsonMember) -> (r: Result<
        Decision,
        AdapterError,
    >)
        ensures
            outcome_view(r) == decision_of(allow@, parse_info@),
    {
        match allow {
            JsonMember::Bool(b) => {
                let parse_info = match parse_info {
                    JsonMember::Text(s) => Some(s),
                    _ => None,
                };
                Ok(Decision { allow: b, parse_info })
            },
            _ => Err(AdapterError::MissingAllow),
        }
    }

    /// Reads a decision from a reply of the engine.
    pub fn parse(text: &str) -> (r: Result<Decision, AdapterError>)
        ensures
            outcome_view(r) == decision_in(text@),
    {
        match parse_value(text) {
            Ok(value) => {
                let allow = member(&value, KEY_ALLOW);
                let parse_info = member(&value, KEY_PARSE_INFO);
                Decision::from_members(allow, parse_info)
            },
            Err(_) => Err(AdapterError::MalformedResponse),
        }
    }
}

/// Turns the result of calling the engine into a decision. A failed call, a
/// reply that is not JSON and a reply without a boolean `allow` are errors,
/// never decisions.
pub fn decide(reply: Result<String, String>) -> (r: Result<Decision, AdapterError>)
    ensures
        outcome_view(r) == decision_for(reply_view(reply)),
{
    match reply {
        Ok(text) => Decision::parse(text.as_str()),
        Err(message) => Err(AdapterError::Engine(message)),
    }
}

} // verus!
