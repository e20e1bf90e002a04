//! Parameters sent to the deploy and evaluate collaborators.

use crate::dto::InputNodeDto;
use crate::model::opt_str_view;
use crate::utils::spec_file_name;
use vstd::prelude::*;

verus! {

/// Parameters for deploying the definitions of one model file.
pub struct DeployParams {
    /// The URI of the deployed model.
    pub source: Option<String>,
    /// The content of the model file, in its transport encoding.
    pub content: Option<String>,
    /// Unique tag associated with the deployed model.
    pub tag: Option<String>,
}

/// Parameters for evaluating one decision artifact.
pub struct EvaluateParams {
    /// Tag of the model in which the artifact is searched.
    pub tag: Option<String>,
    /// Type of the decision artifact to be evaluated.
    pub artifact: String,
    /// Name of the artifact to be evaluated.
    pub name: String,
    /// Input values, in wire form.
    pub input: Vec<InputNodeDto>,
}


/// The transport encoding of a model file's content. The outside encoder
/// computes it from the characters alone.
pub uninterp spec fn base64_of(s: Seq<char>) -> Seq<char>;

/// Relies on base64's standard-alphabet engine: the encoding is a
/// function of the input alone, and empty input encodes to the empty
/// string.
#[verifier::external_body]
fn encode_base64(content: &str) -> (r: String)
    ensures
        r@ == base64_of(content@),
        content@.len() == 0 ==> r@.len() == 0,
{
    base64::Engine::encode(&base64::engine::general_purpose::STANDARD, content)
}

impl DeployParams {
    /// Builds the parameters for deploying one model file: its source
    /// URI, its content in the transport encoding, and its tag.
    pub fn new(source: String, content: &str, tag: String) -> (r: DeployParams)
        ensures
            r.source == Some(source),
            r.content matches Some(c) && c@ == base64_of(content@),
            r.tag == Some(tag),
    {
        DeployParams {
            source: Some(source),
            content: Some(encode_base64(content)),
            tag: Some(tag),
        }
    }
}


/// The `file` URI on authority `localhost` for a path, when the path is
/// acceptable to the URI builder. The outside builder computes it from
/// the path alone.
pub uninterp spec fn file_uri_of(path: Seq<char>) -> Option<Seq<char>>;

/// Relies on http's URI builder: a `file` URI on authority `localhost`
/// is built from the path alone, and the same path always gives the
/// same outcome.
#[verifier::external_body]
fn build_file_uri(path: &str) -> (r: Option<String>)
    ensures
        match r {
            Some(u) => file_uri_of(path@) == Some(u@),
            None => file_uri_of(path@) == None::<Seq<char>>,
        },
{
    http::uri::Uri::builder()
        .scheme("file")
        .authority("localhost")
        .path_and_query(path)
        .build()
        .ok()
        .map(|u| u.to_string())
}

impl DeployParams {
    /// Builds the parameters for deploying the model file at `path` with
    /// content `content`: the file's URI as the source, the content in
    /// the transport encoding, and the file's name as the tag. Nothing
    /// is built when the path does not form a URI.
    pub fn for_file(path: &str, content: &str) -> (r: Option<DeployParams>)
        ensures
            match r {
                Some(p) => opt_str_view(p.source) == file_uri_of(path@) && (p.content matches Some(
                    c,
                ) && c@ == base64_of(content@)) && opt_str_view(p.tag) == Some(
                    spec_file_name(path@),
                ) && (file_uri_of(path@) matches Some(_)),
                None => file_uri_of(path@) matches None,
            },
    {
        match build_file_uri(path) {
            Some(source) => Some(DeployParams::new(source, content, crate::utils::file_name(path))),
            None => None,
        }
    }
}

} // verus!
