//! What is sent to submit a job, and where the job's events are read.

use crate::error::{ClientError, DecodeError};
use crate::json::{
    member_of, parsed_document, rendered_document, write_document, Json, JsonView, Member,
    MemberView,
};
use crate::text::join;
use crate::token::CorrelationToken;
use vstd::prelude::*;

verus! {

/// `url::ParseError`, with which the `url` crate refuses a text. Nothing is
/// known of what one holds.
#[verifier::external_type_specification]
#[verifier::external_body]
pub struct ExUrlParseError(url::ParseError);

/// The service's address where none is configured.
pub const DEFAULT_HOST: &'static str = "127.0.0.1:8188";

/// The normal form in which the `url` crate writes the absolute URL that it
/// reads from `text`, or `None` where it reads none.
pub uninterp spec fn url_normal_form(text: Seq<char>) -> Option<Seq<char>>;

/// Calls `Url::parse` of the `url` crate and takes the parsed URL's
/// serialization as a string. The contract claims only that the outcome is a
/// function of the text: [`url_normal_form`] is the name of that function.
#[verifier::external_body]
fn normalise_url(text: &str) -> (result: Result<String, url::ParseError>)
    ensures
        result matches Ok(url) ==> url_normal_form(text@) == Some(url@),
        result is Err ==> url_normal_form(text@) is None,
{
    url::Url::parse(text).map(String::from)
}

/// The envelope in which a job travels: the payload as `prompt`, the token as
/// `client_id`.
pub open spec fn envelope_spec(payload: JsonView, token: Seq<char>) -> JsonView {
    JsonView::Object(
        seq![
            MemberView { name: "prompt"@, value: payload },
            MemberView { name: "client_id"@, value: JsonView::Text(token) },
        ],
    )
}

/// Where jobs are posted on `host`.
pub open spec fn submit_address_spec(host: Seq<char>) -> Seq<char> {
    "http://"@ + host + "/prompt"@
}

/// Where the events for `token` are read on `host`, before normalisation.
pub open spec fn stream_address_spec(host: Seq<char>, token: Seq<char>) -> Seq<char> {
    "ws://"@ + host + "/ws?clientId="@ + token
}

/// Wraps a job payload and a token in the envelope that the service expects.
pub fn envelope(payload: Json, token: &CorrelationToken) -> (doc: Json)
    ensures
        doc@ == envelope_spec(payload@, token@),
{
    let ghost payload_view = payload@;
    let mut members: Vec<Member> = Vec::new();
    members.push(Member { name: "prompt".to_owned(), value: payload });
    members.push(
        Member { name: "client_id".to_owned(), value: Json::Text(token.as_str().to_owned()) },
    );
    let doc = Json::Object(members);
    proof {
        let made = doc@->Object_0;
        let wanted = envelope_spec(payload_view, token@)->Object_0;
        assert(made.len() == 2);
        assert(made[0] == wanted[0]);
        assert(members@[1].value@ == JsonView::Text(token@));
        assert(made[1] == wanted[1]);
        assert(made =~= wanted);
    }
    doc
}

/// The address to which jobs for `host` are posted.
pub fn submit_address(host: &str) -> (address: String)
    ensures
        address@ == submit_address_spec(host@),
{
    let head = join("http://", host);
    join(head.as_str(), "/prompt")
}

/// The address of the event stream for `token` on `host`, in the normal form
/// of URLs. There is none where host and token do not make up a URL.
pub fn stream_address(host: &str, token: &CorrelationToken) -> (result: Result<
    String,
    ClientError,
>)
    ensures
        match result {
            Ok(address) => url_normal_form(stream_address_spec(host@, token@)) == Some(address@),
            Err(error) => error == ClientError::Connection && url_normal_form(
                stream_address_spec(host@, token@),
            ) is None,
        },
{
    let head = join("ws://", host);
    let path = join(head.as_str(), "/ws?clientId=");
    let text = join(path.as_str(), token.as_str());
    match normalise_url(text.as_str()) {
        Ok(address) => Ok(address),
        Err(_) => Err(ClientError::Connection),
    }
}

/// Reads a job payload from the text of a job description.
pub fn read_payload(contents: &str) -> (result: Result<Json, ClientError>)
    ensures
        match result {
            Ok(payload) => parsed_document(contents@) == Some(payload@),
            Err(error) => error == ClientError::Decode(DecodeError::InvalidDocument)
                && parsed_document(contents@) is None,
        },
{
    match Json::parse(contents) {
        Ok(payload) => Ok(payload),
        Err(error) => Err(ClientError::Decode(error)),
    }
}

/// All that is needed to submit one job and to follow it.
#[derive(Clone, Debug, PartialEq, Eq)]
pub struct Submission {
    /// Where the job is posted.
    pub endpoint: String,
    /// The body of the post: the envelope as JSON text.
    pub body: String,
    /// Where the job's events are read.
    pub stream: String,
}

/// The mathematical value of a [`Submission`].
pub struct SubmissionView {
    pub endpoint: Seq<char>,
    pub body: Seq<char>,
    pub stream: Seq<char>,
}

impl View for Submission {
    type V = SubmissionView;

    open spec fn view(&self) -> SubmissionView {
        SubmissionView { endpoint: self.endpoint@, body: self.body@, stream: self.stream@ }
    }
}

/// The submission for a payload, given what the JSON writer makes of the
/// envelope and what the URL parser makes of the stream address. An envelope
/// that cannot be written is an encoding error; after that, an address that
/// is no URL is a connection error.
pub open spec fn submission_of(
    host: Seq<char>,
    body: Option<Seq<char>>,
    stream: Option<Seq<char>>,
) -> Result<SubmissionView, ClientError> {
    match body {
        None => Err(ClientError::Encoding),
        Some(body) => match stream {
            None => Err(ClientError::Connection),
            Some(stream) => Ok(
                SubmissionView { endpoint: submit_address_spec(host), body, stream },
            ),
        },
    }
}

/// The mathematical value of a text that may be absent.
pub open spec fn text_view(text: Option<String>) -> Option<Seq<char>> {
    match text {
        Some(inner) => Some(inner@),
        None => None,
    }
}

/// The mathematical value of the outcome of preparing a submission.
pub open spec fn prepared_view(result: Result<Submission, ClientError>) -> Result<
    SubmissionView,
    ClientError,
> {
    match result {
        Ok(submission) => Ok(submission@),
        Err(error) => Err(error),
    }
}

impl Submission {
    /// Puts a submission together from what the JSON writer made of the
    /// envelope and what the URL parser made of the stream address.
    pub fn assemble(host: &str, body: Option<String>, stream: Option<String>) -> (result: Result<
        Submission,
        ClientError,
    >)
        ensures
            prepared_view(result) == submission_of(host@, text_view(body), text_view(stream)),
    {
        match body {
            None => Err(ClientError::Encoding),
            Some(body) => match stream {
                None => Err(ClientError::Connection),
                Some(stream) => Ok(Submission { endpoint: submit_address(host), body, stream }),
            },
        }
    }

    /// Prepares the submission of `payload` to `host` under `token`: the
    /// body holds the envelope with that token, and the stream address asks
    /// for the events of that same token.
    pub fn prepare(payload: Json, host: &str, token: CorrelationToken) -> (result: Result<
        Submission,
        ClientError,
    >)
        ensures
            prepared_view(result) == submission_of(
                host@,
                rendered_document(envelope_spec(payload@, token@)),
                url_normal_form(stream_address_spec(host@, token@)),
            ),
    {
        let doc = envelope(payload, &token);
        let body = write_document(&doc);
        let stream = match stream_address(host, &token) {
            Ok(address) => Some(address),
            Err(_) => None,
        };
        Submission::assemble(host, body, stream)
    }
}

/// The token in the envelope is the token named in the stream address: the
/// envelope's `client_id` is the token as a string, its `prompt` is the
/// payload untouched, and the stream address ends with the token.
pub proof fn lemma_envelope_and_stream_share_token(
    payload: JsonView,
    host: Seq<char>,
    token: Seq<char>,
)
    ensures
        envelope_spec(payload, token).get("client_id"@) == Some(JsonView::Text(token)),
        envelope_spec(payload, token).get("prompt"@) == Some(payload),
        stream_address_spec(host, token).len() >= token.len(),
        stream_address_spec(host, token).skip(
            stream_address_spec(host, token).len() - token.len(),
        ) == token,
{
    reveal_strlit("prompt");
    reveal_strlit("client_id");
    let members = envelope_spec(payload, token)->Object_0;
    assert(members.last().name == "client_id"@);
    assert("prompt"@.len() != "client_id"@.len());
    assert(members.drop_last().last().name == "prompt"@);
    assert(member_of(members.drop_last(), "prompt"@) == Some(payload));
    let address = stream_address_spec(host, token);
    assert(address.skip(address.len() - token.len()) =~= token);
}

} // verus!
