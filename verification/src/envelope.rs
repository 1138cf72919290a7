use vstd::prelude::*;
use vstd::string::*;

verus! {

/// The status classes a reply can carry.
#[derive(Clone, Copy, Debug, PartialEq, Eq, Structural)]
pub enum Status {
    Success,
    Created,
    BadRequest,
    Unauthorized,
    NotFound,
    InternalServerError,
}

impl Status {
    /// The numeric code of a status.
    pub open spec fn code_spec(self) -> int {
        match self {
            Status::Success => 200,
            Status::Created => 201,
            Status::BadRequest => 400,
            Status::Unauthorized => 401,
            Status::NotFound => 404,
            Status::InternalServerError => 500,
        }
    }

    /// A status of the server-error class tells the caller that the fault is not theirs.
    pub open spec fn is_server_error(self) -> bool {
        500 <= self.code_spec() < 600
    }

    /// The numeric code of the status.
    pub fn code(self) -> (c: u16)
        ensures
            c == self.code_spec(),
    {
        match self {
            Status::Success => 200,
            Status::Created => 201,
            Status::BadRequest => 400,
            Status::Unauthorized => 401,
            Status::NotFound => 404,
            Status::InternalServerError => 500,
        }
    }
}

/// The text of an envelope around an already encoded payload.
pub open spec fn wrap_spec(s: Seq<char>) -> Seq<char> {
    "{\"data\": "@ + s + "}"@
}

/// Frames an encoded payload as the `data` member of a JSON object.
pub fn wrap(s: String) -> (framed: String)
    ensures
        framed@ == wrap_spec(s@),
{
    let framed = String::from_str("{\"data\": ");
    let framed = framed.concat(s.as_str());
    framed.concat("}")
}

/// The JSON string literal that `serde_json` writes for a text: the text between double
/// quotes, with quotes, backslashes and control characters escaped.
pub uninterp spec fn json_string(text: Seq<char>) -> Seq<char>;

#[verifier::external_type_specification]
#[verifier::external_body]
pub struct ExJsonError(serde_json::Error);

/// `serde_json::to_string` on a string slice. Its documentation names two causes of
/// failure, a `Serialize` impl that fails and a map with keys that are not strings;
/// a string slice has neither, so the call succeeds, and the result is the JSON string
/// literal for the text.
#[verifier::external_body]
fn encode_text(text: &str) -> (r: Result<String, serde_json::Error>)
    ensures
        r is Ok,
        r matches Ok(t) ==> t@ == json_string(text@),
{
    serde_json::to_string(text)
}

/// The `Display` text of a `serde_json::Error`. Nothing is claimed about it.
#[verifier::external_body]
fn describe(e: &serde_json::Error) -> (text: String)
{
    e.to_string()
}

/// What encoding a payload gave: the JSON text, or the reason there is none.
pub open spec fn encoding_view(data: Result<String, String>) -> Result<Seq<char>, Seq<char>> {
    match data {
        Ok(json) => Ok(json@),
        Err(reason) => Err(reason@),
    }
}

/// The payload sent in place of one that could not be encoded.
pub open spec fn failure_text(reason: Seq<char>) -> Seq<char> {
    "Failed to serialize object to json "@ + reason
}

/// The body that goes out for an encoding outcome: the payload in the envelope, or in
/// its place the text that says why there is none.
pub open spec fn rendered_body(data: Result<Seq<char>, Seq<char>>) -> Seq<char> {
    match data {
        Ok(json) => wrap_spec(json),
        Err(reason) => wrap_spec(json_string(failure_text(reason))),
    }
}

/// The status that goes out for an encoding outcome: the one asked for, unless the payload
/// could not be encoded.
pub open spec fn rendered_status(data: Result<Seq<char>, Seq<char>>, status: Status) -> Status {
    match data {
        Ok(_) => status,
        Err(_) => Status::InternalServerError,
    }
}

/// The text that reports an error of the store.
pub open spec fn query_failure(detail: Seq<char>) -> Seq<char> {
    "Failed to query the server due to error "@ + detail
}

/// A reply as it leaves: a body and a status.
#[derive(Debug)]
pub struct Response {
    body: String,
    status: Status,
}

impl Response {
    /// The body of the reply.
    pub closed spec fn body_spec(&self) -> Seq<char> {
        self.body@
    }

    /// The status of the reply.
    pub closed spec fn status_spec(&self) -> Status {
        self.status
    }

    /// Whether this is the reply with the given text as its payload.
    pub open spec fn is_text(&self, message: Seq<char>, status: Status) -> bool {
        &&& self.body_spec() == wrap_spec(json_string(message))
        &&& self.status_spec() == status
    }

    /// The body of the reply.
    pub fn body(&self) -> (b: &String)
        ensures
            b@ == self.body_spec(),
    {
        &self.body
    }

    /// The status of the reply.
    pub fn status(&self) -> (s: Status)
        ensures
            s == self.status_spec(),
    {
        self.status
    }

    /// The reply that carries a text.
    pub fn text(message: &str, status: Status) -> (r: Response)
        ensures
            r.is_text(message@, status),
    {
        ResponseBuilder::text(message, status).build()
    }

    /// The reply that reports a fault of the server: a text made of what was being done
    /// and of what went wrong.
    pub fn failure(context: &str, detail: &str) -> (r: Response)
        ensures
            r.is_text(context@ + detail@, Status::InternalServerError),
    {
        let message = String::from_str(context).concat(detail);
        Response::text(message.as_str(), Status::InternalServerError)
    }

    /// The reply that reports an error of the store.
    pub fn store_failure(detail: &str) -> (r: Response)
        ensures
            r.is_text(query_failure(detail@), Status::InternalServerError),
    {
        Response::failure("Failed to query the server due to error ", detail)
    }

    /// The reply that carries data with the success status, given what encoding the data
    /// gave.
    pub fn data(encoded: Result<String, String>) -> (r: Response)
        ensures
            r.body_spec() == rendered_body(encoding_view(encoded)),
            r.status_spec() == rendered_status(encoding_view(encoded), Status::Success),
    {
        ResponseBuilder { data: encoded, status: Status::Success }.build()
    }

    /// The reply that tells a monitor that the service is up.
    pub fn health() -> (r: Response)
        ensures
            r.is_text("Online"@, Status::Success),
    {
        Response::text("Online", Status::Success)
    }
}

/// A status together with what encoding the payload gave.
pub struct ResponseBuilder {
    pub data: Result<String, String>,
    pub status: Status,
}

impl ResponseBuilder {
    /// A builder for a text payload, encoded as a JSON string.
    pub fn text(message: &str, status: Status) -> (b: ResponseBuilder)
        ensures
            encoding_view(b.data) == Ok::<Seq<char>, Seq<char>>(json_string(message@)),
            b.status == status,
    {
        let data = match encode_text(message) {
            Ok(json) => Ok(json),
            Err(e) => Err(describe(&e)),
        };
        ResponseBuilder { data, status }
    }

    /// Wraps the payload in the envelope. A payload that could not be encoded never
    /// fails the reply: it goes out as a server error that says why.
    pub fn build(self) -> (r: Response)
        ensures
            r.body_spec() == rendered_body(encoding_view(self.data)),
            r.status_spec() == rendered_status(encoding_view(self.data), self.status),
            self.data is Err ==> r.status_spec().is_server_error(),
    {
        match self.data {
            Ok(json) => Response { body: wrap(json), status: self.status },
            Err(reason) => {
                let message = String::from_str("Failed to serialize object to json ").concat(
                    reason.as_str(),
                );
                let json = match encode_text(message.as_str()) {
                    Ok(json) => json,
                    Err(_) => String::new(),
                };
                Response { body: wrap(json), status: Status::InternalServerError }
            },
        }
    }
}

impl Default for ResponseBuilder {
    /// The builder for the empty text with the success status.
    fn default() -> (b: ResponseBuilder)
        ensures
            encoding_view(b.data) == Ok::<Seq<char>, Seq<char>>(json_string(Seq::<char>::empty())),
            b.status == Status::Success,
    {
        proof {
            reveal_strlit("");
        }
        let b = ResponseBuilder::text("", Status::Success);
        assert(""@ =~= Seq::<char>::empty());
        b
    }
}

} // verus!
