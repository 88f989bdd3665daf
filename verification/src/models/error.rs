//! Errors of the service clients and of the Kafka helpers.

use vstd::prelude::*;
use vstd::string::*;

verus! {

/// The platform's classification of a failed call.
#[derive(Debug, Clone, Copy, PartialEq, Eq, Structural)]
pub enum MykoboStatusCode {
    NotFound,
    BadRequest,
    Unauthorised,
    DependencyFailed,
    InternalServerError,
    Conflict,
}

/// The classification of an HTTP status code: the five codes the platform
/// tells apart, and `DependencyFailed` for every other code.
pub open spec fn status_class(code: u16) -> MykoboStatusCode {
    if code == 404 {
        MykoboStatusCode::NotFound
    } else if code == 400 {
        MykoboStatusCode::BadRequest
    } else if code == 401 {
        MykoboStatusCode::Unauthorised
    } else if code == 500 {
        MykoboStatusCode::InternalServerError
    } else if code == 409 {
        MykoboStatusCode::Conflict
    } else {
        MykoboStatusCode::DependencyFailed
    }
}

impl MykoboStatusCode {
    /// Classifies an HTTP status code.
    pub fn from_status_code(code: u16) -> (r: MykoboStatusCode)
        ensures
            r == status_class(code),
    {
        if code == 404 {
            MykoboStatusCode::NotFound
        } else if code == 400 {
            MykoboStatusCode::BadRequest
        } else if code == 401 {
            MykoboStatusCode::Unauthorised
        } else if code == 500 {
            MykoboStatusCode::InternalServerError
        } else if code == 409 {
            MykoboStatusCode::Conflict
        } else {
            MykoboStatusCode::DependencyFailed
        }
    }
}

impl Default for MykoboStatusCode {
    /// A failed dependency, when nothing more is known.
    fn default() -> (r: MykoboStatusCode)
        ensures
            r == MykoboStatusCode::DependencyFailed,
    {
        MykoboStatusCode::DependencyFailed
    }
}

/// What a failed transport call reports: whether connecting or waiting
/// failed, whether the request could not be built or sent, the error's
/// text, and the HTTP status when one came back.
#[derive(Debug, Clone)]
pub struct TransportError {
    pub connect: bool,
    pub timeout: bool,
    pub request: bool,
    pub text: String,
    pub status: Option<u16>,
}

/// The error of a call to one of the platform's services.
#[derive(Debug)]
pub struct ServiceError {
    pub error: Option<String>,
    pub message: Option<String>,
    pub description: Option<String>,
    pub status: MykoboStatusCode,
}

/// The message a transport failure is reported with.
pub open spec fn transport_message(e: TransportError) -> Seq<char> {
    if e.connect || e.timeout {
        "Connection error"@
    } else if e.request {
        "Bad Request"@
    } else {
        e.text@
    }
}

/// The text of an optional string.
pub open spec fn opt_view(s: Option<String>) -> Option<Seq<char>> {
    match s {
        Some(t) => Some(t@),
        None => None,
    }
}

impl ServiceError {
    /// What the error displays as: its `error` text, or a fixed text when
    /// there is none.
    pub open spec fn spec_display(&self) -> Seq<char> {
        match self.error {
            Some(e) => e@,
            None => "Unknown error - U"@,
        }
    }

    /// The error's display text.
    pub fn to_message(&self) -> (r: String)
        ensures
            r@ == self.spec_display(),
    {
        match &self.error {
            Some(e) => e.clone(),
            None => "Unknown error - U".to_owned(),
        }
    }

    /// The error for a failed transport call: a connection failure or a
    /// timeout reads `Connection error`, a request that could not be sent
    /// `Bad Request`, anything else the transport's own text; the status is
    /// the classification of the returned status, or of 400 when none came.
    pub fn from_transport(e: TransportError) -> (r: ServiceError)
        ensures
            opt_view(r.error) == Some(transport_message(e)),
            opt_view(r.message) == Some(transport_message(e)),
            r.description is None,
            r.status == status_class(
                match e.status {
                    Some(c) => c,
                    None => 400,
                },
            ),
    {
        let text = if e.connect || e.timeout {
            "Connection error".to_owned()
        } else if e.request {
            "Bad Request".to_owned()
        } else {
            e.text
        };
        let code = match e.status {
            Some(c) => c,
            None => 400,
        };
        ServiceError {
            error: Some(text.clone()),
            message: Some(text),
            description: None,
            status: MykoboStatusCode::from_status_code(code),
        }
    }

    /// The error a service answered with, classified by the HTTP status of
    /// the answer.
    pub fn with_status(self, code: u16) -> (r: ServiceError)
        ensures
            r.error == self.error,
            r.message == self.message,
            r.description == self.description,
            r.status == status_class(code),
    {
        ServiceError {
            error: self.error,
            message: self.message,
            description: self.description,
            status: MykoboStatusCode::from_status_code(code),
        }
    }

    /// The error for a token whose claims could not be read; `detail` is
    /// the decoder's message.
    pub fn token_claim_error(detail: &str) -> (r: ServiceError)
        ensures
            opt_view(r.error) == Some("Could not extract token claim "@ + detail@),
            r.message is None,
            r.description is None,
            r.status == MykoboStatusCode::DependencyFailed,
    {
        let mut m = "Could not extract token claim ".to_owned();
        m.append(detail);
        ServiceError {
            error: Some(m),
            message: None,
            description: None,
            status: MykoboStatusCode::default(),
        }
    }
}

/// Errors of the Kafka helpers.
#[derive(Debug)]
pub enum KafkaError {
    ClientCreation(String),
    MessageSend(String),
    MessageDelivery(String),
    Deserialization(String),
    Timeout(String),
}

impl KafkaError {
    /// What the error displays as.
    pub open spec fn spec_display(&self) -> Seq<char> {
        match self {
            KafkaError::ClientCreation(m) => "Failed to create Kafka client: "@ + m@,
            KafkaError::MessageSend(m) => "Failed to send message: "@ + m@,
            KafkaError::MessageDelivery(m) => "Message delivery failed: "@ + m@,
            KafkaError::Deserialization(m) => "Failed to deserialize message: "@ + m@,
            KafkaError::Timeout(m) => "Connection timeout: "@ + m@,
        }
    }

    /// The error's display text.
    pub fn to_message(&self) -> (r: String)
        ensures
            r@ == self.spec_display(),
    {
        let (prefix, m) = match self {
            KafkaError::ClientCreation(m) => ("Failed to create Kafka client: ", m),
            KafkaError::MessageSend(m) => ("Failed to send message: ", m),
            KafkaError::MessageDelivery(m) => ("Message delivery failed: ", m),
            KafkaError::Deserialization(m) => ("Failed to deserialize message: ", m),
            KafkaError::Timeout(m) => ("Connection timeout: ", m),
        };
        let mut r = prefix.to_owned();
        r.append(m.as_str());
        r
    }
}

} // verus!
