//! Per-operation response classification for the voice endpoints.
//!
//! Each remote operation owns a closed set of error variants, one per
//! meaningful HTTP status code, plus one variant for transport failures.
//! The classifiers are pure: the resulting variant depends only on the
//! status code (and, for statuses that carry contextual data, on that
//! data), which is stated by the spec functions below.
use vstd::prelude::*;
use vstd::string::*;

verus! {

/// Errors that may be returned when listing voices.
#[derive(Debug)]
pub enum ListVoicesError {
    /// The request specified an Accept header with an incompatible content type.
    NotAcceptable406,
    /// The request specified an unacceptable media type.
    UnsupportedMediaType415,
    /// The service experienced an internal error.
    InternalServerError500,
    /// The service is currently unavailable.
    ServiceUnavailable503,
    /// There was an error making the request.
    ConnectionError(String),
}

/// Errors that may be returned when getting information about a particular voice.
#[derive(Debug)]
pub enum GetVoiceError {
    /// The requested resource has not been modified since the time specified
    /// by the If-Modified-Since header.
    NotModified304,
    /// A required input parameter is null or a specified input parameter or
    /// header value is invalid or not supported.
    BadRequest400,
    /// The specified customisation id is invalid for the requesting
    /// credentials; the offending id is carried as payload.
    Unauthorised401(String),
    /// The request specified an Accept header with an incompatible content type.
    NotAcceptable406,
    /// The request specified an unacceptable media type.
    UnsupportedMediaType415,
    /// The service experienced an internal error.
    InternalServerError500,
    /// The service is currently unavailable.
    ServiceUnavailable503,
    /// There was an error making the request.
    ConnectionError(String),
}

impl ListVoicesError {
    /// The closed status-code mapping for the list-voices operation.
    pub open spec fn spec_classify(status: u16) -> Option<ListVoicesError> {
        if status == 406 {
            Some(ListVoicesError::NotAcceptable406)
        } else if status == 415 {
            Some(ListVoicesError::UnsupportedMediaType415)
        } else if status == 500 {
            Some(ListVoicesError::InternalServerError500)
        } else if status == 503 {
            Some(ListVoicesError::ServiceUnavailable503)
        } else {
            None
        }
    }

    /// Classify an HTTP status code returned by the list-voices operation.
    /// `None` means the status is outside the operation's documented set.
    pub fn classify_status(status: u16) -> (r: Option<ListVoicesError>)
        ensures
            r == Self::spec_classify(status),
    {
        if status == 406 {
            Some(ListVoicesError::NotAcceptable406)
        } else if status == 415 {
            Some(ListVoicesError::UnsupportedMediaType415)
        } else if status == 500 {
            Some(ListVoicesError::InternalServerError500)
        } else if status == 503 {
            Some(ListVoicesError::ServiceUnavailable503)
        } else {
            None
        }
    }

    /// Classify a transport failure: the description of the underlying
    /// error is carried verbatim.
    pub fn classify_transport_failure(description: String) -> (r: ListVoicesError)
        ensures
            r == ListVoicesError::ConnectionError(description),
    {
        ListVoicesError::ConnectionError(description)
    }

    /// The fixed human-readable message of each variant; a transport
    /// failure reports the underlying description itself.
    pub open spec fn spec_message(&self) -> Seq<char> {
        match self {
            ListVoicesError::NotAcceptable406 => "The request specified an Accept header with an incompatible content type."@,
            ListVoicesError::UnsupportedMediaType415 => "The request specified an unacceptable media type."@,
            ListVoicesError::InternalServerError500 => "The service experienced an internal error."@,
            ListVoicesError::ServiceUnavailable503 => "The service is currently unavailable."@,
            ListVoicesError::ConnectionError(description) => description@,
        }
    }

    /// Render the variant's message.
    pub fn message(&self) -> (r: String)
        ensures
            r@ == self.spec_message(),
    {
        match self {
            ListVoicesError::NotAcceptable406 => String::from_str("The request specified an Accept header with an incompatible content type."),
            ListVoicesError::UnsupportedMediaType415 => String::from_str("The request specified an unacceptable media type."),
            ListVoicesError::InternalServerError500 => String::from_str("The service experienced an internal error."),
            ListVoicesError::ServiceUnavailable503 => String::from_str("The service is currently unavailable."),
            ListVoicesError::ConnectionError(description) => description.clone(),
        }
    }

    /// No two distinct mapped statuses classify to the same variant: the
    /// status-code mapping of the list-voices operation is injective.
    pub proof fn lemma_classification_injective(s1: u16, s2: u16)
        requires
            s1 != s2,
            Self::spec_classify(s1) is Some,
            Self::spec_classify(s2) is Some,
        ensures
            Self::spec_classify(s1) != Self::spec_classify(s2),
    {
    }

    /// Classification is a function of the status code alone: two calls on
    /// the same status yield equal values.
    pub proof fn lemma_classification_deterministic(
        status: u16,
        r1: Option<ListVoicesError>,
        r2: Option<ListVoicesError>,
    )
        requires
            r1 == Self::spec_classify(status),
            r2 == Self::spec_classify(status),
        ensures
            r1 == r2,
    {
    }
}

impl GetVoiceError {
    /// The closed status-code mapping for the get-voice operation. The
    /// unauthorized variant carries the customisation id that the request
    /// was made with.
    pub open spec fn spec_classify(status: u16, customisation_id: String) -> Option<GetVoiceError> {
        if status == 304 {
            Some(GetVoiceError::NotModified304)
        } else if status == 400 {
            Some(GetVoiceError::BadRequest400)
        } else if status == 401 {
            Some(GetVoiceError::Unauthorised401(customisation_id))
        } else if status == 406 {
            Some(GetVoiceError::NotAcceptable406)
        } else if status == 415 {
            Some(GetVoiceError::UnsupportedMediaType415)
        } else if status == 500 {
            Some(GetVoiceError::InternalServerError500)
        } else if status == 503 {
            Some(GetVoiceError::ServiceUnavailable503)
        } else {
            None
        }
    }

    /// Classify an HTTP status code returned by the get-voice operation.
    /// `customisation_id` is the id the request was scoped to; it is kept
    /// only by the unauthorized variant. `None` means the status is outside
    /// the operation's documented set.
    pub fn classify_status(status: u16, customisation_id: String) -> (r: Option<GetVoiceError>)
        ensures
            r == Self::spec_classify(status, customisation_id),
    {
        if status == 304 {
            Some(GetVoiceError::NotModified304)
        } else if status == 400 {
            Some(GetVoiceError::BadRequest400)
        } else if status == 401 {
            Some(GetVoiceError::Unauthorised401(customisation_id))
        } else if status == 406 {
            Some(GetVoiceError::NotAcceptable406)
        } else if status == 415 {
            Some(GetVoiceError::UnsupportedMediaType415)
        } else if status == 500 {
            Some(GetVoiceError::InternalServerError500)
        } else if status == 503 {
            Some(GetVoiceError::ServiceUnavailable503)
        } else {
            None
        }
    }

    /// Classify a transport failure: the description of the underlying
    /// error is carried verbatim.
    pub fn classify_transport_failure(description: String) -> (r: GetVoiceError)
        ensures
            r == GetVoiceError::ConnectionError(description),
    {
        GetVoiceError::ConnectionError(description)
    }

    /// The fixed human-readable message of each variant; the unauthorized
    /// message interpolates the offending customisation id, and a transport
    /// failure reports the underlying description itself.
    pub open spec fn spec_message(&self) -> Seq<char> {
        match self {
            GetVoiceError::NotModified304 => "The requested resource has not been modified since the time specified by the If-Modified-Since header, as documented in the HTTP specification"@,
            GetVoiceError::BadRequest400 => "A required input parameter is null or a specified input parameter or header value is invalid or not supported. Please check your customisation id"@,
            GetVoiceError::Unauthorised401(customisation_id) => "The specified customisation_id "@ + customisation_id@
                + " is invalid for the requesting credentials"@,
            GetVoiceError::NotAcceptable406 => "The request specified an Accept header with an incompatible content type."@,
            GetVoiceError::UnsupportedMediaType415 => "The request specified an unacceptable media type."@,
            GetVoiceError::InternalServerError500 => "The service experienced an internal error."@,
            GetVoiceError::ServiceUnavailable503 => "The service is currently unavailable."@,
            GetVoiceError::ConnectionError(description) => description@,
        }
    }

    /// Render the variant's message.
    pub fn message(&self) -> (r: String)
        ensures
            r@ == self.spec_message(),
    {
        match self {
            GetVoiceError::NotModified304 => String::from_str("The requested resource has not been modified since the time specified by the If-Modified-Since header, as documented in the HTTP specification"),
            GetVoiceError::BadRequest400 => String::from_str("A required input parameter is null or a specified input parameter or header value is invalid or not supported. Please check your customisation id"),
            GetVoiceError::Unauthorised401(customisation_id) => String::from_str("The specified customisation_id ")
                .concat(customisation_id.as_str())
                .concat(" is invalid for the requesting credentials"),
            GetVoiceError::NotAcceptable406 => String::from_str("The request specified an Accept header with an incompatible content type."),
            GetVoiceError::UnsupportedMediaType415 => String::from_str("The request specified an unacceptable media type."),
            GetVoiceError::InternalServerError500 => String::from_str("The service experienced an internal error."),
            GetVoiceError::ServiceUnavailable503 => String::from_str("The service is currently unavailable."),
            GetVoiceError::ConnectionError(description) => description.clone(),
        }
    }

    /// No two distinct mapped statuses classify to the same variant,
    /// whatever customisation id the calls were scoped to: the status-code
    /// mapping of the get-voice operation is injective.
    pub proof fn lemma_classification_injective(s1: u16, s2: u16, id1: String, id2: String)
        requires
            s1 != s2,
            Self::spec_classify(s1, id1) is Some,
            Self::spec_classify(s2, id2) is Some,
        ensures
            Self::spec_classify(s1, id1) != Self::spec_classify(s2, id2),
    {
    }

    /// Classification is a function of the status code and the
    /// customisation id alone: two calls on the same inputs yield equal
    /// values.
    pub proof fn lemma_classification_deterministic(
        status: u16,
        customisation_id: String,
        r1: Option<GetVoiceError>,
        r2: Option<GetVoiceError>,
    )
        requires
            r1 == Self::spec_classify(status, customisation_id),
            r2 == Self::spec_classify(status, customisation_id),
        ensures
            r1 == r2,
    {
    }
}

impl PartialEq for ListVoicesError {
    fn eq(&self, other: &ListVoicesError) -> (r: bool) {
        match (self, other) {
            (ListVoicesError::NotAcceptable406, ListVoicesError::NotAcceptable406) => true,
            (ListVoicesError::UnsupportedMediaType415, ListVoicesError::UnsupportedMediaType415) => true,
            (ListVoicesError::InternalServerError500, ListVoicesError::InternalServerError500) => true,
            (ListVoicesError::ServiceUnavailable503, ListVoicesError::ServiceUnavailable503) => true,
            (ListVoicesError::ConnectionError(a), ListVoicesError::ConnectionError(b)) => a.eq(b),
            _ => false,
        }
    }
}

impl vstd::std_specs::cmp::PartialEqSpecImpl for ListVoicesError {
    open spec fn obeys_eq_spec() -> bool {
        true
    }

    open spec fn eq_spec(&self, other: &ListVoicesError) -> bool {
        match (self, other) {
            (ListVoicesError::NotAcceptable406, ListVoicesError::NotAcceptable406) => true,
            (ListVoicesError::UnsupportedMediaType415, ListVoicesError::UnsupportedMediaType415) => true,
            (ListVoicesError::InternalServerError500, ListVoicesError::InternalServerError500) => true,
            (ListVoicesError::ServiceUnavailable503, ListVoicesError::ServiceUnavailable503) => true,
            (ListVoicesError::ConnectionError(a), ListVoicesError::ConnectionError(b)) => a@ == b@,
            _ => false,
        }
    }
}

impl PartialEq for GetVoiceError {
    fn eq(&self, other: &GetVoiceError) -> (r: bool) {
        match (self, other) {
            (GetVoiceError::NotModified304, GetVoiceError::NotModified304) => true,
            (GetVoiceError::BadRequest400, GetVoiceError::BadRequest400) => true,
            (GetVoiceError::Unauthorised401(a), GetVoiceError::Unauthorised401(b)) => a.eq(b),
            (GetVoiceError::NotAcceptable406, GetVoiceError::NotAcceptable406) => true,
            (GetVoiceError::UnsupportedMediaType415, GetVoiceError::UnsupportedMediaType415) => true,
            (GetVoiceError::InternalServerError500, GetVoiceError::InternalServerError500) => true,
            (GetVoiceError::ServiceUnavailable503, GetVoiceError::ServiceUnavailable503) => true,
            (GetVoiceError::ConnectionError(a), GetVoiceError::ConnectionError(b)) => a.eq(b),
            _ => false,
        }
    }
}

impl vstd::std_specs::cmp::PartialEqSpecImpl for GetVoiceError {
    open spec fn obeys_eq_spec() -> bool {
        true
    }

    open spec fn eq_spec(&self, other: &GetVoiceError) -> bool {
        match (self, other) {
            (GetVoiceError::NotModified304, GetVoiceError::NotModified304) => true,
            (GetVoiceError::BadRequest400, GetVoiceError::BadRequest400) => true,
            (GetVoiceError::Unauthorised401(a), GetVoiceError::Unauthorised401(b)) => a@ == b@,
            (GetVoiceError::NotAcceptable406, GetVoiceError::NotAcceptable406) => true,
            (GetVoiceError::UnsupportedMediaType415, GetVoiceError::UnsupportedMediaType415) => true,
            (GetVoiceError::InternalServerError500, GetVoiceError::InternalServerError500) => true,
            (GetVoiceError::ServiceUnavailable503, GetVoiceError::ServiceUnavailable503) => true,
            (GetVoiceError::ConnectionError(a), GetVoiceError::ConnectionError(b)) => a@ == b@,
            _ => false,
        }
    }
}

} // verus!
