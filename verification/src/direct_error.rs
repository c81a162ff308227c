//! What can go wrong when the client talks to a provider itself.
use vstd::prelude::*;
use vstd::string::StringExecFns;

use crate::http_status;
use crate::http_status::HttpStatus;
use crate::text;
use crate::text::trim;

verus! {

/// The class of an error.
#[derive(Clone, Copy, Debug, PartialEq, Eq, Structural)]
pub enum DirectProviderErrorClass {
    AuthFailure,
    EndpointUnreachable,
    Timeout,
    InvalidResponseShape,
    MissingModel,
    UnsupportedCapability,
    RateLimit,
    ProviderStatus,
    MissingSecret,
    Unknown,
}

impl DirectProviderErrorClass {
    /// The name of the variant.
    pub open spec fn spec_name(self) -> Seq<char> {
        match self {
            DirectProviderErrorClass::AuthFailure => "AuthFailure"@,
            DirectProviderErrorClass::EndpointUnreachable => "EndpointUnreachable"@,
            DirectProviderErrorClass::Timeout => "Timeout"@,
            DirectProviderErrorClass::InvalidResponseShape => "InvalidResponseShape"@,
            DirectProviderErrorClass::MissingModel => "MissingModel"@,
            DirectProviderErrorClass::UnsupportedCapability => "UnsupportedCapability"@,
            DirectProviderErrorClass::RateLimit => "RateLimit"@,
            DirectProviderErrorClass::ProviderStatus => "ProviderStatus"@,
            DirectProviderErrorClass::MissingSecret => "MissingSecret"@,
            DirectProviderErrorClass::Unknown => "Unknown"@,
        }
    }

    /// The class of an error that a status reports.
    pub open spec fn of_status(status: u16) -> Self {
        if status == 401 || status == 403 {
            DirectProviderErrorClass::AuthFailure
        } else if status == 404 {
            DirectProviderErrorClass::MissingModel
        } else if status == 408 || status == 504 {
            DirectProviderErrorClass::Timeout
        } else if status == 429 {
            DirectProviderErrorClass::RateLimit
        } else if status == 400 || status == 422 {
            DirectProviderErrorClass::UnsupportedCapability
        } else {
            DirectProviderErrorClass::ProviderStatus
        }
    }

    /// The name of the variant.
    pub fn name(&self) -> (r: String)
        ensures
            r@ == self.spec_name(),
    {
        match self {
            DirectProviderErrorClass::AuthFailure => "AuthFailure".to_string(),
            DirectProviderErrorClass::EndpointUnreachable => "EndpointUnreachable".to_string(),
            DirectProviderErrorClass::Timeout => "Timeout".to_string(),
            DirectProviderErrorClass::InvalidResponseShape => "InvalidResponseShape".to_string(),
            DirectProviderErrorClass::MissingModel => "MissingModel".to_string(),
            DirectProviderErrorClass::UnsupportedCapability => "UnsupportedCapability".to_string(),
            DirectProviderErrorClass::RateLimit => "RateLimit".to_string(),
            DirectProviderErrorClass::ProviderStatus => "ProviderStatus".to_string(),
            DirectProviderErrorClass::MissingSecret => "MissingSecret".to_string(),
            DirectProviderErrorClass::Unknown => "Unknown".to_string(),
        }
    }
}

/// An error of a provider that the client talks to itself.
#[derive(Debug, PartialEq, Eq)]
pub struct DirectProviderError {
    pub class: DirectProviderErrorClass,
    pub message: String,
    pub status: Option<HttpStatus>,
}

/// What a [`DirectProviderError`] is.
pub struct DirectProviderErrorView {
    pub class: DirectProviderErrorClass,
    pub message: Seq<char>,
    pub status: Option<u16>,
}

impl View for DirectProviderError {
    type V = DirectProviderErrorView;

    open spec fn view(&self) -> DirectProviderErrorView {
        DirectProviderErrorView { class: self.class, message: self.message@, status: self.status.deep_view() }
    }
}

/// A request that got no answer, as far as its error tells.
#[derive(Debug, PartialEq, Eq)]
pub struct TransportFailure {
    pub is_timeout: bool,
    pub is_connect: bool,
    pub is_decode: bool,
    pub status: Option<HttpStatus>,
    pub detail: String,
}

/// What a [`TransportFailure`] is.
pub struct TransportFailureView {
    pub is_timeout: bool,
    pub is_connect: bool,
    pub is_decode: bool,
    pub status: Option<u16>,
    pub detail: Seq<char>,
}

impl View for TransportFailure {
    type V = TransportFailureView;

    open spec fn view(&self) -> TransportFailureView {
        TransportFailureView {
            is_timeout: self.is_timeout,
            is_connect: self.is_connect,
            is_decode: self.is_decode,
            status: self.status.deep_view(),
            detail: self.detail@,
        }
    }
}

impl DirectProviderErrorView {
    /// An error without a status.
    pub open spec fn plain(class: DirectProviderErrorClass, message: Seq<char>) -> Self {
        DirectProviderErrorView { class, message, status: None }
    }

    /// The error of an answer with this status. A body of white space is not
    /// quoted.
    pub open spec fn of_status(status: u16, body: Seq<char>) -> Self {
        DirectProviderErrorView {
            class: DirectProviderErrorClass::of_status(status),
            message: if text::trimmed(body).len() == 0 {
                "provider returned HTTP "@ + http_status::status_text(status)
            } else {
                "provider returned HTTP "@ + http_status::status_text(status) + ": "@ + body
            },
            status: Some(status),
        }
    }

    /// The error of a request that got no answer.
    pub open spec fn of_transport(failure: TransportFailureView) -> Self {
        DirectProviderErrorView {
            class: if failure.is_timeout {
                DirectProviderErrorClass::Timeout
            } else if failure.is_connect {
                DirectProviderErrorClass::EndpointUnreachable
            } else if failure.is_decode {
                DirectProviderErrorClass::InvalidResponseShape
            } else {
                DirectProviderErrorClass::Unknown
            },
            message: failure.detail,
            status: failure.status,
        }
    }

    /// The error of a request that needs another provider than the one that Warp
    /// hosts.
    pub open spec fn warp_hosted() -> Self {
        DirectProviderErrorView::plain(
            DirectProviderErrorClass::UnsupportedCapability,
            "warp-hosted providers do not use direct HTTP transport"@,
        )
    }

    /// The text for the user.
    pub open spec fn shown(self) -> Seq<char> {
        match self.status {
            Some(status) => "Direct provider error ("@ + self.class.spec_name() + ", HTTP "@
                + http_status::status_text(status) + "): "@ + self.message,
            None => "Direct provider error ("@ + self.class.spec_name() + "): "@ + self.message,
        }
    }
}

impl DirectProviderError {
    /// An error without a status.
    pub fn new(class: DirectProviderErrorClass, message: &str) -> (r: Self)
        ensures
            r@ == DirectProviderErrorView::plain(class, message@),
    {
        DirectProviderError { class, message: message.to_string(), status: None }
    }

    /// The error of a request that needs another provider than the one that Warp
    /// hosts.
    pub fn warp_hosted() -> (r: Self)
        ensures
            r@ == DirectProviderErrorView::warp_hosted(),
    {
        DirectProviderError::new(
            DirectProviderErrorClass::UnsupportedCapability,
            "warp-hosted providers do not use direct HTTP transport",
        )
    }

    /// The error of an answer with this status.
    pub fn from_status(status: HttpStatus, body: String) -> (r: Self)
        ensures
            r@ == DirectProviderErrorView::of_status(status@, body@),
    {
        let code = status.as_u16();
        let class = if code == 401 || code == 403 {
            DirectProviderErrorClass::AuthFailure
        } else if code == 404 {
            DirectProviderErrorClass::MissingModel
        } else if code == 408 || code == 504 {
            DirectProviderErrorClass::Timeout
        } else if code == 429 {
            DirectProviderErrorClass::RateLimit
        } else if code == 400 || code == 422 {
            DirectProviderErrorClass::UnsupportedCapability
        } else {
            DirectProviderErrorClass::ProviderStatus
        };
        let mut message = "provider returned HTTP ".to_string().concat(status.to_string().as_str());
        if !trim(body.as_str()).is_empty() {
            message.append(": ");
            message.append(body.as_str());
        }
        DirectProviderError { class, message, status: Some(status) }
    }

    /// The error of a request that got no answer.
    pub fn from_transport(failure: &TransportFailure) -> (r: Self)
        ensures
            r@ == DirectProviderErrorView::of_transport(failure@),
    {
        let class = if failure.is_timeout {
            DirectProviderErrorClass::Timeout
        } else if failure.is_connect {
            DirectProviderErrorClass::EndpointUnreachable
        } else if failure.is_decode {
            DirectProviderErrorClass::InvalidResponseShape
        } else {
            DirectProviderErrorClass::Unknown
        };
        DirectProviderError { class, message: failure.detail.clone(), status: failure.status }
    }

    /// The class of the error.
    pub fn class(&self) -> (r: DirectProviderErrorClass)
        ensures
            r == self@.class,
    {
        self.class
    }

    /// The text for the user.
    pub fn to_string(&self) -> (r: String)
        ensures
            r@ == self@.shown(),
    {
        let head = "Direct provider error (".to_string().concat(self.class.name().as_str());
        match &self.status {
            Some(status) => head.concat(", HTTP ").concat(status.to_string().as_str()).concat("): ").concat(
                self.message.as_str(),
            ),
            None => head.concat("): ").concat(self.message.as_str()),
        }
    }
}

/// The name of a class is made of letters, and its length and first letter tell
/// which class it is.
proof fn lemma_class_names(class: DirectProviderErrorClass)
    ensures
        forall|i: int| 0 <= i < class.spec_name().len() ==> 'A' <= #[trigger] class.spec_name()[i],
        class.spec_name().len() == match class {
            DirectProviderErrorClass::AuthFailure => 11nat,
            DirectProviderErrorClass::EndpointUnreachable => 19nat,
            DirectProviderErrorClass::Timeout => 7nat,
            DirectProviderErrorClass::InvalidResponseShape => 20nat,
            DirectProviderErrorClass::MissingModel => 12nat,
            DirectProviderErrorClass::UnsupportedCapability => 21nat,
            DirectProviderErrorClass::RateLimit => 9nat,
            DirectProviderErrorClass::ProviderStatus => 14nat,
            DirectProviderErrorClass::MissingSecret => 13nat,
            DirectProviderErrorClass::Unknown => 7nat,
        },
        class.spec_name()[0] == 'T' <==> class == DirectProviderErrorClass::Timeout,
{
    reveal_strlit("AuthFailure");
    reveal_strlit("EndpointUnreachable");
    reveal_strlit("Timeout");
    reveal_strlit("InvalidResponseShape");
    reveal_strlit("MissingModel");
    reveal_strlit("UnsupportedCapability");
    reveal_strlit("RateLimit");
    reveal_strlit("ProviderStatus");
    reveal_strlit("MissingSecret");
    reveal_strlit("Unknown");
}

/// The user can tell errors of different classes apart, whatever their messages
/// say.
pub proof fn law_error_classes_are_told_apart(a: DirectProviderErrorView, b: DirectProviderErrorView)
    requires
        a.class != b.class,
    ensures
        a.shown() != b.shown(),
{
    let head = "Direct provider error ("@;
    let n = head.len() as int;
    let name_a = a.class.spec_name();
    let name_b = b.class.spec_name();
    lemma_class_names(a.class);
    lemma_class_names(b.class);
    reveal_strlit(", HTTP ");
    reveal_strlit("): ");
    if a.shown() == b.shown() {
        assert(a.shown()[n + name_a.len()] < 'A');
        assert(b.shown()[n + name_b.len()] < 'A');
        assert forall|i: int| 0 <= i < name_a.len() implies a.shown()[n + i] == #[trigger] name_a[i] by {}
        assert forall|i: int| 0 <= i < name_b.len() implies b.shown()[n + i] == #[trigger] name_b[i] by {}
        if name_a.len() < name_b.len() {
            assert('A' <= name_b[name_a.len() as int]);
        }
        if name_b.len() < name_a.len() {
            assert('A' <= name_a[name_b.len() as int]);
        }
        assert(name_a[0] == name_b[0]);
    }
}

/// A status tells the class of an error, and the error keeps the status and what
/// the provider said, unless that is white space.
pub proof fn law_statuses_tell_the_class(status: u16, body: Seq<char>)
    ensures
        ({
            let error = DirectProviderErrorView::of_status(status, body);
            let class = error.class;
            &&& class == DirectProviderErrorClass::AuthFailure <==> status == 401 || status == 403
            &&& class == DirectProviderErrorClass::MissingModel <==> status == 404
            &&& class == DirectProviderErrorClass::Timeout <==> status == 408 || status == 504
            &&& class == DirectProviderErrorClass::RateLimit <==> status == 429
            &&& class == DirectProviderErrorClass::UnsupportedCapability <==> status == 400 || status == 422
            &&& class == DirectProviderErrorClass::ProviderStatus <==> !(seq![
                400u16,
                401u16,
                403u16,
                404u16,
                408u16,
                422u16,
                429u16,
                504u16,
            ].contains(status))
            &&& error.status == Some(status)
            &&& text::trimmed(body).len() > 0 ==> body.is_suffix_of(error.message)
            &&& text::trimmed(body).len() == 0 ==> error.message == "provider returned HTTP "@
                + http_status::status_text(status)
        }),
{
    let listed = seq![400u16, 401u16, 403u16, 404u16, 408u16, 422u16, 429u16, 504u16];
    assert(listed[0] == 400 && listed[1] == 401 && listed[2] == 403 && listed[3] == 404 && listed[4] == 408
        && listed[5] == 422 && listed[6] == 429 && listed[7] == 504);
    if listed.contains(status) {
        let i = choose|i: int| 0 <= i < listed.len() && listed[i] == status;
        assert(i == 0 || i == 1 || i == 2 || i == 3 || i == 4 || i == 5 || i == 6 || i == 7);
    }
    let error = DirectProviderErrorView::of_status(status, body);
    if text::trimmed(body).len() > 0 {
        let n = error.message.len() - body.len();
        assert(error.message.subrange(n, error.message.len() as int) =~= body);
    }
}

/// A request without an answer timed out, did not reach the endpoint, or got what
/// cannot be read, in this order; and its error keeps what is known of it.
pub proof fn law_transport_failures_are_told_apart(failure: TransportFailureView)
    ensures
        ({
            let error = DirectProviderErrorView::of_transport(failure);
            &&& error.class == DirectProviderErrorClass::Timeout <==> failure.is_timeout
            &&& error.class == DirectProviderErrorClass::EndpointUnreachable <==> !failure.is_timeout
                && failure.is_connect
            &&& error.class == DirectProviderErrorClass::InvalidResponseShape <==> !failure.is_timeout
                && !failure.is_connect && failure.is_decode
            &&& error.class == DirectProviderErrorClass::Unknown <==> !failure.is_timeout && !failure.is_connect
                && !failure.is_decode
            &&& error.message == failure.detail
            &&& error.status == failure.status
        }),
{
}

/// The user is told the class of an error by its name, the status where there is
/// one, and what went wrong.
pub proof fn law_errors_are_shown_in_full(error: DirectProviderErrorView)
    ensures
        error.message.is_suffix_of(error.shown()),
        ("Direct provider error ("@ + error.class.spec_name()).is_prefix_of(error.shown()),
        error.status matches Some(status) ==> error.shown() == "Direct provider error ("@ + error.class.spec_name()
            + ", HTTP "@ + http_status::status_text(status) + "): "@ + error.message,
        error.status is None ==> error.shown() == "Direct provider error ("@ + error.class.spec_name() + "): "@
            + error.message,
{
    let told = error.shown();
    let lead = "Direct provider error ("@ + error.class.spec_name();
    assert(told.subrange(told.len() - error.message.len(), told.len() as int) =~= error.message);
    assert(told.subrange(0, lead.len() as int) =~= lead);
}

} // verus!
