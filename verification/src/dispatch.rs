//! The dispatcher's request shaping: for one provider and one notification,
//! exactly one HTTP request plan — a multipart form for the one provider
//! kind, a bearer-authenticated body with headers for the other — or the
//! error that stops the dispatch before any request is made. The sending
//! itself, and the reading of the response, happen outside the library; this
//! module also interprets a response's status and body text.

use vstd::prelude::*;
use vstd::string::StrSliceExecFns;
use vstd::string::StringExecFns;
use crate::config::{PushProvider, is_ntfy, is_pushover, lemma_kinds_distinct, pushover_default_url};
use crate::strutil::{dec_int_chars, i8_decimal, str_eq};

verus! {

/// An image to attach: its base filename and its full bytes.
#[derive(Debug)]
pub struct Attachment {
    pub filename: String,
    pub bytes: Vec<u8>,
}

/// One field of a multipart form.
#[derive(Debug)]
pub struct FormField {
    pub name: String,
    pub value: String,
}

/// The body of a bearer-token request: the message text, or — when an image
/// is attached — the image bytes in its place, with the filename carried as a
/// header. The two are never sent together; an attached image drops the text.
#[derive(Debug)]
pub enum NtfyBody {
    Text(String),
    Image { filename: String, bytes: Vec<u8> },
}

/// The one HTTP request dispatch sends for a provider: a multipart POST for
/// the form-based kind, a bearer-authenticated POST for the other.
#[derive(Debug)]
pub enum HttpRequestPlan {
    MultipartPost { url: String, fields: Vec<FormField>, attachment: Option<Attachment> },
    BearerPost { url: String, token: String, priority_label: String, body: NtfyBody },
}

/// Why a dispatch fails before any request is made.
#[derive(Debug)]
pub enum DispatchError {
    UnsupportedProviderType(String),
    MissingBaseUrl(String),
}

/// The human-readable cause a dispatch error carries.
pub open spec fn dispatch_error_detail(e: DispatchError) -> Seq<char> {
    match e {
        DispatchError::UnsupportedProviderType(d) => d@,
        DispatchError::MissingBaseUrl(d) => d@,
    }
}

impl DispatchError {
    /// The human-readable cause.
    pub fn detail(&self) -> (r: &str)
        ensures
            r@ == dispatch_error_detail(*self),
    {
        match self {
            DispatchError::UnsupportedProviderType(d) => d.as_str(),
            DispatchError::MissingBaseUrl(d) => d.as_str(),
        }
    }
}

/// The symbolic priority of the bearer-token service: the five levels for
/// -2 through 2, and "default" for every other value.
pub open spec fn priority_label_spec(p: int) -> Seq<char> {
    if p == -2 {
        "min"@
    } else if p == -1 {
        "low"@
    } else if p == 1 {
        "high"@
    } else if p == 2 {
        "max"@
    } else {
        "default"@
    }
}

/// Maps a numeric priority to the bearer-token service's symbolic label;
/// total on every value, with everything outside -2..=2 mapping to "default".
pub fn ntfy_priority_label(priority: i8) -> (r: &'static str)
    ensures
        r@ == priority_label_spec(priority as int),
{
    if priority == -2 {
        "min"
    } else if priority == -1 {
        "low"
    } else if priority == 1 {
        "high"
    } else if priority == 2 {
        "max"
    } else {
        "default"
    }
}

/// The names and values of a form's fields.
pub open spec fn field_views(fields: Seq<FormField>) -> Seq<(Seq<char>, Seq<char>)> {
    fields.map_values(|f: FormField| (f.name@, f.value@))
}

/// The recipient key sent for a provider: its user key, or empty when it has
/// none.
pub open spec fn user_key_or_empty(p: PushProvider) -> Seq<char> {
    match p.user_key {
        Some(u) => u@,
        None => Seq::<char>::empty(),
    }
}

/// The four fields of the multipart form: credential token, recipient key,
/// message text, and the priority written in decimal.
pub open spec fn pushover_fields_spec(p: PushProvider, message: Seq<char>, priority: int) -> Seq<
    (Seq<char>, Seq<char>),
> {
    seq![
        ("token"@, p.api_key@),
        ("user"@, user_key_or_empty(p)),
        ("message"@, message),
        ("priority"@, dec_int_chars(priority)),
    ]
}

/// An optional attachment holding the same filename and bytes as another.
pub open spec fn attachment_matches(a: Option<Attachment>, b: Option<Attachment>) -> bool {
    match (a, b) {
        (Some(x), Some(y)) => x.filename@ == y.filename@ && x.bytes@ == y.bytes@,
        (None, None) => true,
        _ => false,
    }
}

/// The borrowed attachment's value, if one is given.
pub open spec fn attachment_view(image: Option<&Attachment>) -> Option<Attachment> {
    match image {
        Some(a) => Some(*a),
        None => None,
    }
}

/// The request plan owed to a multipart-form provider: a multipart POST to
/// its base URL (or the fixed default endpoint when it has none), the four
/// form fields, and the image attached when one is given.
pub open spec fn is_pushover_plan_for(
    plan: HttpRequestPlan,
    p: PushProvider,
    message: Seq<char>,
    priority: int,
    image: Option<Attachment>,
) -> bool {
    match plan {
        HttpRequestPlan::MultipartPost { url, fields, attachment } => {
            &&& url@ == match p.base_url {
                Some(u) => u@,
                None => pushover_default_url(),
            }
            &&& field_views(fields@) == pushover_fields_spec(p, message, priority)
            &&& attachment_matches(image, attachment)
        },
        _ => false,
    }
}

/// The request plan owed to a bearer-token provider: a POST to its configured
/// base URL, authenticated with its credential token, carrying the symbolic
/// priority, and a body of the message text — or of the image bytes, with the
/// filename alongside, when an image is given.
pub open spec fn is_ntfy_plan_for(
    plan: HttpRequestPlan,
    p: PushProvider,
    message: Seq<char>,
    priority: int,
    image: Option<Attachment>,
) -> bool {
    match plan {
        HttpRequestPlan::BearerPost { url, token, priority_label, body } => {
            &&& p.base_url matches Some(u) && url@ == u@
            &&& token@ == p.api_key@
            &&& priority_label@ == priority_label_spec(priority)
            &&& match (image, body) {
                (Some(a), NtfyBody::Image { filename, bytes }) => filename@ == a.filename@
                    && bytes@ == a.bytes@,
                (None, NtfyBody::Text(t)) => t@ == message,
                _ => false,
            }
        },
        _ => false,
    }
}

/// The error text for a provider of a kind the dispatcher does not know,
/// naming the provider and its type.
pub open spec fn unsupported_type_detail(p: PushProvider) -> Seq<char> {
    "Unsupported provider type for "@ + p.name@ + ": "@ + p.provider_type@
}

/// The error text for a bearer-token provider without a configured base URL.
pub open spec fn missing_base_url_detail() -> Seq<char> {
    "Base URL is required for ntfy provider"@
}

fn copy_bytes(src: &Vec<u8>) -> (r: Vec<u8>)
    ensures
        r@ == src@,
{
    let mut out: Vec<u8> = Vec::new();
    let mut i: usize = 0;
    while i < src.len()
        invariant
            i <= src@.len(),
            out@ == src@.subrange(0, i as int),
        decreases src@.len() - i,
    {
        out.push(src[i]);
        proof {
            assert(out@ =~= src@.subrange(0, i + 1));
        }
        i = i + 1;
    }
    proof {
        assert(src@.subrange(0, src@.len() as int) =~= src@);
    }
    out
}

fn clone_attachment_opt(image: Option<&Attachment>) -> (r: Option<Attachment>)
    ensures
        attachment_matches(attachment_view(image), r),
{
    match image {
        Some(a) => Some(Attachment { filename: a.filename.clone(), bytes: copy_bytes(&a.bytes) }),
        None => None,
    }
}

/// Shapes the one request a dispatch to `provider` sends, without sending
/// anything: a multipart form for the one kind, a bearer-token body with
/// headers for the other. A provider of an unknown kind, or a bearer-token
/// provider without a base URL, yields the error that stops its dispatch
/// before any request is made.
pub fn build_dispatch_request(
    provider: &PushProvider,
    message: &str,
    priority: i8,
    image: Option<&Attachment>,
) -> (r: Result<HttpRequestPlan, DispatchError>)
    ensures
        is_pushover(*provider) ==> (r matches Ok(plan) && is_pushover_plan_for(
            plan,
            *provider,
            message@,
            priority as int,
            attachment_view(image),
        )),
        is_ntfy(*provider) && provider.base_url is Some ==> (r matches Ok(plan)
            && is_ntfy_plan_for(
            plan,
            *provider,
            message@,
            priority as int,
            attachment_view(image),
        )),
        is_ntfy(*provider) && provider.base_url is None ==> (r matches Err(e) && e matches
            DispatchError::MissingBaseUrl(d) && d@ == missing_base_url_detail()),
        !is_pushover(*provider) && !is_ntfy(*provider) ==> (r matches Err(e) && e matches
            DispatchError::UnsupportedProviderType(d) && d@ == unsupported_type_detail(*provider)),
{
    proof {
        lemma_kinds_distinct();
    }
    if str_eq(provider.provider_type.as_str(), "pushover") {
        let url: String = match &provider.base_url {
            Some(u) => u.clone(),
            None => "https://api.pushover.net/1/messages.json".to_owned(),
        };
        let user: String = match &provider.user_key {
            Some(u) => u.clone(),
            None => String::new(),
        };
        let mut fields: Vec<FormField> = Vec::new();
        fields.push(FormField { name: "token".to_owned(), value: provider.api_key.clone() });
        fields.push(FormField { name: "user".to_owned(), value: user });
        fields.push(FormField { name: "message".to_owned(), value: message.to_owned() });
        fields.push(FormField { name: "priority".to_owned(), value: i8_decimal(priority) });
        let attachment = clone_attachment_opt(image);
        proof {
            assert(field_views(fields@) =~= pushover_fields_spec(
                *provider,
                message@,
                priority as int,
            ));
        }
        Ok(HttpRequestPlan::MultipartPost { url, fields, attachment })
    } else if str_eq(provider.provider_type.as_str(), "ntfy") {
        let url: String = match &provider.base_url {
            Some(u) => u.clone(),
            None => {
                return Err(
                    DispatchError::MissingBaseUrl(
                        "Base URL is required for ntfy provider".to_owned(),
                    ),
                );
            },
        };
        let body: NtfyBody = match image {
            Some(a) => NtfyBody::Image {
                filename: a.filename.clone(),
                bytes: copy_bytes(&a.bytes),
            },
            None => NtfyBody::Text(message.to_owned()),
        };
        Ok(
            HttpRequestPlan::BearerPost {
                url,
                token: provider.api_key.clone(),
                priority_label: ntfy_priority_label(priority).to_owned(),
                body,
            },
        )
    } else {
        let mut d: String = "Unsupported provider type for ".to_owned();
        d.append(provider.name.as_str());
        d.append(": ");
        d.append(provider.provider_type.as_str());
        proof {
            assert(d@ =~= unsupported_type_detail(*provider));
        }
        Err(DispatchError::UnsupportedProviderType(d))
    }
}

/// How a provider's kind is named in the messages reporting an outcome.
pub open spec fn kind_display(p: PushProvider) -> Seq<char> {
    if is_pushover(p) {
        "Pushover"@
    } else {
        "ntfy"@
    }
}

/// The confirmation emitted when a provider's request succeeds.
pub open spec fn success_note(p: PushProvider) -> Seq<char> {
    "Notification sent successfully to "@ + kind_display(p) + " ("@ + p.name@ + ")"@
}

/// The failure detail when a provider's request comes back non-2xx: the
/// provider named, and the response body text verbatim.
pub open spec fn failure_detail(p: PushProvider, body: Seq<char>) -> Seq<char> {
    "Failed to send notification to "@ + kind_display(p) + " ("@ + p.name@ + "): "@ + body
}

/// Interprets the response to a dispatched request: a 2xx status is success,
/// with the confirmation to emit; anything else fails, with the response body
/// text captured verbatim in the failure detail.
pub fn interpret_response(provider: &PushProvider, status: u16, body: &str) -> (r: Result<
    String,
    String,
>)
    requires
        is_pushover(*provider) || is_ntfy(*provider),
    ensures
        r is Ok <==> 200 <= status < 300,
        r matches Ok(m) ==> m@ == success_note(*provider),
        r matches Err(e) ==> e@ == failure_detail(*provider, body@),
{
    proof {
        lemma_kinds_distinct();
    }
    let kind: &str = if str_eq(provider.provider_type.as_str(), "pushover") {
        "Pushover"
    } else {
        "ntfy"
    };
    if 200 <= status && status < 300 {
        let mut m: String = "Notification sent successfully to ".to_owned();
        m.append(kind);
        m.append(" (");
        m.append(provider.name.as_str());
        m.append(")");
        proof {
            assert(m@ =~= success_note(*provider));
        }
        Ok(m)
    } else {
        let mut e: String = "Failed to send notification to ".to_owned();
        e.append(kind);
        e.append(" (");
        e.append(provider.name.as_str());
        e.append("): ");
        e.append(body);
        proof {
            assert(e@ =~= failure_detail(*provider, body@));
        }
        Err(e)
    }
}

} // verus!
