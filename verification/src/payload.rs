use vstd::prelude::*;
use vstd::string::StringExecFns;

use crate::report::AppConfig;
use crate::report::ReportBody;
use crate::report::ReportType;

verus! {

/// A notification ready to hand to the outbound sink. Derived per submission,
/// never persisted.
#[derive(Debug)]
pub struct NotificationPayload {
    pub sender_name: String,
    pub avatar_url: String,
    pub title: String,
    pub description: String,
    pub footer: String,
}

/// The title shown for a report of the given kind.
pub open spec fn title_spec(kind: ReportType) -> Seq<char> {
    if kind is Automatic {
        "Automatic Report"@
    } else {
        "Manual Report"@
    }
}

/// The footer is the extension version prefixed with "v".
pub open spec fn footer_spec(ext_version: Seq<char>) -> Seq<char> {
    "v"@ + ext_version
}

/// Pure construction of the outbound payload: fixed sender identity from the
/// configuration, a title naming the report kind, the message verbatim (no
/// truncation or escaping — any limits are the sink's concern), and the
/// extension version as the footer.
pub fn build_payload(config: &AppConfig, body: &ReportBody) -> (p: NotificationPayload)
    ensures
        p.sender_name@ == "WNPRedux Reporter"@,
        p.avatar_url@ == config.webhook_avatar_url@,
        p.title@ == title_spec(body.report_type),
        p.description@ == body.message@,
        p.footer@ == footer_spec(body.ext_version@),
{
    let title = if matches!(body.report_type, ReportType::Automatic) {
        "Automatic Report".to_owned()
    } else {
        "Manual Report".to_owned()
    };
    let mut footer = "v".to_owned();
    footer.append(body.ext_version.as_str());
    NotificationPayload {
        sender_name: "WNPRedux Reporter".to_owned(),
        avatar_url: config.webhook_avatar_url.clone(),
        title,
        description: body.message.clone(),
        footer,
    }
}

} // verus!
