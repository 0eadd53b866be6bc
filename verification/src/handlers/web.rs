use crate::ingest::IngestError;
use crate::notifications::basic::TOAST_OPEN;
use crate::notifications::markup::has_at;
use crate::notifications::tag::is_correlation_tag;
use crate::notifications::types::{NotificationRequest, RenderError};
use crate::services::manager::{notification_of, NotificationManager, PreparedToast, SendError};
use crate::store::is_entered;
use crate::utils::auth::AuthError;
use vstd::prelude::*;
use vstd::string::*;

verus! {

/// The answer to a request: a status and a text.
#[derive(Debug, Clone, PartialEq, Eq)]
pub struct HttpReply {
    pub status: u16,
    pub body: String,
}

/// Mathematical content of an [`HttpReply`].
pub struct HttpReplyView {
    pub status: u16,
    pub body: Seq<char>,
}

impl View for HttpReply {
    type V = HttpReplyView;

    open spec fn view(&self) -> HttpReplyView {
        HttpReplyView { status: self.status, body: self.body@ }
    }
}

/// The answer that tells of a failure to read the body: the status of the
/// failure's class and the failure's text.
pub open spec fn ingest_failure(error: IngestError) -> HttpReplyView {
    HttpReplyView { status: error.spec_class().spec_status(), body: error.spec_message() }
}

/// The answer that tells of a failure to hand the notification to the
/// platform: the status of the failure's class, and a text that ends in
/// the failure's.
pub open spec fn send_failure(error: SendError) -> HttpReplyView {
    HttpReplyView {
        status: error.spec_class().spec_status(),
        body: "Failed to send notification: "@ + error.spec_message(),
    }
}

/// The answer to a request whose notification was shown.
pub fn reply_sent() -> (reply: HttpReply)
    ensures
        reply.status == 200,
        reply.body@ == "Notification sent successfully"@,
{
    HttpReply { status: 200, body: String::from_str("Notification sent successfully") }
}

/// The answer to a request whose body could not be read.
pub fn reply_ingest_failed(error: IngestError) -> (reply: HttpReply)
    ensures
        reply@ == ingest_failure(error),
{
    HttpReply { status: error.class().status(), body: error.message() }
}

/// The answer to a request whose notification was not handed to the
/// platform.
pub fn reply_send_failed(error: SendError) -> (reply: HttpReply)
    ensures
        reply@ == send_failure(error),
{
    let mut body = String::from_str("Failed to send notification: ");
    let detail = error.message();
    body.append(detail.as_str());
    HttpReply { status: error.class().status(), body }
}

/// The answer to a request whose notification the platform did not show,
/// where `detail` is what the platform said: a server failure.
pub fn reply_show_failed(detail: &str) -> (reply: HttpReply)
    ensures
        reply.status == 500,
        reply.body@ == "Failed to send notification: "@ + detail@,
{
    let mut body = String::from_str("Failed to send notification: ");
    body.append(detail);
    HttpReply { status: 500, body }
}

/// The answer to a request that the guard turned away.
pub fn reply_unauthorized(error: AuthError) -> (reply: HttpReply)
    ensures
        reply.status == 401,
        reply.body@ == error.spec_message(),
{
    HttpReply { status: 401, body: error.message() }
}

/// What is left to do for a request once its body was read.
#[derive(Debug, Clone, PartialEq, Eq)]
pub enum NextStep {
    /// Answer the client; nothing is shown.
    Answer(HttpReply),
    /// Show this notification, then answer with [`reply_sent`] or
    /// [`reply_show_failed`].
    Show(PreparedToast),
}

/// Takes a request from the reading of its body to the point where its
/// notification is to be shown.
///
/// `ingested` is what reading the body gave; `image_exists` says whether
/// the image file that the request names is there. A body that could not
/// be read is answered with that failure and changes nothing. A request
/// that was read is sent through the manager as
/// [`NotificationManager::send_notification`] does it: on success the
/// notification is in the manager's table under its fresh tag and is
/// handed back to be shown; a refusal is answered and leaves the table as
/// it was. A request without fault to a registered manager is shown unless
/// the table already holds a correlation tag.
pub fn send_notification(
    manager: &mut NotificationManager,
    ingested: Result<NotificationRequest, IngestError>,
    image_exists: bool,
) -> (step: NextStep)
    ensures
        final(manager).registered() == old(manager).registered(),
        match ingested {
            Err(error) => {
                &&& step matches NextStep::Answer(reply)
                &&& reply@ == ingest_failure(error)
                &&& final(manager).table() == old(manager).table()
            },
            Ok(request) => match step {
                NextStep::Show(toast) => {
                    &&& old(manager).registered()
                    &&& is_correlation_tag(toast.tag@)
                    &&& notification_of(request@).render(toast.tag@, image_exists) == Ok::<
                        Seq<char>,
                        RenderError,
                    >(toast.markup@)
                    &&& is_entered(
                        old(manager).table(),
                        toast.tag@,
                        request@.callback_data(),
                        final(manager).table(),
                    )
                    &&& final(manager).table().dom().finite()
                    &&& final(manager).table().len() == old(manager).table().len() + 1
                    &&& request@.raw_markup is None ==> has_at(
                        toast.markup@,
                        TOAST_OPEN@.len() as int,
                        toast.tag@,
                    )
                },
                NextStep::Answer(reply) => {
                    &&& final(manager).table() == old(manager).table()
                    &&& reply@ == send_failure(
                        if !old(manager).registered() {
                            SendError::NotRegistered
                        } else {
                            match notification_of(request@).image_fault(image_exists) {
                                Some(fault) => SendError::Render(fault),
                                None => SendError::DuplicateTag,
                            }
                        },
                    )
                },
            },
        },
        ingested matches Ok(request) && step is Answer && old(manager).registered()
            && notification_of(request@).image_fault(image_exists) is None ==> exists|
            held: Seq<char>,
        |
            is_correlation_tag(held) && #[trigger] old(manager).table().contains_key(held),
{
    match ingested {
        Err(error) => NextStep::Answer(reply_ingest_failed(error)),
        Ok(request) => match manager.send_notification(request, image_exists) {
            Ok(toast) => NextStep::Show(toast),
            Err(error) => NextStep::Answer(reply_send_failed(error)),
        },
    }
}

} // verus!
