use crate::errors::ErrorClass;
use crate::notifications::basic::{lemma_tag_stands_in_markup, BasicNotification,
    BasicNotificationView, TOAST_OPEN};
use crate::notifications::markup::has_at;
use crate::notifications::tag::{is_correlation_tag, new_tag};
use crate::notifications::types::{NotificationDataView, NotificationKind, NotificationRequest,
    NotificationRequestView, NotificationType, RenderError};
use crate::router::{activation_effects, folder_fits, folder_source, route_event, SideEffect,
    SideEffectView, ToastEvent};
use crate::store::{is_entered, CorrelationStore};
use vstd::prelude::*;
use vstd::string::*;

verus! {

/// Why a notification was not handed to the platform.
#[derive(Debug, Clone, Copy, PartialEq, Eq, Structural)]
pub enum SendError {
    /// The application is not registered with the platform.
    NotRegistered,
    /// The notification could not be rendered.
    Render(RenderError),
    /// The tag is already in use.
    DuplicateTag,
}

impl SendError {
    /// The class of this failure.
    pub open spec fn spec_class(self) -> ErrorClass {
        match self {
            SendError::NotRegistered => ErrorClass::Platform,
            SendError::Render(e) => e.spec_class(),
            SendError::DuplicateTag => ErrorClass::Platform,
        }
    }

    /// The text that describes this failure.
    pub open spec fn spec_message(self) -> Seq<char> {
        match self {
            SendError::NotRegistered => "Notification system not properly registered"@,
            SendError::Render(e) => e.spec_message(),
            SendError::DuplicateTag => "Notification tag already in use"@,
        }
    }

    /// The class of this failure: that of the rendering failure where
    /// rendering failed, a platform failure otherwise.
    #[verifier::when_used_as_spec(spec_class)]
    pub fn class(self) -> (class: ErrorClass)
        ensures
            class == self.spec_class(),
    {
        match self {
            SendError::NotRegistered => ErrorClass::Platform,
            SendError::Render(e) => e.class(),
            SendError::DuplicateTag => ErrorClass::Platform,
        }
    }

    /// The text that describes this failure.
    pub fn message(self) -> (text: String)
        ensures
            text@ == self.spec_message(),
    {
        match self {
            SendError::NotRegistered => String::from_str(
                "Notification system not properly registered",
            ),
            SendError::Render(e) => e.message(),
            SendError::DuplicateTag => String::from_str("Notification tag already in use"),
        }
    }
}

/// A notification that is ready to be shown.
#[derive(Debug, Clone, PartialEq, Eq)]
pub struct PreparedToast {
    /// The markup to hand to the platform.
    pub markup: String,
    /// The tag under which the platform reports events on it.
    pub tag: String,
}

/// The notification that a request asks for.
pub open spec fn notification_of(request: NotificationRequestView) -> BasicNotificationView {
    BasicNotificationView {
        title: request.title,
        message: request.message,
        image_path: request.image_path,
        image_data: request.image_data,
        file_paths: request.file_paths,
        callback_command: request.callback_command,
        raw_markup: request.raw_markup,
    }
}

/// What sending a request under `tag` gives: the markup to show, or the
/// reason why nothing is shown.
pub open spec fn send_outcome(
    registered: bool,
    table: Map<Seq<char>, NotificationDataView>,
    request: NotificationRequestView,
    image_exists: bool,
    tag: Seq<char>,
) -> Result<Seq<char>, SendError> {
    if !registered {
        Err(SendError::NotRegistered)
    } else {
        match notification_of(request).render(tag, image_exists) {
            Err(e) => Err(SendError::Render(e)),
            Ok(markup) => if table.contains_key(tag) {
                Err(SendError::DuplicateTag)
            } else {
                Ok(markup)
            },
        }
    }
}

/// Sends notifications and answers the events that come back on them.
///
/// It holds the table of the notifications that were sent. A request is
/// rendered and entered in the table here; showing the markup is left to
/// the caller, who does so after `send_notification` has returned, so that
/// every event that the platform can report finds its entry.
pub struct NotificationManager {
    is_registered: bool,
    notifications: CorrelationStore,
}

impl NotificationManager {
    /// Whether the application is registered with the platform.
    pub closed spec fn registered(&self) -> bool {
        self.is_registered
    }

    /// The table of the notifications that were sent.
    pub closed spec fn table(&self) -> Map<Seq<char>, NotificationDataView> {
        self.notifications@
    }

    /// A manager for an application that is not registered yet, with an
    /// empty table.
    pub fn new() -> (manager: Self)
        ensures
            !manager.registered(),
            manager.table() == Map::<Seq<char>, NotificationDataView>::empty(),
    {
        NotificationManager { is_registered: false, notifications: CorrelationStore::new() }
    }

    /// Records that the application was registered with the platform and
    /// that its notifier is at hand. From then on notifications are sent.
    pub fn confirm_registration(&mut self)
        ensures
            final(self).registered(),
            final(self).table() == old(self).table(),
    {
        self.is_registered = true;
    }

    /// Whether the application is registered with the platform.
    pub fn is_registered(&self) -> (registered: bool)
        ensures
            registered == self.registered(),
    {
        self.is_registered
    }

    /// The table of the notifications that were sent.
    pub fn store(&self) -> (store: &CorrelationStore)
        ensures
            store@ == self.table(),
    {
        &self.notifications
    }

    /// Renders a request under the given tag and enters it in the table.
    ///
    /// The request is refused where the application is not registered,
    /// where it cannot be rendered, and where the tag is already in the
    /// table, in this order. A refusal leaves the table as it was. Else the
    /// table gains the one entry from the tag to what is kept of the
    /// request, and the markup and the tag are handed back to be shown.
    pub fn send_with_tag(
        &mut self,
        request: NotificationRequest,
        image_exists: bool,
        tag: String,
    ) -> (outcome: Result<PreparedToast, SendError>)
        ensures
            final(self).registered() == old(self).registered(),
            match outcome {
                Ok(toast) => {
                    &&& send_outcome(
                        old(self).registered(),
                        old(self).table(),
                        request@,
                        image_exists,
                        tag@,
                    ) == Ok::<Seq<char>, SendError>(toast.markup@)
                    &&& toast.tag@ == tag@
                    &&& is_entered(
                        old(self).table(),
                        tag@,
                        request@.callback_data(),
                        final(self).table(),
                    )
                    &&& final(self).table().dom().finite()
                    &&& final(self).table().len() == old(self).table().len() + 1
                },
                Err(e) => {
                    &&& send_outcome(
                        old(self).registered(),
                        old(self).table(),
                        request@,
                        image_exists,
                        tag@,
                    ) == Err::<Seq<char>, SendError>(e)
                    &&& final(self).table() == old(self).table()
                },
            },
    {
        if !self.is_registered {
            return Err(SendError::NotRegistered);
        }
        match request.notification_type {
            NotificationKind::Basic => {
                let notification = BasicNotification::from(request);
                self.send_typed_notification(&notification, image_exists, tag)
            },
        }
    }

    /// Renders a notification of any kind under the given tag and enters
    /// what is kept of it in the table.
    ///
    /// The notification is refused where it cannot be rendered, and then
    /// where the tag is already in the table. A refusal leaves the table as
    /// it was. Else the table gains the one entry under the tag and so
    /// grows by one, and the markup and the tag are handed back to be
    /// shown.
    pub fn send_typed_notification<T: NotificationType>(
        &mut self,
        notification: &T,
        image_exists: bool,
        tag: String,
    ) -> (outcome: Result<PreparedToast, SendError>)
        ensures
            final(self).registered() == old(self).registered(),
            match notification.rendering(tag@, image_exists) {
                Err(fault) => outcome == Err::<PreparedToast, SendError>(
                    SendError::Render(fault),
                ),
                Ok(markup) => if old(self).table().contains_key(tag@) {
                    outcome == Err::<PreparedToast, SendError>(SendError::DuplicateTag)
                } else {
                    outcome matches Ok(toast) && toast.markup@ == markup && toast.tag@ == tag@
                },
            },
            match outcome {
                Ok(_) => {
                    &&& is_entered(
                        old(self).table(),
                        tag@,
                        notification.kept(),
                        final(self).table(),
                    )
                    &&& final(self).table().dom().finite()
                    &&& final(self).table().len() == old(self).table().len() + 1
                },
                Err(_) => final(self).table() == old(self).table(),
            },
    {
        let markup = match notification.prepare_xml(tag.as_str(), image_exists) {
            Ok(markup) => markup,
            Err(e) => {
                return Err(SendError::Render(e));
            },
        };
        let data = notification.get_callback_data();
        let tag_copy = tag.clone();
        if self.notifications.try_insert(tag, data) {
            Ok(PreparedToast { markup, tag: tag_copy })
        } else {
            Err(SendError::DuplicateTag)
        }
    }

    /// Renders a request under a fresh tag and enters it in the table.
    ///
    /// The request is refused where the application is not registered and
    /// where it cannot be rendered; neither depends on the tag. Else a tag
    /// is drawn, and the outcome is that of [`Self::send_with_tag`] with
    /// it: the request is entered under the tag and handed back to be
    /// shown, unless the table holds the tag already. So on success exactly
    /// one tag was made for the request, it is in the table before the
    /// caller can show anything, and the table has grown by one entry. A
    /// request that is neither unregistered nor at fault can only be
    /// refused where the table already holds a correlation tag: on a table
    /// without one, the empty table among them, it succeeds.
    pub fn send_notification(&mut self, request: NotificationRequest, image_exists: bool) -> (outcome:
        Result<PreparedToast, SendError>)
        ensures
            final(self).registered() == old(self).registered(),
            !old(self).registered() ==> outcome == Err::<PreparedToast, SendError>(
                SendError::NotRegistered,
            ),
            old(self).registered() ==> match notification_of(request@).image_fault(image_exists) {
                Some(fault) => outcome == Err::<PreparedToast, SendError>(
                    SendError::Render(fault),
                ),
                None => outcome is Ok || outcome == Err::<PreparedToast, SendError>(
                    SendError::DuplicateTag,
                ),
            },
            match outcome {
                Ok(toast) => {
                    &&& is_correlation_tag(toast.tag@)
                    &&& notification_of(request@).render(toast.tag@, image_exists) == Ok::<
                        Seq<char>,
                        RenderError,
                    >(toast.markup@)
                    &&& is_entered(
                        old(self).table(),
                        toast.tag@,
                        request@.callback_data(),
                        final(self).table(),
                    )
                    &&& final(self).table().dom().finite()
                    &&& final(self).table().len() == old(self).table().len() + 1
                    &&& request@.raw_markup is None ==> has_at(
                        toast.markup@,
                        TOAST_OPEN@.len() as int,
                        toast.tag@,
                    )
                },
                Err(_) => final(self).table() == old(self).table(),
            },
            outcome == Err::<PreparedToast, SendError>(SendError::DuplicateTag) ==> exists|
                held: Seq<char>,
            |
                is_correlation_tag(held) && #[trigger] old(self).table().contains_key(held),
    {
        if !self.is_registered {
            return Err(SendError::NotRegistered);
        }
        let tag = new_tag();
        let ghost drawn = tag@;
        proof {
            let asked = notification_of(request@);
            lemma_tag_stands_in_markup(drawn, asked.image_source(), asked.title, asked.message);
        }
        let outcome = self.send_with_tag(request, image_exists, tag);
        proof {
            if outcome == Err::<PreparedToast, SendError>(SendError::DuplicateTag) {
                assert(is_correlation_tag(drawn) && old(self).table().contains_key(drawn));
            }
        }
        outcome
    }

    /// Decides what an event on the notification tagged `tag` sets off,
    /// by the table of this manager, as [`route_event`] does.
    pub fn handle_event(&self, tag: &str, event: ToastEvent) -> (effects: Vec<SideEffect>)
        ensures
            event is Activated && self.table().contains_key(tag@) ==> exists|
                folder: Option<Seq<char>>,
            |
                {
                    &&& folder_fits(folder_source(self.table()[tag@]), folder)
                    &&& effects.deep_view() == #[trigger] activation_effects(
                        self.table()[tag@],
                        folder,
                    )
                },
            !(event is Activated && self.table().contains_key(tag@)) ==> effects.deep_view()
                == Seq::<SideEffectView>::empty(),
    {
        route_event(&self.notifications, tag, event)
    }
}

} // verus!
