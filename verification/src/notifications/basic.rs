use crate::notifications::markup::{escape_xml, escaped, has_at, is_inert_at, lemma_escaped_is_inert,
    lemma_inert_inside};
use crate::notifications::tag::{is_correlation_tag, lemma_tag_needs_no_escaping};
use crate::notifications::types::{copy_list, copy_text, NotificationData, NotificationDataView,
    NotificationRequest, NotificationType, RenderError};
use vstd::prelude::*;
use vstd::string::*;

verus! {

/// The template up to the tag.
pub const TOAST_OPEN: &'static str = "<toast launch=\"action=mainContent&amp;tag=";

/// The template between the tag and the image.
pub const TOAST_VISUAL: &'static str =
    "\" activationType=\"foreground\" duration=\"long\">\n    <visual>\n        <binding template=\"ToastGeneric\">\n            ";

/// The template between the image and the title.
pub const TOAST_TITLE: &'static str = "\n            <text>";

/// The template between the title and the message.
pub const TOAST_MESSAGE: &'static str = "</text>\n            <text>";

/// The template after the message.
pub const TOAST_CLOSE: &'static str =
    "</text>\n        </binding>\n    </visual>\n    <audio src=\"ms-winsoundevent:Notification.Default\"/>\n</toast>";

/// The image element up to its source.
pub const IMAGE_OPEN: &'static str = "<image placement=\"hero\" src=\"";

/// The image element after its source.
pub const IMAGE_CLOSE: &'static str = "\" />";

/// A notification of the basic kind: a title and a message, with an image
/// above them if one is given.
#[derive(Debug, Clone, PartialEq, Eq)]
pub struct BasicNotification {
    pub title: String,
    pub message: String,
    pub image_path: Option<String>,
    pub image_data: Option<String>,
    pub file_paths: Option<Vec<String>>,
    pub callback_command: Option<String>,
    pub raw_markup: Option<String>,
}

/// Mathematical content of a [`BasicNotification`].
pub struct BasicNotificationView {
    pub title: Seq<char>,
    pub message: Seq<char>,
    pub image_path: Option<Seq<char>>,
    pub image_data: Option<Seq<char>>,
    pub file_paths: Option<Seq<Seq<char>>>,
    pub callback_command: Option<Seq<char>>,
    pub raw_markup: Option<Seq<char>>,
}

impl View for BasicNotification {
    type V = BasicNotificationView;

    open spec fn view(&self) -> BasicNotificationView {
        BasicNotificationView {
            title: self.title@,
            message: self.message@,
            image_path: self.image_path.deep_view(),
            image_data: self.image_data.deep_view(),
            file_paths: self.file_paths.deep_view(),
            callback_command: self.callback_command.deep_view(),
            raw_markup: self.raw_markup.deep_view(),
        }
    }
}

impl From<NotificationRequest> for BasicNotification {
    /// The basic notification that a request asks for: every field is
    /// taken over as it is.
    fn from(request: NotificationRequest) -> (notification: Self) {
        BasicNotification {
            title: request.title,
            message: request.message,
            image_path: request.image_path,
            image_data: request.image_data,
            file_paths: request.file_paths,
            callback_command: request.callback_command,
            raw_markup: request.raw_markup,
        }
    }
}

impl vstd::std_specs::convert::FromSpecImpl<NotificationRequest> for BasicNotification {
    open spec fn obeys_from_spec() -> bool {
        true
    }

    open spec fn from_spec(request: NotificationRequest) -> Self {
        BasicNotification {
            title: request.title,
            message: request.message,
            image_path: request.image_path,
            image_data: request.image_data,
            file_paths: request.file_paths,
            callback_command: request.callback_command,
            raw_markup: request.raw_markup,
        }
    }
}

/// The image element for an image source, and nothing where there is no
/// image. The source is escaped.
pub open spec fn image_element(source: Option<Seq<char>>) -> Seq<char> {
    match source {
        Some(src) => IMAGE_OPEN@ + escaped(src) + IMAGE_CLOSE@,
        None => Seq::empty(),
    }
}

/// What the template has before the title.
pub open spec fn markup_before_title(tag: Seq<char>, image: Option<Seq<char>>) -> Seq<char> {
    TOAST_OPEN@ + escaped(tag) + TOAST_VISUAL@ + image_element(image) + TOAST_TITLE@
}

/// The template with the tag, the image, the title and the message set in,
/// each of them escaped.
pub open spec fn template_markup(
    tag: Seq<char>,
    image: Option<Seq<char>>,
    title: Seq<char>,
    message: Seq<char>,
) -> Seq<char> {
    markup_before_title(tag, image) + escaped(title) + TOAST_MESSAGE@ + escaped(message)
        + TOAST_CLOSE@
}

impl BasicNotificationView {
    /// The source of the image: the file where one is given, else the
    /// inline data.
    pub open spec fn image_source(self) -> Option<Seq<char>> {
        match self.image_path {
            Some(path) => Some(path),
            None => self.image_data,
        }
    }

    /// The markup of this notification under `tag`: the raw markup where
    /// the notification brings its own, the filled-in template where not.
    pub open spec fn markup(self, tag: Seq<char>) -> Seq<char> {
        match self.raw_markup {
            Some(raw) => raw,
            None => template_markup(tag, self.image_source(), self.title, self.message),
        }
    }

    /// What is wrong with the image inputs, where `image_exists` says
    /// whether the image file is there: both an image file and inline data
    /// are given, or the image file that is given is missing.
    pub open spec fn image_fault(self, image_exists: bool) -> Option<RenderError> {
        if self.image_path is Some && self.image_data is Some {
            Some(RenderError::ConflictingImage)
        } else if self.image_path is Some && !image_exists {
            Some(RenderError::ImageNotFound)
        } else {
            None
        }
    }

    /// What rendering under `tag` gives: the fault of the image inputs
    /// where they have one, the markup where not.
    pub open spec fn render(self, tag: Seq<char>, image_exists: bool) -> Result<
        Seq<char>,
        RenderError,
    > {
        match self.image_fault(image_exists) {
            Some(fault) => Err(fault),
            None => Ok(self.markup(tag)),
        }
    }

    /// What is kept for later events.
    pub open spec fn callback_data(self) -> NotificationDataView {
        NotificationDataView {
            callback_command: self.callback_command,
            message: self.message,
            image_path: self.image_path,
            file_paths: self.file_paths,
        }
    }
}

/// The image element for an image source.
fn render_image(source: Option<&str>) -> (element: String)
    ensures
        element@ == image_element(source.deep_view()),
{
    match source {
        Some(src) => {
            let mut element = String::from_str(IMAGE_OPEN);
            let src_text = escape_xml(src);
            element.append(src_text.as_str());
            element.append(IMAGE_CLOSE);
            element
        },
        None => String::new(),
    }
}

impl NotificationType for BasicNotification {
    open spec fn rendering(&self, tag: Seq<char>, image_exists: bool) -> Result<
        Seq<char>,
        RenderError,
    > {
        self@.render(tag, image_exists)
    }

    open spec fn kept(&self) -> NotificationDataView {
        self@.callback_data()
    }

    /// Renders the markup of this notification under `tag`. `image_exists`
    /// says whether the file at `image_path` is there; it is not read where
    /// no image file is given.
    ///
    /// A notification with both an image file and inline image data is
    /// refused, and so is one whose image file is missing. Inline image
    /// data is set in unchecked. Tag, image source, title and message are
    /// escaped before they are set into the template. Raw markup, where
    /// given, takes the place of the template as it is.
    fn prepare_xml(&self, tag: &str, image_exists: bool) -> (markup: Result<String, RenderError>)
        ensures
            self.image_path is Some && self.image_data is Some ==> markup == Err::<
                String,
                RenderError,
            >(RenderError::ConflictingImage),
    {
        if self.image_path.is_some() && self.image_data.is_some() {
            return Err(RenderError::ConflictingImage);
        }
        let source = match &self.image_path {
            Some(path) => {
                if !image_exists {
                    return Err(RenderError::ImageNotFound);
                }
                Some(path.as_str())
            },
            None => match &self.image_data {
                Some(data) => Some(data.as_str()),
                None => None,
            },
        };
        if let Some(raw) = &self.raw_markup {
            return Ok(raw.clone());
        }
        let mut text = String::from_str(TOAST_OPEN);
        let tag_text = escape_xml(tag);
        text.append(tag_text.as_str());
        text.append(TOAST_VISUAL);
        let image = render_image(source);
        text.append(image.as_str());
        text.append(TOAST_TITLE);
        let title = escape_xml(self.title.as_str());
        text.append(title.as_str());
        text.append(TOAST_MESSAGE);
        let message = escape_xml(self.message.as_str());
        text.append(message.as_str());
        text.append(TOAST_CLOSE);
        Ok(text)
    }

    /// What is kept of this notification for its later events.
    fn get_callback_data(&self) -> (data: NotificationData) {
        let file_paths = match &self.file_paths {
            Some(list) => Some(copy_list(list)),
            None => None,
        };
        NotificationData {
            callback_command: copy_text(&self.callback_command),
            message: self.message.clone(),
            image_path: copy_text(&self.image_path),
            file_paths,
        }
    }
}

/// In the filled-in template the escaped tag stands right after the
/// opening of the launch attribute. A correlation tag is its own escaped
/// form, so it stands there as it is.
pub proof fn lemma_tag_stands_in_markup(
    tag: Seq<char>,
    image: Option<Seq<char>>,
    title: Seq<char>,
    message: Seq<char>,
)
    ensures
        has_at(template_markup(tag, image, title, message), TOAST_OPEN@.len() as int, escaped(tag)),
        is_correlation_tag(tag) ==> has_at(
            template_markup(tag, image, title, message),
            TOAST_OPEN@.len() as int,
            tag,
        ),
{
    let markup = template_markup(tag, image, title, message);
    let at = TOAST_OPEN@.len() as int;
    assert(markup.subrange(at, at + escaped(tag).len()) =~= escaped(tag));
    if is_correlation_tag(tag) {
        lemma_tag_needs_no_escaping(tag);
    }
}

/// In the filled-in template the escaped title and the escaped message
/// stand at their places, and no place inside either holds a quote, an
/// angle bracket, or an ampersand that does not begin an entity: nothing in
/// the title or the message can end the element it stands in or begin
/// another.
pub proof fn lemma_user_text_is_inert_in_markup(
    tag: Seq<char>,
    image: Option<Seq<char>>,
    title: Seq<char>,
    message: Seq<char>,
)
    ensures
        ({
            let markup = template_markup(tag, image, title, message);
            let title_at = markup_before_title(tag, image).len() as int;
            let message_at = title_at + escaped(title).len() + TOAST_MESSAGE@.len();
            &&& has_at(markup, title_at, escaped(title))
            &&& has_at(markup, message_at, escaped(message))
            &&& forall|at: int|
                title_at <= at < title_at + escaped(title).len() ==> is_inert_at(markup, at)
            &&& forall|at: int|
                message_at <= at < message_at + escaped(message).len() ==> is_inert_at(
                    markup,
                    at,
                )
        }),
{
    let markup = template_markup(tag, image, title, message);
    let head = markup_before_title(tag, image);
    let title_at = head.len() as int;
    let message_at = title_at + escaped(title).len() + TOAST_MESSAGE@.len();
    lemma_escaped_is_inert(title);
    lemma_escaped_is_inert(message);
    let after_title = TOAST_MESSAGE@ + escaped(message) + TOAST_CLOSE@;
    let before_message = head + escaped(title) + TOAST_MESSAGE@;
    assert(markup =~= head + escaped(title) + after_title);
    lemma_inert_inside(head, escaped(title), after_title);
    lemma_inert_inside(before_message, escaped(message), TOAST_CLOSE@);
    assert(markup.subrange(title_at, title_at + escaped(title).len()) =~= escaped(title));
    assert(markup.subrange(message_at, message_at + escaped(message).len()) =~= escaped(message));
}

} // verus!
