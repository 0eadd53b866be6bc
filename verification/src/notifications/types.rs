use crate::errors::ErrorClass;
use vstd::prelude::*;
use vstd::string::*;

verus! {

/// The kinds of notification the server can show.
#[derive(Debug, Clone, Copy, PartialEq, Eq, Structural)]
pub enum NotificationKind {
    Basic,
}

impl Default for NotificationKind {
    /// The basic kind.
    fn default() -> (kind: Self)
        ensures
            kind == NotificationKind::Basic,
    {
        NotificationKind::Basic
    }
}

/// A request to show one notification, in canonical form.
///
/// At most one of `image_path` and `image_data` may be set; a request that
/// sets both is rejected when it is rendered.
#[derive(Debug, Clone, PartialEq, Eq)]
pub struct NotificationRequest {
    pub title: String,
    pub message: String,
    pub notification_type: NotificationKind,
    /// Path of an image file on this machine.
    pub image_path: Option<String>,
    /// Image given inline, already encoded for use as an image source.
    pub image_data: Option<String>,
    /// Paths of attached files, in the order they were sent.
    pub file_paths: Option<Vec<String>>,
    /// Shell command to run when the notification is activated.
    pub callback_command: Option<String>,
    /// Markup to show instead of the built-in template.
    pub raw_markup: Option<String>,
}

/// Mathematical content of a [`NotificationRequest`].
pub struct NotificationRequestView {
    pub title: Seq<char>,
    pub message: Seq<char>,
    pub notification_type: NotificationKind,
    pub image_path: Option<Seq<char>>,
    pub image_data: Option<Seq<char>>,
    pub file_paths: Option<Seq<Seq<char>>>,
    pub callback_command: Option<Seq<char>>,
    pub raw_markup: Option<Seq<char>>,
}

impl View for NotificationRequest {
    type V = NotificationRequestView;

    open spec fn view(&self) -> NotificationRequestView {
        NotificationRequestView {
            title: self.title@,
            message: self.message@,
            notification_type: self.notification_type,
            image_path: self.image_path.deep_view(),
            image_data: self.image_data.deep_view(),
            file_paths: self.file_paths.deep_view(),
            callback_command: self.callback_command.deep_view(),
            raw_markup: self.raw_markup.deep_view(),
        }
    }
}

/// What is kept of a notification to react to a later event on it.
#[derive(Debug, Clone, PartialEq, Eq)]
pub struct NotificationData {
    pub callback_command: Option<String>,
    pub message: String,
    pub image_path: Option<String>,
    pub file_paths: Option<Vec<String>>,
}

/// Mathematical content of a [`NotificationData`].
pub struct NotificationDataView {
    pub callback_command: Option<Seq<char>>,
    pub message: Seq<char>,
    pub image_path: Option<Seq<char>>,
    pub file_paths: Option<Seq<Seq<char>>>,
}

impl View for NotificationData {
    type V = NotificationDataView;

    open spec fn view(&self) -> NotificationDataView {
        NotificationDataView {
            callback_command: self.callback_command.deep_view(),
            message: self.message@,
            image_path: self.image_path.deep_view(),
            file_paths: self.file_paths.deep_view(),
        }
    }
}

impl NotificationRequestView {
    /// The part of a request that is kept for its later events.
    pub open spec fn callback_data(self) -> NotificationDataView {
        NotificationDataView {
            callback_command: self.callback_command,
            message: self.message,
            image_path: self.image_path,
            file_paths: self.file_paths,
        }
    }
}

/// Why a notification could not be rendered.
#[derive(Debug, Clone, Copy, PartialEq, Eq, Structural)]
pub enum RenderError {
    /// Both an image file and inline image data were given.
    ConflictingImage,
    /// The image file does not exist.
    ImageNotFound,
}

impl RenderError {
    /// The class of this failure.
    pub open spec fn spec_class(self) -> ErrorClass {
        match self {
            RenderError::ConflictingImage => ErrorClass::ClientInput,
            RenderError::ImageNotFound => ErrorClass::Platform,
        }
    }

    /// The text that describes this failure.
    pub open spec fn spec_message(self) -> Seq<char> {
        match self {
            RenderError::ConflictingImage => "Image path and image data are mutually exclusive"@,
            RenderError::ImageNotFound => "Image file not found"@,
        }
    }

    /// The class of this failure: conflicting image inputs are the
    /// client's fault, a missing file is a failure to render.
    #[verifier::when_used_as_spec(spec_class)]
    pub fn class(self) -> (class: ErrorClass)
        ensures
            class == self.spec_class(),
    {
        match self {
            RenderError::ConflictingImage => ErrorClass::ClientInput,
            RenderError::ImageNotFound => ErrorClass::Platform,
        }
    }

    /// The text that describes this failure.
    pub fn message(self) -> (text: String)
        ensures
            text@ == self.spec_message(),
    {
        let text = match self {
            RenderError::ConflictingImage => "Image path and image data are mutually exclusive",
            RenderError::ImageNotFound => "Image file not found",
        };
        String::from_str(text)
    }
}

/// A kind of notification: it can be rendered to markup, and it says what
/// is kept of it for the events that come back.
pub trait NotificationType {
    /// What rendering under `tag` gives, where `image_exists` says whether
    /// the image file that the notification names is there.
    spec fn rendering(&self, tag: Seq<char>, image_exists: bool) -> Result<Seq<char>, RenderError>;

    /// What is kept of the notification for its later events.
    spec fn kept(&self) -> NotificationDataView;

    /// Renders the markup of this notification under `tag`.
    fn prepare_xml(&self, tag: &str, image_exists: bool) -> (markup: Result<String, RenderError>)
        ensures
            match markup {
                Ok(text) => self.rendering(tag@, image_exists) == Ok::<Seq<char>, RenderError>(
                    text@,
                ),
                Err(e) => self.rendering(tag@, image_exists) == Err::<Seq<char>, RenderError>(e),
            },
    ;

    /// What is kept of this notification for its later events.
    fn get_callback_data(&self) -> (data: NotificationData)
        ensures
            data@ == self.kept(),
    ;
}

/// A copy of an optional string.
pub fn copy_text(text: &Option<String>) -> (copy: Option<String>)
    ensures
        copy.deep_view() == text.deep_view(),
{
    match text {
        Some(s) => Some(s.clone()),
        None => None,
    }
}

/// A copy of a list of strings.
pub fn copy_list(list: &Vec<String>) -> (copy: Vec<String>)
    ensures
        copy.deep_view() == list.deep_view(),
{
    let mut copy: Vec<String> = Vec::new();
    let mut i: usize = 0;
    while i < list.len()
        invariant
            i <= list.len(),
            copy.len() == i,
            forall|j: int| 0 <= j < i ==> copy[j]@ == list[j]@,
        decreases list.len() - i,
    {
        copy.push(list[i].clone());
        i += 1;
    }
    copy
}

impl NotificationRequest {
    /// The request that a form with the two text fields `title` and
    /// `message` stands for: a field that is absent is empty, and nothing
    /// else is set.
    pub fn from_form(title: Option<String>, message: Option<String>) -> (request: Self)
        ensures
            request@ == (NotificationRequestView {
                title: match title {
                    Some(t) => t@,
                    None => Seq::empty(),
                },
                message: match message {
                    Some(m) => m@,
                    None => Seq::empty(),
                },
                notification_type: NotificationKind::Basic,
                image_path: None,
                image_data: None,
                file_paths: None,
                callback_command: None,
                raw_markup: None,
            }),
    {
        let title = match title {
            Some(t) => t,
            None => String::new(),
        };
        let message = match message {
            Some(m) => m,
            None => String::new(),
        };
        NotificationRequest {
            title,
            message,
            notification_type: NotificationKind::Basic,
            image_path: None,
            image_data: None,
            file_paths: None,
            callback_command: None,
            raw_markup: None,
        }
    }
}

} // verus!
