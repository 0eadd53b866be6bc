use crate::errors::ErrorClass;
use crate::notifications::types::{NotificationKind, NotificationRequest, NotificationRequestView};
use crate::text::{begins_with, chars_are_contained, chars_of, has_path_mark, holds_path_mark,
    is_bare_file_name, is_contained_file_name, is_last_index, is_path_mark, range_equals};
use vstd::prelude::*;
use vstd::string::*;
use vstd::utf8::{decode_utf8, valid_utf8};

verus! {

/// The last dot of `filename`, at `dot`, parts a file name from an
/// extension on every platform: `filename` does not begin with a separator
/// or a colon, the dot follows a character of the file name, and what
/// follows the dot is not empty and holds no separator and no colon.
pub open spec fn parts_an_extension(filename: Seq<char>, dot: int) -> bool {
    &&& is_last_index(filename, '.', dot)
    &&& dot > 0
    &&& !is_path_mark(filename[0])
    &&& !is_path_mark(filename[dot - 1])
    &&& dot + 1 < filename.len()
    &&& !has_path_mark(filename.skip(dot + 1))
}

/// What `Path::extension` may return for `filename`. An extension is the
/// part of the file name after its last dot, so it holds no dot; there is
/// none where `filename` holds no dot. Where the last dot of `filename`
/// lies in the file name, the extension is what follows it: that is so for
/// a bare file name, and wherever the dot parts a file name from an
/// extension.
pub open spec fn extension_fits(filename: Seq<char>, extension: Option<Seq<char>>) -> bool {
    &&& extension matches Some(e) ==> !e.contains('.')
    &&& !filename.contains('.') ==> extension is None
    &&& forall|dot: int|
        is_bare_file_name(filename) && #[trigger] is_last_index(filename, '.', dot) ==> extension
            == Some(filename.skip(dot + 1))
    &&& forall|dot: int| #[trigger]
        parts_an_extension(filename, dot) ==> extension == Some(filename.skip(dot + 1))
}

/// Calls `std::path::Path::extension` on `filename`. The extension is the
/// part of the file name after its last dot; there is none where the file
/// name holds no dot, or only the one it begins with. The file name is the
/// last component of the path. Where the components of a path part depends
/// on the platform's path syntax, so the extension is pinned down only
/// where the last dot lies in the last component on every platform: what
/// follows it holds no separator and no colon, what stands before it
/// belongs to the same component, and the path does not begin like a
/// prefix.
#[verifier::external_body]
fn file_extension(filename: &str) -> (extension: Option<String>)
    ensures
        extension_fits(filename@, extension.deep_view()),
{
    match std::path::Path::new(filename).extension() {
        Some(ext) => match ext.to_str() {
            Some(text) => Some(text.to_owned()),
            None => None,
        },
        None => None,
    }
}

/// How the body of a request is laid out.
#[derive(Debug, Clone, Copy, PartialEq, Eq, Structural)]
pub enum BodyKind {
    /// Named parts, some of them files.
    Multipart,
    /// One JSON document that holds the request's fields.
    Json,
    /// One URL-encoded form that holds the title and the message.
    Form,
}

/// The layout that a content type announces.
pub open spec fn body_kind_of(content_type: Seq<char>) -> BodyKind {
    if crate::text::has_prefix(content_type, "multipart/form-data"@) {
        BodyKind::Multipart
    } else if crate::text::has_prefix(content_type, "application/json"@) {
        BodyKind::Json
    } else {
        BodyKind::Form
    }
}

/// Tells from the content type how to read the body: as named parts where
/// it begins with `multipart/form-data`, and as one document otherwise,
/// which is JSON where the type begins with `application/json` and a
/// URL-encoded form where not.
pub fn classify_content_type(content_type: &str) -> (kind: BodyKind)
    ensures
        kind == body_kind_of(content_type@),
{
    let chars = chars_of(content_type);
    if begins_with(&chars, "multipart/form-data") {
        BodyKind::Multipart
    } else if begins_with(&chars, "application/json") {
        BodyKind::Json
    } else {
        BodyKind::Form
    }
}

/// The text fields that a multipart body can set.
#[derive(Debug, Clone, Copy, PartialEq, Eq, Structural)]
pub enum TextField {
    Title,
    Message,
    CallbackCommand,
}

/// The two places for an uploaded file.
#[derive(Debug, Clone, Copy, PartialEq, Eq, Structural)]
pub enum FileSlot {
    /// The notification's one image.
    Image,
    /// One of its attachments.
    Attachment,
}

/// What to do with one part of a multipart body.
#[derive(Debug, Clone, PartialEq, Eq)]
pub enum PartPlan {
    /// Read the whole part into memory, then hand it to
    /// [`MultipartIngest::accept_text`].
    Buffer(TextField),
    /// Store the part in a file named `file_name` in the request's scratch
    /// directory, then hand the file's path to
    /// [`MultipartIngest::accept_file`].
    Store { slot: FileSlot, file_name: String },
    /// Take nothing from the part.
    Skip,
    /// Turn the request away with this error.
    Refuse(IngestError),
}

/// The text field that a part's name selects.
pub open spec fn text_field_named(name: Seq<char>) -> Option<TextField> {
    if name == "title"@ {
        Some(TextField::Title)
    } else if name == "message"@ {
        Some(TextField::Message)
    } else if name == "callback_command"@ {
        Some(TextField::CallbackCommand)
    } else {
        None
    }
}

/// The place for a file that a part's name selects.
pub open spec fn file_slot_named(name: Seq<char>) -> Option<FileSlot> {
    if name == "image"@ {
        Some(FileSlot::Image)
    } else if name == "files"@ {
        Some(FileSlot::Attachment)
    } else {
        None
    }
}

/// The name under which an image is stored: `image.` and the extension
/// of the uploaded file, or `jpg` where it has none.
pub open spec fn image_file_name(extension: Option<Seq<char>>) -> Seq<char> {
    "image."@ + match extension {
        Some(e) => e,
        None => "jpg"@,
    }
}

/// The name under which an image with the given extension is stored.
pub fn name_image_file(extension: Option<&str>) -> (file_name: String)
    ensures
        file_name@ == image_file_name(extension.deep_view()),
{
    let mut file_name = String::from_str("image.");
    match extension {
        Some(e) => file_name.append(e),
        None => file_name.append("jpg"),
    }
    file_name
}

/// What is planned for an upload to the image slot whose file name has the
/// given extension: it is stored under its canonical name, unless the
/// extension holds a path separator or a colon, which is refused.
pub open spec fn image_plan(extension: Option<Seq<char>>) -> Result<Seq<char>, IngestError> {
    if extension matches Some(e) && has_path_mark(e) {
        Err(IngestError::UnsafeFileName(FileSlot::Image))
    } else {
        Ok(image_file_name(extension))
    }
}

/// What is planned for an upload to the attachment slot: it is stored
/// under the name it came with, whatever that is, as long as the name
/// stays in the scratch directory. Refused are only the empty name, `.`,
/// `..` and a name that holds a path separator or a colon.
pub open spec fn attachment_plan(filename: Seq<char>) -> Result<Seq<char>, IngestError> {
    if is_contained_file_name(filename) {
        Ok(filename)
    } else {
        Err(IngestError::UnsafeFileName(FileSlot::Attachment))
    }
}

/// The canonical name of an image stays in its directory where the
/// extension holds no path separator and no colon.
pub proof fn lemma_image_name_is_contained(extension: Option<Seq<char>>)
    requires
        image_plan(extension) is Ok,
    ensures
        is_contained_file_name(image_file_name(extension)),
{
    reveal_strlit("image.");
    reveal_strlit("jpg");
    reveal_strlit(".");
    reveal_strlit("..");
    let tail = match extension {
        Some(e) => e,
        None => "jpg"@,
    };
    let name = image_file_name(extension);
    assert forall|i: int| 0 <= i < name.len() implies !is_path_mark(#[trigger] name[i]) by {
        if i >= 6 {
            assert(name[i] == tail[i - 6]);
        }
    }
}

/// Plans an upload to the image slot whose file name has the given
/// extension.
pub fn plan_image(extension: Option<&str>) -> (plan: PartPlan)
    ensures
        match plan {
            PartPlan::Store { slot, file_name } => slot == FileSlot::Image && image_plan(
                extension.deep_view(),
            ) == Ok::<Seq<char>, IngestError>(file_name@) && is_contained_file_name(file_name@),
            PartPlan::Refuse(error) => image_plan(extension.deep_view()) == Err::<
                Seq<char>,
                IngestError,
            >(error),
            _ => false,
        },
{
    let safe = match extension {
        Some(e) => !holds_path_mark(&chars_of(e)),
        None => true,
    };
    if safe {
        proof {
            lemma_image_name_is_contained(extension.deep_view());
        }
        PartPlan::Store { slot: FileSlot::Image, file_name: name_image_file(extension) }
    } else {
        PartPlan::Refuse(IngestError::UnsafeFileName(FileSlot::Image))
    }
}

/// Plans an upload to the attachment slot that came with the file name
/// `filename`.
pub fn plan_attachment(filename: &str) -> (plan: PartPlan)
    ensures
        match plan {
            PartPlan::Store { slot, file_name } => slot == FileSlot::Attachment && attachment_plan(
                filename@,
            ) == Ok::<Seq<char>, IngestError>(file_name@) && is_contained_file_name(file_name@),
            PartPlan::Refuse(error) => attachment_plan(filename@) == Err::<
                Seq<char>,
                IngestError,
            >(error),
            _ => false,
        },
{
    if chars_are_contained(&chars_of(filename)) {
        PartPlan::Store { slot: FileSlot::Attachment, file_name: String::from_str(filename) }
    } else {
        PartPlan::Refuse(IngestError::UnsafeFileName(FileSlot::Attachment))
    }
}

/// Decides what to do with the part called `name`, which was sent with the
/// file name `filename` if it is an upload.
///
/// `title`, `message` and `callback_command` are read as text. `image` and
/// `files` are stored where they come with a file name: the image under
/// its canonical name, an attachment under the name it came with. Every
/// file is stored under a name that stays in its directory, so that joined
/// to the scratch directory it names a file in that directory and nowhere
/// else. Only what could leave the directory is refused, as a fault of the
/// client: an attachment named by the empty text, `.` or `..` or with a
/// path separator or a colon in its name, and an image whose extension
/// holds a path separator or a colon. A part of any other name is passed
/// over.
pub fn plan_part(name: &str, filename: Option<&str>) -> (plan: PartPlan)
    ensures
        match plan {
            PartPlan::Buffer(field) => text_field_named(name@) == Some(field),
            PartPlan::Store { slot, file_name } => {
                &&& file_slot_named(name@) == Some(slot)
                &&& filename matches Some(f)
                &&& is_contained_file_name(file_name@)
                &&& match slot {
                    FileSlot::Image => exists|extension: Option<Seq<char>>|
                        extension_fits(f@, extension) && #[trigger] image_plan(extension) == Ok::<
                            Seq<char>,
                            IngestError,
                        >(file_name@),
                    FileSlot::Attachment => attachment_plan(f@) == Ok::<Seq<char>, IngestError>(
                        file_name@,
                    ),
                }
            },
            PartPlan::Skip => {
                &&& text_field_named(name@) is None
                &&& file_slot_named(name@) is None || filename is None
            },
            PartPlan::Refuse(error) => {
                &&& text_field_named(name@) is None
                &&& filename matches Some(f)
                &&& match file_slot_named(name@) {
                    Some(FileSlot::Image) => exists|extension: Option<Seq<char>>|
                        extension_fits(f@, extension) && #[trigger] image_plan(extension) == Err::<
                            Seq<char>,
                            IngestError,
                        >(error),
                    Some(FileSlot::Attachment) => attachment_plan(f@) == Err::<
                        Seq<char>,
                        IngestError,
                    >(error),
                    None => false,
                }
            },
        },
{
    let chars = chars_of(name);
    let end = chars.len();
    assert(chars@.subrange(0, end as int) =~= name@);
    if range_equals(&chars, 0, end, "title") {
        PartPlan::Buffer(TextField::Title)
    } else if range_equals(&chars, 0, end, "message") {
        PartPlan::Buffer(TextField::Message)
    } else if range_equals(&chars, 0, end, "callback_command") {
        PartPlan::Buffer(TextField::CallbackCommand)
    } else if range_equals(&chars, 0, end, "image") {
        match filename {
            Some(f) => {
                let extension = file_extension(f);
                match &extension {
                    Some(e) => plan_image(Some(e.as_str())),
                    None => plan_image(None),
                }
            },
            None => PartPlan::Skip,
        }
    } else if range_equals(&chars, 0, end, "files") {
        match filename {
            Some(f) => plan_attachment(f),
            None => PartPlan::Skip,
        }
    } else {
        PartPlan::Skip
    }
}

/// Why a body could not be turned into a request.
#[derive(Debug, Clone, Copy, PartialEq, Eq, Structural)]
pub enum IngestError {
    /// A text part is not well-formed UTF-8.
    InvalidEncoding(TextField),
    /// An upload's file name could name a file outside the scratch
    /// directory.
    UnsafeFileName(FileSlot),
    /// The body does not have the layout that its content type announces.
    Malformed,
    /// The scratch directory could not be made.
    ScratchDir,
    /// A file for an upload could not be made.
    CreateFile(FileSlot),
    /// An upload could not be written to its file.
    WriteFile(FileSlot),
}

impl IngestError {
    /// The class of this failure.
    pub open spec fn spec_class(self) -> ErrorClass {
        match self {
            IngestError::InvalidEncoding(_) => ErrorClass::ClientInput,
            IngestError::UnsafeFileName(_) => ErrorClass::ClientInput,
            IngestError::Malformed => ErrorClass::ClientInput,
            IngestError::ScratchDir => ErrorClass::Resource,
            IngestError::CreateFile(_) => ErrorClass::Resource,
            IngestError::WriteFile(_) => ErrorClass::Resource,
        }
    }

    /// The text that describes this failure to the client.
    pub open spec fn spec_message(self) -> Seq<char> {
        match self {
            IngestError::InvalidEncoding(TextField::Title) => "Invalid title encoding"@,
            IngestError::InvalidEncoding(TextField::Message) => "Invalid message encoding"@,
            IngestError::InvalidEncoding(TextField::CallbackCommand) =>
                "Invalid callback_command encoding"@,
            IngestError::UnsafeFileName(FileSlot::Image) => "Invalid image file name"@,
            IngestError::UnsafeFileName(FileSlot::Attachment) => "Invalid file name"@,
            IngestError::Malformed => "Invalid form data"@,
            IngestError::ScratchDir => "Failed to create temp directory"@,
            IngestError::CreateFile(FileSlot::Image) => "Failed to create image file"@,
            IngestError::CreateFile(FileSlot::Attachment) => "Failed to create file"@,
            IngestError::WriteFile(FileSlot::Image) => "Failed to save image"@,
            IngestError::WriteFile(FileSlot::Attachment) => "Failed to save file"@,
        }
    }

    /// The class of this failure: a fault of the client where the body is
    /// at fault, a resource failure where the file system is.
    #[verifier::when_used_as_spec(spec_class)]
    pub fn class(self) -> (class: ErrorClass)
        ensures
            class == self.spec_class(),
    {
        match self {
            IngestError::InvalidEncoding(_) => ErrorClass::ClientInput,
            IngestError::UnsafeFileName(_) => ErrorClass::ClientInput,
            IngestError::Malformed => ErrorClass::ClientInput,
            IngestError::ScratchDir => ErrorClass::Resource,
            IngestError::CreateFile(_) => ErrorClass::Resource,
            IngestError::WriteFile(_) => ErrorClass::Resource,
        }
    }

    /// The text that describes this failure to the client.
    pub fn message(self) -> (text: String)
        ensures
            text@ == self.spec_message(),
    {
        let text = match self {
            IngestError::InvalidEncoding(TextField::Title) => "Invalid title encoding",
            IngestError::InvalidEncoding(TextField::Message) => "Invalid message encoding",
            IngestError::InvalidEncoding(TextField::CallbackCommand) =>
                "Invalid callback_command encoding",
            IngestError::UnsafeFileName(FileSlot::Image) => "Invalid image file name",
            IngestError::UnsafeFileName(FileSlot::Attachment) => "Invalid file name",
            IngestError::Malformed => "Invalid form data",
            IngestError::ScratchDir => "Failed to create temp directory",
            IngestError::CreateFile(FileSlot::Image) => "Failed to create image file",
            IngestError::CreateFile(FileSlot::Attachment) => "Failed to create file",
            IngestError::WriteFile(FileSlot::Image) => "Failed to save image",
            IngestError::WriteFile(FileSlot::Attachment) => "Failed to save file",
        };
        String::from_str(text)
    }
}

/// The fields gathered so far from the parts of one multipart body.
#[derive(Debug, Clone, PartialEq, Eq)]
pub struct MultipartIngest {
    title: String,
    message: String,
    image_path: Option<String>,
    file_paths: Vec<String>,
    callback_command: Option<String>,
}

/// Mathematical content of a [`MultipartIngest`].
pub struct MultipartIngestView {
    pub title: Seq<char>,
    pub message: Seq<char>,
    pub image_path: Option<Seq<char>>,
    pub file_paths: Seq<Seq<char>>,
    pub callback_command: Option<Seq<char>>,
}

impl MultipartIngestView {
    /// The state before any part was read.
    pub open spec fn empty() -> Self {
        MultipartIngestView {
            title: Seq::empty(),
            message: Seq::empty(),
            image_path: None,
            file_paths: Seq::empty(),
            callback_command: None,
        }
    }

    /// The state after a text part was read.
    pub open spec fn with_text(self, field: TextField, text: Seq<char>) -> Self {
        match field {
            TextField::Title => MultipartIngestView { title: text, ..self },
            TextField::Message => MultipartIngestView { message: text, ..self },
            TextField::CallbackCommand => MultipartIngestView {
                callback_command: Some(text),
                ..self
            },
        }
    }

    /// The state after an upload was stored at `path`.
    pub open spec fn with_file(self, slot: FileSlot, path: Seq<char>) -> Self {
        match slot {
            FileSlot::Image => MultipartIngestView { image_path: Some(path), ..self },
            FileSlot::Attachment => MultipartIngestView {
                file_paths: self.file_paths.push(path),
                ..self
            },
        }
    }

    /// The request that the gathered fields make.
    pub open spec fn request(self) -> NotificationRequestView {
        NotificationRequestView {
            title: self.title,
            message: self.message,
            notification_type: NotificationKind::Basic,
            image_path: self.image_path,
            image_data: None,
            file_paths: if self.file_paths.len() == 0 {
                None
            } else {
                Some(self.file_paths)
            },
            callback_command: self.callback_command,
            raw_markup: None,
        }
    }
}

impl View for MultipartIngest {
    type V = MultipartIngestView;

    closed spec fn view(&self) -> MultipartIngestView {
        MultipartIngestView {
            title: self.title@,
            message: self.message@,
            image_path: self.image_path.deep_view(),
            file_paths: self.file_paths.deep_view(),
            callback_command: self.callback_command.deep_view(),
        }
    }
}

impl MultipartIngest {
    /// The state before any part was read.
    pub fn new() -> (state: Self)
        ensures
            state@ == MultipartIngestView::empty(),
    {
        let state = MultipartIngest {
            title: String::new(),
            message: String::new(),
            image_path: None,
            file_paths: Vec::new(),
            callback_command: None,
        };
        assert(state.file_paths.deep_view() =~= Seq::empty());
        state
    }

    /// Takes the bytes of a text part. Where they are well-formed UTF-8 the
    /// field is set to the text they encode, in place of what an earlier
    /// part of that name set. Where they are not, nothing changes and the
    /// error names the field.
    pub fn accept_text(&mut self, field: TextField, content: Vec<u8>) -> (outcome: Result<
        (),
        IngestError,
    >)
        ensures
            valid_utf8(content@) ==> outcome is Ok && final(self)@ == old(self)@.with_text(
                field,
                decode_utf8(content@),
            ),
            !valid_utf8(content@) ==> outcome == Err::<(), IngestError>(
                IngestError::InvalidEncoding(field),
            ) && final(self)@ == old(self)@,
    {
        match String::from_utf8(content) {
            Ok(text) => {
                match field {
                    TextField::Title => {
                        self.title = text;
                    },
                    TextField::Message => {
                        self.message = text;
                    },
                    TextField::CallbackCommand => {
                        self.callback_command = Some(text);
                    },
                }
                Ok(())
            },
            Err(_) => Err(IngestError::InvalidEncoding(field)),
        }
    }

    /// Records that an upload was stored at `path`: as the image, in place
    /// of an earlier one, or as the next attachment.
    pub fn accept_file(&mut self, slot: FileSlot, path: String)
        ensures
            final(self)@ == old(self)@.with_file(slot, path@),
    {
        match slot {
            FileSlot::Image => {
                self.image_path = Some(path);
            },
            FileSlot::Attachment => {
                self.file_paths.push(path);
                assert(self.file_paths.deep_view() =~= old(self).file_paths.deep_view().push(
                    path@,
                ));
            },
        }
    }

    /// The request that the parts read so far make. The list of attachments
    /// is absent where none was stored.
    pub fn finish(self) -> (request: NotificationRequest)
        ensures
            request@ == self@.request(),
    {
        let file_paths = if self.file_paths.len() == 0 {
            None
        } else {
            Some(self.file_paths)
        };
        NotificationRequest {
            title: self.title,
            message: self.message,
            notification_type: NotificationKind::Basic,
            image_path: self.image_path,
            image_data: None,
            file_paths,
            callback_command: self.callback_command,
            raw_markup: None,
        }
    }
}

} // verus!
