use notification_server::errors::ErrorClass;
use notification_server::notifications::basic::BasicNotification;
use notification_server::notifications::markup::escape_xml;
use notification_server::notifications::tag::{new_scratch_name, new_tag};
use notification_server::notifications::types::{
    NotificationData, NotificationKind, NotificationRequest, NotificationType, RenderError,
};

const TAG: &str = "notification_123e4567-e89b-42d3-a456-426614174000";

fn basic(title: &str, message: &str) -> BasicNotification {
    BasicNotification {
        title: title.to_string(),
        message: message.to_string(),
        image_path: None,
        image_data: None,
        file_paths: None,
        callback_command: None,
        raw_markup: None,
    }
}

fn expected_markup(tag: &str, image: &str, title: &str, message: &str) -> String {
    format!(
        "<toast launch=\"action=mainContent&amp;tag={}\" activationType=\"foreground\" duration=\"long\">\n    <visual>\n        <binding template=\"ToastGeneric\">\n            {}\n            <text>{}</text>\n            <text>{}</text>\n        </binding>\n    </visual>\n    <audio src=\"ms-winsoundevent:Notification.Default\"/>\n</toast>",
        tag, image, title, message
    )
}

#[test]
fn escape_ampersand() {
    assert_eq!(escape_xml("A & B"), "A &amp; B");
}

#[test]
fn escape_angle_brackets() {
    assert_eq!(escape_xml("<ok>"), "&lt;ok&gt;");
}

#[test]
fn escape_quote() {
    assert_eq!(escape_xml("say \"hi\""), "say &quot;hi&quot;");
}

#[test]
fn escape_leaves_other_text_alone() {
    assert_eq!(escape_xml(""), "");
    assert_eq!(escape_xml("plain text 123 'single' ;"), "plain text 123 'single' ;");
    assert_eq!(escape_xml("gr\u{fc}\u{df}e \u{1f600}"), "gr\u{fc}\u{df}e \u{1f600}");
}

#[test]
fn escape_does_not_skip_entities_already_there() {
    assert_eq!(escape_xml("&amp;"), "&amp;amp;");
    assert_eq!(escape_xml("&<>\""), "&amp;&lt;&gt;&quot;");
}

#[test]
fn render_plain_notification() {
    let markup = basic("Hello", "World").prepare_xml(TAG, false).unwrap();
    assert_eq!(markup, expected_markup(TAG, "", "Hello", "World"));
}

#[test]
fn render_escapes_title_and_message() {
    let markup = basic("A & B", "<ok>").prepare_xml(TAG, false).unwrap();
    assert_eq!(markup, expected_markup(TAG, "", "A &amp; B", "&lt;ok&gt;"));
    assert!(markup.contains("<text>A &amp; B</text>"));
    assert!(markup.contains("<text>&lt;ok&gt;</text>"));
}

#[test]
fn render_does_not_fill_placeholders_inside_user_text() {
    let markup = basic("{message}", "{image}{tag}").prepare_xml(TAG, false).unwrap();
    assert_eq!(markup, expected_markup(TAG, "", "{message}", "{image}{tag}"));
}

#[test]
fn render_with_image_file() {
    let mut n = basic("t", "m");
    n.image_path = Some("/tmp/pics/cat.png".to_string());
    let markup = n.prepare_xml(TAG, true).unwrap();
    assert_eq!(
        markup,
        expected_markup(TAG, "<image placement=\"hero\" src=\"/tmp/pics/cat.png\" />", "t", "m")
    );
}

#[test]
fn render_escapes_image_source() {
    let mut n = basic("t", "m");
    n.image_path = Some("/tmp/a&b/\"c\".png".to_string());
    let markup = n.prepare_xml(TAG, true).unwrap();
    assert_eq!(
        markup,
        expected_markup(
            TAG,
            "<image placement=\"hero\" src=\"/tmp/a&amp;b/&quot;c&quot;.png\" />",
            "t",
            "m"
        )
    );
}

#[test]
fn render_missing_image_file_is_not_found() {
    let mut n = basic("t", "m");
    n.image_path = Some("/no/such/file.png".to_string());
    assert_eq!(n.prepare_xml(TAG, false), Err(RenderError::ImageNotFound));
}

#[test]
fn render_inline_image_needs_no_file() {
    let mut n = basic("t", "m");
    n.image_data = Some("data:image/png;base64,AAAA".to_string());
    let markup = n.prepare_xml(TAG, false).unwrap();
    assert_eq!(
        markup,
        expected_markup(
            TAG,
            "<image placement=\"hero\" src=\"data:image/png;base64,AAAA\" />",
            "t",
            "m"
        )
    );
}

#[test]
fn render_rejects_both_image_inputs() {
    let mut n = basic("t", "m");
    n.image_path = Some("/tmp/pics/cat.png".to_string());
    n.image_data = Some("AAAA".to_string());
    assert_eq!(n.prepare_xml(TAG, true), Err(RenderError::ConflictingImage));
    assert_eq!(n.prepare_xml(TAG, false), Err(RenderError::ConflictingImage));
}

#[test]
fn render_raw_markup_as_given() {
    let mut n = basic("A & B", "<ok>");
    n.raw_markup = Some("<toast><visual/></toast>".to_string());
    assert_eq!(n.prepare_xml(TAG, false).unwrap(), "<toast><visual/></toast>");
    n.image_path = Some("/no/such/file.png".to_string());
    assert_eq!(n.prepare_xml(TAG, false), Err(RenderError::ImageNotFound));
}

#[test]
fn render_is_the_same_for_the_same_input() {
    let a = basic("x", "y").prepare_xml(TAG, false).unwrap();
    let b = basic("x", "y").prepare_xml(TAG, false).unwrap();
    assert_eq!(a, b);
}

#[test]
fn render_error_classes_and_messages() {
    assert_eq!(RenderError::ConflictingImage.class(), ErrorClass::ClientInput);
    assert_eq!(RenderError::ImageNotFound.class(), ErrorClass::Platform);
    assert_eq!(RenderError::ImageNotFound.message(), "Image file not found");
    assert_eq!(
        RenderError::ConflictingImage.message(),
        "Image path and image data are mutually exclusive"
    );
}

fn is_uuid_text(text: &str) -> bool {
    let chars: Vec<char> = text.chars().collect();
    chars.len() == 36
        && chars.iter().enumerate().all(|(i, c)| {
            if i == 8 || i == 13 || i == 18 || i == 23 {
                *c == '-'
            } else {
                c.is_ascii_digit() || ('a'..='f').contains(c)
            }
        })
}

#[test]
fn tag_has_its_form() {
    let tag = new_tag();
    assert!(tag.starts_with("notification_"));
    assert_eq!(tag.len(), 62);
    assert!(is_uuid_text(&tag[13..49]));
    assert_eq!(&tag[49..50], "-");
    assert!(tag[50..].chars().all(|c| c.is_ascii_digit() || ('a'..='f').contains(&c)));
    assert!(tag.chars().count() <= 64);
    assert_eq!(escape_xml(&tag), tag);
}

#[test]
fn tags_differ() {
    let a = new_tag();
    let b = new_tag();
    assert_ne!(a, b);
    assert_ne!(a[13..49], b[13..49]);
    assert_ne!(a[50..], b[50..]);
    assert_ne!(a[37..49], a[50..]);
}

#[test]
fn scratch_names_are_uuids_and_differ() {
    let a = new_scratch_name();
    let b = new_scratch_name();
    assert!(is_uuid_text(&a));
    assert!(is_uuid_text(&b));
    assert_ne!(a, b);
}

#[test]
fn basic_from_request_keeps_every_field() {
    let request = NotificationRequest {
        title: "t".to_string(),
        message: "m".to_string(),
        notification_type: NotificationKind::Basic,
        image_path: Some("/a/b.png".to_string()),
        image_data: None,
        file_paths: Some(vec!["/a/one.txt".to_string(), "/a/two.txt".to_string()]),
        callback_command: Some("notepad".to_string()),
        raw_markup: None,
    };
    let n = BasicNotification::from(request.clone());
    assert_eq!(n.title, request.title);
    assert_eq!(n.message, request.message);
    assert_eq!(n.image_path, request.image_path);
    assert_eq!(n.image_data, request.image_data);
    assert_eq!(n.file_paths, request.file_paths);
    assert_eq!(n.callback_command, request.callback_command);
    assert_eq!(n.raw_markup, request.raw_markup);
    let data = n.get_callback_data();
    assert_eq!(
        data,
        NotificationData {
            callback_command: Some("notepad".to_string()),
            message: "m".to_string(),
            image_path: Some("/a/b.png".to_string()),
            file_paths: Some(vec!["/a/one.txt".to_string(), "/a/two.txt".to_string()]),
        }
    );
}

#[test]
fn default_kind_is_basic() {
    assert_eq!(NotificationKind::default(), NotificationKind::Basic);
}

#[test]
fn request_from_form_fields() {
    let r = NotificationRequest::from_form(Some("T".to_string()), None);
    assert_eq!(r.title, "T");
    assert_eq!(r.message, "");
    assert_eq!(r.notification_type, NotificationKind::Basic);
    assert_eq!(r.image_path, None);
    assert_eq!(r.image_data, None);
    assert_eq!(r.file_paths, None);
    assert_eq!(r.callback_command, None);
    assert_eq!(r.raw_markup, None);
    let r = NotificationRequest::from_form(None, Some("M".to_string()));
    assert_eq!(r.title, "");
    assert_eq!(r.message, "M");
}
