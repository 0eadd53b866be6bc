use crate::notifications::types::{NotificationData, NotificationDataView};
use crate::store::CorrelationStore;
use crate::text::{has_prefix, is_last_segment, is_separator};
use vstd::prelude::*;
use vstd::string::*;

verus! {

/// Why a notification left the screen without being activated.
#[derive(Debug, Clone, Copy, PartialEq, Eq, Structural)]
pub enum DismissReason {
    UserCanceled,
    TimedOut,
    ApplicationHidden,
    Other,
}

/// What the platform reports of a notification that was shown.
#[derive(Debug, Clone, Copy, PartialEq, Eq, Structural)]
pub enum ToastEvent {
    /// The user invoked the notification.
    Activated,
    /// The notification went away.
    Dismissed(DismissReason),
    /// The platform could not show it.
    Failed,
}

/// One request to a collaborator outside the server.
#[derive(Debug, Clone, PartialEq, Eq)]
pub enum SideEffect {
    /// Start this command line and do not wait for it.
    Launch(String),
    /// Put this text on the clipboard.
    CopyToClipboard(String),
    /// Open this directory for the user.
    OpenFolder(String),
}

/// Mathematical content of a [`SideEffect`].
pub enum SideEffectView {
    Launch(Seq<char>),
    CopyToClipboard(Seq<char>),
    OpenFolder(Seq<char>),
}

impl DeepView for SideEffect {
    type V = SideEffectView;

    open spec fn deep_view(&self) -> SideEffectView {
        match self {
            SideEffect::Launch(command) => SideEffectView::Launch(command@),
            SideEffect::CopyToClipboard(text) => SideEffectView::CopyToClipboard(text@),
            SideEffect::OpenFolder(directory) => SideEffectView::OpenFolder(directory@),
        }
    }
}

/// The last segment of `path`, which begins at `start`, is a component of
/// its own on every platform: it is not empty, it is not `.`, it holds no
/// colon, and `path` does not begin with two separators, as the paths do
/// that name a share or a device and are a prefix as a whole.
pub open spec fn ends_in_component(path: Seq<char>, start: int) -> bool {
    &&& is_last_segment(path, start)
    &&& start < path.len()
    &&& path.skip(start) != "."@
    &&& forall|j: int| start <= j < path.len() ==> path[j] != ':'
    &&& !(path.len() >= 2 && is_separator(path[0]) && is_separator(path[1]))
}

/// What `Path::parent` may return for `path`. A parent is the path
/// without its last component, so it is a beginning of `path` and shorter
/// than it; the empty path has none. Where `path` ends in a segment that
/// is a component of its own, there is a parent, and it ends before that
/// segment; so the parent of a path of one such segment is the empty path.
pub open spec fn parent_fits(path: Seq<char>, parent: Option<Seq<char>>) -> bool {
    &&& parent matches Some(p) ==> p.len() < path.len() && has_prefix(path, p)
    &&& forall|start: int| #[trigger]
        ends_in_component(path, start) ==> (parent matches Some(p) && p.len() <= start)
}

/// Calls `std::path::Path::parent` on `path`. It gives the path without its
/// last component, and nothing for the empty path and for one that ends in
/// a root or a prefix. So what it gives is a proper beginning of `path`.
/// A path ends in a root or a prefix only where its last segment is empty,
/// is a `.` that is dropped, or belongs to a prefix, which holds a colon or
/// begins with two separators; in every other case the last segment is the
/// last component, and the parent ends before it. Where the components
/// before it end depends on the platform's path syntax, so no more is
/// stated.
#[verifier::external_body]
fn parent_directory(path: &str) -> (parent: Option<String>)
    ensures
        parent_fits(path@, parent.deep_view()),
{
    match std::path::Path::new(path).parent() {
        Some(directory) => Some(directory.to_string_lossy().into_owned()),
        None => None,
    }
}

/// The directory that may be opened for the file `source`: none where
/// there is no file, and else what fits as the parent of its path.
pub open spec fn folder_fits(source: Option<Seq<char>>, folder: Option<Seq<char>>) -> bool {
    match source {
        Some(path) => parent_fits(path, folder),
        None => folder is None,
    }
}

/// The effect that an activation always has: the callback command is run
/// where there is one, and the message goes to the clipboard where not.
pub open spec fn primary_effect(data: NotificationDataView) -> SideEffectView {
    match data.callback_command {
        Some(command) => SideEffectView::Launch(command),
        None => SideEffectView::CopyToClipboard(data.message),
    }
}

/// The file whose directory an activation opens: the image where there is
/// one, else the first attachment.
pub open spec fn folder_source(data: NotificationDataView) -> Option<Seq<char>> {
    match data.image_path {
        Some(path) => Some(path),
        None => match data.file_paths {
            Some(paths) => if paths.len() > 0 {
                Some(paths[0])
            } else {
                None
            },
            None => None,
        },
    }
}

/// The effects of an activation, in the order in which they are asked for,
/// where `folder` is the directory to open, if any.
pub open spec fn activation_effects(
    data: NotificationDataView,
    folder: Option<Seq<char>>,
) -> Seq<SideEffectView> {
    match folder {
        Some(directory) => seq![primary_effect(data), SideEffectView::OpenFolder(directory)],
        None => seq![primary_effect(data)],
    }
}

/// The number of command launches among `effects`.
pub open spec fn launch_count(effects: Seq<SideEffectView>) -> nat
    decreases effects.len(),
{
    if effects.len() == 0 {
        0
    } else {
        launch_count(effects.drop_last()) + if effects.last() is Launch {
            1nat
        } else {
            0nat
        }
    }
}

/// The number of clipboard writes among `effects`.
pub open spec fn clipboard_count(effects: Seq<SideEffectView>) -> nat
    decreases effects.len(),
{
    if effects.len() == 0 {
        0
    } else {
        clipboard_count(effects.drop_last()) + if effects.last() is CopyToClipboard {
            1nat
        } else {
            0nat
        }
    }
}

/// The file whose directory an activation of `data` opens.
pub fn find_folder_source(data: &NotificationData) -> (source: Option<&str>)
    ensures
        source.deep_view() == folder_source(data@),
{
    match &data.image_path {
        Some(path) => Some(path.as_str()),
        None => match &data.file_paths {
            Some(paths) => if paths.len() > 0 {
                Some(paths[0].as_str())
            } else {
                None
            },
            None => None,
        },
    }
}

/// The effects of an activation of `data`, where `folder` is the directory
/// to open, if any.
pub fn plan_activation(data: &NotificationData, folder: Option<String>) -> (effects: Vec<
    SideEffect,
>)
    ensures
        effects.deep_view() == activation_effects(data@, folder.deep_view()),
{
    let mut effects: Vec<SideEffect> = Vec::new();
    match &data.callback_command {
        Some(command) => effects.push(SideEffect::Launch(command.clone())),
        None => effects.push(SideEffect::CopyToClipboard(data.message.clone())),
    }
    match folder {
        Some(directory) => effects.push(SideEffect::OpenFolder(directory)),
        None => {},
    }
    effects
}

/// Decides what an event on the notification tagged `tag` sets off.
///
/// An activation of a notification that the table knows runs its callback
/// command, or copies its message where it has none, and then opens the
/// directory of its image, or of its first attachment where it has no
/// image, as far as that file has a directory. The directory is a proper
/// beginning of the file's path. It is there, and ends before the path's
/// last segment, wherever that segment is a component of its own; so for a
/// path of one segment it is the empty path.
/// Nothing else has an effect:
/// not a dismissal, whatever its reason, not a failure, and no event on a
/// tag that the table does not hold.
pub fn route_event(store: &CorrelationStore, tag: &str, event: ToastEvent) -> (effects: Vec<
    SideEffect,
>)
    ensures
        event is Activated && store@.contains_key(tag@) ==> exists|folder: Option<Seq<char>>|
            {
                &&& folder_fits(folder_source(store@[tag@]), folder)
                &&& effects.deep_view() == #[trigger] activation_effects(store@[tag@], folder)
            },
        !(event is Activated && store@.contains_key(tag@)) ==> effects.deep_view() == Seq::<
            SideEffectView,
        >::empty(),
{
    match event {
        ToastEvent::Activated => match store.lookup(tag) {
            Some(data) => {
                let folder = match find_folder_source(data) {
                    Some(path) => parent_directory(path),
                    None => None,
                };
                plan_activation(data, folder)
            },
            None => Vec::new(),
        },
        ToastEvent::Dismissed(_) => Vec::new(),
        ToastEvent::Failed => Vec::new(),
    }
}

/// An activation of a notification with a callback command asks for one
/// launch, of that command, and for no clipboard write, whatever directory
/// is opened.
pub proof fn lemma_command_is_launched_once(
    data: NotificationDataView,
    folder: Option<Seq<char>>,
)
    requires
        data.callback_command is Some,
    ensures
        activation_effects(data, folder)[0] == SideEffectView::Launch(data.callback_command->0),
        launch_count(activation_effects(data, folder)) == 1,
        clipboard_count(activation_effects(data, folder)) == 0,
{
    reveal_with_fuel(launch_count, 3);
    reveal_with_fuel(clipboard_count, 3);
}

/// An activation of a notification without a callback command asks for one
/// clipboard write, of the stored message, and for no launch, whatever
/// directory is opened.
pub proof fn lemma_message_is_copied_once(data: NotificationDataView, folder: Option<Seq<char>>)
    requires
        data.callback_command is None,
    ensures
        activation_effects(data, folder)[0] == SideEffectView::CopyToClipboard(data.message),
        clipboard_count(activation_effects(data, folder)) == 1,
        launch_count(activation_effects(data, folder)) == 0,
{
    reveal_with_fuel(launch_count, 3);
    reveal_with_fuel(clipboard_count, 3);
}

} // verus!
