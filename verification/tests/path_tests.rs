use notification_server::ingest::{plan_part, FileSlot, IngestError, PartPlan};
use notification_server::notifications::types::NotificationData;
use notification_server::router::{route_event, SideEffect, ToastEvent};
use notification_server::store::CorrelationStore;

const ALPHABET: [char; 6] = ['a', 'b', '.', '/', '\\', ':'];

fn all_texts(max_len: usize) -> Vec<String> {
    let mut texts = vec![String::new()];
    let mut last = vec![String::new()];
    for _ in 0..max_len {
        let mut next = Vec::new();
        for text in &last {
            for c in ALPHABET {
                let mut longer = text.clone();
                longer.push(c);
                next.push(longer);
            }
        }
        texts.extend(next.iter().cloned());
        last = next;
    }
    texts
}

fn is_separator(c: char) -> bool {
    c == '/' || c == '\\'
}

fn is_path_mark(c: char) -> bool {
    is_separator(c) || c == ':'
}

fn last_segment_start(path: &[char]) -> usize {
    match path.iter().rposition(|c| is_separator(*c)) {
        Some(i) => i + 1,
        None => 0,
    }
}

fn ends_in_component(path: &[char]) -> bool {
    let start = last_segment_start(path);
    let segment = &path[start..];
    !segment.is_empty()
        && segment != ['.']
        && !segment.contains(&':')
        && !(path.len() >= 2 && is_separator(path[0]) && is_separator(path[1]))
}

fn opened_folder(path: &str) -> Option<String> {
    let mut store = CorrelationStore::new();
    store.insert(
        "notification_a".to_string(),
        NotificationData {
            callback_command: None,
            message: "m".to_string(),
            image_path: Some(path.to_string()),
            file_paths: None,
        },
    );
    let effects = route_event(&store, "notification_a", ToastEvent::Activated);
    assert_eq!(effects[0], SideEffect::CopyToClipboard("m".to_string()));
    match effects.len() {
        1 => None,
        2 => match &effects[1] {
            SideEffect::OpenFolder(dir) => Some(dir.clone()),
            other => panic!("unexpected {:?}", other),
        },
        n => panic!("{} effects", n),
    }
}

#[test]
fn an_opened_folder_is_a_proper_beginning_of_the_path() {
    for path in all_texts(5) {
        if let Some(dir) = opened_folder(&path) {
            assert!(path.starts_with(dir.as_str()), "{:?} {:?}", path, dir);
            assert!(dir.len() < path.len(), "{:?} {:?}", path, dir);
        }
    }
}

#[test]
fn a_path_that_ends_in_a_component_has_its_folder_opened() {
    for path in all_texts(5) {
        let chars: Vec<char> = path.chars().collect();
        if ends_in_component(&chars) {
            let dir = opened_folder(&path);
            assert!(dir.is_some(), "{:?}", path);
            let dir = dir.unwrap();
            assert!(dir.chars().count() <= last_segment_start(&chars), "{:?} {:?}", path, dir);
        }
    }
}

#[test]
fn a_path_of_one_segment_opens_the_empty_path() {
    for path in ["image.png", ".env", "..", "a b", "name."] {
        assert_eq!(opened_folder(path), Some(String::new()), "{}", path);
    }
    assert_eq!(opened_folder(""), None);
    assert_eq!(opened_folder("/"), None);
}

fn planned_image_name(upload: &str) -> Result<String, IngestError> {
    match plan_part("image", Some(upload)) {
        PartPlan::Store { slot, file_name } => {
            assert_eq!(slot, FileSlot::Image);
            Ok(file_name)
        }
        PartPlan::Refuse(error) => Err(error),
        other => panic!("unexpected {:?}", other),
    }
}

fn parts_an_extension(name: &[char]) -> Option<usize> {
    let dot = name.iter().rposition(|c| *c == '.')?;
    let fits = dot > 0
        && !is_path_mark(name[0])
        && !is_path_mark(name[dot - 1])
        && dot + 1 < name.len()
        && !name[dot + 1..].iter().any(|c| is_path_mark(*c));
    if fits {
        Some(dot)
    } else {
        None
    }
}

fn is_bare(name: &[char]) -> bool {
    !name.is_empty() && name[0] != '.' && !name.iter().any(|c| is_path_mark(*c))
}

#[test]
fn an_image_keeps_the_extension_that_follows_its_last_dot() {
    for upload in all_texts(5) {
        let chars: Vec<char> = upload.chars().collect();
        if let Some(dot) = parts_an_extension(&chars) {
            let extension: String = chars[dot + 1..].iter().collect();
            assert_eq!(
                planned_image_name(&upload),
                Ok(format!("image.{}", extension)),
                "{:?}",
                upload
            );
        }
        if is_bare(&chars) {
            let expected = match chars.iter().rposition(|c| *c == '.') {
                Some(dot) => format!("image.{}", chars[dot + 1..].iter().collect::<String>()),
                None => "image.jpg".to_string(),
            };
            assert_eq!(planned_image_name(&upload), Ok(expected), "{:?}", upload);
        }
        if !upload.contains('.') {
            assert_eq!(planned_image_name(&upload), Ok("image.jpg".to_string()), "{:?}", upload);
        }
    }
}

#[test]
fn a_stored_file_name_stays_in_its_directory() {
    for upload in all_texts(5) {
        for part in ["image", "files"] {
            if let PartPlan::Store { file_name, .. } = plan_part(part, Some(&upload)) {
                assert!(!file_name.is_empty(), "{:?}", upload);
                assert!(file_name != "." && file_name != "..", "{:?}", upload);
                assert!(!file_name.chars().any(is_path_mark), "{:?}", upload);
                let joined = std::path::Path::new("/scratch/one").join(&file_name);
                assert_eq!(
                    joined.parent(),
                    Some(std::path::Path::new("/scratch/one")),
                    "{:?}",
                    upload
                );
            }
        }
    }
}

#[test]
fn image_paths_seen_in_uploads() {
    assert_eq!(planned_image_name("dir/photo.png"), Ok("image.png".to_string()));
    assert_eq!(planned_image_name("C:\\fakepath\\photo.png"), Ok("image.png".to_string()));
    assert_eq!(planned_image_name("C:photo.gif"), Ok("image.gif".to_string()));
    assert_eq!(planned_image_name("a.tar.gz"), Ok("image.gz".to_string()));
}
