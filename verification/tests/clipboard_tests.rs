use langra::clipboard::{
    classify_read_back, placeholder, run_extraction, snapshot_of, ClipContent, ImageBuf,
};

fn text_of(c: &ClipContent) -> Option<&str> {
    match c {
        ClipContent::Text(t) => Some(t.as_str()),
        _ => None,
    }
}

#[test]
fn clipboard_placeholder_is_empty() {
    assert_eq!(placeholder(), String::new());
}

#[test]
fn clipboard_round_trip_restores_text_and_returns_copy() {
    // Prior clipboard text T, copy produces C: clipboard ends as T and the
    // call returns C.
    let mut clip = ClipContent::Text("prior text".to_string());
    let r = run_extraction(&mut clip, Some("copied words".to_string()));
    assert_eq!(r, "copied words");
    assert_eq!(text_of(&clip), Some("prior text"));
}

#[test]
fn clipboard_round_trip_placeholder_copy_returns_empty() {
    // The copy produced exactly the placeholder: nothing was selected.
    let mut clip = ClipContent::Text("prior".to_string());
    let r = run_extraction(&mut clip, Some(String::new()));
    assert_eq!(r, "");
    assert_eq!(text_of(&clip), Some("prior"));
}

#[test]
fn clipboard_round_trip_no_copy_returns_empty() {
    // The focused application wrote nothing: the placeholder is still there,
    // the result is empty, and the prior text is restored.
    let mut clip = ClipContent::Text("keep me".to_string());
    let r = run_extraction(&mut clip, None);
    assert_eq!(r, "");
    assert_eq!(text_of(&clip), Some("keep me"));
}

#[test]
fn clipboard_round_trip_restores_image() {
    let img = ImageBuf { width: 2, height: 1, bytes: vec![1, 2, 3, 4, 5, 6, 7, 8] };
    let mut clip = ClipContent::Image(img);
    let r = run_extraction(&mut clip, Some("text".to_string()));
    assert_eq!(r, "text");
    match &clip {
        ClipContent::Image(i) => {
            assert_eq!(i.width, 2);
            assert_eq!(i.height, 1);
            assert_eq!(i.bytes, vec![1, 2, 3, 4, 5, 6, 7, 8]);
        },
        _ => panic!("image was not restored"),
    }
}

#[test]
fn clipboard_round_trip_restores_empty() {
    let mut clip = ClipContent::Empty;
    let r = run_extraction(&mut clip, Some("abc".to_string()));
    assert_eq!(r, "abc");
    assert!(matches!(clip, ClipContent::Empty));
}

#[test]
fn clipboard_classify_read_back_cases() {
    assert_eq!(classify_read_back(None), "");
    assert_eq!(classify_read_back(Some(String::new())), "");
    assert_eq!(classify_read_back(Some("words".to_string())), "words");
}

#[test]
fn clipboard_snapshot_prefers_text_over_image() {
    let img = ImageBuf { width: 1, height: 1, bytes: vec![0, 0, 0, 0] };
    let s = snapshot_of(Some("t".to_string()), Some(img));
    assert_eq!(text_of(&s), Some("t"));
}

#[test]
fn clipboard_snapshot_takes_image_when_no_text() {
    let img = ImageBuf { width: 1, height: 1, bytes: vec![9, 9, 9, 9] };
    let s = snapshot_of(None, Some(img));
    assert!(matches!(s, ClipContent::Image(_)));
}

#[test]
fn clipboard_snapshot_empty_when_nothing_readable() {
    let s = snapshot_of(None, None);
    assert!(matches!(s, ClipContent::Empty));
}
