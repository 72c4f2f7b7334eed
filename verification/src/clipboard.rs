//! Clipboard mediator: saving, probing and restoring the system clipboard
//! around a synthetic copy, so that extracting the user's selection never
//! destroys their clipboard.
//!
//! The protocol is: snapshot the clipboard, write the placeholder, wait for
//! the write to settle, send the copy chord, wait again, read the clipboard
//! back, restore the snapshot, and classify what was read.  The waits and the
//! chord happen outside this module; [`extract_begin`] and [`extract_finish`]
//! are the two halves either side of them, and [`run_extraction`] is the same
//! protocol played against an in-memory clipboard, which pins down its
//! outcome for every prior content and every copy result.

use vstd::prelude::*;

verus! {

/// A decoded clipboard image, held as plain values.
#[derive(Clone, Debug)]
pub struct ImageBuf {
    /// Width in pixels.
    pub width: usize,
    /// Height in pixels.
    pub height: usize,
    /// Raw RGBA bytes.
    pub bytes: Vec<u8>,
}

/// What the clipboard held: text, an image, or nothing readable.
#[derive(Clone, Debug)]
pub enum ClipContent {
    /// UTF-8 text.
    Text(String),
    /// A decoded image.
    Image(ImageBuf),
    /// Nothing that could be read as text or image.
    Empty,
}

/// Why a clipboard operation failed.
#[derive(Clone, Copy, Debug, PartialEq, Eq, Structural)]
pub enum ClipError {
    /// The system clipboard could not be opened or written.
    ClipboardUnavailable,
}

/// View of the placeholder written before the synthetic copy: the empty
/// string, so that "nothing was selected" shows up as an unchanged, empty
/// clipboard.
pub open spec fn placeholder_view() -> Seq<char> {
    Seq::<char>::empty()
}

/// The placeholder value written to the clipboard before the synthetic copy.
pub fn placeholder() -> (p: String)
    ensures
        p@ == placeholder_view(),
{
    String::new()
}

/// Relies on `arboard::Clipboard::get_text`: the clipboard's current UTF-8
/// text, `None` when the clipboard cannot be opened or holds no text.
#[verifier::external_body]
fn clip_get_text() -> (r: Option<String>) {
    match arboard::Clipboard::new() {
        Ok(mut c) => c.get_text().ok(),
        Err(_) => None,
    }
}

/// Relies on `arboard::Clipboard::get_image`: the clipboard's current image
/// decoded to raw bytes, `None` when the clipboard cannot be opened or holds
/// no image.
#[verifier::external_body]
fn clip_get_image() -> (r: Option<ImageBuf>) {
    let mut c = match arboard::Clipboard::new() {
        Ok(c) => c,
        Err(_) => return None,
    };
    match c.get_image() {
        Ok(img) => Some(
            ImageBuf { width: img.width, height: img.height, bytes: img.bytes.into_owned() },
        ),
        Err(_) => None,
    }
}

/// Relies on `arboard::Clipboard::set_text`: places the text on the
/// clipboard, reporting success.
#[verifier::external_body]
fn clip_set_text(text: &str) -> (ok: bool) {
    match arboard::Clipboard::new() {
        Ok(mut c) => c.set_text(text).is_ok(),
        Err(_) => false,
    }
}

/// Relies on `arboard::Clipboard::set_image`: places the image back on the
/// clipboard, reporting success.
#[verifier::external_body]
fn clip_set_image(img: &ImageBuf) -> (ok: bool) {
    match arboard::Clipboard::new() {
        Ok(mut c) => c
            .set_image(
                arboard::ImageData {
                    width: img.width,
                    height: img.height,
                    bytes: std::borrow::Cow::Borrowed(img.bytes.as_slice()),
                },
            )
            .is_ok(),
        Err(_) => false,
    }
}

/// Relies on `arboard::Clipboard::clear`: empties the clipboard, reporting
/// success.
#[verifier::external_body]
fn clip_clear() -> (ok: bool) {
    match arboard::Clipboard::new() {
        Ok(mut c) => c.clear().is_ok(),
        Err(_) => false,
    }
}

/// The snapshot rule: text wins over an image, and a clipboard that yields
/// neither is recorded as empty.
pub open spec fn spec_snapshot_of(text: Option<String>, image: Option<ImageBuf>) -> ClipContent {
    match text {
        Some(t) => ClipContent::Text(t),
        None => match image {
            Some(i) => ClipContent::Image(i),
            None => ClipContent::Empty,
        },
    }
}

/// The snapshot taken before an extraction: text wins over an image, and a
/// clipboard that yields neither is recorded as empty.
pub fn snapshot_of(text: Option<String>, image: Option<ImageBuf>) -> (c: ClipContent)
    ensures
        c == spec_snapshot_of(text, image),
{
    match text {
        Some(t) => ClipContent::Text(t),
        None => match image {
            Some(i) => ClipContent::Image(i),
            None => ClipContent::Empty,
        },
    }
}

/// First half of an extraction: snapshots the system clipboard and writes the
/// placeholder.  Fails when the placeholder cannot be written; the caller
/// then has nothing to restore, since nothing was overwritten.  Whatever the
/// clipboard held, a returned snapshot is the snapshot rule applied to some
/// pair of readings.
pub fn extract_begin() -> (r: Result<ClipContent, ClipError>)
    ensures
        r matches Ok(c) ==> exists|text: Option<String>, image: Option<ImageBuf>|
            c == #[trigger] spec_snapshot_of(text, image),
{
    let text = clip_get_text();
    let image = clip_get_image();
    let ghost read_text = text;
    let ghost read_image = image;
    let snapshot = snapshot_of(text, image);
    proof {
        assert(snapshot == spec_snapshot_of(read_text, read_image));
    }
    let ph = placeholder();
    if clip_set_text(ph.as_str()) {
        Ok(snapshot)
    } else {
        Err(ClipError::ClipboardUnavailable)
    }
}

/// What an extraction returns for a given read-back: the empty string when
/// the clipboard could not be read or still holds the placeholder, the copied
/// text otherwise.
pub open spec fn spec_classify(read: Option<Seq<char>>) -> Seq<char> {
    match read {
        None => Seq::<char>::empty(),
        Some(t) => {
            if t == placeholder_view() {
                Seq::<char>::empty()
            } else {
                t
            }
        },
    }
}

/// Classifies the text read back after the synthetic copy.
pub fn classify_read_back(read: Option<String>) -> (r: String)
    ensures
        r@ == spec_classify(read.deep_view()),
{
    match read {
        None => String::new(),
        Some(t) => {
            if t.as_str().is_empty() {
                proof {
                    assert(t@ =~= placeholder_view());
                }
                String::new()
            } else {
                t
            }
        },
    }
}

/// Second half of an extraction: reads the clipboard back, restores the
/// snapshot — on every path, whether or not anything was read — and
/// classifies the read-back.  Fails when the restore write fails.  Whatever
/// the clipboard held, a returned text is the classification of some
/// read-back.
pub fn extract_finish(snapshot: ClipContent) -> (r: Result<String, ClipError>)
    ensures
        r matches Ok(s) ==> exists|read: Option<Seq<char>>| s@ == #[trigger] spec_classify(read),
{
    let read = clip_get_text();
    let ghost read_view = read.deep_view();
    let restored = match &snapshot {
        ClipContent::Text(t) => clip_set_text(t.as_str()),
        ClipContent::Image(img) => clip_set_image(img),
        ClipContent::Empty => clip_clear(),
    };
    if !restored {
        return Err(ClipError::ClipboardUnavailable);
    }
    let out = classify_read_back(read);
    proof {
        assert(out@ == spec_classify(read_view));
    }
    Ok(out)
}

/// What the extraction returns when the copy chord made the focused
/// application write `copied` (`None` when it wrote nothing): the selection,
/// or the empty string when there was none.
pub open spec fn spec_extract_result(copied: Option<Seq<char>>) -> Seq<char> {
    match copied {
        None => Seq::<char>::empty(),
        Some(c) => {
            if c == placeholder_view() {
                Seq::<char>::empty()
            } else {
                c
            }
        },
    }
}

/// Clipboard round-trip law, as a run of the whole protocol against an
/// in-memory clipboard.  For every prior clipboard content and every text the
/// simulated copy produces, the clipboard ends up exactly as it began, and
/// the returned text is the copied text — or empty when the copy produced
/// nothing or only the placeholder.
pub fn run_extraction(clipboard: &mut ClipContent, copied: Option<String>) -> (r: String)
    ensures
        *final(clipboard) == *old(clipboard),
        r@ == spec_extract_result(copied.deep_view()),
{
    // Snapshot the prior content and write the placeholder.
    let mut prior = ClipContent::Text(placeholder());
    core::mem::swap(clipboard, &mut prior);
    // The synthetic copy lands: the focused application overwrites the
    // clipboard with its selection, or leaves it alone.
    match copied {
        Some(c) => {
            *clipboard = ClipContent::Text(c);
        },
        None => {},
    }
    // Read the clipboard back.
    let read: Option<String> = match &*clipboard {
        ClipContent::Text(t) => Some(t.clone()),
        _ => None,
    };
    // Restore the snapshot — the protocol's one unconditional obligation.
    *clipboard = prior;
    classify_read_back(read)
}

} // verus!
