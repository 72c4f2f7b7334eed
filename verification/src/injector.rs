//! Synthetic-input planning: the key chords that stand for "copy" and
//! "paste", and the ordered steps of the text-insertion sequence.
//!
//! The plans are data; a thin platform layer outside the library performs
//! each step against the OS input subsystem and sleeps out the settle
//! delays.  Keeping the plans here pins down exactly which events are
//! issued — in particular that injecting empty text issues none.

use vstd::prelude::*;

verus! {

use crate::tracker::FocusError;

/// A key that can take part in a synthetic chord.
#[derive(Clone, Copy, Debug, PartialEq, Eq, Structural)]
pub enum ChordKey {
    /// The activation modifier (Ctrl, or Cmd where that is the convention).
    Control,
    /// The Alt modifier, released defensively before a chord.
    Alt,
    /// The Shift modifier, released defensively before a chord.
    Shift,
    /// The letter key of the copy shortcut.
    CopyKey,
    /// The letter key of the paste shortcut.
    PasteKey,
}

/// Direction of a synthetic key event.
#[derive(Clone, Copy, Debug, PartialEq, Eq, Structural)]
pub enum KeyMotion {
    /// Key down.
    Press,
    /// Key up.
    Release,
}

/// One synthetic key event.
#[derive(Clone, Copy, Debug, PartialEq, Eq, Structural)]
pub struct KeyStep {
    /// Which key.
    pub key: ChordKey,
    /// Down or up.
    pub motion: KeyMotion,
}

/// Why a synthetic-input operation failed.
#[derive(Clone, Copy, Debug, PartialEq, Eq, Structural)]
pub enum InjectError {
    /// The platform delivered fewer events than were requested.
    InjectionIncomplete,
}

/// The copy chord: release any held modifiers that would corrupt the chord,
/// then Control down, copy key down and up, Control up.
pub open spec fn spec_copy_chord() -> Seq<KeyStep> {
    seq![
        KeyStep { key: ChordKey::Control, motion: KeyMotion::Release },
        KeyStep { key: ChordKey::Alt, motion: KeyMotion::Release },
        KeyStep { key: ChordKey::Shift, motion: KeyMotion::Release },
        KeyStep { key: ChordKey::Control, motion: KeyMotion::Press },
        KeyStep { key: ChordKey::CopyKey, motion: KeyMotion::Press },
        KeyStep { key: ChordKey::CopyKey, motion: KeyMotion::Release },
        KeyStep { key: ChordKey::Control, motion: KeyMotion::Release },
    ]
}

/// The paste chord, issued in one burst with no delays between events:
/// Control down, paste key down and up, Control up.
pub open spec fn spec_paste_chord() -> Seq<KeyStep> {
    seq![
        KeyStep { key: ChordKey::Control, motion: KeyMotion::Press },
        KeyStep { key: ChordKey::PasteKey, motion: KeyMotion::Press },
        KeyStep { key: ChordKey::PasteKey, motion: KeyMotion::Release },
        KeyStep { key: ChordKey::Control, motion: KeyMotion::Release },
    ]
}

/// Builds the copy chord.
pub fn copy_chord() -> (v: Vec<KeyStep>)
    ensures
        v@ == spec_copy_chord(),
{
    let mut v: Vec<KeyStep> = Vec::new();
    v.push(KeyStep { key: ChordKey::Control, motion: KeyMotion::Release });
    v.push(KeyStep { key: ChordKey::Alt, motion: KeyMotion::Release });
    v.push(KeyStep { key: ChordKey::Shift, motion: KeyMotion::Release });
    v.push(KeyStep { key: ChordKey::Control, motion: KeyMotion::Press });
    v.push(KeyStep { key: ChordKey::CopyKey, motion: KeyMotion::Press });
    v.push(KeyStep { key: ChordKey::CopyKey, motion: KeyMotion::Release });
    v.push(KeyStep { key: ChordKey::Control, motion: KeyMotion::Release });
    proof {
        assert(v@ =~= spec_copy_chord());
    }
    v
}

/// Builds the paste chord.
pub fn paste_chord() -> (v: Vec<KeyStep>)
    ensures
        v@ == spec_paste_chord(),
{
    let mut v: Vec<KeyStep> = Vec::new();
    v.push(KeyStep { key: ChordKey::Control, motion: KeyMotion::Press });
    v.push(KeyStep { key: ChordKey::PasteKey, motion: KeyMotion::Press });
    v.push(KeyStep { key: ChordKey::PasteKey, motion: KeyMotion::Release });
    v.push(KeyStep { key: ChordKey::Control, motion: KeyMotion::Release });
    proof {
        assert(v@ =~= spec_paste_chord());
    }
    v
}

/// Success of a batched injection: every requested event must have been
/// delivered, anything less is a failure of the step.
pub fn injection_outcome(delivered: usize, requested: usize) -> (r: Result<(), InjectError>)
    ensures
        r is Ok <==> delivered == requested,
        r is Err ==> r == Err::<(), InjectError>(InjectError::InjectionIncomplete),
{
    if delivered == requested {
        Ok(())
    } else {
        Err(InjectError::InjectionIncomplete)
    }
}

/// One step of the insertion sequence, performed by the platform layer.
#[derive(Clone, Debug)]
pub enum InsertAction {
    /// Restore focus to the recorded previous window.
    FocusPreviousWindow,
    /// Sleep the given number of milliseconds to let the OS settle.
    Settle(u64),
    /// Place the text on the clipboard, intentionally leaving it there.
    SetClipboardText(String),
    /// Issue the paste chord.
    SendPasteChord,
}

/// Settle delay between the clipboard write and the paste chord, in
/// milliseconds.
pub const PASTE_SETTLE_MS: u64 = 50;

/// Settle delay after a focus change, in milliseconds.
pub const FOCUS_SETTLE_MS: u64 = 100;

/// The steps that replace the focused input's selection with `text`:
/// clipboard write, settle delay, paste chord.  Injecting empty text is a
/// no-op — no clipboard write and no synthetic key event.
pub fn replace_input_plan(text: &str) -> (v: Vec<InsertAction>)
    ensures
        text@.len() == 0 ==> v@.len() == 0,
        text@.len() > 0 ==> {
            &&& v@.len() == 3
            &&& (v@[0] matches InsertAction::SetClipboardText(t) && t@ == text@)
            &&& v@[1] == InsertAction::Settle(PASTE_SETTLE_MS)
            &&& v@[2] == InsertAction::SendPasteChord
        },
{
    let mut v: Vec<InsertAction> = Vec::new();
    if text.is_empty() {
        return v;
    }
    v.push(InsertAction::SetClipboardText(text.to_owned()));
    v.push(InsertAction::Settle(PASTE_SETTLE_MS));
    v.push(InsertAction::SendPasteChord);
    v
}

/// The full insertion sequence: it fails up front with the focus error when
/// no previous window is recorded — nothing is pasted into the void — and
/// otherwise refocuses, waits out the focus change, and runs the replacement
/// steps.
pub fn insert_result_plan(has_previous: bool, text: &str) -> (r: Result<
    Vec<InsertAction>,
    FocusError,
>)
    ensures
        !has_previous ==> r == Err::<Vec<InsertAction>, FocusError>(FocusError::NoPreviousWindow),
        has_previous ==> (r matches Ok(v) && {
            &&& v@.len() >= 2
            &&& v@[0] == InsertAction::FocusPreviousWindow
            &&& v@[1] == InsertAction::Settle(FOCUS_SETTLE_MS)
            &&& (text@.len() == 0 ==> v@.len() == 2)
            &&& (text@.len() > 0 ==> {
                &&& v@.len() == 5
                &&& (v@[2] matches InsertAction::SetClipboardText(t) && t@ == text@)
                &&& v@[3] == InsertAction::Settle(PASTE_SETTLE_MS)
                &&& v@[4] == InsertAction::SendPasteChord
            })
        }),
{
    if !has_previous {
        return Err(FocusError::NoPreviousWindow);
    }
    let mut v: Vec<InsertAction> = Vec::new();
    v.push(InsertAction::FocusPreviousWindow);
    v.push(InsertAction::Settle(FOCUS_SETTLE_MS));
    let mut tail = replace_input_plan(text);
    v.append(&mut tail);
    Ok(v)
}

} // verus!
