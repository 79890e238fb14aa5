//! The behavioural laws of the state machine, stated over the transition
//! functions and proved once and for all. The soft-wrap laws live beside
//! the wrap engine in `wrap`; the buffer and history laws stand as the
//! contracts of their operations.

use vstd::prelude::*;
use crate::buffer::join_lines;
use crate::keys::KeyInput;
use crate::state::{
    AppView, EditorMode, EffectView, Mode, ResultView, SaveDraftOrigin, inv, spec_resolve,
    spec_step, spec_tick, elapsed_ms,
};
use crate::strutil::all_space;

verus! {

/// Every mode value is one of the nine enumerated screens; no transition
/// can leave this set, since `Mode` is a closed enumeration.
pub proof fn lemma_mode_one_of_nine(m: Mode)
    ensures
        m == Mode::Splash || m == Mode::Menu || m == Mode::Writing || m == Mode::Flow
            || m == Mode::FlowHistory || m == Mode::Settings || m == Mode::Drafts
            || m == Mode::PopupInput || m == Mode::SpellCheck,
{
}

/// A key that takes Writing to the menu always clears the current draft
/// identity: the next save starts unnamed.
pub proof fn lemma_writing_to_menu_clears_draft(s: AppView, key: KeyInput, now: u64)
    requires
        s.mode == Mode::Writing,
        spec_step(s, key, now).0.mode == Mode::Menu,
    ensures
        spec_step(s, key, now).0.current_draft_name is None,
{
}

/// Opening a draft from the drafts list always binds the buffer to it: when
/// the requested load arrives with the draft's text, the mode is Writing
/// and the current draft identity is the loaded name.
pub proof fn lemma_draft_open_sets_identity(s: AppView, name: Seq<char>, text: Seq<char>, now: u64)
    ensures
        ({
            let r = spec_resolve(s, ResultView::DraftLoaded { name, content: Ok(text) }, now).0;
            &&& r.mode == Mode::Writing
            &&& r.current_draft_name == Some(name)
        }),
{
}

/// Leaving Visual mode while staying in Writing — by Escape, by an empty
/// capture, or by a yank — always cancels the selection anchor.
pub proof fn lemma_leaving_visual_cancels_anchor(s: AppView, key: KeyInput, now: u64)
    requires
        inv(s),
        s.mode == Mode::Writing,
        s.settings.vim_mode,
        s.editor_mode == EditorMode::Visual,
        spec_step(s, key, now).0.mode == Mode::Writing,
        spec_step(s, key, now).0.editor_mode != EditorMode::Visual,
    ensures
        spec_step(s, key, now).0.textarea.anchor is None,
{
}

/// Completing the selection workflow — the new draft saved under its typed
/// name — returns to Writing in Normal mode with the selection cancelled.
pub proof fn lemma_workflow_completion_cancels_anchor(
    s: AppView,
    name: Seq<char>,
    now: u64,
)
    ensures
        ({
            let r = spec_resolve(
                s,
                ResultView::DraftSaved {
                    name,
                    origin: SaveDraftOrigin::NewDraftFromSelection,
                    outcome: Ok(()),
                },
                now,
            ).0;
            &&& r.mode == Mode::Writing
            &&& r.editor_mode == EditorMode::Normal
            &&& r.textarea.anchor is None
        }),
{
}

/// While a flow session runs, every tick recomputes the remaining time as
/// the configured length minus the elapsed time, and the session goes on.
pub proof fn lemma_flow_countdown(s: AppView, st: u64, now: u64)
    requires
        inv(s),
        s.mode == Mode::Flow,
        s.flow_start == Some(st),
        elapsed_ms(st, now) < s.flow_duration_ms,
        s.message_time is None,
    ensures
        ({
            let (r, e) = spec_tick(s, now);
            &&& r.mode == Mode::Flow
            &&& r.flow_remaining_ms == s.flow_duration_ms - elapsed_ms(st, now)
            &&& r.flow_start == Some(st)
            &&& e is None
        }),
{
}

/// A flow session of length `D` expires once the clock has advanced `D`
/// past its start: the tick lands in the menu with no time remaining, and —
/// when the buffer holds more than whitespace — requests exactly one new
/// history record carrying the session's length in minutes and the buffer's
/// full text, stamped with the expiry instant. (Inserting that record keeps
/// the history newest-first: see `insert_flow_entry` in `store`.)
pub proof fn lemma_flow_expiry(s: AppView, st: u64, now: u64)
    requires
        inv(s),
        s.mode == Mode::Flow,
        s.flow_start == Some(st),
        elapsed_ms(st, now) >= s.flow_duration_ms,
    ensures
        ({
            let (r, e) = spec_tick(s, now);
            &&& r.mode == Mode::Menu
            &&& r.flow_remaining_ms == 0
            &&& r.flow_start is None
            &&& !all_space(join_lines(s.textarea.lines)) ==> e == Some(
                EffectView::SaveFlowEntry(
                    crate::store::EntryView {
                        timestamp_ms: now,
                        duration_minutes: (s.flow_duration_ms / 60000) as u32,
                        text: join_lines(s.textarea.lines),
                    },
                ),
            )
            &&& all_space(join_lines(s.textarea.lines)) ==> e is None
        }),
{
}

} // verus!
