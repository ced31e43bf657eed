//! Laws of the view controller, stated over the specification-level
//! transition functions and proved once for all states and event sequences.

use vstd::prelude::*;

use crate::catalog::LanguageView;
use crate::state::{
    highlight_fires, initial_model, is_blank, step_state, step_store, MsgModel, StateModel,
};

verus! {

/// The state after a sequence of messages, applied first to last.
pub open spec fn run(s: StateModel, ms: Seq<MsgModel>) -> StateModel
    decreases ms.len(),
{
    if ms.len() == 0 {
        s
    } else {
        run(step_state(s, ms[0]), ms.drop_first())
    }
}

/// The code text after the last `InputCode` among `ms`, or `c0` when there
/// is none.
pub open spec fn latest_code(c0: Seq<char>, ms: Seq<MsgModel>) -> Seq<char>
    decreases ms.len(),
{
    if ms.len() == 0 {
        c0
    } else {
        match ms.last() {
            MsgModel::InputCode(text) => text,
            _ => latest_code(c0, ms.drop_last()),
        }
    }
}

/// The selected language after the last `ChooseLanguage` among `ms`, or `l0`
/// when there is none.
pub open spec fn latest_language(
    l0: Option<LanguageView>,
    ms: Seq<MsgModel>,
) -> Option<LanguageView>
    decreases ms.len(),
{
    if ms.len() == 0 {
        l0
    } else {
        match ms.last() {
            MsgModel::ChooseLanguage(l) => Some(l),
            _ => latest_language(l0, ms.drop_last()),
        }
    }
}

/// Running a sequence extended by one message is one step after running the
/// sequence.
proof fn lemma_run_snoc(s: StateModel, ms: Seq<MsgModel>, m: MsgModel)
    ensures
        run(s, ms.push(m)) == step_state(run(s, ms), m),
    decreases ms.len(),
{
    if ms.len() == 0 {
        assert(ms.push(m)[0] == m);
        assert(ms.push(m).drop_first() =~= Seq::<MsgModel>::empty());
        assert(run(step_state(s, m), Seq::<MsgModel>::empty()) == step_state(s, m));
    } else {
        assert(ms.push(m)[0] == ms[0]);
        assert(ms.push(m).drop_first() =~= ms.drop_first().push(m));
        lemma_run_snoc(step_state(s, ms[0]), ms.drop_first(), m);
    }
}

/// For every sequence of `ChooseLanguage` and `InputCode` events, the state
/// they lead to carries the latest code text and the latest selection, so
/// the highlighter side effect fires after the last of them exactly when
/// that latest code is non-blank and a language has been chosen.
pub proof fn lemma_highlighter_fires_iff_latest(s: StateModel, ms: Seq<MsgModel>)
    requires
        forall|i: int| 0 <= i < ms.len() ==> (ms[i] is ChooseLanguage || ms[i] is InputCode),
    ensures
        run(s, ms).code == latest_code(s.code, ms),
        run(s, ms).programming_language == latest_language(s.programming_language, ms),
        highlight_fires(run(s, ms)) <==> (!is_blank(latest_code(s.code, ms)) && latest_language(
            s.programming_language,
            ms,
        ) is Some),
    decreases ms.len(),
{
    if ms.len() > 0 {
        let prefix = ms.drop_last();
        let m = ms.last();
        assert(forall|i: int| 0 <= i < prefix.len() ==> prefix[i] == ms[i]);
        lemma_highlighter_fires_iff_latest(s, prefix);
        lemma_run_snoc(s, prefix, m);
        assert(ms =~= prefix.push(m));
    }
}

/// Dismissing the intro and then restarting the session shows the intro
/// again exactly when the dismissal was not persisted: after
/// `HideInitMessage(true)` a restart starts with `show_info == false`, after
/// `HideInitMessage(false)` with `show_info == true`.
pub proof fn lemma_dismiss_then_restart(dont_show_again: bool)
    ensures
        step_store(MsgModel::HideInitMessage(dont_show_again)) is Some,
        initial_model(
            step_store(MsgModel::HideInitMessage(dont_show_again)),
        ).show_info == !dont_show_again,
{
}

/// Choosing a language selects exactly that descriptor and changes no other
/// state field.
pub proof fn lemma_choose_language_only_selects(s: StateModel, l: LanguageView)
    ensures
        step_state(s, MsgModel::ChooseLanguage(l)).programming_language == Some(l),
        step_state(s, MsgModel::ChooseLanguage(l)).show_info == s.show_info,
        step_state(s, MsgModel::ChooseLanguage(l)).code == s.code,
        step_state(s, MsgModel::ChooseLanguage(l)).webp_support == s.webp_support,
{
}

/// A probe result, whenever it arrives and whatever it says, never clears
/// the selected language, the code, or the intro flag.
pub proof fn lemma_probe_preserves_selection(s: StateModel, support: bool)
    ensures
        step_state(s, MsgModel::WebPSupport(support)).programming_language
            == s.programming_language,
        step_state(s, MsgModel::WebPSupport(support)).code == s.code,
        step_state(s, MsgModel::WebPSupport(support)).show_info == s.show_info,
{
}

} // verus!
