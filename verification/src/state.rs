//! The view controller's state machine: the session state, the messages that
//! transform it, the record written to the durable preference store, and the
//! predicate that gates the highlighter invocation after a render.

use vstd::prelude::*;
use vstd::string::StrSliceExecFns;

use crate::catalog::{in_catalog, LanguageView, ProgrammingLanguage};

verus! {

/// Whether `c` counts as whitespace when deciding if pasted code is blank.
pub uninterp spec fn is_whitespace_char(c: char) -> bool;

/// Relies on char::is_whitespace: true exactly for the characters with the
/// Unicode `White_Space` property, a fixed set that depends on the character
/// alone.
#[verifier::external_body]
fn char_is_whitespace(c: char) -> (r: bool)
    ensures
        r == is_whitespace_char(c),
{
    c.is_whitespace()
}

/// A string is blank when every character is whitespace; in particular the
/// empty string is blank.
pub open spec fn is_blank(s: Seq<char>) -> bool {
    forall|i: int| 0 <= i < s.len() ==> is_whitespace_char(s[i])
}

/// Whether `s` is blank: empty or all whitespace.
fn str_is_blank(s: &str) -> (r: bool)
    ensures
        r == is_blank(s@),
{
    let n = s.unicode_len();
    let mut i: usize = 0;
    while i < n
        invariant
            n == s@.len(),
            i <= n,
            forall|j: int| 0 <= j < i ==> is_whitespace_char(s@[j]),
        decreases n - i,
    {
        if !char_is_whitespace(s.get_char(i)) {
            return false;
        }
        i += 1;
    }
    true
}

/// The one durable record: the preference saved when the intro is dismissed.
/// A missing or absent field means the intro is shown.
#[derive(Clone, Copy)]
pub struct StoredState {
    pub show_info: Option<bool>,
}

/// The session state the view controller owns.
pub struct State {
    pub show_info: bool,
    pub code: String,
    pub programming_language: Option<ProgrammingLanguage>,
    pub webp_support: Option<bool>,
}

/// What the session state holds, at the specification level.
pub struct StateModel {
    pub show_info: bool,
    pub code: Seq<char>,
    pub programming_language: Option<LanguageView>,
    pub webp_support: Option<bool>,
}

impl View for State {
    type V = StateModel;

    open spec fn view(&self) -> StateModel {
        StateModel {
            show_info: self.show_info,
            code: self.code@,
            programming_language: match self.programming_language {
                Some(l) => Some(l@),
                None => None,
            },
            webp_support: self.webp_support,
        }
    }
}

/// The messages that drive the view controller.
pub enum Msg {
    HideInitMessage(bool),
    ChooseLanguage(ProgrammingLanguage),
    InputCode(String),
    WebPSupport(bool),
}

/// What a message holds, at the specification level.
pub enum MsgModel {
    HideInitMessage(bool),
    ChooseLanguage(LanguageView),
    InputCode(Seq<char>),
    WebPSupport(bool),
}

impl View for Msg {
    type V = MsgModel;

    open spec fn view(&self) -> MsgModel {
        match self {
            Msg::HideInitMessage(dont_show_again) => MsgModel::HideInitMessage(*dont_show_again),
            Msg::ChooseLanguage(language) => MsgModel::ChooseLanguage(language@),
            Msg::InputCode(text) => MsgModel::InputCode(text@),
            Msg::WebPSupport(support) => MsgModel::WebPSupport(*support),
        }
    }
}

/// The state invariant: a selected language is one of the catalog entries.
pub open spec fn wf_state(s: StateModel) -> bool {
    s.programming_language matches Some(l) ==> in_catalog(l)
}

/// Whether the intro panel is shown at startup, given what the store held:
/// shown unless a stored record carries an explicit preference.
pub open spec fn seeded_show_info(stored: Option<StoredState>) -> bool {
    match stored {
        Some(stored_state) => match stored_state.show_info {
            Some(show) => show,
            None => true,
        },
        None => true,
    }
}

/// The state a fresh session starts in: intro seeded from the stored
/// preference, no code, no language, probe unresolved.
pub open spec fn initial_model(stored: Option<StoredState>) -> StateModel {
    StateModel {
        show_info: seeded_show_info(stored),
        code: Seq::empty(),
        programming_language: None,
        webp_support: None,
    }
}

/// How one message transforms the session state. Dismissing the intro only
/// hides it; choosing a language only selects it; editing only replaces the
/// code; the probe result lands only on its first delivery, later ones are
/// ignored.
pub open spec fn step_state(s: StateModel, m: MsgModel) -> StateModel {
    match m {
        MsgModel::HideInitMessage(_) => StateModel { show_info: false, ..s },
        MsgModel::ChooseLanguage(l) => StateModel { programming_language: Some(l), ..s },
        MsgModel::InputCode(text) => StateModel { code: text, ..s },
        MsgModel::WebPSupport(support) => if s.webp_support is None {
            StateModel { webp_support: Some(support), ..s }
        } else {
            s
        },
    }
}

/// The record one message writes to the durable store, if any: dismissing
/// the intro stores the preference (show again exactly when the dismissal
/// was not persisted); no other message writes.
pub open spec fn step_store(m: MsgModel) -> Option<StoredState> {
    match m {
        MsgModel::HideInitMessage(dont_show_again) => Some(
            StoredState { show_info: Some(!dont_show_again) },
        ),
        _ => None,
    }
}

/// The highlighter runs after a render exactly when the pasted code is
/// non-blank and a language is selected.
pub open spec fn highlight_fires(s: StateModel) -> bool {
    !is_blank(s.code) && s.programming_language is Some
}

impl State {
    /// The state at component initialisation, seeded from whatever the
    /// durable store held (`None` on a first run or when the record was
    /// missing or malformed).
    pub fn create(stored: Option<StoredState>) -> (s: State)
        ensures
            s@ == initial_model(stored),
            wf_state(s@),
    {
        let mut state = State {
            show_info: true,
            code: String::new(),
            programming_language: None,
            webp_support: None,
        };
        if let Some(stored_state) = stored {
            if let Some(show) = stored_state.show_info {
                state.show_info = show;
            }
        }
        state
    }

    /// One synchronous state transition. Returns whether the view must be
    /// re-rendered and the record to write to the durable store, if any;
    /// the caller performs the write, merging into the existing record.
    pub fn update(&mut self, msg: Msg, stored: Option<StoredState>) -> (r: (
        bool,
        Option<StoredState>,
    ))
        requires
            wf_state(old(self)@),
            msg matches Msg::ChooseLanguage(l) ==> in_catalog(l@),
            msg matches Msg::HideInitMessage(_) ==> old(self).show_info,
        ensures
            final(self)@ == step_state(old(self)@, msg@),
            r.1 == step_store(msg@),
            r.0 == true,
            wf_state(final(self)@),
    {
        match msg {
            Msg::HideInitMessage(dont_show_again) => {
                self.show_info = false;
                let record = match stored {
                    Some(mut stored_state) => {
                        stored_state.show_info = Some(!dont_show_again);
                        stored_state
                    },
                    None => StoredState { show_info: Some(!dont_show_again) },
                };
                (true, Some(record))
            },
            Msg::ChooseLanguage(language) => {
                self.programming_language = Some(language);
                (true, None)
            },
            Msg::InputCode(text) => {
                self.code = text;
                (true, None)
            },
            Msg::WebPSupport(support) => {
                if self.webp_support.is_none() {
                    self.webp_support = Some(support);
                }
                (true, None)
            },
        }
    }

    /// Whether the post-render hook must invoke the external highlighter:
    /// exactly when the code is non-blank and a language is selected.
    pub fn should_highlight(&self) -> (r: bool)
        ensures
            r == highlight_fires(self@),
    {
        if self.programming_language.is_none() {
            return false;
        }
        !str_is_blank(self.code.as_str())
    }
}

} // verus!
