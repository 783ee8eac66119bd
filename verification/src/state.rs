//! What the application remembers between IPC messages.

use vstd::prelude::*;

verus! {

/// The application's shared state: the page it serves, what is waiting to
/// be shown once the front end is ready, and the interface locale.
#[derive(Debug)]
pub struct AppState {
    pub html: String,
    pub pending_file: Option<String>,
    pub pending_content: Option<String>,
    pub pending_title: Option<String>,
    pub locale: String,
}

/// The characters of an optional string.
pub open spec fn opt_chars(o: Option<String>) -> Option<Seq<char>> {
    match o {
        Some(s) => Some(s@),
        None => None,
    }
}

/// [`AppState`] as plain sequences of characters.
pub struct AppStateModel {
    pub html: Seq<char>,
    pub pending_file: Option<Seq<char>>,
    pub pending_content: Option<Seq<char>>,
    pub pending_title: Option<Seq<char>>,
    pub locale: Seq<char>,
}

impl View for AppState {
    type V = AppStateModel;

    open spec fn view(&self) -> AppStateModel {
        AppStateModel {
            html: self.html@,
            pending_file: opt_chars(self.pending_file),
            pending_content: opt_chars(self.pending_content),
            pending_title: opt_chars(self.pending_title),
            locale: self.locale@,
        }
    }
}

/// The state before anything happened: no page yet, nothing pending, and
/// English as the locale.
pub open spec fn initial_state() -> AppStateModel {
    AppStateModel {
        html: Seq::empty(),
        pending_file: None,
        pending_content: None,
        pending_title: None,
        locale: "en"@,
    }
}

/// The state once standard input has been read: text that is not empty
/// waits to be shown under the given title; nothing else changes.
pub open spec fn with_stdin(
    s: AppStateModel,
    input: Option<Seq<char>>,
    title: Option<Seq<char>>,
) -> AppStateModel {
    match input {
        Some(text) => if text.len() > 0 {
            AppStateModel { pending_content: Some(text), pending_title: title, ..s }
        } else {
            s
        },
        None => s,
    }
}

impl AppState {
    /// The initial state.
    pub fn new() -> (s: Self)
        ensures
            s@ == initial_state(),
    {
        AppState {
            html: String::new(),
            pending_file: None,
            pending_content: None,
            pending_title: None,
            locale: String::from_str("en"),
        }
    }

    /// Keeps what was read from standard input (if reading succeeded and
    /// gave some text) to be shown, under `title`, once the front end is
    /// ready.
    pub fn offer_stdin(&mut self, input: Option<String>, title: Option<String>)
        ensures
            final(self)@ == with_stdin(old(self)@, opt_chars(input), opt_chars(title)),
    {
        if let Some(text) = input {
            if text.as_str().is_empty() {
                return;
            }
            self.pending_content = Some(text);
            self.pending_title = title;
        }
    }
}

/// The application starts with no page, nothing pending, and English.
pub proof fn lemma_initial_state()
    ensures
        initial_state().html.len() == 0,
        initial_state().pending_file is None,
        initial_state().pending_content is None,
        initial_state().pending_title is None,
        initial_state().locale == seq!['e', 'n'],
{
    reveal_strlit("en");
}

/// Standard input that was read and is not empty waits to be shown under
/// the given title, and nothing else changes; input that could not be
/// read, or is empty, changes nothing.
pub proof fn lemma_stdin_offer(s: AppStateModel, input: Option<Seq<char>>, title: Option<Seq<char>>)
    ensures
        (input matches Some(t) && t.len() > 0) ==> with_stdin(s, input, title) == (AppStateModel {
            pending_content: input,
            pending_title: title,
            ..s
        }),
        !(input matches Some(t) && t.len() > 0) ==> with_stdin(s, input, title) == s,
        with_stdin(s, input, title).html == s.html,
        with_stdin(s, input, title).pending_file == s.pending_file,
        with_stdin(s, input, title).locale == s.locale,
{
}

} // verus!
