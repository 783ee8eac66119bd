//! The handling of messages from the front end. Each message, and each
//! result of outside work that a message started (a file dialog, a file
//! read or write), is an event; handling it may update the application's
//! state and yields one action for the host to perform.

use vstd::prelude::*;
use crate::i18n::{get_translations, translations_for};
use crate::state::{opt_chars, AppState, AppStateModel};
use crate::json::{
    json_object, lemma_json_object_reads_back, lemma_json_string_reads_back, read_json_object,
    read_json_string, json_object1, json_object2, json_object_with, json_object_with_two, JsonObject, json_string, text_less,
    to_json_string,
};
use crate::text::{push_str, str_eq};
use crate::url::{image_query, image_url, local_image_url};

verus! {

/// A message from the front end, as its JSON text decodes.
#[derive(Debug, PartialEq, Eq)]
pub struct IpcMessage {
    pub command: String,
    pub content: Option<String>,
    pub path: Option<String>,
    pub title: Option<String>,
}

/// What the host tells the handler.
#[derive(Debug, PartialEq, Eq)]
pub enum IpcEvent {
    /// A message arrived and decoded.
    Received(IpcMessage),
    /// A message arrived that does not decode; the text says why.
    Malformed(String),
    /// The open-file dialog closed, with the chosen path if any.
    OpenPathChosen(Option<String>),
    /// The save dialog for `content` closed, with the chosen path if any.
    SavePathChosen { content: String, chosen: Option<String> },
    /// The file at `path` was read: its text, or why it could not be.
    FileRead { path: String, contents: Result<String, String> },
    /// The file at `path` was written (or why it could not be); the path
    /// came from the save dialog when `from_dialog` holds.
    FileWritten { path: String, from_dialog: bool, outcome: Result<(), String> },
}

/// What the host is to do next.
#[derive(Debug, PartialEq, Eq)]
pub enum IpcAction {
    Nothing,
    /// Report a problem on the standard error stream.
    Log(String),
    /// Show the open-file dialog, then report [`IpcEvent::OpenPathChosen`].
    PickOpenFile,
    /// Show the save dialog, then report [`IpcEvent::SavePathChosen`].
    PickSaveFile { content: String },
    /// Read the file, then report [`IpcEvent::FileRead`].
    ReadFile { path: String },
    /// Write the file, then report [`IpcEvent::FileWritten`].
    WriteFile { path: String, content: String, from_dialog: bool },
    /// Evaluate the script in the web view.
    RunScript(String),
    SetTitle(String),
    Minimize,
    /// Maximize the window if it is not, restore it if it is.
    ToggleMaximize,
    /// Save the window's position and size, then end the program.
    CloseWindow,
}

/// [`IpcAction`] with texts as sequences of characters.
pub enum ActionModel {
    Nothing,
    Log(Seq<char>),
    PickOpenFile,
    PickSaveFile(Seq<char>),
    ReadFile(Seq<char>),
    WriteFile(Seq<char>, Seq<char>, bool),
    RunScript(Seq<char>),
    SetTitle(Seq<char>),
    Minimize,
    ToggleMaximize,
    CloseWindow,
}

impl View for IpcAction {
    type V = ActionModel;

    open spec fn view(&self) -> ActionModel {
        match self {
            IpcAction::Nothing => ActionModel::Nothing,
            IpcAction::Log(m) => ActionModel::Log(m@),
            IpcAction::PickOpenFile => ActionModel::PickOpenFile,
            IpcAction::PickSaveFile { content } => ActionModel::PickSaveFile(content@),
            IpcAction::ReadFile { path } => ActionModel::ReadFile(path@),
            IpcAction::WriteFile { path, content, from_dialog } => ActionModel::WriteFile(
                path@,
                content@,
                *from_dialog,
            ),
            IpcAction::RunScript(s) => ActionModel::RunScript(s@),
            IpcAction::SetTitle(t) => ActionModel::SetTitle(t@),
            IpcAction::Minimize => ActionModel::Minimize,
            IpcAction::ToggleMaximize => ActionModel::ToggleMaximize,
            IpcAction::CloseWindow => ActionModel::CloseWindow,
        }
    }
}

/// The script that hands an event and its JSON data to the front end.
pub open spec fn js_event_call(event: Seq<char>, data: Seq<char>) -> Seq<char> {
    "window.__fromRust("@ + json_string(event) + ", "@ + data + ")"@
}

pub open spec fn file_opened_script(content: Seq<char>, path: Seq<char>) -> Seq<char> {
    js_event_call("file_opened"@, json_object2("content"@, content, "path"@, path))
}

pub open spec fn file_saved_script(path: Seq<char>) -> Seq<char> {
    js_event_call("file_saved"@, json_object1("path"@, path))
}

pub open spec fn error_script(message: Seq<char>) -> Seq<char> {
    js_event_call("error"@, json_object1("message"@, message))
}

pub open spec fn stdin_opened_script(content: Seq<char>, title: Seq<char>) -> Seq<char> {
    js_event_call("stdin_opened"@, json_object2("content"@, content, "title"@, title))
}

/// The script that shows the image at `path`, served through the
/// protocol handler.
pub open spec fn set_image_script(path: Seq<char>) -> Seq<char> {
    "window.__setImage("@ + json_string(path) + ", "@ + json_string(image_url(path)) + ")"@
}

pub open spec fn show_drop_overlay_script() -> Seq<char> {
    "document.getElementById('drop-overlay').classList.add('visible')"@
}

pub open spec fn hide_drop_overlay_script() -> Seq<char> {
    "document.getElementById('drop-overlay').classList.remove('visible')"@
}

/// Saving the given content to a path that the user picks.
pub open spec fn save_as_action(content: Option<Seq<char>>) -> ActionModel {
    match content {
        Some(c) => ActionModel::PickSaveFile(c),
        None => ActionModel::Nothing,
    }
}

/// The state and action after a decoded message.
pub open spec fn message_next(s: AppStateModel, m: IpcMessage) -> (AppStateModel, ActionModel) {
    let command = m.command@;
    let content = opt_chars(m.content);
    let path = opt_chars(m.path);
    let title = opt_chars(m.title);
    if command == "open_file"@ {
        (s, match path {
            Some(p) => ActionModel::ReadFile(p),
            None => ActionModel::PickOpenFile,
        })
    } else if command == "save_file"@ {
        (s, match content {
            Some(c) => match path {
                Some(p) => ActionModel::WriteFile(p, c, false),
                None => save_as_action(content),
            },
            None => ActionModel::Nothing,
        })
    } else if command == "save_as"@ {
        (s, save_as_action(content))
    } else if command == "set_title"@ {
        (s, match title {
            Some(t) => ActionModel::SetTitle(t),
            None => ActionModel::Nothing,
        })
    } else if command == "window_minimize"@ {
        (s, ActionModel::Minimize)
    } else if command == "window_maximize"@ {
        (s, ActionModel::ToggleMaximize)
    } else if command == "window_close"@ {
        (s, ActionModel::CloseWindow)
    } else if command == "read_image"@ {
        (s, match path {
            Some(p) => ActionModel::RunScript(set_image_script(p)),
            None => ActionModel::Nothing,
        })
    } else if command == "drag_enter"@ {
        (s, ActionModel::RunScript(show_drop_overlay_script()))
    } else if command == "drag_leave"@ {
        (s, ActionModel::RunScript(hide_drop_overlay_script()))
    } else if command == "ready"@ {
        (
            AppStateModel { pending_file: None, pending_content: None, pending_title: None, ..s },
            match s.pending_file {
                Some(p) => ActionModel::ReadFile(p),
                None => match s.pending_content {
                    Some(c) => ActionModel::RunScript(
                        stdin_opened_script(
                            c,
                            match s.pending_title {
                                Some(t) => t,
                                None => translations_for(s.locale).stdin_label@,
                            },
                        ),
                    ),
                    None => ActionModel::Nothing,
                },
            },
        )
    } else {
        (s, ActionModel::Log("Unknown IPC command: "@ + command))
    }
}

/// The state and action after any event.
pub open spec fn ipc_next(s: AppStateModel, e: IpcEvent) -> (AppStateModel, ActionModel) {
    match e {
        IpcEvent::Received(m) => message_next(s, m),
        IpcEvent::Malformed(why) => (s, ActionModel::Log("IPC parse error: "@ + why@)),
        IpcEvent::OpenPathChosen(p) => (s, match p {
            Some(p) => ActionModel::ReadFile(p@),
            None => ActionModel::Nothing,
        }),
        IpcEvent::SavePathChosen { content, chosen } => (s, match chosen {
            Some(p) => ActionModel::WriteFile(p@, content@, true),
            None => ActionModel::Nothing,
        }),
        IpcEvent::FileRead { path, contents } => (s, match contents {
            Ok(text) => ActionModel::RunScript(file_opened_script(text@, path@)),
            Err(why) => ActionModel::RunScript(
                error_script(translations_for(s.locale).failed_open_file@ + why@),
            ),
        }),
        IpcEvent::FileWritten { path, from_dialog, outcome } => (s, match outcome {
            Ok(_) => ActionModel::RunScript(file_saved_script(path@)),
            Err(why) => ActionModel::RunScript(
                error_script(
                    translations_for(if from_dialog { "en"@ } else { s.locale }).failed_save@
                        + why@,
                ),
            ),
        }),
    }
}

/// The script that sends `event`, with its JSON `data`, to the front end.
pub fn send_to_js(event: &str, data: &JsonObject) -> (script: String)
    ensures
        script@ == js_event_call(event@, json_object(data@)),
{
    let mut out = String::new();
    push_str(&mut out, "window.__fromRust(");
    push_str(&mut out, to_json_string(event).as_str());
    push_str(&mut out, ", ");
    push_str(&mut out, data.as_str());
    push_str(&mut out, ")");
    out
}

/// The member keys of the messages come in the order `serde_json` writes
/// them.
pub(crate) proof fn lemma_member_keys_ordered()
    ensures
        text_less("content"@, "path"@),
        text_less("content"@, "title"@),
        text_less("command"@, "path"@),
        "content"@ != "path"@,
        "content"@ != "title"@,
        "command"@ != "path"@,
{
    reveal_strlit("content");
    reveal_strlit("path");
    reveal_strlit("title");
    reveal_strlit("command");
    assert("content"@.len() != "path"@.len());
    assert("content"@.len() != "title"@.len());
    assert("command"@.len() != "path"@.len());
}

fn error_action(prefix: &str, why: &str) -> (a: IpcAction)
    ensures
        a@ == ActionModel::RunScript(error_script(prefix@ + why@)),
{
    let mut message = String::new();
    push_str(&mut message, prefix);
    push_str(&mut message, why);
    let data = json_object_with("message", message.as_str());
    IpcAction::RunScript(send_to_js("error", &data))
}

fn file_opened_action(content: &str, path: &str) -> (a: IpcAction)
    ensures
        a@ == ActionModel::RunScript(file_opened_script(content@, path@)),
{
    proof {
        lemma_member_keys_ordered();
    }
    let data = json_object_with_two("content", content, "path", path);
    IpcAction::RunScript(send_to_js("file_opened", &data))
}

fn file_saved_action(path: &str) -> (a: IpcAction)
    ensures
        a@ == ActionModel::RunScript(file_saved_script(path@)),
{
    let data = json_object_with("path", path);
    IpcAction::RunScript(send_to_js("file_saved", &data))
}

fn stdin_opened_action(content: &str, title: &str) -> (a: IpcAction)
    ensures
        a@ == ActionModel::RunScript(stdin_opened_script(content@, title@)),
{
    proof {
        lemma_member_keys_ordered();
    }
    let data = json_object_with_two("content", content, "title", title);
    IpcAction::RunScript(send_to_js("stdin_opened", &data))
}

fn set_image_action(path: &str) -> (a: IpcAction)
    ensures
        a@ == ActionModel::RunScript(set_image_script(path@)),
{
    let url = local_image_url(path);
    let mut out = String::new();
    push_str(&mut out, "window.__setImage(");
    push_str(&mut out, to_json_string(path).as_str());
    push_str(&mut out, ", ");
    push_str(&mut out, to_json_string(url.as_str()).as_str());
    push_str(&mut out, ")");
    IpcAction::RunScript(out)
}

/// Starts saving `content` under a path that the user picks (nothing to
/// save, nothing to do).
pub fn handle_save_as(content: Option<String>) -> (a: IpcAction)
    ensures
        a@ == save_as_action(opt_chars(content)),
{
    match content {
        Some(c) => IpcAction::PickSaveFile { content: c },
        None => IpcAction::Nothing,
    }
}

fn handle_message(state: &mut AppState, m: IpcMessage) -> (a: IpcAction)
    ensures
        (final(state)@, a@) == message_next(old(state)@, m),
{
    let command = m.command.as_str();
    if str_eq(command, "open_file") {
        match m.path {
            Some(p) => IpcAction::ReadFile { path: p },
            None => IpcAction::PickOpenFile,
        }
    } else if str_eq(command, "save_file") {
        match m.content {
            Some(c) => match m.path {
                Some(p) => IpcAction::WriteFile { path: p, content: c, from_dialog: false },
                None => handle_save_as(Some(c)),
            },
            None => IpcAction::Nothing,
        }
    } else if str_eq(command, "save_as") {
        handle_save_as(m.content)
    } else if str_eq(command, "set_title") {
        match m.title {
            Some(t) => IpcAction::SetTitle(t),
            None => IpcAction::Nothing,
        }
    } else if str_eq(command, "window_minimize") {
        IpcAction::Minimize
    } else if str_eq(command, "window_maximize") {
        IpcAction::ToggleMaximize
    } else if str_eq(command, "window_close") {
        IpcAction::CloseWindow
    } else if str_eq(command, "read_image") {
        match m.path {
            Some(p) => set_image_action(p.as_str()),
            None => IpcAction::Nothing,
        }
    } else if str_eq(command, "drag_enter") {
        IpcAction::RunScript(
            String::from_str("document.getElementById('drop-overlay').classList.add('visible')"),
        )
    } else if str_eq(command, "drag_leave") {
        IpcAction::RunScript(
            String::from_str(
                "document.getElementById('drop-overlay').classList.remove('visible')",
            ),
        )
    } else if str_eq(command, "ready") {
        let pending_file = state.pending_file.take();
        let pending_content = state.pending_content.take();
        let pending_title = state.pending_title.take();
        match pending_file {
            Some(p) => IpcAction::ReadFile { path: p },
            None => match pending_content {
                Some(c) => match pending_title {
                    Some(t) => stdin_opened_action(c.as_str(), t.as_str()),
                    None => stdin_opened_action(
                        c.as_str(),
                        get_translations(state.locale.as_str()).stdin_label,
                    ),
                },
                None => IpcAction::Nothing,
            },
        }
    } else {
        let mut line = String::new();
        push_str(&mut line, "Unknown IPC command: ");
        push_str(&mut line, command);
        IpcAction::Log(line)
    }
}

/// Handles one event: updates the state as [`ipc_next`] says and returns
/// the action it names.
pub fn handle_ipc_message(state: &mut AppState, event: IpcEvent) -> (a: IpcAction)
    ensures
        (final(state)@, a@) == ipc_next(old(state)@, event),
{
    match event {
        IpcEvent::Received(m) => handle_message(state, m),
        IpcEvent::Malformed(why) => {
            let mut line = String::new();
            push_str(&mut line, "IPC parse error: ");
            push_str(&mut line, why.as_str());
            IpcAction::Log(line)
        },
        IpcEvent::OpenPathChosen(p) => match p {
            Some(p) => IpcAction::ReadFile { path: p },
            None => IpcAction::Nothing,
        },
        IpcEvent::SavePathChosen { content, chosen } => match chosen {
            Some(p) => IpcAction::WriteFile { path: p, content, from_dialog: true },
            None => IpcAction::Nothing,
        },
        IpcEvent::FileRead { path, contents } => match contents {
            Ok(text) => file_opened_action(text.as_str(), path.as_str()),
            Err(why) => error_action(
                get_translations(state.locale.as_str()).failed_open_file,
                why.as_str(),
            ),
        },
        IpcEvent::FileWritten { path, from_dialog, outcome } => match outcome {
            Ok(_) => file_saved_action(path.as_str()),
            Err(why) => {
                let locale = if from_dialog {
                    "en"
                } else {
                    state.locale.as_str()
                };
                error_action(get_translations(locale).failed_save, why.as_str())
            },
        },
    }
}


proof fn lemma_command_names_differ()
    ensures
        "ready"@ != "open_file"@,
        "ready"@ != "save_file"@,
        "ready"@ != "save_as"@,
        "ready"@ != "set_title"@,
        "ready"@ != "window_minimize"@,
        "ready"@ != "window_maximize"@,
        "ready"@ != "window_close"@,
        "ready"@ != "read_image"@,
        "ready"@ != "drag_enter"@,
        "ready"@ != "drag_leave"@,
        "en"@ != "pt-BR"@,
{
    reveal_strlit("ready");
    reveal_strlit("open_file");
    reveal_strlit("save_file");
    reveal_strlit("save_as");
    reveal_strlit("set_title");
    reveal_strlit("window_minimize");
    reveal_strlit("window_maximize");
    reveal_strlit("window_close");
    reveal_strlit("read_image");
    reveal_strlit("drag_enter");
    reveal_strlit("drag_leave");
    reveal_strlit("en");
    reveal_strlit("pt-BR");
    assert("ready"@.len() != "open_file"@.len());
    assert("ready"@.len() != "save_file"@.len());
    assert("ready"@[0] != "save_as"@[0]);
    assert("ready"@.len() != "set_title"@.len());
    assert("ready"@.len() != "window_minimize"@.len());
    assert("ready"@.len() != "window_maximize"@.len());
    assert("ready"@.len() != "window_close"@.len());
    assert("ready"@.len() != "read_image"@.len());
    assert("ready"@.len() != "drag_enter"@.len());
    assert("ready"@.len() != "drag_leave"@.len());
    assert("en"@.len() != "pt-BR"@.len());
}

/// The command names are all different.
proof fn lemma_command_names_distinct()
    ensures
        "open_file"@ != "save_file"@,
        "open_file"@ != "save_as"@,
        "open_file"@ != "set_title"@,
        "open_file"@ != "window_minimize"@,
        "open_file"@ != "window_maximize"@,
        "open_file"@ != "window_close"@,
        "open_file"@ != "read_image"@,
        "open_file"@ != "drag_enter"@,
        "open_file"@ != "drag_leave"@,
        "open_file"@ != "ready"@,
        "save_file"@ != "save_as"@,
        "save_file"@ != "set_title"@,
        "save_file"@ != "window_minimize"@,
        "save_file"@ != "window_maximize"@,
        "save_file"@ != "window_close"@,
        "save_file"@ != "read_image"@,
        "save_file"@ != "drag_enter"@,
        "save_file"@ != "drag_leave"@,
        "save_file"@ != "ready"@,
        "save_as"@ != "set_title"@,
        "save_as"@ != "window_minimize"@,
        "save_as"@ != "window_maximize"@,
        "save_as"@ != "window_close"@,
        "save_as"@ != "read_image"@,
        "save_as"@ != "drag_enter"@,
        "save_as"@ != "drag_leave"@,
        "save_as"@ != "ready"@,
        "set_title"@ != "window_minimize"@,
        "set_title"@ != "window_maximize"@,
        "set_title"@ != "window_close"@,
        "set_title"@ != "read_image"@,
        "set_title"@ != "drag_enter"@,
        "set_title"@ != "drag_leave"@,
        "set_title"@ != "ready"@,
        "window_minimize"@ != "window_maximize"@,
        "window_minimize"@ != "window_close"@,
        "window_minimize"@ != "read_image"@,
        "window_minimize"@ != "drag_enter"@,
        "window_minimize"@ != "drag_leave"@,
        "window_minimize"@ != "ready"@,
        "window_maximize"@ != "window_close"@,
        "window_maximize"@ != "read_image"@,
        "window_maximize"@ != "drag_enter"@,
        "window_maximize"@ != "drag_leave"@,
        "window_maximize"@ != "ready"@,
        "window_close"@ != "read_image"@,
        "window_close"@ != "drag_enter"@,
        "window_close"@ != "drag_leave"@,
        "window_close"@ != "ready"@,
        "read_image"@ != "drag_enter"@,
        "read_image"@ != "drag_leave"@,
        "read_image"@ != "ready"@,
        "drag_enter"@ != "drag_leave"@,
        "drag_enter"@ != "ready"@,
        "drag_leave"@ != "ready"@,
{
    reveal_strlit("open_file");
    reveal_strlit("save_file");
    reveal_strlit("save_as");
    reveal_strlit("set_title");
    reveal_strlit("window_minimize");
    reveal_strlit("window_maximize");
    reveal_strlit("window_close");
    reveal_strlit("read_image");
    reveal_strlit("drag_enter");
    reveal_strlit("drag_leave");
    reveal_strlit("ready");
    assert("open_file"@[0] != "save_file"@[0]);
    assert("open_file"@.len() != "save_as"@.len());
    assert("open_file"@[0] != "set_title"@[0]);
    assert("open_file"@.len() != "window_minimize"@.len());
    assert("open_file"@.len() != "window_maximize"@.len());
    assert("open_file"@.len() != "window_close"@.len());
    assert("open_file"@.len() != "read_image"@.len());
    assert("open_file"@.len() != "drag_enter"@.len());
    assert("open_file"@.len() != "drag_leave"@.len());
    assert("open_file"@.len() != "ready"@.len());
    assert("save_file"@.len() != "save_as"@.len());
    assert("save_file"@[1] != "set_title"@[1]);
    assert("save_file"@.len() != "window_minimize"@.len());
    assert("save_file"@.len() != "window_maximize"@.len());
    assert("save_file"@.len() != "window_close"@.len());
    assert("save_file"@.len() != "read_image"@.len());
    assert("save_file"@.len() != "drag_enter"@.len());
    assert("save_file"@.len() != "drag_leave"@.len());
    assert("save_file"@.len() != "ready"@.len());
    assert("save_as"@.len() != "set_title"@.len());
    assert("save_as"@.len() != "window_minimize"@.len());
    assert("save_as"@.len() != "window_maximize"@.len());
    assert("save_as"@.len() != "window_close"@.len());
    assert("save_as"@.len() != "read_image"@.len());
    assert("save_as"@.len() != "drag_enter"@.len());
    assert("save_as"@.len() != "drag_leave"@.len());
    assert("save_as"@.len() != "ready"@.len());
    assert("set_title"@.len() != "window_minimize"@.len());
    assert("set_title"@.len() != "window_maximize"@.len());
    assert("set_title"@.len() != "window_close"@.len());
    assert("set_title"@.len() != "read_image"@.len());
    assert("set_title"@.len() != "drag_enter"@.len());
    assert("set_title"@.len() != "drag_leave"@.len());
    assert("set_title"@.len() != "ready"@.len());
    assert("window_minimize"@[8] != "window_maximize"@[8]);
    assert("window_minimize"@.len() != "window_close"@.len());
    assert("window_minimize"@.len() != "read_image"@.len());
    assert("window_minimize"@.len() != "drag_enter"@.len());
    assert("window_minimize"@.len() != "drag_leave"@.len());
    assert("window_minimize"@.len() != "ready"@.len());
    assert("window_maximize"@.len() != "window_close"@.len());
    assert("window_maximize"@.len() != "read_image"@.len());
    assert("window_maximize"@.len() != "drag_enter"@.len());
    assert("window_maximize"@.len() != "drag_leave"@.len());
    assert("window_maximize"@.len() != "ready"@.len());
    assert("window_close"@.len() != "read_image"@.len());
    assert("window_close"@.len() != "drag_enter"@.len());
    assert("window_close"@.len() != "drag_leave"@.len());
    assert("window_close"@.len() != "ready"@.len());
    assert("read_image"@[0] != "drag_enter"@[0]);
    assert("read_image"@[0] != "drag_leave"@[0]);
    assert("read_image"@.len() != "ready"@.len());
    assert("drag_enter"@[5] != "drag_leave"@[5]);
    assert("drag_enter"@.len() != "ready"@.len());
    assert("drag_leave"@.len() != "ready"@.len());
}

/// The frame of a script that hands an event and an object of string
/// members to the front end, spelled out.
pub open spec fn event_script_text(event: Seq<char>, members: Seq<(Seq<char>, Seq<char>)>) -> Seq<char> {
    "window.__fromRust("@ + json_string(event) + ", "@ + json_object(members) + ")"@
}

/// What each front-end message asks the host to do, and that it leaves
/// the state alone:
/// - `open_file` reads the file at the given path, or shows the open
///   dialog when there is none;
/// - `save_file` writes the content to the given path, or shows the save
///   dialog for it when there is no path, and does nothing without content;
/// - `save_as` shows the save dialog for the content, and does nothing
///   without content;
/// - `set_title` sets the window title (nothing without a title);
/// - `window_minimize`, `window_maximize`, `window_close` minimize, toggle
///   maximized, and close the window;
/// - `read_image` runs `window.__setImage` with the path and the URL of
///   the image (nothing without a path);
/// - `drag_enter` and `drag_leave` show and hide the drop overlay;
/// - any unknown command is logged as such.
pub proof fn lemma_message_actions(s: AppStateModel, m: IpcMessage)
    ensures
        ipc_next(s, IpcEvent::Received(m)).0 == s || m.command@ == "ready"@,
        m.command@ == "open_file"@ ==> ipc_next(s, IpcEvent::Received(m)).1 == match m.path {
            Some(p) => ActionModel::ReadFile(p@),
            None => ActionModel::PickOpenFile,
        },
        m.command@ == "save_file"@ ==> ipc_next(s, IpcEvent::Received(m)).1 == match m.content {
            Some(c) => match m.path {
                Some(p) => ActionModel::WriteFile(p@, c@, false),
                None => ActionModel::PickSaveFile(c@),
            },
            None => ActionModel::Nothing,
        },
        m.command@ == "save_as"@ ==> ipc_next(s, IpcEvent::Received(m)).1 == match m.content {
            Some(c) => ActionModel::PickSaveFile(c@),
            None => ActionModel::Nothing,
        },
        m.command@ == "set_title"@ ==> ipc_next(s, IpcEvent::Received(m)).1 == match m.title {
            Some(t) => ActionModel::SetTitle(t@),
            None => ActionModel::Nothing,
        },
        m.command@ == "window_minimize"@ ==> ipc_next(s, IpcEvent::Received(m)).1
            == ActionModel::Minimize,
        m.command@ == "window_maximize"@ ==> ipc_next(s, IpcEvent::Received(m)).1
            == ActionModel::ToggleMaximize,
        m.command@ == "window_close"@ ==> ipc_next(s, IpcEvent::Received(m)).1
            == ActionModel::CloseWindow,
        m.command@ == "read_image"@ ==> ipc_next(s, IpcEvent::Received(m)).1 == match m.path {
            Some(p) => ActionModel::RunScript(
                "window.__setImage("@ + json_string(p@) + ", "@ + json_string(
                    "http://peekdown.localhost/local-image?"@ + image_query(p@),
                ) + ")"@,
            ),
            None => ActionModel::Nothing,
        },
        m.command@ == "drag_enter"@ ==> ipc_next(s, IpcEvent::Received(m)).1
            == ActionModel::RunScript(
            "document.getElementById('drop-overlay').classList.add('visible')"@,
        ),
        m.command@ == "drag_leave"@ ==> ipc_next(s, IpcEvent::Received(m)).1
            == ActionModel::RunScript(
            "document.getElementById('drop-overlay').classList.remove('visible')"@,
        ),
        !(m.command@ == "open_file"@ || m.command@ == "save_file"@ || m.command@ == "save_as"@
            || m.command@ == "set_title"@ || m.command@ == "window_minimize"@ || m.command@
            == "window_maximize"@ || m.command@ == "window_close"@ || m.command@ == "read_image"@
            || m.command@ == "drag_enter"@ || m.command@ == "drag_leave"@ || m.command@
            == "ready"@) ==> ipc_next(s, IpcEvent::Received(m)).1 == ActionModel::Log(
            "Unknown IPC command: "@ + m.command@,
        ),
{
    lemma_command_names_distinct();
}

/// What the host's reports lead to, none of them changing the state: a
/// chosen path is read or written (a dialog closed without one does
/// nothing); a file read is shown as `file_opened` with its content and
/// path; a file written is announced as `file_saved` with its path; and a
/// message that does not decode is logged.
pub proof fn lemma_host_reports(s: AppStateModel, e: IpcEvent)
    ensures
        ipc_next(s, e).0 == s || e is Received,
        e matches IpcEvent::OpenPathChosen(p) ==> ipc_next(s, e).1 == match p {
            Some(p) => ActionModel::ReadFile(p@),
            None => ActionModel::Nothing,
        },
        e matches IpcEvent::SavePathChosen { content, chosen } ==> ipc_next(s, e).1 == match chosen {
            Some(p) => ActionModel::WriteFile(p@, content@, true),
            None => ActionModel::Nothing,
        },
        e matches IpcEvent::FileRead { path, contents } ==> (contents matches Ok(text)
            ==> ipc_next(s, e).1 == ActionModel::RunScript(
            event_script_text("file_opened"@, seq![("content"@, text@), ("path"@, path@)]),
        )),
        e matches IpcEvent::FileWritten { path, from_dialog, outcome } ==> (outcome is Ok
            ==> ipc_next(s, e).1 == ActionModel::RunScript(
            event_script_text("file_saved"@, seq![("path"@, path@)]),
        )),
        e matches IpcEvent::Malformed(why) ==> ipc_next(s, e).1 == ActionModel::Log(
            "IPC parse error: "@ + why@,
        ),
{
    match e {
        IpcEvent::FileRead { path, contents } => {
            if let Ok(text) = contents {
                assert(js_event_call(
                    "file_opened"@,
                    json_object2("content"@, text@, "path"@, path@),
                ) =~= event_script_text("file_opened"@, seq![("content"@, text@), ("path"@, path@)]));
            }
        },
        IpcEvent::FileWritten { path, from_dialog, outcome } => {
            assert(js_event_call("file_saved"@, json_object1("path"@, path@)) =~= event_script_text(
                "file_saved"@,
                seq![("path"@, path@)],
            ));
        },
        _ => {},
    }
}

/// The scripts that answer the front end, spelled out: `stdin_opened`
/// with the content and title, `error` with the message, `file_opened`
/// with the content and path, `file_saved` with the path.
pub proof fn lemma_reply_scripts_spelled_out(
    content: Seq<char>,
    title: Seq<char>,
    path: Seq<char>,
    message: Seq<char>,
)
    ensures
        stdin_opened_script(content, title) == event_script_text(
            "stdin_opened"@,
            seq![("content"@, content), ("title"@, title)],
        ),
        error_script(message) == event_script_text("error"@, seq![("message"@, message)]),
        file_opened_script(content, path) == event_script_text(
            "file_opened"@,
            seq![("content"@, content), ("path"@, path)],
        ),
        file_saved_script(path) == event_script_text("file_saved"@, seq![("path"@, path)]),
{
    assert(stdin_opened_script(content, title) =~= event_script_text(
        "stdin_opened"@,
        seq![("content"@, content), ("title"@, title)],
    ));
    assert(error_script(message) =~= event_script_text("error"@, seq![("message"@, message)]));
    assert(file_opened_script(content, path) =~= event_script_text(
        "file_opened"@,
        seq![("content"@, content), ("path"@, path)],
    ));
    assert(file_saved_script(path) =~= event_script_text("file_saved"@, seq![("path"@, path)]));
}

/// Only a `ready` message changes the state: every other event leaves it
/// as it was.
pub proof fn lemma_only_ready_changes_state(s: AppStateModel, e: IpcEvent)
    requires
        !(e matches IpcEvent::Received(m) && m.command@ == "ready"@),
    ensures
        ipc_next(s, e).0 == s,
{
}

/// A `ready` message hands over what was pending exactly once: afterwards
/// nothing is pending, and a second `ready` message does nothing.
pub proof fn lemma_ready_consumes_pending(s: AppStateModel, first: IpcMessage, second: IpcMessage)
    requires
        first.command@ == "ready"@,
        second.command@ == "ready"@,
    ensures
        ipc_next(s, IpcEvent::Received(first)).0.pending_file is None,
        ipc_next(s, IpcEvent::Received(first)).0.pending_content is None,
        ipc_next(s, IpcEvent::Received(first)).0.pending_title is None,
        ipc_next(s, IpcEvent::Received(first)).0.html == s.html,
        ipc_next(s, IpcEvent::Received(first)).0.locale == s.locale,
        ipc_next(ipc_next(s, IpcEvent::Received(first)).0, IpcEvent::Received(second)) == (
            ipc_next(s, IpcEvent::Received(first)).0,
            ActionModel::Nothing,
        ),
{
    lemma_command_names_differ();
}

/// On `ready`, a file given on the command line is opened, and standard
/// input waiting beside it is dropped; standard input alone is shown under
/// its title, or under the locale's label for it.
pub proof fn lemma_ready_shows_file_before_stdin(s: AppStateModel, m: IpcMessage)
    requires
        m.command@ == "ready"@,
    ensures
        s.pending_file matches Some(p) ==> ipc_next(s, IpcEvent::Received(m)).1
            == ActionModel::ReadFile(p),
        s.pending_file is None ==> (s.pending_content matches Some(c) ==> ipc_next(
            s,
            IpcEvent::Received(m),
        ).1 == ActionModel::RunScript(
            stdin_opened_script(
                c,
                match s.pending_title {
                    Some(t) => t,
                    None => translations_for(s.locale).stdin_label@,
                },
            ),
        )),
        s.pending_file is None && s.pending_content is None ==> ipc_next(
            s,
            IpcEvent::Received(m),
        ).1 == ActionModel::Nothing,
{
    lemma_command_names_differ();
}

/// A file that cannot be saved under a path picked in the save dialog is
/// reported with the English prefix, whatever the locale; one that cannot
/// be saved under its own path, or read, is reported in the locale.
pub proof fn lemma_error_prefixes(s: AppStateModel, path: String, why: String)
    ensures
        ipc_next(
            s,
            IpcEvent::FileWritten { path, from_dialog: true, outcome: Err(why) },
        ).1 == ActionModel::RunScript(error_script("Failed to save: "@ + why@)),
        ipc_next(
            s,
            IpcEvent::FileWritten { path, from_dialog: false, outcome: Err(why) },
        ).1 == ActionModel::RunScript(
            error_script(translations_for(s.locale).failed_save@ + why@),
        ),
        ipc_next(s, IpcEvent::FileRead { path, contents: Err(why) }).1 == ActionModel::RunScript(
            error_script(translations_for(s.locale).failed_open_file@ + why@),
        ),
{
    lemma_command_names_differ();
}

/// Every script that [`send_to_js`] makes is one call of
/// `window.__fromRust`: its first argument reads back as exactly the
/// event's name, followed by `, `, the data and `)`, and the data (a
/// [`JsonObject`], whose view is its members) reads back as exactly its
/// members. No event name and no data can end the call early or add code.
pub proof fn lemma_event_script_reads_back(event: Seq<char>, members: Seq<(Seq<char>, Seq<char>)>)
    ensures
        js_event_call(event, json_object(members)).take("window.__fromRust("@.len() as int)
            == "window.__fromRust("@,
        read_json_string(
            js_event_call(event, json_object(members)).skip("window.__fromRust("@.len() as int),
        ) == Some((event, ", "@ + json_object(members) + ")"@)),
        read_json_object(json_object(members)) == Some(members),
{
    let p = "window.__fromRust("@;
    let rest = ", "@ + json_object(members) + ")"@;
    let script = js_event_call(event, json_object(members));
    assert(script =~= p + (json_string(event) + rest));
    assert(script.take(p.len() as int) =~= p);
    assert(script.skip(p.len() as int) =~= json_string(event) + rest);
    lemma_json_string_reads_back(event, rest);
    lemma_json_object_reads_back(members);
}

/// The image script is one call of `window.__setImage` whose two
/// arguments read back as exactly the path and its URL.
pub proof fn lemma_set_image_script_reads_back(path: Seq<char>)
    ensures
        set_image_script(path).take("window.__setImage("@.len() as int) == "window.__setImage("@,
        read_json_string(set_image_script(path).skip("window.__setImage("@.len() as int)) == Some(
            (path, ", "@ + json_string(image_url(path)) + ")"@),
        ),
        read_json_string(json_string(image_url(path)) + ")"@) == Some((image_url(path), ")"@)),
{
    let p = "window.__setImage("@;
    let rest = ", "@ + json_string(image_url(path)) + ")"@;
    let script = set_image_script(path);
    assert(script =~= p + (json_string(path) + rest));
    assert(script.take(p.len() as int) =~= p);
    assert(script.skip(p.len() as int) =~= json_string(path) + rest);
    lemma_json_string_reads_back(path, rest);
    lemma_json_string_reads_back(image_url(path), ")"@);
}

} // verus!
