use peekdown::cli::{parse_args, CliOptions};
use peekdown::html::{build_html, escape_for_script_tag, FrontendAssets};
use peekdown::i18n::{detect_locale, get_translations, LANG_ID_PORTUGUESE_BRAZIL};
use peekdown::ipc::{handle_ipc_message, handle_save_as, send_to_js, IpcAction, IpcEvent, IpcMessage};
use peekdown::json::{json_object_with, json_object_with_two, json_string_literal};
use peekdown::protocol::{
    command_message, dropped_file_opens, image_mime_type, mime_type_for, open_file_message,
    opens_on_drop, route_request, Route,
};
use peekdown::state::AppState;
use peekdown::text::{has_prefix, replace_all, str_eq};
use peekdown::url::{encode_image_query, image_path_from_query, local_image_url};

fn message(command: &str) -> IpcMessage {
    IpcMessage { command: command.to_string(), content: None, path: None, title: None }
}

fn received(m: IpcMessage) -> IpcEvent {
    IpcEvent::Received(m)
}

fn script(a: IpcAction) -> String {
    match a {
        IpcAction::RunScript(s) => s,
        other => panic!("expected a script, got {:?}", other),
    }
}

// ---- text

#[test]
fn text_replace_all_is_left_to_right_and_non_overlapping() {
    assert_eq!(replace_all("aaa", "aa", "b"), "ba");
    assert_eq!(replace_all("xaxa", "a", "yy"), "xyyxyy");
    assert_eq!(replace_all("", "a", "b"), "");
    assert_eq!(replace_all("abc", "abcd", "z"), "abc");
}

#[test]
fn text_equality_and_prefix() {
    assert!(str_eq("pt-BR", "pt-BR"));
    assert!(!str_eq("pt-BR", "pt-br"));
    assert!(has_prefix("pt_BR.UTF-8", "pt"));
    assert!(!has_prefix("p", "pt"));
    assert!(has_prefix("anything", ""));
}

// ---- html

#[test]
fn escape_rewrites_every_closing_script_tag() {
    assert_eq!(escape_for_script_tag("a</script>b"), "a<\\/script>b");
    assert_eq!(escape_for_script_tag("</script</script"), "<\\/script<\\/script");
    assert_eq!(escape_for_script_tag("<</script"), "<<\\/script");
    assert_eq!(escape_for_script_tag("let x = 1 < 2;"), "let x = 1 < 2;");
}

#[test]
fn escape_leaves_no_closing_script_tag() {
    for js in ["</script", "<</script>", "x</script</script>y", "</scrip</script", "</SCRIPT"] {
        assert!(!escape_for_script_tag(js).contains("</script"), "{}", js);
    }
}

#[test]
fn build_html_inlines_stylesheet_and_scripts_in_order() {
    let assets = FrontendAssets {
        index_html: "<html><style>/* __CSS__ */</style><!-- __SCRIPTS__ --></html>".to_string(),
        style_css: "body{}".to_string(),
        app_js: "app</script>".to_string(),
        editor_js: "editor".to_string(),
        preview_js: "preview".to_string(),
        tabs_js: "tabs".to_string(),
        marked_js: "marked".to_string(),
        highlight_js: "hljs".to_string(),
    };
    let expected = "<html><style>body{}</style><script>hljs</script>\n<script>marked</script>\n\
<script>preview</script>\n<script>tabs</script>\n<script>editor</script>\n\
<script>app<\\/script></script></html>";
    assert_eq!(build_html(&assets), expected);
}

// ---- i18n

#[test]
fn translations_for_pt_br_and_fallback_to_english() {
    assert_eq!(get_translations("pt-BR").failed_save, "Falha ao salvar: ");
    assert_eq!(get_translations("pt-BR").stdin_label, "entrada padrão");
    assert_eq!(get_translations("en").failed_open_file, "Failed to open file: ");
    assert_eq!(get_translations("fr"), get_translations("en"));
    assert_eq!(get_translations(""), get_translations("en"));
    assert_eq!(get_translations("pt_BR"), get_translations("en"));
}

#[test]
fn detect_locale_cases() {
    assert_eq!(detect_locale(Some(LANG_ID_PORTUGUESE_BRAZIL), None), "pt-BR");
    assert_eq!(detect_locale(Some(0x0409), Some("en_US.UTF-8")), "en");
    assert_eq!(detect_locale(None, Some("pt_BR.UTF-8")), "pt-BR");
    assert_eq!(detect_locale(None, Some("pt_PT")), "pt-BR");
    assert_eq!(detect_locale(None, Some("p")), "en");
    assert_eq!(detect_locale(None, Some("de_DE")), "en");
    assert_eq!(detect_locale(None, None), "en");
}

#[test]
fn detected_locale_always_has_texts() {
    for (ui, lang) in [(None, None), (Some(1u16), Some("xx")), (None, Some("pt"))] {
        let l = detect_locale(ui, lang);
        assert!(l == "en" || l == "pt-BR");
    }
}

// ---- state

#[test]
fn new_state_is_empty_and_english() {
    let s = AppState::new();
    assert_eq!(s.html, "");
    assert_eq!(s.pending_file, None);
    assert_eq!(s.pending_content, None);
    assert_eq!(s.pending_title, None);
    assert_eq!(s.locale, "en");
}

#[test]
fn stdin_is_kept_only_when_not_empty() {
    let mut s = AppState::new();
    s.offer_stdin(Some(String::new()), Some("t".to_string()));
    assert_eq!(s.pending_content, None);
    assert_eq!(s.pending_title, None);
    s.offer_stdin(None, Some("t".to_string()));
    assert_eq!(s.pending_title, None);
    s.offer_stdin(Some("# notes".to_string()), Some("t".to_string()));
    assert_eq!(s.pending_content.as_deref(), Some("# notes"));
    assert_eq!(s.pending_title.as_deref(), Some("t"));
}

// ---- cli

fn args(v: &[&str]) -> Vec<String> {
    v.iter().map(|s| s.to_string()).collect()
}

#[test]
fn cli_flags_title_and_first_file() {
    let o = parse_args(&args(&["--stdin", "--title", "Notes", "a.md", "b.md"]));
    assert_eq!(
        o,
        CliOptions {
            file: Some("a.md".to_string()),
            read_stdin: true,
            title: Some("Notes".to_string())
        }
    );
}

#[test]
fn cli_trailing_title_is_ignored_and_later_title_wins() {
    let o = parse_args(&args(&["--title"]));
    assert_eq!(o, CliOptions { file: None, read_stdin: false, title: None });
    let o = parse_args(&args(&["x.md", "--title", "A", "--title", "B"]));
    assert_eq!(o.title.as_deref(), Some("B"));
    assert_eq!(o.file.as_deref(), Some("x.md"));
    let o = parse_args(&args(&["--title", "--stdin"]));
    assert_eq!(o.title.as_deref(), Some("--stdin"));
    assert!(!o.read_stdin);
    assert_eq!(parse_args(&Vec::new()), CliOptions { file: None, read_stdin: false, title: None });
}

// ---- json framing (serde_json)

#[test]
fn json_literals_are_quoted_and_escaped() {
    assert_eq!(json_string_literal("a\"b\\c\n"), "\"a\\\"b\\\\c\\n\"");
    assert_eq!(json_object_with("path", "a.md").as_str(), "{\"path\":\"a.md\"}");
    assert_eq!(
        json_object_with_two("content", "x", "path", "y").as_str(),
        "{\"content\":\"x\",\"path\":\"y\"}"
    );
    assert_eq!(
        send_to_js("file_saved", &json_object_with("path", "a")),
        "window.__fromRust(\"file_saved\", {\"path\":\"a\"})"
    );
}

fn object(members: &[(&str, &str)]) -> serde_json::Value {
    let mut m = serde_json::Map::new();
    for (k, v) in members {
        m.insert(k.to_string(), serde_json::Value::String(v.to_string()));
    }
    serde_json::Value::Object(m)
}

#[test]
fn json_framing_matches_serde_json_objects() {
    let v = object(&[("content", "# T\n\"q\""), ("path", "C:\\a.md")]);
    assert_eq!(
        json_object_with_two("content", "# T\n\"q\"", "path", "C:\\a.md").as_str(),
        serde_json::to_string(&v).unwrap()
    );
    let v = object(&[("message", "Failed: é\t")]);
    assert_eq!(json_object_with("message", "Failed: é\t").as_str(), serde_json::to_string(&v).unwrap());
}

// ---- ipc

#[test]
fn ipc_ready_opens_pending_file_once() {
    let mut s = AppState::new();
    s.pending_file = Some("a.md".to_string());
    s.pending_content = Some("stdin text".to_string());
    let a = handle_ipc_message(&mut s, received(message("ready")));
    assert_eq!(a, IpcAction::ReadFile { path: "a.md".to_string() });
    assert_eq!(s.pending_file, None);
    assert_eq!(s.pending_content, None);
    assert_eq!(s.pending_title, None);
    let a = handle_ipc_message(&mut s, received(message("ready")));
    assert_eq!(a, IpcAction::Nothing);
}

#[test]
fn ipc_ready_shows_stdin_with_default_title() {
    let mut s = AppState::new();
    s.pending_content = Some("abc".to_string());
    let a = handle_ipc_message(&mut s, received(message("ready")));
    assert_eq!(
        script(a),
        "window.__fromRust(\"stdin_opened\", {\"content\":\"abc\",\"title\":\"stdin\"})"
    );
    let mut s = AppState::new();
    s.locale = "pt-BR".to_string();
    s.pending_content = Some("abc".to_string());
    let a = handle_ipc_message(&mut s, received(message("ready")));
    assert_eq!(
        script(a),
        "window.__fromRust(\"stdin_opened\", {\"content\":\"abc\",\"title\":\"entrada padrão\"})"
    );
    let mut s = AppState::new();
    s.pending_content = Some("abc".to_string());
    s.pending_title = Some("Log".to_string());
    let a = handle_ipc_message(&mut s, received(message("ready")));
    assert_eq!(
        script(a),
        "window.__fromRust(\"stdin_opened\", {\"content\":\"abc\",\"title\":\"Log\"})"
    );
}

#[test]
fn ipc_open_file_paths() {
    let mut s = AppState::new();
    let a = handle_ipc_message(&mut s, received(message("open_file")));
    assert_eq!(a, IpcAction::PickOpenFile);
    assert_eq!(handle_ipc_message(&mut s, IpcEvent::OpenPathChosen(None)), IpcAction::Nothing);
    assert_eq!(
        handle_ipc_message(&mut s, IpcEvent::OpenPathChosen(Some("b.md".to_string()))),
        IpcAction::ReadFile { path: "b.md".to_string() }
    );
    let mut m = message("open_file");
    m.path = Some("c.md".to_string());
    assert_eq!(
        handle_ipc_message(&mut s, received(m)),
        IpcAction::ReadFile { path: "c.md".to_string() }
    );
}

#[test]
fn ipc_file_read_results() {
    let mut s = AppState::new();
    let a = handle_ipc_message(
        &mut s,
        IpcEvent::FileRead { path: "a.md".to_string(), contents: Ok("# Hi\n".to_string()) },
    );
    assert_eq!(
        script(a),
        "window.__fromRust(\"file_opened\", {\"content\":\"# Hi\\n\",\"path\":\"a.md\"})"
    );
    s.locale = "pt-BR".to_string();
    let a = handle_ipc_message(
        &mut s,
        IpcEvent::FileRead { path: "a.md".to_string(), contents: Err("boom".to_string()) },
    );
    assert_eq!(
        script(a),
        "window.__fromRust(\"error\", {\"message\":\"Falha ao abrir arquivo: boom\"})"
    );
}

#[test]
fn ipc_save_flows() {
    let mut s = AppState::new();
    let mut m = message("save_file");
    m.content = Some("text".to_string());
    m.path = Some("a.md".to_string());
    assert_eq!(
        handle_ipc_message(&mut s, received(m)),
        IpcAction::WriteFile {
            path: "a.md".to_string(),
            content: "text".to_string(),
            from_dialog: false
        }
    );
    let mut m = message("save_file");
    m.content = Some("text".to_string());
    assert_eq!(
        handle_ipc_message(&mut s, received(m)),
        IpcAction::PickSaveFile { content: "text".to_string() }
    );
    assert_eq!(handle_ipc_message(&mut s, received(message("save_file"))), IpcAction::Nothing);
    assert_eq!(handle_ipc_message(&mut s, received(message("save_as"))), IpcAction::Nothing);
    assert_eq!(handle_save_as(None), IpcAction::Nothing);
    assert_eq!(
        handle_ipc_message(
            &mut s,
            IpcEvent::SavePathChosen { content: "text".to_string(), chosen: Some("n.md".to_string()) }
        ),
        IpcAction::WriteFile {
            path: "n.md".to_string(),
            content: "text".to_string(),
            from_dialog: true
        }
    );
    assert_eq!(
        handle_ipc_message(
            &mut s,
            IpcEvent::SavePathChosen { content: "text".to_string(), chosen: None }
        ),
        IpcAction::Nothing
    );
    let a = handle_ipc_message(
        &mut s,
        IpcEvent::FileWritten { path: "n.md".to_string(), from_dialog: true, outcome: Ok(()) },
    );
    assert_eq!(script(a), "window.__fromRust(\"file_saved\", {\"path\":\"n.md\"})");
}

#[test]
fn ipc_save_errors_and_locale() {
    let mut s = AppState::new();
    s.locale = "pt-BR".to_string();
    let a = handle_ipc_message(
        &mut s,
        IpcEvent::FileWritten {
            path: "n.md".to_string(),
            from_dialog: true,
            outcome: Err("denied".to_string()),
        },
    );
    assert_eq!(
        script(a),
        "window.__fromRust(\"error\", {\"message\":\"Failed to save: denied\"})"
    );
    let a = handle_ipc_message(
        &mut s,
        IpcEvent::FileWritten {
            path: "n.md".to_string(),
            from_dialog: false,
            outcome: Err("denied".to_string()),
        },
    );
    assert_eq!(
        script(a),
        "window.__fromRust(\"error\", {\"message\":\"Falha ao salvar: denied\"})"
    );
}

#[test]
fn ipc_window_commands() {
    let mut s = AppState::new();
    let mut m = message("set_title");
    m.title = Some("Doc".to_string());
    assert_eq!(handle_ipc_message(&mut s, received(m)), IpcAction::SetTitle("Doc".to_string()));
    assert_eq!(handle_ipc_message(&mut s, received(message("set_title"))), IpcAction::Nothing);
    assert_eq!(handle_ipc_message(&mut s, received(message("window_minimize"))), IpcAction::Minimize);
    assert_eq!(
        handle_ipc_message(&mut s, received(message("window_maximize"))),
        IpcAction::ToggleMaximize
    );
    assert_eq!(handle_ipc_message(&mut s, received(message("window_close"))), IpcAction::CloseWindow);
}

#[test]
fn ipc_drag_overlay_scripts() {
    let mut s = AppState::new();
    assert_eq!(
        script(handle_ipc_message(&mut s, received(message("drag_enter")))),
        "document.getElementById('drop-overlay').classList.add('visible')"
    );
    assert_eq!(
        script(handle_ipc_message(&mut s, received(message("drag_leave")))),
        "document.getElementById('drop-overlay').classList.remove('visible')"
    );
}

#[test]
fn ipc_read_image_script() {
    let mut s = AppState::new();
    let mut m = message("read_image");
    m.path = Some("C:\\img 1.png".to_string());
    assert_eq!(
        script(handle_ipc_message(&mut s, received(m))),
        "window.__setImage(\"C:\\\\img 1.png\", \
\"http://peekdown.localhost/local-image?C%3A%5Cimg%201%2Epng\")"
    );
    assert_eq!(handle_ipc_message(&mut s, received(message("read_image"))), IpcAction::Nothing);
}

#[test]
fn ipc_logs_problems() {
    let mut s = AppState::new();
    assert_eq!(
        handle_ipc_message(&mut s, IpcEvent::Malformed("EOF while parsing".to_string())),
        IpcAction::Log("IPC parse error: EOF while parsing".to_string())
    );
    assert_eq!(
        handle_ipc_message(&mut s, received(message("fly"))),
        IpcAction::Log("Unknown IPC command: fly".to_string())
    );
}

#[test]
fn ipc_only_ready_changes_state() {
    let mut s = AppState::new();
    s.pending_file = Some("a.md".to_string());
    for c in ["open_file", "save_as", "drag_enter", "nope", "window_minimize"] {
        handle_ipc_message(&mut s, received(message(c)));
        assert_eq!(s.pending_file.as_deref(), Some("a.md"));
    }
}

// ---- url (percent_encoding)

#[test]
fn image_query_encoding() {
    assert_eq!(encode_image_query("aZ09"), "aZ09");
    assert_eq!(encode_image_query("a b/é"), "a%20b%2F%C3%A9");
    assert_eq!(
        local_image_url("x.png"),
        "http://peekdown.localhost/local-image?x%2Epng"
    );
}

#[test]
fn image_query_decoding() {
    assert_eq!(image_path_from_query("a%20b%2f%C3%A9"), "a b/é");
    assert_eq!(image_path_from_query("%ZZ%41%4"), "%ZZA%4");
    assert_eq!(image_path_from_query("%FF"), "\u{FFFD}");
    assert_eq!(image_path_from_query(""), "");
}

#[test]
fn image_path_round_trip() {
    for p in ["C:\\Users\\José\\a b.png", "/home/u/pic (1).jpg", "%41", "日本.gif", ""] {
        assert_eq!(image_path_from_query(&encode_image_query(p)), p);
    }
}

// ---- protocol

#[test]
fn routes() {
    assert_eq!(route_request("/", None), Route::Page);
    assert_eq!(route_request("/index.html", Some("x")), Route::Page);
    assert_eq!(
        route_request("/local-image", Some("a%20b.png")),
        Route::LocalImage("a b.png".to_string())
    );
    assert_eq!(route_request("/local-image", None), Route::LocalImage(String::new()));
    assert_eq!(route_request("/other", None), Route::NotFound);
    assert_eq!(route_request("/index.htm", None), Route::NotFound);
}

#[test]
fn mime_types() {
    assert_eq!(mime_type_for("png"), "image/png");
    assert_eq!(mime_type_for("PNG"), "application/octet-stream");
    assert_eq!(image_mime_type("PNG"), "image/png");
    assert_eq!(image_mime_type("JpEg"), "image/jpeg");
    assert_eq!(image_mime_type("jpg"), "image/jpeg");
    assert_eq!(image_mime_type("gif"), "image/gif");
    assert_eq!(image_mime_type("svg"), "image/svg+xml");
    assert_eq!(image_mime_type("webp"), "image/webp");
    assert_eq!(image_mime_type("bmp"), "image/bmp");
    assert_eq!(image_mime_type("ico"), "image/x-icon");
    assert_eq!(image_mime_type("TIF"), "image/tiff");
    assert_eq!(image_mime_type("tiff"), "image/tiff");
    assert_eq!(image_mime_type(""), "application/octet-stream");
    assert_eq!(image_mime_type("exe"), "application/octet-stream");
}

#[test]
fn dropped_files() {
    assert!(dropped_file_opens("MD"));
    assert!(dropped_file_opens("Markdown"));
    assert!(dropped_file_opens("txt"));
    assert!(!dropped_file_opens("pdf"));
    assert!(!opens_on_drop("MD"));
    assert_eq!(command_message("drag_enter"), "{\"command\":\"drag_enter\"}");
    assert_eq!(
        open_file_message("C:\\a.md"),
        "{\"command\":\"open_file\",\"path\":\"C:\\\\a.md\"}"
    );
}

// ---- laws on concrete values

#[test]
fn escape_keeps_scripts_without_close_tag() {
    for js in ["", "a < b && c > d", "'</scr' + 'ipt>'", "<\\/script", "</SCRIPT>"] {
        assert_eq!(escape_for_script_tag(js), js);
    }
}

#[test]
fn encoded_query_is_url_safe() {
    for p in ["C:\\x y\\é.png", "?&=#%", "\u{1F600}"] {
        let q = encode_image_query(p);
        assert!(q.chars().all(|c| c.is_ascii_alphanumeric() || c == '%'), "{}", q);
    }
}

#[test]
fn image_request_for_encoded_path_serves_that_path() {
    for p in ["C:\\Users\\a b.png", "/tmp/ü.svg"] {
        assert_eq!(
            route_request("/local-image", Some(&encode_image_query(p))),
            Route::LocalImage(p.to_string())
        );
    }
}

#[test]
fn cli_earlier_choices_stay() {
    let o = parse_args(&args(&["first.md", "--stdin", "second.md", "--title", "T"]));
    assert_eq!(o.file.as_deref(), Some("first.md"));
    assert!(o.read_stdin);
}

#[test]
fn unescaping_restores_scripts() {
    for js in ["a</script>b", "</script</script", "<</script", "plain", "<\\script"] {
        assert_eq!(escape_for_script_tag(js).replace("<\\/script", "</script"), js);
    }
}

#[test]
fn interface_texts_are_well_formed() {
    for locale in ["en", "pt-BR", "fr"] {
        let t = get_translations(locale);
        let all = [
            t.new_tooltip, t.open_tooltip, t.save_tooltip, t.toggle_tooltip, t.split_tooltip,
            t.outline_tooltip, t.toggle_theme_tooltip, t.minimize_tooltip, t.maximize_tooltip,
            t.close_tooltip, t.find_placeholder, t.find_prev_tooltip, t.find_next_tooltip,
            t.find_close_tooltip, t.editor_placeholder, t.drop_message, t.untitled, t.mode_edit,
            t.mode_preview, t.mode_split, t.saved_status, t.error_prefix, t.word_singular,
            t.word_plural, t.recent_files, t.no_headings, t.no_results, t.of_text,
            t.confirm_close_all, t.confirm_close_tab, t.window_title_prefix, t.stdin_label,
            t.failed_open_file, t.failed_save,
        ];
        assert!(all.iter().all(|s| !s.is_empty()));
        assert_eq!(t.confirm_close_tab.matches("{filename}").count(), 1);
        assert_eq!(t.window_title_prefix, "Peekdown - ");
        assert!(t.error_prefix.ends_with(": "));
        assert!(t.failed_open_file.ends_with(": "));
        assert!(t.failed_save.ends_with(": "));
    }
}

#[test]
fn json_string_escapes_exactly() {
    assert_eq!(json_string_literal("\u{1}\u{8}\t\n\u{c}\r\u{1f} \u{7f}é"), "\"\\u0001\\b\\t\\n\\f\\r\\u001f \u{7f}é\"");
    assert_eq!(json_string_literal("</script>"), "\"</script>\"");
}

#[test]
fn json_literals_read_back() {
    for s in ["", "\")", "a\"); alert(1); (\"", "\\\n\u{0}\u{1b}", "日本"] {
        let lit = json_string_literal(s);
        assert_eq!(serde_json::from_str::<String>(&lit).unwrap(), s);
        let data = json_object_with("k\"", s);
        let script = send_to_js(s, &data);
        assert!(script.starts_with("window.__fromRust("));
        let rest = &script["window.__fromRust(".len()..];
        assert_eq!(&rest[..lit.len()], lit);
        assert_eq!(&rest[lit.len()..], format!(", {})", data.as_str()));
        let v: serde_json::Value = serde_json::from_str(data.as_str()).unwrap();
        assert_eq!(v, object(&[("k\"", s)]));
    }
}

#[test]
fn two_member_objects_follow_serde_json_order() {
    assert_eq!(
        json_object_with_two("path", "p", "content", "c").as_str(),
        serde_json::to_string(&object(&[("path", "p"), ("content", "c")])).unwrap()
    );
    assert_eq!(
        json_object_with_two("path", "p", "content", "c").as_str(),
        "{\"content\":\"c\",\"path\":\"p\"}"
    );
    assert_eq!(json_object_with_two("k", "first", "k", "second").as_str(), "{\"k\":\"second\"}");
    assert_eq!(
        json_object_with_two("k", "first", "k", "second").as_str(),
        serde_json::to_string(&object(&[("k", "first"), ("k", "second")])).unwrap()
    );
    assert_eq!(json_object_with_two("ab", "1", "a", "2").as_str(), "{\"a\":\"2\",\"ab\":\"1\"}");
}
