//! The interface texts in the two supported languages, and the choice of
//! language from what the environment says.

use vstd::prelude::*;
use crate::text::{has_prefix, starts_at, str_eq};

verus! {

/// Every text of the interface, in one language.
#[derive(Clone, Copy, Debug, PartialEq, Eq)]
pub struct Translations {
    pub new_tooltip: &'static str,
    pub open_tooltip: &'static str,
    pub save_tooltip: &'static str,
    pub toggle_tooltip: &'static str,
    pub split_tooltip: &'static str,
    pub outline_tooltip: &'static str,
    pub toggle_theme_tooltip: &'static str,
    pub minimize_tooltip: &'static str,
    pub maximize_tooltip: &'static str,
    pub close_tooltip: &'static str,
    pub find_placeholder: &'static str,
    pub find_prev_tooltip: &'static str,
    pub find_next_tooltip: &'static str,
    pub find_close_tooltip: &'static str,
    pub editor_placeholder: &'static str,
    pub drop_message: &'static str,
    pub untitled: &'static str,
    pub mode_edit: &'static str,
    pub mode_preview: &'static str,
    pub mode_split: &'static str,
    pub saved_status: &'static str,
    pub error_prefix: &'static str,
    pub word_singular: &'static str,
    pub word_plural: &'static str,
    pub recent_files: &'static str,
    pub no_headings: &'static str,
    pub no_results: &'static str,
    pub of_text: &'static str,
    pub confirm_close_all: &'static str,
    pub confirm_close_tab: &'static str,
    pub window_title_prefix: &'static str,
    pub stdin_label: &'static str,
    pub failed_open_file: &'static str,
    pub failed_save: &'static str,
}

/// The English texts.
pub open spec fn english() -> Translations {
    Translations {
        new_tooltip: "New (Ctrl+N)",
        open_tooltip: "Open (Ctrl+O)",
        save_tooltip: "Save (Ctrl+S)",
        toggle_tooltip: "Toggle Preview (Ctrl+E)",
        split_tooltip: "Split View (Ctrl+\\)",
        outline_tooltip: "Outline (Ctrl+Shift+O)",
        toggle_theme_tooltip: "Toggle Theme",
        minimize_tooltip: "Minimize",
        maximize_tooltip: "Maximize",
        close_tooltip: "Close",
        find_placeholder: "Find...",
        find_prev_tooltip: "Previous (Shift+Enter)",
        find_next_tooltip: "Next (Enter)",
        find_close_tooltip: "Close (Escape)",
        editor_placeholder: "Start writing markdown...",
        drop_message: "Drop to open",
        untitled: "Untitled",
        mode_edit: "EDIT",
        mode_preview: "PREVIEW",
        mode_split: "SPLIT",
        saved_status: "Saved",
        error_prefix: "Error: ",
        word_singular: " word",
        word_plural: " words",
        recent_files: "Recent Files",
        no_headings: "No headings",
        no_results: "No results",
        of_text: " of ",
        confirm_close_all: "You have unsaved changes. Close anyway?",
        confirm_close_tab: "Unsaved changes in \"{filename}\". Close anyway?",
        window_title_prefix: "Peekdown - ",
        stdin_label: "stdin",
        failed_open_file: "Failed to open file: ",
        failed_save: "Failed to save: ",
    }
}

/// The Brazilian Portuguese texts.
pub open spec fn brazilian_portuguese() -> Translations {
    Translations {
        new_tooltip: "Novo (Ctrl+N)",
        open_tooltip: "Abrir (Ctrl+O)",
        save_tooltip: "Salvar (Ctrl+S)",
        toggle_tooltip: "Alternar Visualização (Ctrl+E)",
        split_tooltip: "Visão Dividida (Ctrl+\\)",
        outline_tooltip: "Sumário (Ctrl+Shift+O)",
        toggle_theme_tooltip: "Alternar Tema",
        minimize_tooltip: "Minimizar",
        maximize_tooltip: "Maximizar",
        close_tooltip: "Fechar",
        find_placeholder: "Buscar...",
        find_prev_tooltip: "Anterior (Shift+Enter)",
        find_next_tooltip: "Próximo (Enter)",
        find_close_tooltip: "Fechar (Escape)",
        editor_placeholder: "Comece a escrever markdown...",
        drop_message: "Arraste para abrir",
        untitled: "Sem título",
        mode_edit: "EDIÇÃO",
        mode_preview: "VISUALIZAÇÃO",
        mode_split: "DIVIDIDO",
        saved_status: "Salvo",
        error_prefix: "Erro: ",
        word_singular: " palavra",
        word_plural: " palavras",
        recent_files: "Arquivos Recentes",
        no_headings: "Nenhum cabeçalho",
        no_results: "Nenhum resultado",
        of_text: " de ",
        confirm_close_all: "Você tem alterações não salvas. Fechar mesmo assim?",
        confirm_close_tab: "Alterações não salvas em \"{filename}\". Fechar mesmo assim?",
        window_title_prefix: "Peekdown - ",
        stdin_label: "entrada padrão",
        failed_open_file: "Falha ao abrir arquivo: ",
        failed_save: "Falha ao salvar: ",
    }
}

/// The texts for a locale: Brazilian Portuguese for `pt-BR`, English for
/// every other locale.
pub open spec fn translations_for(locale: Seq<char>) -> Translations {
    if locale == "pt-BR"@ {
        brazilian_portuguese()
    } else {
        english()
    }
}

fn english_texts() -> (t: Translations)
    ensures
        t == english(),
{
    Translations {
        new_tooltip: "New (Ctrl+N)",
        open_tooltip: "Open (Ctrl+O)",
        save_tooltip: "Save (Ctrl+S)",
        toggle_tooltip: "Toggle Preview (Ctrl+E)",
        split_tooltip: "Split View (Ctrl+\\)",
        outline_tooltip: "Outline (Ctrl+Shift+O)",
        toggle_theme_tooltip: "Toggle Theme",
        minimize_tooltip: "Minimize",
        maximize_tooltip: "Maximize",
        close_tooltip: "Close",
        find_placeholder: "Find...",
        find_prev_tooltip: "Previous (Shift+Enter)",
        find_next_tooltip: "Next (Enter)",
        find_close_tooltip: "Close (Escape)",
        editor_placeholder: "Start writing markdown...",
        drop_message: "Drop to open",
        untitled: "Untitled",
        mode_edit: "EDIT",
        mode_preview: "PREVIEW",
        mode_split: "SPLIT",
        saved_status: "Saved",
        error_prefix: "Error: ",
        word_singular: " word",
        word_plural: " words",
        recent_files: "Recent Files",
        no_headings: "No headings",
        no_results: "No results",
        of_text: " of ",
        confirm_close_all: "You have unsaved changes. Close anyway?",
        confirm_close_tab: "Unsaved changes in \"{filename}\". Close anyway?",
        window_title_prefix: "Peekdown - ",
        stdin_label: "stdin",
        failed_open_file: "Failed to open file: ",
        failed_save: "Failed to save: ",
    }
}

fn brazilian_portuguese_texts() -> (t: Translations)
    ensures
        t == brazilian_portuguese(),
{
    Translations {
        new_tooltip: "Novo (Ctrl+N)",
        open_tooltip: "Abrir (Ctrl+O)",
        save_tooltip: "Salvar (Ctrl+S)",
        toggle_tooltip: "Alternar Visualização (Ctrl+E)",
        split_tooltip: "Visão Dividida (Ctrl+\\)",
        outline_tooltip: "Sumário (Ctrl+Shift+O)",
        toggle_theme_tooltip: "Alternar Tema",
        minimize_tooltip: "Minimizar",
        maximize_tooltip: "Maximizar",
        close_tooltip: "Fechar",
        find_placeholder: "Buscar...",
        find_prev_tooltip: "Anterior (Shift+Enter)",
        find_next_tooltip: "Próximo (Enter)",
        find_close_tooltip: "Fechar (Escape)",
        editor_placeholder: "Comece a escrever markdown...",
        drop_message: "Arraste para abrir",
        untitled: "Sem título",
        mode_edit: "EDIÇÃO",
        mode_preview: "VISUALIZAÇÃO",
        mode_split: "DIVIDIDO",
        saved_status: "Salvo",
        error_prefix: "Erro: ",
        word_singular: " palavra",
        word_plural: " palavras",
        recent_files: "Arquivos Recentes",
        no_headings: "Nenhum cabeçalho",
        no_results: "Nenhum resultado",
        of_text: " de ",
        confirm_close_all: "Você tem alterações não salvas. Fechar mesmo assim?",
        confirm_close_tab: "Alterações não salvas em \"{filename}\". Fechar mesmo assim?",
        window_title_prefix: "Peekdown - ",
        stdin_label: "entrada padrão",
        failed_open_file: "Falha ao abrir arquivo: ",
        failed_save: "Falha ao salvar: ",
    }
}

/// The texts for `locale`; any locale but `pt-BR` gets English.
pub fn get_translations(locale: &str) -> (t: Translations)
    ensures
        t == translations_for(locale@),
{
    if str_eq(locale, "pt-BR") {
        brazilian_portuguese_texts()
    } else {
        english_texts()
    }
}

/// The English texts, text by text, for every locale but `pt-BR`.
pub proof fn lemma_english_table(locale: Seq<char>)
    requires
        locale != "pt-BR"@,
    ensures
        translations_for(locale).new_tooltip@ == "New (Ctrl+N)"@,
        translations_for(locale).open_tooltip@ == "Open (Ctrl+O)"@,
        translations_for(locale).save_tooltip@ == "Save (Ctrl+S)"@,
        translations_for(locale).toggle_tooltip@ == "Toggle Preview (Ctrl+E)"@,
        translations_for(locale).split_tooltip@ == "Split View (Ctrl+\\)"@,
        translations_for(locale).outline_tooltip@ == "Outline (Ctrl+Shift+O)"@,
        translations_for(locale).toggle_theme_tooltip@ == "Toggle Theme"@,
        translations_for(locale).minimize_tooltip@ == "Minimize"@,
        translations_for(locale).maximize_tooltip@ == "Maximize"@,
        translations_for(locale).close_tooltip@ == "Close"@,
        translations_for(locale).find_placeholder@ == "Find..."@,
        translations_for(locale).find_prev_tooltip@ == "Previous (Shift+Enter)"@,
        translations_for(locale).find_next_tooltip@ == "Next (Enter)"@,
        translations_for(locale).find_close_tooltip@ == "Close (Escape)"@,
        translations_for(locale).editor_placeholder@ == "Start writing markdown..."@,
        translations_for(locale).drop_message@ == "Drop to open"@,
        translations_for(locale).untitled@ == "Untitled"@,
        translations_for(locale).mode_edit@ == "EDIT"@,
        translations_for(locale).mode_preview@ == "PREVIEW"@,
        translations_for(locale).mode_split@ == "SPLIT"@,
        translations_for(locale).saved_status@ == "Saved"@,
        translations_for(locale).error_prefix@ == "Error: "@,
        translations_for(locale).word_singular@ == " word"@,
        translations_for(locale).word_plural@ == " words"@,
        translations_for(locale).recent_files@ == "Recent Files"@,
        translations_for(locale).no_headings@ == "No headings"@,
        translations_for(locale).no_results@ == "No results"@,
        translations_for(locale).of_text@ == " of "@,
        translations_for(locale).confirm_close_all@ == "You have unsaved changes. Close anyway?"@,
        translations_for(locale).confirm_close_tab@ == "Unsaved changes in \"{filename}\". Close anyway?"@,
        translations_for(locale).window_title_prefix@ == "Peekdown - "@,
        translations_for(locale).stdin_label@ == "stdin"@,
        translations_for(locale).failed_open_file@ == "Failed to open file: "@,
        translations_for(locale).failed_save@ == "Failed to save: "@,
{
}

/// The Brazilian Portuguese texts, text by text.
pub proof fn lemma_brazilian_portuguese_table()
    ensures
        translations_for("pt-BR"@).new_tooltip@ == "Novo (Ctrl+N)"@,
        translations_for("pt-BR"@).open_tooltip@ == "Abrir (Ctrl+O)"@,
        translations_for("pt-BR"@).save_tooltip@ == "Salvar (Ctrl+S)"@,
        translations_for("pt-BR"@).toggle_tooltip@ == "Alternar Visualização (Ctrl+E)"@,
        translations_for("pt-BR"@).split_tooltip@ == "Visão Dividida (Ctrl+\\)"@,
        translations_for("pt-BR"@).outline_tooltip@ == "Sumário (Ctrl+Shift+O)"@,
        translations_for("pt-BR"@).toggle_theme_tooltip@ == "Alternar Tema"@,
        translations_for("pt-BR"@).minimize_tooltip@ == "Minimizar"@,
        translations_for("pt-BR"@).maximize_tooltip@ == "Maximizar"@,
        translations_for("pt-BR"@).close_tooltip@ == "Fechar"@,
        translations_for("pt-BR"@).find_placeholder@ == "Buscar..."@,
        translations_for("pt-BR"@).find_prev_tooltip@ == "Anterior (Shift+Enter)"@,
        translations_for("pt-BR"@).find_next_tooltip@ == "Próximo (Enter)"@,
        translations_for("pt-BR"@).find_close_tooltip@ == "Fechar (Escape)"@,
        translations_for("pt-BR"@).editor_placeholder@ == "Comece a escrever markdown..."@,
        translations_for("pt-BR"@).drop_message@ == "Arraste para abrir"@,
        translations_for("pt-BR"@).untitled@ == "Sem título"@,
        translations_for("pt-BR"@).mode_edit@ == "EDIÇÃO"@,
        translations_for("pt-BR"@).mode_preview@ == "VISUALIZAÇÃO"@,
        translations_for("pt-BR"@).mode_split@ == "DIVIDIDO"@,
        translations_for("pt-BR"@).saved_status@ == "Salvo"@,
        translations_for("pt-BR"@).error_prefix@ == "Erro: "@,
        translations_for("pt-BR"@).word_singular@ == " palavra"@,
        translations_for("pt-BR"@).word_plural@ == " palavras"@,
        translations_for("pt-BR"@).recent_files@ == "Arquivos Recentes"@,
        translations_for("pt-BR"@).no_headings@ == "Nenhum cabeçalho"@,
        translations_for("pt-BR"@).no_results@ == "Nenhum resultado"@,
        translations_for("pt-BR"@).of_text@ == " de "@,
        translations_for("pt-BR"@).confirm_close_all@ == "Você tem alterações não salvas. Fechar mesmo assim?"@,
        translations_for("pt-BR"@).confirm_close_tab@ == "Alterações não salvas em \"{filename}\". Fechar mesmo assim?"@,
        translations_for("pt-BR"@).window_title_prefix@ == "Peekdown - "@,
        translations_for("pt-BR"@).stdin_label@ == "entrada padrão"@,
        translations_for("pt-BR"@).failed_open_file@ == "Falha ao abrir arquivo: "@,
        translations_for("pt-BR"@).failed_save@ == "Falha ao salvar: "@,
{
}

/// In every locale the plural word is the singular one followed by `s`,
/// both with a leading space.
pub proof fn lemma_word_counts(locale: Seq<char>)
    ensures
        translations_for(locale).word_plural@ == translations_for(locale).word_singular@ + "s"@,
        translations_for(locale).word_singular@[0] == ' ',
        translations_for(locale).word_singular@.len() > 1,
{
    reveal_strlit(" word");
    reveal_strlit(" words");
    reveal_strlit(" palavra");
    reveal_strlit(" palavras");
    reveal_strlit("s");
    assert(" words"@ =~= " word"@ + "s"@);
    assert(" palavras"@ =~= " palavra"@ + "s"@);
}

/// Where the locale comes from: a Windows interface in Brazilian
/// Portuguese (language 0x0416) gives `pt-BR` whatever `LANG` says; so
/// does a `LANG` that begins with `pt`; anything else gives `en`.
pub proof fn lemma_locale_detection(ui_language: Option<u16>, lang: Option<Seq<char>>)
    ensures
        ui_language == Some(0x0416u16) ==> detected_locale(ui_language, lang) == "pt-BR"@,
        (lang matches Some(l) && l.len() >= 2 && l[0] == 'p' && l[1] == 't') ==> detected_locale(
            ui_language,
            lang,
        ) == "pt-BR"@,
        ui_language != Some(0x0416u16) && !(lang matches Some(l) && l.len() >= 2 && l[0] == 'p'
            && l[1] == 't') ==> detected_locale(ui_language, lang) == "en"@,
{
    reveal_strlit("pt");
    if let Some(l) = lang {
        if l.len() >= 2 {
            if l[0] == 'p' && l[1] == 't' {
                assert(l.take(2) =~= "pt"@);
            } else {
                assert(l.take(2)[0] == l[0] && l.take(2)[1] == l[1]);
            }
        }
    }
}

/// Every text of a table is non-empty.
pub open spec fn all_texts_present(t: Translations) -> bool {
    &&& t.new_tooltip@.len() > 0
    &&& t.open_tooltip@.len() > 0
    &&& t.save_tooltip@.len() > 0
    &&& t.toggle_tooltip@.len() > 0
    &&& t.split_tooltip@.len() > 0
    &&& t.outline_tooltip@.len() > 0
    &&& t.toggle_theme_tooltip@.len() > 0
    &&& t.minimize_tooltip@.len() > 0
    &&& t.maximize_tooltip@.len() > 0
    &&& t.close_tooltip@.len() > 0
    &&& t.find_placeholder@.len() > 0
    &&& t.find_prev_tooltip@.len() > 0
    &&& t.find_next_tooltip@.len() > 0
    &&& t.find_close_tooltip@.len() > 0
    &&& t.editor_placeholder@.len() > 0
    &&& t.drop_message@.len() > 0
    &&& t.untitled@.len() > 0
    &&& t.mode_edit@.len() > 0
    &&& t.mode_preview@.len() > 0
    &&& t.mode_split@.len() > 0
    &&& t.saved_status@.len() > 0
    &&& t.error_prefix@.len() > 0
    &&& t.word_singular@.len() > 0
    &&& t.word_plural@.len() > 0
    &&& t.recent_files@.len() > 0
    &&& t.no_headings@.len() > 0
    &&& t.no_results@.len() > 0
    &&& t.of_text@.len() > 0
    &&& t.confirm_close_all@.len() > 0
    &&& t.confirm_close_tab@.len() > 0
    &&& t.window_title_prefix@.len() > 0
    &&& t.stdin_label@.len() > 0
    &&& t.failed_open_file@.len() > 0
    &&& t.failed_save@.len() > 0
}

/// `s` ends with `suffix`.
pub open spec fn ends_with(s: Seq<char>, suffix: Seq<char>) -> bool {
    suffix.len() <= s.len() && s.skip(s.len() - suffix.len()) == suffix
}

/// `p` occurs in `s` at exactly one index.
pub open spec fn occurs_once(s: Seq<char>, p: Seq<char>) -> bool {
    exists|i: int| #[trigger] starts_at(s, p, i) && forall|j: int| starts_at(s, p, j) ==> j == i
}

/// What the interface relies on in a table: no text is missing, the
/// close-tab question names the file in one place, the window title
/// prefix is the program's name, and the error prefixes end in `": "`.
pub open spec fn texts_well_formed(t: Translations) -> bool {
    &&& all_texts_present(t)
    &&& occurs_once(t.confirm_close_tab@, "{filename}"@)
    &&& t.window_title_prefix@ == "Peekdown - "@
    &&& ends_with(t.error_prefix@, ": "@)
    &&& ends_with(t.failed_open_file@, ": "@)
    &&& ends_with(t.failed_save@, ": "@)
}

/// `{` occurs in `s` only at index `k`, where `{filename}` stands.
proof fn lemma_placeholder_once(s: Seq<char>, k: int)
    requires
        starts_at(s, "{filename}"@, k),
        forall|j: int| 0 <= j < s.len() && s[j] == '{' ==> j == k,
        "{filename}"@ =~= seq!['{', 'f', 'i', 'l', 'e', 'n', 'a', 'm', 'e', '}'],
    ensures
        occurs_once(s, "{filename}"@),
{
    let p = "{filename}"@;
    assert forall|j: int| starts_at(s, p, j) implies j == k by {
        assert(s.subrange(j, j + p.len())[0] == s[j]);
    }
}

proof fn lemma_english_well_formed()
    ensures
        texts_well_formed(english()),
{
    reveal_strlit("New (Ctrl+N)");
    reveal_strlit("Open (Ctrl+O)");
    reveal_strlit("Save (Ctrl+S)");
    reveal_strlit("Toggle Preview (Ctrl+E)");
    reveal_strlit("Split View (Ctrl+\\)");
    reveal_strlit("Outline (Ctrl+Shift+O)");
    reveal_strlit("Toggle Theme");
    reveal_strlit("Minimize");
    reveal_strlit("Maximize");
    reveal_strlit("Close");
    reveal_strlit("Find...");
    reveal_strlit("Previous (Shift+Enter)");
    reveal_strlit("Next (Enter)");
    reveal_strlit("Close (Escape)");
    reveal_strlit("Start writing markdown...");
    reveal_strlit("Drop to open");
    reveal_strlit("Untitled");
    reveal_strlit("EDIT");
    reveal_strlit("PREVIEW");
    reveal_strlit("SPLIT");
    reveal_strlit("Saved");
    reveal_strlit("Error: ");
    reveal_strlit(" word");
    reveal_strlit(" words");
    reveal_strlit("Recent Files");
    reveal_strlit("No headings");
    reveal_strlit("No results");
    reveal_strlit(" of ");
    reveal_strlit("You have unsaved changes. Close anyway?");
    reveal_strlit("Unsaved changes in \"{filename}\". Close anyway?");
    reveal_strlit("Peekdown - ");
    reveal_strlit("stdin");
    reveal_strlit("Failed to open file: ");
    reveal_strlit("Failed to save: ");
    reveal_strlit("{filename}");
    reveal_strlit("Peekdown - ");
    reveal_strlit(": ");
    let t = english();
    let c = t.confirm_close_tab@;
    assert(c.subrange(20, 30) =~= "{filename}"@);
    assert forall|j: int| 0 <= j < c.len() && c[j] == '{' implies j == 20 by {}
    lemma_placeholder_once(c, 20);
    assert(t.error_prefix@.skip(t.error_prefix@.len() - 2) =~= ": "@);
    assert(t.failed_open_file@.skip(t.failed_open_file@.len() - 2) =~= ": "@);
    assert(t.failed_save@.skip(t.failed_save@.len() - 2) =~= ": "@);
}

proof fn lemma_brazilian_portuguese_well_formed()
    ensures
        texts_well_formed(brazilian_portuguese()),
{
    reveal_strlit("Novo (Ctrl+N)");
    reveal_strlit("Abrir (Ctrl+O)");
    reveal_strlit("Salvar (Ctrl+S)");
    reveal_strlit("Alternar Visualização (Ctrl+E)");
    reveal_strlit("Visão Dividida (Ctrl+\\)");
    reveal_strlit("Sumário (Ctrl+Shift+O)");
    reveal_strlit("Alternar Tema");
    reveal_strlit("Minimizar");
    reveal_strlit("Maximizar");
    reveal_strlit("Fechar");
    reveal_strlit("Buscar...");
    reveal_strlit("Anterior (Shift+Enter)");
    reveal_strlit("Próximo (Enter)");
    reveal_strlit("Fechar (Escape)");
    reveal_strlit("Comece a escrever markdown...");
    reveal_strlit("Arraste para abrir");
    reveal_strlit("Sem título");
    reveal_strlit("EDIÇÃO");
    reveal_strlit("VISUALIZAÇÃO");
    reveal_strlit("DIVIDIDO");
    reveal_strlit("Salvo");
    reveal_strlit("Erro: ");
    reveal_strlit(" palavra");
    reveal_strlit(" palavras");
    reveal_strlit("Arquivos Recentes");
    reveal_strlit("Nenhum cabeçalho");
    reveal_strlit("Nenhum resultado");
    reveal_strlit(" de ");
    reveal_strlit("Você tem alterações não salvas. Fechar mesmo assim?");
    reveal_strlit("Alterações não salvas em \"{filename}\". Fechar mesmo assim?");
    reveal_strlit("Peekdown - ");
    reveal_strlit("entrada padrão");
    reveal_strlit("Falha ao abrir arquivo: ");
    reveal_strlit("Falha ao salvar: ");
    reveal_strlit("{filename}");
    reveal_strlit("Peekdown - ");
    reveal_strlit(": ");
    let t = brazilian_portuguese();
    let c = t.confirm_close_tab@;
    assert(c.subrange(26, 36) =~= "{filename}"@);
    assert forall|j: int| 0 <= j < c.len() && c[j] == '{' implies j == 26 by {}
    lemma_placeholder_once(c, 26);
    assert(t.error_prefix@.skip(t.error_prefix@.len() - 2) =~= ": "@);
    assert(t.failed_open_file@.skip(t.failed_open_file@.len() - 2) =~= ": "@);
    assert(t.failed_save@.skip(t.failed_save@.len() - 2) =~= ": "@);
}

/// Whatever the locale, the texts are well formed: none is empty, the
/// close-tab question holds `{filename}` exactly once, the window title
/// prefix is `Peekdown - `, and the error prefixes end in `": "`.
pub proof fn lemma_texts_well_formed(locale: Seq<char>)
    ensures
        texts_well_formed(translations_for(locale)),
{
    lemma_english_well_formed();
    lemma_brazilian_portuguese_well_formed();
}

/// Windows' language identifier for Brazilian Portuguese.
pub const LANG_ID_PORTUGUESE_BRAZIL: u16 = 0x0416;

/// The locale chosen from the user's Windows interface language (where
/// there is one) and the `LANG` variable (where it is set).
pub open spec fn detected_locale(ui_language: Option<u16>, lang: Option<Seq<char>>) -> Seq<char> {
    if ui_language == Some(LANG_ID_PORTUGUESE_BRAZIL) {
        "pt-BR"@
    } else {
        match lang {
            Some(l) => if l.len() >= 2 && l.take(2) == "pt"@ {
                "pt-BR"@
            } else {
                "en"@
            },
            None => "en"@,
        }
    }
}

/// Chooses the interface locale: `pt-BR` when the Windows interface
/// language is Brazilian Portuguese or `LANG` starts with `pt` (`pt_BR`
/// among others), `en` otherwise.
pub fn detect_locale(ui_language: Option<u16>, lang: Option<&str>) -> (r: &'static str)
    ensures
        r@ == detected_locale(ui_language, match lang { Some(l) => Some(l@), None => None }),
{
    proof {
        reveal_strlit("pt_BR");
        reveal_strlit("pt");
    }
    if let Some(id) = ui_language {
        if id == LANG_ID_PORTUGUESE_BRAZIL {
            return "pt-BR";
        }
    }
    if let Some(l) = lang {
        let long = has_prefix(l, "pt_BR");
        let short = has_prefix(l, "pt");
        proof {
            assert("pt_BR"@ =~= seq!['p', 't', '_', 'B', 'R']);
            assert("pt"@ =~= seq!['p', 't']);
            if long {
                assert(l@.take(2) =~= l@.take(5).take(2));
                assert("pt_BR"@.take(2) =~= "pt"@);
            }
        }
        if long || short {
            return "pt-BR";
        }
    }
    "en"
}

/// The detected locale is always one of the two that have texts.
pub proof fn lemma_detected_locale_is_supported(ui_language: Option<u16>, lang: Option<Seq<char>>)
    ensures
        detected_locale(ui_language, lang) == "pt-BR"@ || detected_locale(ui_language, lang)
            == "en"@,
        translations_for(detected_locale(ui_language, lang)) == (if detected_locale(
            ui_language,
            lang,
        ) == "pt-BR"@ {
            brazilian_portuguese()
        } else {
            english()
        }),
{
}

} // verus!
