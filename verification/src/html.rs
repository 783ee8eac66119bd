//! Assembling the page that the web view shows: scripts are inlined into
//! the HTML shell, with every closing script tag in them escaped.

use vstd::prelude::*;
use crate::text::{occurs_in, push_str, replace_all, replaced, starts_at};

verus! {

/// The text that would end an inline `<script>` element early.
pub open spec fn script_close() -> Seq<char> {
    seq!['<', '/', 's', 'c', 'r', 'i', 'p', 't']
}

/// What [`escape_for_script_tag`] writes in its place.
pub open spec fn escaped_script_close() -> Seq<char> {
    seq!['<', '\\', '/', 's', 'c', 'r', 'i', 'p', 't']
}

/// The escaping of a script's source for inlining.
pub open spec fn escaped_script(js: Seq<char>) -> Seq<char> {
    replaced(js, script_close(), escaped_script_close())
}

/// If the first `k` characters of an escaped text hold no `<`, no
/// replacement began there, so they are the first `k` characters of the
/// text itself.
proof fn lemma_prefix_without_lt_is_kept(t: Seq<char>, k: int)
    requires
        0 <= k <= escaped_script(t).len(),
        forall|j: int| 0 <= j < k ==> escaped_script(t)[j] != '<',
    ensures
        k <= t.len(),
        t.take(k) == escaped_script(t).take(k),
    decreases t.len(),
{
    let p = script_close();
    let e = escaped_script_close();
    let r = escaped_script(t);
    if t.len() < p.len() {
        assert(r == t);
    } else if t.take(p.len() as int) == p {
        assert(r == e + escaped_script(t.skip(p.len() as int)));
        assert(r[0] == '<');
        assert(t.take(k) =~= r.take(k));
    } else {
        let r1 = escaped_script(t.skip(1));
        assert(r == seq![t[0]] + r1);
        if k > 0 {
            assert forall|j: int| 0 <= j < k - 1 implies r1[j] != '<' by {
                assert(r[j + 1] == r1[j]);
            }
            lemma_prefix_without_lt_is_kept(t.skip(1), k - 1);
            assert(t.take(k) =~= seq![t[0]] + t.skip(1).take(k - 1));
            assert(r.take(k) =~= seq![t[0]] + r1.take(k - 1));
        } else {
            assert(t.take(k) =~= r.take(k));
        }
    }
}

/// No closing script tag survives the escaping.
pub proof fn lemma_escaped_script_has_no_close_tag(t: Seq<char>)
    ensures
        !occurs_in(escaped_script(t), script_close()),
    decreases t.len(),
{
    let p = script_close();
    let e = escaped_script_close();
    let r = escaped_script(t);
    if t.len() < p.len() {
        assert(r == t);
        assert forall|i: int| !starts_at(r, p, i) by {}
    } else if t.take(p.len() as int) == p {
        let r1 = escaped_script(t.skip(p.len() as int));
        lemma_escaped_script_has_no_close_tag(t.skip(p.len() as int));
        assert(r == e + r1);
        assert forall|i: int| !starts_at(r, p, i) by {
            if starts_at(r, p, i) {
                if i >= e.len() {
                    assert(r1.subrange(i - e.len(), i - e.len() + p.len()) =~= r.subrange(i, i + p.len()));
                    assert(starts_at(r1, p, i - e.len()));
                } else {
                    assert(r.subrange(i, i + p.len())[0] == r[i]);
                    assert(r[i] == e[i]);
                    if i == 0 {
                        assert(r.subrange(i, i + p.len())[1] == r[1]);
                    }
                }
            }
        }
    } else {
        let r1 = escaped_script(t.skip(1));
        lemma_escaped_script_has_no_close_tag(t.skip(1));
        assert(r == seq![t[0]] + r1);
        assert forall|i: int| !starts_at(r, p, i) by {
            if starts_at(r, p, i) {
                if i >= 1 {
                    assert(r1.subrange(i - 1, i - 1 + p.len()) =~= r.subrange(i, i + p.len()));
                    assert(starts_at(r1, p, i - 1));
                } else {
                    let w = r.subrange(0, p.len() as int);
                    assert(w == p);
                    assert forall|j: int| 0 <= j < 7 implies r1[j] != '<' by {
                        assert(r1[j] == w[j + 1]);
                    }
                    lemma_prefix_without_lt_is_kept(t.skip(1), 7);
                    assert forall|j: int| 0 <= j < p.len() implies t.take(p.len() as int)[j] == p[j] by {
                        if j == 0 {
                            assert(t[0] == r[0]);
                            assert(w[0] == r[0]);
                        } else {
                            assert(t.take(p.len() as int)[j] == t.skip(1).take(7)[j - 1]);
                            assert(r1.take(7)[j - 1] == w[j]);
                        }
                    }
                    assert(t.take(p.len() as int) =~= p);
                }
            }
        }
    }
}

/// Undoing the escaping (every `<\/script` back to `</script`) restores a
/// script that held no `<\/script` of its own.
pub proof fn lemma_unescape_restores_script(t: Seq<char>)
    requires
        !occurs_in(t, escaped_script_close()),
    ensures
        replaced(escaped_script(t), escaped_script_close(), script_close()) == t,
    decreases t.len(),
{
    let p = script_close();
    let e = escaped_script_close();
    let r = escaped_script(t);
    if t.len() < p.len() {
        assert(r == t);
    } else if t.take(p.len() as int) == p {
        let rest = t.skip(p.len() as int);
        assert forall|i: int| !starts_at(rest, e, i) by {
            if starts_at(rest, e, i) {
                assert(t.subrange(i + p.len(), i + p.len() + e.len()) =~= rest.subrange(
                    i,
                    i + e.len(),
                ));
                assert(starts_at(t, e, i + p.len()));
            }
        }
        lemma_unescape_restores_script(rest);
        let x = escaped_script(rest);
        assert(r == e + x);
        assert((e + x).take(e.len() as int) =~= e);
        assert((e + x).skip(e.len() as int) =~= x);
        assert(replaced(r, e, p) == p + replaced(x, e, p));
        assert(p + rest =~= t);
    } else {
        let rest = t.skip(1);
        assert forall|i: int| !starts_at(rest, e, i) by {
            if starts_at(rest, e, i) {
                assert(t.subrange(i + 1, i + 1 + e.len()) =~= rest.subrange(i, i + e.len()));
                assert(starts_at(t, e, i + 1));
            }
        }
        lemma_unescape_restores_script(rest);
        let x = escaped_script(rest);
        assert(r == seq![t[0]] + x);
        if r.len() >= e.len() && r.take(e.len() as int) == e {
            // The escaped text would begin with `<\/script`: its first
            // character is `<` and the next eight, holding no `<`, were
            // copied from the script, which would then begin with it.
            assert forall|j: int| 0 <= j < 8 implies x[j] != '<' by {
                assert(x[j] == r.take(e.len() as int)[j + 1]);
            }
            lemma_prefix_without_lt_is_kept(rest, 8);
            assert forall|j: int| 0 <= j < e.len() implies t.subrange(0, e.len() as int)[j]
                == e[j] by {
                if j == 0 {
                    assert(r[0] == t[0]);
                    assert(r.take(e.len() as int)[0] == r[0]);
                } else {
                    assert(t.subrange(0, e.len() as int)[j] == rest.take(8)[j - 1]);
                    assert(x.take(8)[j - 1] == r.take(e.len() as int)[j]);
                }
            }
            assert(t.subrange(0, e.len() as int) =~= e);
            assert(starts_at(t, e, 0));
        }
        if r.len() < e.len() {
            assert(x.len() < e.len());
            assert(replaced(x, e, p) == x);
        } else {
            assert(r.skip(1) =~= x);
        }
        assert(replaced(r, e, p) =~= seq![t[0]] + replaced(x, e, p));
        assert(seq![t[0]] + rest =~= t);
    }
}

/// A script without a closing script tag is inlined exactly as it is.
pub proof fn lemma_escape_keeps_text_without_close_tag(t: Seq<char>)
    requires
        !occurs_in(t, script_close()),
    ensures
        escaped_script(t) == t,
    decreases t.len(),
{
    let p = script_close();
    if t.len() < p.len() {
    } else if t.take(p.len() as int) == p {
        assert(t.subrange(0, p.len() as int) =~= t.take(p.len() as int));
        assert(starts_at(t, p, 0));
    } else {
        let rest = t.skip(1);
        assert forall|i: int| !starts_at(rest, p, i) by {
            if starts_at(rest, p, i) {
                assert(t.subrange(i + 1, i + 1 + p.len()) =~= rest.subrange(i, i + p.len()));
                assert(starts_at(t, p, i + 1));
            }
        }
        lemma_escape_keeps_text_without_close_tag(rest);
        assert(seq![t[0]] + rest =~= t);
    }
}

/// Makes a script's source safe to inline in a `<script>` element: every
/// `</script` becomes `<\/script`, so no text in it can close the element.
pub fn escape_for_script_tag(js: &str) -> (r: String)
    ensures
        r@ == escaped_script(js@),
        !occurs_in(r@, script_close()),
{
    proof {
        reveal_strlit("</script");
        reveal_strlit("<\\/script");
        assert("</script"@ =~= script_close());
        assert("<\\/script"@ =~= escaped_script_close());
        lemma_escaped_script_has_no_close_tag(js@);
    }
    replace_all(js, "</script", "<\\/script")
}


/// The texts the page is built from: the HTML shell, its stylesheet and
/// the scripts it runs.
#[derive(Debug)]
pub struct FrontendAssets {
    pub index_html: String,
    pub style_css: String,
    pub app_js: String,
    pub editor_js: String,
    pub preview_js: String,
    pub tabs_js: String,
    pub marked_js: String,
    pub highlight_js: String,
}

/// The six inline script elements, in load order: the highlighter, the
/// Markdown renderer, then the preview, tabs, editor and application code.
pub open spec fn scripts_block(a: FrontendAssets) -> Seq<char> {
    "<script>"@ + escaped_script(a.highlight_js@)
        + "</script>\n<script>"@ + escaped_script(a.marked_js@)
        + "</script>\n<script>"@ + escaped_script(a.preview_js@)
        + "</script>\n<script>"@ + escaped_script(a.tabs_js@)
        + "</script>\n<script>"@ + escaped_script(a.editor_js@)
        + "</script>\n<script>"@ + escaped_script(a.app_js@)
        + "</script>"@
}

/// The page: the shell with its stylesheet marker replaced by the
/// stylesheet, then its scripts marker replaced by the script elements.
pub open spec fn page_html(a: FrontendAssets) -> Seq<char> {
    replaced(
        replaced(a.index_html@, "/* __CSS__ */"@, a.style_css@),
        "<!-- __SCRIPTS__ -->"@,
        scripts_block(a),
    )
}

/// One inline script element.
pub open spec fn script_element(js: Seq<char>) -> Seq<char> {
    seq!['<', 's', 'c', 'r', 'i', 'p', 't', '>'] + escaped_script(js) + seq![
        '<',
        '/',
        's',
        'c',
        'r',
        'i',
        'p',
        't',
        '>',
    ]
}

/// The scripts come as six elements, one per line, in load order: the
/// highlighter, the Markdown renderer, then the preview, tabs, editor and
/// application code, each escaped.
pub proof fn lemma_scripts_in_load_order(a: FrontendAssets)
    ensures
        scripts_block(a) == script_element(a.highlight_js@) + seq!['\n'] + script_element(
            a.marked_js@,
        ) + seq!['\n'] + script_element(a.preview_js@) + seq!['\n'] + script_element(a.tabs_js@)
            + seq!['\n'] + script_element(a.editor_js@) + seq!['\n'] + script_element(a.app_js@),
{
    reveal_strlit("<script>");
    reveal_strlit("</script>\n<script>");
    reveal_strlit("</script>");
    assert(scripts_block(a) =~= script_element(a.highlight_js@) + seq!['\n'] + script_element(
        a.marked_js@,
    ) + seq!['\n'] + script_element(a.preview_js@) + seq!['\n'] + script_element(a.tabs_js@)
        + seq!['\n'] + script_element(a.editor_js@) + seq!['\n'] + script_element(a.app_js@));
}

/// Appends one escaped script followed by `after`.
fn push_script(out: &mut String, js: &str, after: &str)
    ensures
        final(out)@ == old(out)@ + escaped_script(js@) + after@,
{
    let e = escape_for_script_tag(js);
    push_str(out, e.as_str());
    push_str(out, after);
}

/// Builds the page that the web view loads.
pub fn build_html(assets: &FrontendAssets) -> (r: String)
    ensures
        r@ == page_html(*assets),
{
    let mut scripts = String::new();
    push_str(&mut scripts, "<script>");
    push_script(&mut scripts, assets.highlight_js.as_str(), "</script>\n<script>");
    push_script(&mut scripts, assets.marked_js.as_str(), "</script>\n<script>");
    push_script(&mut scripts, assets.preview_js.as_str(), "</script>\n<script>");
    push_script(&mut scripts, assets.tabs_js.as_str(), "</script>\n<script>");
    push_script(&mut scripts, assets.editor_js.as_str(), "</script>\n<script>");
    push_script(&mut scripts, assets.app_js.as_str(), "</script>");
    assert(scripts@ =~= scripts_block(*assets));
    proof {
        reveal_strlit("/* __CSS__ */");
        reveal_strlit("<!-- __SCRIPTS__ -->");
    }
    let with_css = replace_all(assets.index_html.as_str(), "/* __CSS__ */", assets.style_css.as_str());
    replace_all(with_css.as_str(), "<!-- __SCRIPTS__ -->", scripts.as_str())
}

} // verus!
