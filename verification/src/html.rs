//! Assembling the final HTML document.
//!
//! The document layout is fixed: an HTML5 head with charset, viewport,
//! title, an optional favicon link built from the first icon only, and one
//! `<style>` block holding the concatenated CSS verbatim; then a body with
//! one hidden `<pre>` element per binary asset followed by one `<script>`
//! element per script.  Script and style text is inserted unescaped, so
//! embedded JavaScript and CSS are never corrupted by entity substitution.
//! Every piece is specified character-for-character.

use vstd::prelude::*;

use crate::encoder::Base;

verus! {

/// The views of a list of strings.
pub open spec fn string_views(ss: Seq<String>) -> Seq<Seq<char>> {
    ss.map(|i: int, s: String| s@)
}

/// The (id, hash, text) views of a list of encoded assets.
pub open spec fn base_views(bs: Seq<Base>) -> Seq<(Seq<char>, Seq<char>, Seq<char>)> {
    bs.map(|i: int, b: Base| (b.id@, b.hash@, b.text@))
}

/// The favicon block: a single `data:` link built from the first icon
/// only, or just a newline when no icon is configured.
pub open spec fn spec_favicons_html(icons: Seq<Seq<char>>) -> Seq<char> {
    if icons.len() > 0 {
        "\n"@ + "<link rel=\"icon\" type=\"image/svg+xml\" href=\"data:image/svg+xml;base64,"@
            + icons[0] + "\">"@ + "\n"@
    } else {
        "\n"@
    }
}

/// The document head: doctype, charset, viewport, fixed title, favicon
/// block, and the style block holding the CSS verbatim.
pub open spec fn spec_head_html(css: Seq<char>, icons: Seq<Seq<char>>) -> Seq<char> {
    "<!DOCTYPE html>"@ + "\n"@
        + "<meta charset=\"utf-8\">"@ + "\n"@
        + "<meta name=\"viewport\" content=\"width=device-width, initial-scale=1.0, maximum-scale=1.0, user-scalable=1\">"@
        + "<title>htmlpacker</title>"@ + "\n"@
        + spec_favicons_html(icons) + "\n"@
        + "<style>"@ + "\n"@ + css + "\n"@ + "</style>"@ + "\n"@
}

/// One hidden `<pre>` element: the asset's id and hash as attributes, its
/// Base64 payload as the element text.
pub open spec fn spec_binary_entry_html(b: (Seq<char>, Seq<char>, Seq<char>)) -> Seq<char> {
    "<pre id=\""@ + b.0 + "\" hash=\""@ + b.1 + "\" style=\"display: none;\">"@
        + "\n"@ + b.2 + "\n"@ + "</pre>"@ + "\n"@
}

pub open spec fn spec_binary_items_html(bin: Seq<(Seq<char>, Seq<char>, Seq<char>)>) -> Seq<char>
    decreases bin.len(),
{
    if bin.len() == 0 {
        Seq::empty()
    } else {
        spec_binary_entry_html(bin.first()) + spec_binary_items_html(bin.drop_first())
    }
}

/// The binary section: one `<pre>` element per encoded asset, in order.
pub open spec fn spec_binary_html(bin: Seq<(Seq<char>, Seq<char>, Seq<char>)>) -> Seq<char> {
    "\n"@ + spec_binary_items_html(bin)
}

/// One `<script>` element holding the script text unescaped.
pub open spec fn spec_script_entry_html(script: Seq<char>) -> Seq<char> {
    "<script>"@ + "\n"@ + script + "\n"@ + "</script>"@ + "\n"@
}

pub open spec fn spec_script_items_html(js: Seq<Seq<char>>) -> Seq<char>
    decreases js.len(),
{
    if js.len() == 0 {
        Seq::empty()
    } else {
        spec_script_entry_html(js.first()) + spec_script_items_html(js.drop_first())
    }
}

/// The scripts section: one `<script>` element per script, in order.
pub open spec fn spec_scripts_html(js: Seq<Seq<char>>) -> Seq<char> {
    "\n"@ + spec_script_items_html(js)
}

/// The whole document: head, then a body holding the binary section
/// followed by the scripts section.
pub open spec fn spec_page_html(
    css: Seq<char>,
    icons: Seq<Seq<char>>,
    js: Seq<Seq<char>>,
    bin: Seq<(Seq<char>, Seq<char>, Seq<char>)>,
) -> Seq<char> {
    spec_head_html(css, icons) + "\n"@
        + "<body>"@ + "\n"@
        + spec_binary_html(bin) + "\n"@
        + spec_scripts_html(js) + "\n"@
        + "</body>"@ + "\n"@
}

/// Renders the favicon block from the resolved icon list; only the first
/// icon is ever used, and an empty list produces no link at all.
pub fn favicons(icons: &Vec<String>) -> (r: String)
    ensures
        r@ == spec_favicons_html(string_views(icons@)),
{
    let mut out = String::new();
    out.append("\n");
    if icons.len() > 0 {
        out.append("<link rel=\"icon\" type=\"image/svg+xml\" href=\"data:image/svg+xml;base64,");
        out.append(icons[0].as_str());
        out.append("\">");
        out.append("\n");
    }
    proof {
        assert(out@ =~= spec_favicons_html(string_views(icons@)));
    }
    out
}

/// Renders the document head.
pub fn head(css: &str, icons: &Vec<String>) -> (r: String)
    ensures
        r@ == spec_head_html(css@, string_views(icons@)),
{
    let mut out = String::new();
    out.append("<!DOCTYPE html>");
    out.append("\n");
    out.append("<meta charset=\"utf-8\">");
    out.append("\n");
    out.append("<meta name=\"viewport\" content=\"width=device-width, initial-scale=1.0, maximum-scale=1.0, user-scalable=1\">");
    out.append("<title>htmlpacker</title>");
    out.append("\n");
    let fav = favicons(icons);
    out.append(fav.as_str());
    out.append("\n");
    out.append("<style>");
    out.append("\n");
    out.append(css);
    out.append("\n");
    out.append("</style>");
    out.append("\n");
    proof {
        assert(out@ =~= spec_head_html(css@, string_views(icons@)));
    }
    out
}

/// Renders the binary section: one `<pre id hash>` element per asset.
pub fn binary(bin: &Vec<Base>) -> (r: String)
    ensures
        r@ == spec_binary_html(base_views(bin@)),
{
    let mut out = String::new();
    out.append("\n");
    let n = bin.len();
    proof {
        assert(base_views(bin@).skip(0) =~= base_views(bin@));
    }
    for k in 0..n
        invariant
            n == bin@.len(),
            out@ =~= "\n"@ + spec_binary_items_html(base_views(bin@).take(k as int)),
    {
        out.append("<pre id=\"");
        out.append(bin[k].id.as_str());
        out.append("\" hash=\"");
        out.append(bin[k].hash.as_str());
        out.append("\" style=\"display: none;\">");
        out.append("\n");
        out.append(bin[k].text.as_str());
        out.append("\n");
        out.append("</pre>");
        out.append("\n");
        proof {
            lemma_items_take_step_binary(base_views(bin@), k as int);
        }
    }
    proof {
        assert(base_views(bin@).take(n as int) =~= base_views(bin@));
    }
    out
}

proof fn lemma_items_take_step_binary(bs: Seq<(Seq<char>, Seq<char>, Seq<char>)>, k: int)
    requires
        0 <= k < bs.len(),
    ensures
        spec_binary_items_html(bs.take(k + 1))
            == spec_binary_items_html(bs.take(k)) + spec_binary_entry_html(bs[k]),
    decreases k,
{
    if k == 0 {
        assert(bs.take(1).first() == bs[0]);
        assert(bs.take(1).drop_first() =~= bs.take(0));
        assert(spec_binary_items_html(bs.take(0)) == Seq::<char>::empty());
        assert(spec_binary_items_html(bs.take(1))
            =~= spec_binary_items_html(bs.take(0)) + spec_binary_entry_html(bs[0]));
    } else {
        lemma_items_take_step_binary(bs.drop_first(), k - 1);
        assert(bs.take(k + 1).first() == bs[0]);
        assert(bs.take(k + 1).drop_first() =~= bs.drop_first().take(k));
        assert(bs.take(k).first() == bs[0]);
        assert(bs.take(k).drop_first() =~= bs.drop_first().take(k - 1));
        assert(bs.drop_first()[k - 1] == bs[k]);
        assert(spec_binary_items_html(bs.take(k + 1))
            =~= spec_binary_items_html(bs.take(k)) + spec_binary_entry_html(bs[k]));
    }
}

/// Renders the scripts section: one `<script>` element per script.
pub fn scripts(js: &Vec<String>) -> (r: String)
    ensures
        r@ == spec_scripts_html(string_views(js@)),
{
    let mut out = String::new();
    out.append("\n");
    let n = js.len();
    for k in 0..n
        invariant
            n == js@.len(),
            out@ =~= "\n"@ + spec_script_items_html(string_views(js@).take(k as int)),
    {
        out.append("<script>");
        out.append("\n");
        out.append(js[k].as_str());
        out.append("\n");
        out.append("</script>");
        out.append("\n");
        proof {
            lemma_items_take_step_scripts(string_views(js@), k as int);
        }
    }
    proof {
        assert(string_views(js@).take(n as int) =~= string_views(js@));
    }
    out
}

proof fn lemma_items_take_step_scripts(js: Seq<Seq<char>>, k: int)
    requires
        0 <= k < js.len(),
    ensures
        spec_script_items_html(js.take(k + 1))
            == spec_script_items_html(js.take(k)) + spec_script_entry_html(js[k]),
    decreases k,
{
    if k == 0 {
        assert(js.take(1).first() == js[0]);
        assert(js.take(1).drop_first() =~= js.take(0));
        assert(spec_script_items_html(js.take(0)) == Seq::<char>::empty());
        assert(spec_script_items_html(js.take(1))
            =~= spec_script_items_html(js.take(0)) + spec_script_entry_html(js[0]));
    } else {
        lemma_items_take_step_scripts(js.drop_first(), k - 1);
        assert(js.take(k + 1).first() == js[0]);
        assert(js.take(k + 1).drop_first() =~= js.drop_first().take(k));
        assert(js.take(k).first() == js[0]);
        assert(js.take(k).drop_first() =~= js.drop_first().take(k - 1));
        assert(js.drop_first()[k - 1] == js[k]);
        assert(spec_script_items_html(js.take(k + 1))
            =~= spec_script_items_html(js.take(k)) + spec_script_entry_html(js[k]));
    }
}

/// Combines head, binary section and scripts section into the document.
pub fn page(css: &str, icons: &Vec<String>, js: &Vec<String>, bin: &Vec<Base>) -> (r: String)
    ensures
        r@ == spec_page_html(css@, string_views(icons@), string_views(js@), base_views(bin@)),
{
    let mut out = head(css, icons);
    out.append("\n");
    out.append("<body>");
    out.append("\n");
    let bin_html = binary(bin);
    out.append(bin_html.as_str());
    out.append("\n");
    let js_html = scripts(js);
    out.append(js_html.as_str());
    out.append("\n");
    out.append("</body>");
    out.append("\n");
    proof {
        assert(out@ =~= spec_page_html(
            css@, string_views(icons@), string_views(js@), base_views(bin@)));
    }
    out
}

} // verus!
