use htmlpacker::encoder::{encode_base64, Base};
use htmlpacker::html::{binary, favicons, head, page, scripts};
use htmlpacker::packer::{pack_html, RuntimeBundle};

fn bundle() -> RuntimeBundle {
    RuntimeBundle {
        icon_svg: b"<svg></svg>".to_vec(),
        decoder_js: "dec();".to_string(),
        core_js: "core();".to_string(),
        decoder_wasm: vec![0x00, 0x61, 0x73, 0x6d],
    }
}

#[test]
fn style_block_holds_css_verbatim() {
    // End-to-end document assembly with one stylesheet and nothing else.
    let html = page("body{color:red}", &vec![], &vec![], &vec![]);
    assert!(html.contains("<style>\nbody{color:red}\n</style>"));
    assert!(html.starts_with("<!DOCTYPE html>"));
    assert!(html.contains("<meta charset=\"utf-8\">"));
    assert!(html.contains(
        "<meta name=\"viewport\" content=\"width=device-width, initial-scale=1.0, \
         maximum-scale=1.0, user-scalable=1\">"
    ));
    assert!(html.contains("<title>htmlpacker</title>"));
    assert!(html.contains("<body>"));
    assert!(html.trim_end().ends_with("</body>"));
}

#[test]
fn head_layout_is_exact() {
    let h = head("p{}", &vec!["QUJD".to_string()]);
    let expected = "<!DOCTYPE html>\n\
        <meta charset=\"utf-8\">\n\
        <meta name=\"viewport\" content=\"width=device-width, initial-scale=1.0, \
        maximum-scale=1.0, user-scalable=1\">\
        <title>htmlpacker</title>\n\
        \n<link rel=\"icon\" type=\"image/svg+xml\" \
        href=\"data:image/svg+xml;base64,QUJD\">\n\
        \n\
        <style>\np{}\n</style>\n";
    assert_eq!(h, expected);
}

#[test]
fn only_the_first_icon_is_rendered() {
    let f = favicons(&vec!["Rk9P".to_string(), "QkFS".to_string()]);
    assert!(f.contains("base64,Rk9P"));
    assert!(!f.contains("QkFS"));
}

#[test]
fn empty_icons_render_no_link() {
    let f = favicons(&vec![]);
    assert_eq!(f, "\n");
}

#[test]
fn binary_section_holds_id_hash_and_payload() {
    let b = Base::new("bin-x".to_string(), "deadbeef".to_string(), "QUJD".to_string());
    let out = binary(&vec![b]);
    assert_eq!(
        out,
        "\n<pre id=\"bin-x\" hash=\"deadbeef\" style=\"display: none;\">\nQUJD\n</pre>\n"
    );
}

#[test]
fn scripts_are_embedded_unescaped_in_order() {
    let out = scripts(&vec!["if (a < b) { go(); }".to_string(), "x&&y".to_string()]);
    let first = out.find("if (a < b) { go(); }").unwrap();
    let second = out.find("x&&y").unwrap();
    assert!(first < second);
    assert!(!out.contains("&lt;"));
    assert!(!out.contains("&amp;"));
}

#[test]
fn runtime_icon_takes_precedence_over_user_favicon() {
    // With the default runtime enabled, the rendered favicon link always
    // encodes the built-in icon, never the user's configured one.
    let b = bundle();
    let user_icon = encode_base64(&b"<svg>user</svg>".to_vec(), "favicon");
    let html = pack_html(
        true,
        &vec![user_icon.text.clone()],
        &String::new(),
        vec![],
        vec![],
        &b,
    );
    let builtin = encode_base64(&b.icon_svg, "favicon");
    let link_start = html.find("<link rel=\"icon\"").unwrap();
    let link_end = html[link_start..].find('>').unwrap() + link_start;
    let link = &html[link_start..=link_end];
    assert!(link.contains(&format!("base64,{}", builtin.text)));
    assert!(!link.contains(&user_icon.text));
}

#[test]
fn disabled_runtime_without_favicon_renders_no_link() {
    // Packing with the runtime disabled and no favicon configured must
    // not crash; the favicon link is omitted entirely.
    let html = pack_html(false, &vec![], &String::new(), vec![], vec![], &bundle());
    assert!(!html.contains("<link rel=\"icon\""));
    assert!(html.contains("<body>"));
}

#[test]
fn runtime_assets_are_appended_in_order() {
    let b = bundle();
    let user_bin = Base::new("bin-app".to_string(), "h".to_string(), "t".to_string());
    let html = pack_html(
        true,
        &vec![],
        &String::new(),
        vec!["user();".to_string()],
        vec![user_bin],
        &b,
    );
    // Binaries: configured modules first, the decoder binary last.
    let app_pos = html.find("<pre id=\"bin-app\"").unwrap();
    let dec_pos = html.find("<pre id=\"bin-wasm-decoder\"").unwrap();
    assert!(app_pos < dec_pos);
    // Scripts: configured scripts, then decoder glue, then the core script.
    let user_pos = html.find("user();").unwrap();
    let decjs_pos = html.find("dec();").unwrap();
    let core_pos = html.find("core();").unwrap();
    assert!(user_pos < decjs_pos && decjs_pos < core_pos);
}

#[test]
fn decoder_binary_is_hashed_and_encoded() {
    let b = bundle();
    let html = pack_html(true, &vec![], &String::new(), vec![], vec![], &b);
    let expected = encode_base64(&b.decoder_wasm, "bin-wasm-decoder");
    assert!(html.contains(&format!(
        "<pre id=\"bin-wasm-decoder\" hash=\"{}\" style=\"display: none;\">\n{}\n</pre>",
        expected.hash, expected.text
    )));
}
