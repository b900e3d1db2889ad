use trunk_pipelines::asset_file::AssetFile;
use trunk_pipelines::assets::{TrunkAsset, TrunkAssetReference};
use trunk_pipelines::attrs::Attrs;
use trunk_pipelines::errors::AssetError;
use trunk_pipelines::output::{
    CopyFileOutput, CssOutput, IconOutput, InlineContentType, InlineOutput, JsOutput,
    TrunkAssetPipelineOutput,
};
use trunk_pipelines::dom::{DocNode, Document};
use trunk_pipelines::orchestrator::collect_outputs;
use trunk_pipelines::selector::{trunk_id_selector, trunk_script_id_selector};
use trunk_pipelines::stage::PipelineStage;

fn link_attrs(rel: &str, href: Option<&str>) -> Attrs {
    let mut attrs = Attrs::new();
    attrs.insert("rel".to_string(), rel.to_string());
    if let Some(h) = href {
        attrs.insert("href".to_string(), h.to_string());
    }
    attrs
}

#[test]
fn dispatch_css() {
    let r = TrunkAsset::from_html(TrunkAssetReference::Link(link_attrs("css", Some("a.css"))), 3);
    match r {
        Ok(TrunkAsset::Css(css)) => {
            assert_eq!(css.id, 3);
            assert_eq!(css.path, "a.css");
        }
        _ => panic!("css key must select the Css variant"),
    }
}

#[test]
fn dispatch_sass_and_scss() {
    let r1 = TrunkAsset::from_html(TrunkAssetReference::Link(link_attrs("sass", Some("a.sass"))), 0);
    let r2 = TrunkAsset::from_html(TrunkAssetReference::Link(link_attrs("scss", Some("a.scss"))), 1);
    assert!(matches!(r1, Ok(TrunkAsset::Sass(_))));
    assert!(matches!(r2, Ok(TrunkAsset::Sass(_))));
}

#[test]
fn dispatch_remaining_link_kinds() {
    let cases: Vec<(&str, fn(&TrunkAsset) -> bool)> = vec![
        ("icon", |a| matches!(a, TrunkAsset::Icon(_))),
        ("inline", |a| matches!(a, TrunkAsset::Inline(_))),
        ("copy-file", |a| matches!(a, TrunkAsset::CopyFile(_))),
        ("copy-dir", |a| matches!(a, TrunkAsset::CopyDir(_))),
        ("rust-app", |a| matches!(a, TrunkAsset::RustApp(_))),
        ("tailwind-css", |a| matches!(a, TrunkAsset::TailwindCss(_))),
    ];
    for (key, check) in cases {
        let r = TrunkAsset::from_html(TrunkAssetReference::Link(link_attrs(key, Some("x.y"))), 0);
        match r {
            Ok(asset) => assert!(check(&asset), "key {} selected the wrong variant", key),
            Err(_) => panic!("key {} must dispatch", key),
        }
    }
}

#[test]
fn dispatch_unknown_kind_names_the_value() {
    let r = TrunkAsset::from_html(
        TrunkAssetReference::Link(link_attrs("unknown-kind", Some("x.y"))),
        0,
    );
    match r {
        Err(AssetError::UnknownKind { value }) => assert_eq!(value, "unknown-kind"),
        _ => panic!("an unrecognized key must fail with the unknown kind error"),
    }
}

#[test]
fn dispatch_is_case_sensitive() {
    let r = TrunkAsset::from_html(TrunkAssetReference::Link(link_attrs("CSS", Some("x.css"))), 0);
    assert!(matches!(r, Err(AssetError::UnknownKind { .. })));
}

#[test]
fn dispatch_missing_rel() {
    let mut attrs = Attrs::new();
    attrs.insert("href".to_string(), "a.css".to_string());
    let r = TrunkAsset::from_html(TrunkAssetReference::Link(attrs), 0);
    match r {
        Err(AssetError::MissingAttr { name }) => assert_eq!(name, "rel"),
        _ => panic!("a link declaration without rel must fail"),
    }
}

#[test]
fn dispatch_missing_href() {
    let r = TrunkAsset::from_html(TrunkAssetReference::Link(link_attrs("css", None)), 0);
    match r {
        Err(AssetError::MissingAttr { name }) => assert_eq!(name, "href"),
        _ => panic!("a css declaration without href must fail"),
    }
}

#[test]
fn dispatch_rust_app_without_href() {
    let r = TrunkAsset::from_html(TrunkAssetReference::Link(link_attrs("rust-app", None)), 9);
    match r {
        Ok(TrunkAsset::RustApp(app)) => {
            assert_eq!(app.id, 9);
            assert!(app.path.is_none());
        }
        _ => panic!("rust-app may leave its manifest path implicit"),
    }
}

#[test]
fn script_always_dispatches_to_js() {
    // The attributes would select another kind on a link element; a script
    // element bypasses the lookup entirely.
    let mut attrs = Attrs::new();
    attrs.insert("rel".to_string(), "css".to_string());
    attrs.insert("src".to_string(), "app.js".to_string());
    let r = TrunkAsset::from_html(TrunkAssetReference::Script(attrs), 5);
    match r {
        Ok(TrunkAsset::Js(js)) => {
            assert_eq!(js.id, 5);
            assert_eq!(js.path, "app.js");
        }
        _ => panic!("a script declaration must dispatch to the JS variant"),
    }
}

#[test]
fn script_without_src() {
    let r = TrunkAsset::from_html(TrunkAssetReference::Script(Attrs::new()), 0);
    match r {
        Err(AssetError::MissingAttr { name }) => assert_eq!(name, "src"),
        _ => panic!("a script declaration without src must fail"),
    }
}

#[test]
fn asset_file_derives_names() {
    let f = AssetFile::new("/www/assets/style.css".to_string()).unwrap();
    assert_eq!(f.path, "/www/assets/style.css");
    assert_eq!(f.file_name, "style.css");
    assert_eq!(f.file_stem, "style");
    assert_eq!(f.ext, "css");
}

#[test]
fn asset_file_keeps_only_last_dot() {
    let f = AssetFile::new("/www/pkg/app.tar.gz".to_string()).unwrap();
    assert_eq!(f.file_stem, "app.tar");
    assert_eq!(f.ext, "gz");
}

#[test]
fn asset_file_missing_file_name() {
    let r = AssetFile::new("/".to_string());
    match r {
        Err(AssetError::MissingFileName { path }) => assert_eq!(path, "/"),
        _ => panic!("a path without a file name must be rejected"),
    }
}

#[test]
fn asset_file_missing_extension() {
    let r = AssetFile::new("/www/README".to_string());
    assert!(matches!(r, Err(AssetError::MissingExtension { .. })));
    let hidden = AssetFile::new("/www/.gitignore".to_string());
    assert!(matches!(hidden, Err(AssetError::MissingExtension { .. })));
}

#[test]
fn copy_without_hash_keeps_the_name() {
    let f = AssetFile::new("/www/assets/style.css".to_string()).unwrap();
    let name = f.copy_file_name(b"body {}", false);
    assert_eq!(name, "style.css");
}

#[test]
fn copy_with_hash_is_content_addressed() {
    let bytes: &[u8] = b"body { color: red }";
    let f = AssetFile::new("/www/assets/style.css".to_string()).unwrap();
    let name = f.copy_file_name(bytes, true);
    let expected = format!("style-{:x}.css", seahash::hash(bytes));
    assert_eq!(name, expected);
}

#[test]
fn copy_with_hash_is_deterministic_across_instances() {
    let bytes: &[u8] = b"<svg></svg>";
    let a = AssetFile::new("/one/icon.svg".to_string()).unwrap();
    let b = AssetFile::new("/two/icon.svg".to_string()).unwrap();
    assert_eq!(a.copy_file_name(bytes, true), b.copy_file_name(bytes, true));
}

#[test]
fn copy_with_hash_separates_contents() {
    let f = AssetFile::new("/www/assets/style.css".to_string()).unwrap();
    let one = f.copy_file_name(b"body {}", true);
    let two = f.copy_file_name(b"div {}", true);
    assert_ne!(one, two);
}

#[test]
fn selectors_embed_the_id() {
    assert_eq!(trunk_id_selector(0), "link[data-trunk-id=\"0\"]");
    assert_eq!(trunk_id_selector(42), "link[data-trunk-id=\"42\"]");
    assert_eq!(trunk_script_id_selector(7), "script[data-trunk-id=\"7\"]");
}

#[test]
fn selectors_never_collide() {
    let mut seen = Vec::new();
    for id in 0..50usize {
        let link = trunk_id_selector(id);
        let script = trunk_script_id_selector(id);
        assert_ne!(link, script);
        assert!(!seen.contains(&link));
        assert!(!seen.contains(&script));
        seen.push(link);
        seen.push(script);
    }
}

#[test]
fn stage_serializes_lowercase_snake() {
    assert_eq!(PipelineStage::PreBuild.as_str(), "pre_build");
    assert_eq!(PipelineStage::Build.as_str(), "build");
    assert_eq!(PipelineStage::PostBuild.as_str(), "post_build");
}

#[test]
fn stage_parses_back() {
    for stage in [PipelineStage::PreBuild, PipelineStage::Build, PipelineStage::PostBuild] {
        assert_eq!(PipelineStage::parse(stage.as_str()), Some(stage));
    }
    assert_eq!(PipelineStage::parse("prebuild"), None);
}

#[test]
fn orchestrator_pairs_every_output() {
    let results = vec![
        (2usize, Ok(TrunkAssetPipelineOutput::Css(CssOutput { id: 2, file_name: "a.css".to_string() }))),
        (0usize, Ok(TrunkAssetPipelineOutput::Js(JsOutput { id: 0, file_name: "a.js".to_string() }))),
        (1usize, Ok(TrunkAssetPipelineOutput::Icon(IconOutput { id: 1, file_name: "i.png".to_string() }))),
    ];
    let pairs = collect_outputs(results).unwrap();
    assert_eq!(pairs.len(), 3);
    // Completion order arrived scrambled; the pairing keeps each output with
    // the id it carried.
    assert_eq!(pairs[0].0, 2);
    assert_eq!(pairs[1].0, 0);
    assert_eq!(pairs[2].0, 1);
    for (id, out) in &pairs {
        assert_eq!(*id, out.id());
    }
}

#[test]
fn orchestrator_surfaces_the_first_error() {
    let results = vec![
        (0usize, Ok(TrunkAssetPipelineOutput::CopyFile(CopyFileOutput { id: 0 }))),
        (1usize, Err(AssetError::Io { path: "/a".to_string() })),
        (2usize, Err(AssetError::Encoding { path: "/b".to_string() })),
    ];
    match collect_outputs(results) {
        Err(AssetError::Io { path }) => assert_eq!(path, "/a"),
        _ => panic!("the first observed failure must be surfaced"),
    }
}

#[test]
fn finalize_replaces_the_placeholder() {
    // One css declaration assigned id 0: its worker copied style.css under
    // its content-addressed name, and finalizing replaces the placeholder
    // with a real stylesheet link carrying no correlation marker.
    let mut doc = Document {
        nodes: vec![
            DocNode::Rendered { html: "<head>".to_string() },
            DocNode::LinkPlaceholder { id: 0 },
            DocNode::Rendered { html: "</head>".to_string() },
        ],
    };
    let out = TrunkAssetPipelineOutput::Css(CssOutput {
        id: 0,
        file_name: "style-abc123.css".to_string(),
    });
    out.finalize(&mut doc).unwrap();
    let html = doc.to_html();
    assert_eq!(html, "<head><link rel=\"stylesheet\" href=\"style-abc123.css\"/></head>");
    assert!(!html.contains("data-trunk-id"));
}

#[test]
fn finalize_in_either_order_gives_identical_documents() {
    // Two icon declarations with distinct hrefs got ids 0 and 1.
    let make_doc = || Document {
        nodes: vec![
            DocNode::LinkPlaceholder { id: 0 },
            DocNode::Rendered { html: "<title>t</title>".to_string() },
            DocNode::LinkPlaceholder { id: 1 },
        ],
    };
    let first = TrunkAssetPipelineOutput::Icon(IconOutput { id: 0, file_name: "a.png".to_string() });
    let second = TrunkAssetPipelineOutput::Icon(IconOutput { id: 1, file_name: "b.png".to_string() });
    let remake = |out: &TrunkAssetPipelineOutput| match out {
        TrunkAssetPipelineOutput::Icon(icon) => TrunkAssetPipelineOutput::Icon(IconOutput {
            id: icon.id,
            file_name: icon.file_name.clone(),
        }),
        _ => unreachable!(),
    };

    let mut doc_a = make_doc();
    remake(&first).finalize(&mut doc_a).unwrap();
    remake(&second).finalize(&mut doc_a).unwrap();

    let mut doc_b = make_doc();
    remake(&second).finalize(&mut doc_b).unwrap();
    remake(&first).finalize(&mut doc_b).unwrap();

    assert_eq!(doc_a.to_html(), doc_b.to_html());
}

#[test]
fn finalize_never_touches_other_ids() {
    let mut doc = Document {
        nodes: vec![
            DocNode::LinkPlaceholder { id: 0 },
            DocNode::LinkPlaceholder { id: 1 },
        ],
    };
    let out = TrunkAssetPipelineOutput::Icon(IconOutput { id: 1, file_name: "b.png".to_string() });
    out.finalize(&mut doc).unwrap();
    let html = doc.to_html();
    // The other id's placeholder is still there, untouched.
    assert_eq!(html, "<link data-trunk-id=\"0\"/><link rel=\"icon\" href=\"b.png\"/>");
}

#[test]
fn finalize_without_placeholder_fails_and_leaves_the_document() {
    let mut doc = Document {
        nodes: vec![DocNode::Rendered { html: "<body></body>".to_string() }],
    };
    let before = doc.to_html();
    let out = TrunkAssetPipelineOutput::Css(CssOutput { id: 3, file_name: "x.css".to_string() });
    match out.finalize(&mut doc) {
        Err(AssetError::MissingPlaceholder { id }) => assert_eq!(id, 3),
        _ => panic!("finalize without a stamped placeholder must fail"),
    }
    assert_eq!(doc.to_html(), before);
}

#[test]
fn finalize_respects_element_kind() {
    // A script output only addresses script placeholders, so a link
    // placeholder with the same id is not its target.
    let mut doc = Document {
        nodes: vec![
            DocNode::LinkPlaceholder { id: 0 },
            DocNode::ScriptPlaceholder { id: 0 },
        ],
    };
    let out = TrunkAssetPipelineOutput::Js(JsOutput { id: 0, file_name: "app.js".to_string() });
    out.finalize(&mut doc).unwrap();
    assert_eq!(
        doc.to_html(),
        "<link data-trunk-id=\"0\"/><script src=\"app.js\"></script>"
    );
}

#[test]
fn copy_output_removes_its_placeholder() {
    let mut doc = Document {
        nodes: vec![
            DocNode::Rendered { html: "<body>".to_string() },
            DocNode::LinkPlaceholder { id: 4 },
            DocNode::Rendered { html: "</body>".to_string() },
        ],
    };
    let out = TrunkAssetPipelineOutput::CopyFile(CopyFileOutput { id: 4 });
    out.finalize(&mut doc).unwrap();
    assert_eq!(doc.to_html(), "<body></body>");
}

#[test]
fn inline_output_wraps_content() {
    let mut doc = Document {
        nodes: vec![DocNode::LinkPlaceholder { id: 2 }],
    };
    let out = TrunkAssetPipelineOutput::Inline(InlineOutput {
        id: 2,
        content_type: InlineContentType::Css,
        content: "body {}".to_string(),
    });
    out.finalize(&mut doc).unwrap();
    assert_eq!(doc.to_html(), "<style>body {}</style>");
}

#[test]
fn failed_dispatch_leaves_siblings_alone() {
    // One bad declaration fails at dispatch, before any worker runs; the
    // sibling declaration still builds and finalizes.
    let bad = TrunkAsset::from_html(
        TrunkAssetReference::Link(link_attrs("unknown-kind", Some("x"))),
        0,
    );
    assert!(matches!(bad, Err(AssetError::UnknownKind { .. })));

    let good = TrunkAsset::from_html(
        TrunkAssetReference::Link(link_attrs("copy-file", Some("data.bin"))),
        1,
    );
    let good = good.unwrap();
    assert_eq!(good.id(), 1);
    let results = vec![(1usize, Ok(TrunkAssetPipelineOutput::CopyFile(CopyFileOutput { id: 1 })))];
    let pairs = collect_outputs(results).unwrap();
    assert_eq!(pairs.len(), 1);
    let mut doc = Document {
        nodes: vec![DocNode::LinkPlaceholder { id: 1 }],
    };
    for (_, out) in pairs {
        out.finalize(&mut doc).unwrap();
    }
    assert_eq!(doc.to_html(), "");
}

#[test]
fn scenario_css_declaration_end_to_end() {
    // Dispatch one css declaration, name its copy through the library, and
    // finalize the produced output into the document.
    let dispatched = TrunkAsset::from_html(
        TrunkAssetReference::Link(link_attrs("css", Some("style.css"))),
        0,
    )
    .unwrap();
    let css = match dispatched {
        TrunkAsset::Css(css) => css,
        _ => panic!("css key must select the Css variant"),
    };
    let file = AssetFile::new(format!("/www/{}", css.path)).unwrap();
    let bytes: &[u8] = b"body { margin: 0 }";
    let file_name = file.copy_file_name(bytes, true);
    assert_eq!(file_name, format!("style-{:x}.css", seahash::hash(bytes)));

    let mut doc = Document {
        nodes: vec![DocNode::LinkPlaceholder { id: css.id }],
    };
    let out = TrunkAssetPipelineOutput::Css(CssOutput { id: css.id, file_name: file_name.clone() });
    out.finalize(&mut doc).unwrap();
    assert_eq!(
        doc.to_html(),
        format!("<link rel=\"stylesheet\" href=\"{}\"/>", file_name)
    );
}
