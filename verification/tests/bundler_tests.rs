use wasmbl::bundler::{
    assets_copy, bundle_style_options, index_context, index_page, index_paths, index_values,
    pack_options, rerun_directive, rerun_roots, run, snippets_copy, wasm_copy, BundleError,
    BundleStep, Progress, WebBundlerOpt,
};
use wasmbl::environment::is_cleared_variable;
use wasmbl::path::FsPath;
use wasmbl::pipeline::Outcome;
use wasmbl::profile::OutputStyle;

fn path(parts: &[&str]) -> FsPath {
    FsPath::from_parts(parts.iter().map(|p| p.to_string()).collect())
}

fn options() -> WebBundlerOpt {
    WebBundlerOpt {
        src_dir: path(&["/", "w", "frontend"]),
        dist_dir: path(&["/", "out", "ui"]),
        tmp_dir: path(&["/", "tmp", "pack"]),
        base_url: None,
        wasm_version: "0.0.0".to_string(),
        release: false,
        workspace_root: path(&["/", "w"]),
        additional_watch_dirs: vec![path(&["/", "w", "shared"])],
    }
}

#[test]
fn run_begins_with_the_first_step() {
    let job = run(options());
    assert_eq!(job.progress, Progress { step: BundleStep::ListRerunFiles, retries_left: 3 });
    assert_eq!(job.opt.wasm_version, "0.0.0");
}

#[test]
fn steps_follow_each_other() {
    let mut job = run(options());
    let steps: Vec<BundleStep> =
        (0..7).map(|_| job.progress.advance(&Outcome::Success)).collect();
    assert_eq!(
        steps,
        vec![
            BundleStep::WasmPack,
            BundleStep::PrepareDist,
            BundleStep::Assets,
            BundleStep::JsSnippets,
            BundleStep::IndexHtml,
            BundleStep::AppWasm,
            BundleStep::Done,
        ]
    );
    assert_eq!(job.progress.advance(&Outcome::Success), BundleStep::Done);
}

#[test]
fn first_failure_ends_the_bundling() {
    for failing in 0..7 {
        let mut p = run(options()).progress;
        for _ in 0..failing {
            p.advance(&Outcome::Success);
        }
        assert_eq!(p.advance(&Outcome::Failure("no".to_string())), BundleStep::Failed);
        assert_eq!(p.advance(&Outcome::Success), BundleStep::Failed);
    }
}

#[test]
fn packer_is_retried_three_times_on_cache_collisions() {
    let mut p = run(options()).progress;
    p.advance(&Outcome::Success);
    let collision = Outcome::Failure("Error: Directory not empty".to_string());
    for left in [2u32, 1, 0] {
        match p.advance(&collision) {
            BundleStep::Backoff(ms) => assert!((1000..5000).contains(&ms)),
            other => panic!("expected a pause, got {:?}", other),
        }
        assert_eq!(p.retries_left, left);
        assert_eq!(p.advance(&Outcome::Success), BundleStep::WasmPack);
    }
    assert_eq!(p.advance(&collision), BundleStep::Failed);
}

#[test]
fn packer_failure_of_another_kind_is_final() {
    let mut p = run(options()).progress;
    p.advance(&Outcome::Success);
    assert_eq!(p.advance_with(&Outcome::Failure("syntax".to_string()), 2000), BundleStep::Failed);
    assert_eq!(p.retries_left, 3);
}

#[test]
fn build_script_variables_are_cleared() {
    let none: Vec<String> = vec![];
    for key in [
        "CARGO",
        "CARGO_MANIFEST_DIR",
        "CARGO_MANIFEST_LINKS",
        "CARGO_MAKEFLAGS",
        "OUT_DIR",
        "TARGET",
        "HOST",
        "NUM_JOBS",
        "OPT_LEVEL",
        "DEBUG",
        "PROFILE",
        "RUSTC",
        "RUSTDOC",
        "RUSTC_LINKER",
        "CARGO_FEATURE_SASS",
        "CARGO_CFG_UNIX",
        "DEP_Z_INCLUDE",
    ] {
        assert!(is_cleared_variable(key, &none), "{}", key);
    }
    for key in ["PATH", "HOME", "CARGO_HOME", "CARGO_TARGET_DIR", "cargo", "DEP", ""] {
        assert!(!is_cleared_variable(key, &none), "{}", key);
    }
    let additional = vec!["CARGO_TARGET_DIR".to_string()];
    assert!(is_cleared_variable("CARGO_TARGET_DIR", &additional));
    assert!(!is_cleared_variable("PATH", &additional));
}

#[test]
fn rerun_roots_are_source_and_additional_directories() {
    let roots: Vec<Vec<String>> = rerun_roots(&options()).into_iter().map(|p| p.parts).collect();
    assert_eq!(roots, vec![vec!["/", "w", "frontend"], vec!["/", "w", "shared"]]);
    assert_eq!(
        rerun_directive("/w/frontend/src/lib.rs"),
        "cargo:rerun-if-changed=/w/frontend/src/lib.rs"
    );
}

#[test]
fn packer_options_for_development_and_release() {
    let dev = pack_options(&options());
    assert_eq!(dev.path.parts, vec!["/", "w", "frontend"]);
    assert!(dev.disable_dts);
    assert!(dev.debug);
    assert!(dev.dev);
    assert!(!dev.release);
    assert!(!dev.profiling);
    assert_eq!(dev.out_dir.parts, vec!["/", "tmp", "pack"]);
    assert_eq!(dev.out_name, "package");
    assert_eq!(dev.target_dir.parts, vec!["/", "w", "web-target"]);
    let mut opt = options();
    opt.release = true;
    let release = pack_options(&opt);
    assert!(!release.debug);
    assert!(!release.dev);
    assert!(release.release);
}

#[test]
fn copies_go_into_the_distribution_directory() {
    let opt = options();
    let assets = assets_copy(&opt);
    assert_eq!(assets.from.parts, vec!["/", "w", "frontend", "static"]);
    assert_eq!(assets.to.parts, vec!["/", "out", "ui"]);
    let snippets = snippets_copy(&opt);
    assert_eq!(snippets.from.parts, vec!["/", "tmp", "pack", "snippets"]);
    assert_eq!(snippets.to.parts, vec!["/", "out", "ui"]);
    assert_eq!(assets.options, wasmbl::defaults::copy_options());
    assert_eq!(snippets.options, wasmbl::defaults::copy_options());
    let wasm = wasm_copy(&opt);
    assert_eq!(wasm.from.parts, vec!["/", "tmp", "pack", "package_bg.wasm"]);
    assert_eq!(wasm.to.parts, vec!["/", "out", "ui", "app-0.0.0.wasm"]);
}

#[test]
fn index_paths_of_the_bundle() {
    let (template, script, style, target) = index_paths(&options());
    assert_eq!(template.parts, vec!["/", "w", "frontend", "index.html"]);
    assert_eq!(script.parts, vec!["/", "tmp", "pack", "package.js"]);
    assert_eq!(style.parts, vec!["/", "w", "frontend", "css", "style.scss"]);
    assert_eq!(target.parts, vec!["/", "out", "ui", "index.html"]);
}

#[test]
fn bundle_style_sheet_is_compressed_indented_syntax() {
    let o = bundle_style_options();
    assert_eq!(o.output_style, OutputStyle::Compressed);
    assert_eq!(o.precision, 4);
    assert!(o.indented_syntax);
    assert!(o.include_paths.is_empty());
}

#[test]
fn index_context_wraps_script_and_style() {
    let c = index_context(&options(), "let x = 1;", "body{margin:0}");
    assert_eq!(
        c.javascript,
        "<script type=\"module\">let x = 1; init('app-0.0.0.wasm'); </script>"
    );
    assert_eq!(c.base_url, "/");
    assert_eq!(c.stylesheet, "<style>body{margin:0}</style>");
    let mut opt = options();
    opt.base_url = Some("/app/".to_string());
    assert_eq!(index_context(&opt, "", "").base_url, "/app/");
}

fn render(template: &str, package_js: &str, css: &str) -> Result<String, BundleError> {
    let mut context = tera::Context::new();
    for (name, value) in index_values(&options(), package_js, css) {
        context.insert(name, &value);
    }
    index_page(tera::Tera::one_off(template, &context, true).map_err(|e| e.to_string()))
}

#[test]
fn index_values_name_script_base_and_style() {
    let values = index_values(&options(), "let x = 1;", "a{b:c}");
    assert_eq!(
        values,
        vec![
            (
                "javascript".to_string(),
                "<script type=\"module\">let x = 1; init('app-0.0.0.wasm'); </script>".to_string()
            ),
            ("base_url".to_string(), "/".to_string()),
            ("stylesheet".to_string(), "<style>a{b:c}</style>".to_string()),
        ]
    );
}

#[test]
fn index_is_rendered_by_the_template_engine() {
    let template =
        "<head><base href=\"{{ base_url }}\">{{ stylesheet | safe }}</head>{{ javascript | safe }}";
    let page = render(template, "let x = 1;", "a{b:c}").unwrap();
    assert_eq!(
        page,
        "<head><base href=\"&#x2F;\"><style>a{b:c}</style></head><script type=\"module\">let x = 1; init('app-0.0.0.wasm'); </script>"
    );
}

#[test]
fn values_are_escaped_unless_marked_safe() {
    let page = render("{{ stylesheet }}", "", "x").unwrap();
    assert_eq!(page, "&lt;style&gt;x&lt;&#x2F;style&gt;");
}

#[test]
fn broken_template_is_a_template_error() {
    assert_eq!(render("{{ javascript", "", ""), Err(BundleError::Template));
    assert_eq!(render("{% if %}", "", ""), Err(BundleError::Template));
}

#[test]
fn index_page_passes_the_rendered_page_on() {
    assert_eq!(index_page(Ok("<html/>".to_string())), Ok("<html/>".to_string()));
    assert_eq!(index_page(Err("line 1".to_string())), Err(BundleError::Template));
}
