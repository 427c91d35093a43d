//! Bundling a web application for publishing.
//!
//! The application is packed into a temporary directory, the distribution
//! directory is made anew, and static files, script snippets, the entry
//! document and the versioned binary are put into it. The entry document is
//! the project's `index.html`, run through the template engine with the
//! packed script, the base address and the compiled style sheet.
//!
//! A bundling is a state machine over these steps. The caller performs each
//! step and reports how it went. The template engine is run by the caller
//! too: the library says what it is handed and what becomes of its answer.

use vstd::prelude::*;
use vstd::string::*;
use crate::defaults::{copy_options, plain_copy, CopyOptions};
use crate::path::FsPath;
use crate::pipeline::Outcome;
use crate::profile::OutputStyle;
use crate::retry::{valid_backoff, RetryDecision, BACKOFF_MIN_MS, DEFAULT_RETRIES};
use crate::styles::StyleOptions;

verus! {

/// Options for bundling a web application.
#[derive(Debug)]
pub struct WebBundlerOpt {
    /// Where the input files are: usually the root of the application's unit.
    pub src_dir: FsPath,
    /// The directory that the bundle is written to.
    pub dist_dir: FsPath,
    /// A directory for temporary artifacts.
    pub tmp_dir: FsPath,
    /// Handed to the entry document's template as `base_url`.
    pub base_url: Option<String>,
    /// The version that the binary's file name carries.
    pub wasm_version: String,
    /// Whether to build for release.
    pub release: bool,
    /// The root of the workspace; the packer builds in `web-target` under it.
    pub workspace_root: FsPath,
    /// More directories whose changes ask for a new bundle.
    pub additional_watch_dirs: Vec<FsPath>,
}

/// The steps of a bundling, in their order, and its two ends.
#[derive(Debug, PartialEq, Eq, Clone, Copy, Structural)]
pub enum BundleStep {
    /// Print which files ask for a new bundle when they change.
    ListRerunFiles,
    /// Run the packer.
    WasmPack,
    /// Sleep for so many milliseconds, then run the packer again.
    Backoff(u64),
    /// Remove the distribution directory if it is there, then create it.
    PrepareDist,
    /// Copy the static files.
    Assets,
    /// Copy the script snippets.
    JsSnippets,
    /// Render and write the entry document.
    IndexHtml,
    /// Copy the binary under its versioned name.
    AppWasm,
    /// The bundle is complete.
    Done,
    /// The bundling failed.
    Failed,
}

/// Where a bundling stands.
#[derive(Debug, PartialEq, Eq, Clone, Copy, Structural)]
pub struct Progress {
    /// The step that is awaited, or how the bundling ended.
    pub step: BundleStep,
    /// How often the packer may still be retried.
    pub retries_left: u32,
}

/// A bundling in progress.
#[derive(Debug)]
pub struct BundleRun {
    /// The options.
    pub opt: WebBundlerOpt,
    /// Where the bundling stands.
    pub progress: Progress,
}

/// Why no entry document was made.
#[derive(Debug, PartialEq, Eq, Clone, Copy, Structural)]
pub enum BundleError {
    /// The template engine refused the entry document's template.
    Template,
}

/// What the entry document's template is given.
#[derive(Debug)]
pub struct IndexContext {
    /// The script element that loads the packed script and starts it.
    pub javascript: String,
    /// The base address.
    pub base_url: String,
    /// The style element with the compiled style sheet.
    pub stylesheet: String,
}

/// What the packer is asked.
#[derive(Debug)]
pub struct PackOptions {
    /// The unit to pack.
    pub path: FsPath,
    /// Whether type declarations are left out.
    pub disable_dts: bool,
    /// Whether debug information is kept.
    pub debug: bool,
    /// Whether to build for development.
    pub dev: bool,
    /// Whether to build for release.
    pub release: bool,
    /// Whether to build for profiling.
    pub profiling: bool,
    /// The directory that the package is written to.
    pub out_dir: FsPath,
    /// The name that the package's files go by.
    pub out_name: String,
    /// The directory that the packer builds in.
    pub target_dir: FsPath,
}

/// From where to where something is copied.
#[derive(Debug)]
pub struct CopyPlan {
    /// The source.
    pub from: FsPath,
    /// The destination.
    pub to: FsPath,
    /// How a directory is copied.
    pub options: CopyOptions,
}

impl Progress {
    /// A bundling that has not begun.
    pub open spec fn spec_start() -> Progress {
        Progress { step: BundleStep::ListRerunFiles, retries_left: DEFAULT_RETRIES }
    }

    /// The step that follows the awaited one, once it went as `outcome` says;
    /// `pause` is the pause to take should the packer be retried.
    pub open spec fn spec_next_step(self, outcome: Outcome, pause: u64) -> BundleStep {
        let ok = outcome.spec_succeeded();
        match self.step {
            BundleStep::ListRerunFiles => if ok {
                BundleStep::WasmPack
            } else {
                BundleStep::Failed
            },
            BundleStep::WasmPack => if ok {
                BundleStep::PrepareDist
            } else {
                match outcome.spec_retry(self.retries_left, pause) {
                    RetryDecision::RetryAfter(millis) => BundleStep::Backoff(millis),
                    RetryDecision::GiveUp => BundleStep::Failed,
                }
            },
            BundleStep::Backoff(_) => BundleStep::WasmPack,
            BundleStep::PrepareDist => if ok {
                BundleStep::Assets
            } else {
                BundleStep::Failed
            },
            BundleStep::Assets => if ok {
                BundleStep::JsSnippets
            } else {
                BundleStep::Failed
            },
            BundleStep::JsSnippets => if ok {
                BundleStep::IndexHtml
            } else {
                BundleStep::Failed
            },
            BundleStep::IndexHtml => if ok {
                BundleStep::AppWasm
            } else {
                BundleStep::Failed
            },
            BundleStep::AppWasm => if ok {
                BundleStep::Done
            } else {
                BundleStep::Failed
            },
            BundleStep::Done => BundleStep::Done,
            BundleStep::Failed => BundleStep::Failed,
        }
    }

    /// The state after the awaited step went as `outcome` says. A retry is
    /// paid for when the pause begins.
    pub open spec fn spec_after(self, outcome: Outcome, pause: u64) -> Progress {
        let step = self.spec_next_step(outcome, pause);
        Progress {
            step,
            retries_left: if self.step is WasmPack && step is Backoff {
                (self.retries_left - 1) as u32
            } else {
                self.retries_left
            },
        }
    }

    /// Takes in how the awaited step went and moves on. Returns the step
    /// that is awaited now.
    pub fn advance_with(&mut self, outcome: &Outcome, pause: u64) -> (r: BundleStep)
        ensures
            *final(self) == old(self).spec_after(*outcome, pause),
            r == final(self).step,
    {
        let ok = outcome.succeeded();
        let next = match self.step {
            BundleStep::ListRerunFiles => if ok {
                BundleStep::WasmPack
            } else {
                BundleStep::Failed
            },
            BundleStep::WasmPack => if ok {
                BundleStep::PrepareDist
            } else {
                match outcome.retry_with(self.retries_left, pause) {
                    RetryDecision::RetryAfter(millis) => {
                        self.retries_left = self.retries_left - 1;
                        BundleStep::Backoff(millis)
                    },
                    RetryDecision::GiveUp => BundleStep::Failed,
                }
            },
            BundleStep::Backoff(_) => BundleStep::WasmPack,
            BundleStep::PrepareDist => if ok {
                BundleStep::Assets
            } else {
                BundleStep::Failed
            },
            BundleStep::Assets => if ok {
                BundleStep::JsSnippets
            } else {
                BundleStep::Failed
            },
            BundleStep::JsSnippets => if ok {
                BundleStep::IndexHtml
            } else {
                BundleStep::Failed
            },
            BundleStep::IndexHtml => if ok {
                BundleStep::AppWasm
            } else {
                BundleStep::Failed
            },
            BundleStep::AppWasm => if ok {
                BundleStep::Done
            } else {
                BundleStep::Failed
            },
            BundleStep::Done => BundleStep::Done,
            BundleStep::Failed => BundleStep::Failed,
        };
        self.step = next;
        next
    }

    /// Takes in how the awaited step went and moves on. Should the packer be
    /// retried, and only then, the pause is drawn at random.
    pub fn advance(&mut self, outcome: &Outcome) -> (r: BundleStep)
        ensures
            exists|pause: u64|
                valid_backoff(pause) && *final(self) == #[trigger] old(self).spec_after(
                    *outcome,
                    pause,
                ),
            r == final(self).step,
    {
        let decision = match self.step {
            BundleStep::WasmPack => outcome.retry(self.retries_left),
            _ => RetryDecision::GiveUp,
        };
        let pause = match decision {
            RetryDecision::RetryAfter(millis) => millis,
            RetryDecision::GiveUp => BACKOFF_MIN_MS,
        };
        self.advance_with(outcome, pause)
    }
}

/// Begins a bundling: its first step is awaited, and the packer may be
/// retried the usual number of times.
pub fn run(opt: WebBundlerOpt) -> (r: BundleRun)
    ensures
        r.opt == opt,
        r.progress == Progress::spec_start(),
{
    BundleRun {
        opt,
        progress: Progress { step: BundleStep::ListRerunFiles, retries_left: DEFAULT_RETRIES },
    }
}

/// The directories whose files ask for a new bundle when they change: the
/// source directory, then the additional ones.
pub fn rerun_roots(opt: &WebBundlerOpt) -> (r: Vec<FsPath>)
    ensures
        r@.len() == opt.additional_watch_dirs@.len() + 1,
        r@[0]@ == opt.src_dir@,
        forall|i: int|
            0 <= i < opt.additional_watch_dirs@.len() ==> (#[trigger] r@[i + 1])@
                == opt.additional_watch_dirs@[i]@,
{
    let mut roots: Vec<FsPath> = Vec::new();
    roots.push(opt.src_dir.clone());
    let mut i: usize = 0;
    while i < opt.additional_watch_dirs.len()
        invariant
            i <= opt.additional_watch_dirs@.len(),
            roots@.len() == i + 1,
            roots@[0]@ == opt.src_dir@,
            forall|j: int| 0 <= j < i ==> (#[trigger] roots@[j + 1])@
                == opt.additional_watch_dirs@[j]@,
        decreases opt.additional_watch_dirs@.len() - i,
    {
        roots.push(opt.additional_watch_dirs[i].clone());
        i += 1;
    }
    roots
}

/// The line that tells the package manager to run the build script again
/// when the file at `path` changes.
pub fn rerun_directive(path: &str) -> (r: String)
    ensures
        r@ == "cargo:rerun-if-changed="@ + path@,
{
    String::from_str("cargo:rerun-if-changed=").concat(path)
}

/// What the packer is asked: the source directory packed for the web into
/// the temporary directory under the name `package`, built in `web-target`
/// under the workspace's root, for release or for development with debug
/// information.
pub fn pack_options(opt: &WebBundlerOpt) -> (r: PackOptions)
    ensures
        r.path@ == opt.src_dir@,
        r.disable_dts,
        r.debug == !opt.release,
        r.dev == !opt.release,
        r.release == opt.release,
        !r.profiling,
        r.out_dir@ == opt.tmp_dir@,
        r.out_name@ == "package"@,
        r.target_dir@ == opt.workspace_root@.push("web-target"@),
{
    PackOptions {
        path: opt.src_dir.clone(),
        disable_dts: true,
        debug: !opt.release,
        dev: !opt.release,
        release: opt.release,
        profiling: false,
        out_dir: opt.tmp_dir.clone(),
        out_name: String::from_str("package"),
        target_dir: opt.workspace_root.join("web-target"),
    }
}

/// The static files: `static` under the source directory goes into the
/// distribution directory, where it exists.
pub fn assets_copy(opt: &WebBundlerOpt) -> (r: CopyPlan)
    ensures
        r.from@ == opt.src_dir@.push("static"@),
        r.to@ == opt.dist_dir@,
        r.options == plain_copy(),
{
    CopyPlan { from: opt.src_dir.join("static"), to: opt.dist_dir.clone(), options: copy_options() }
}

/// The script snippets: `snippets` under the temporary directory goes into
/// the distribution directory, where it exists.
pub fn snippets_copy(opt: &WebBundlerOpt) -> (r: CopyPlan)
    ensures
        r.from@ == opt.tmp_dir@.push("snippets"@),
        r.to@ == opt.dist_dir@,
        r.options == plain_copy(),
{
    CopyPlan {
        from: opt.tmp_dir.join("snippets"),
        to: opt.dist_dir.clone(),
        options: copy_options(),
    }
}

/// The file name of the binary in the bundle.
pub open spec fn wasm_name(version: Seq<char>) -> Seq<char> {
    "app-"@ + version + ".wasm"@
}

/// The binary: the packed one goes into the distribution directory under a
/// name that carries the version.
pub fn wasm_copy(opt: &WebBundlerOpt) -> (r: CopyPlan)
    ensures
        r.from@ == opt.tmp_dir@.push("package_bg.wasm"@),
        r.to@ == opt.dist_dir@.push(wasm_name(opt.wasm_version@)),
        r.options == plain_copy(),
{
    let name = String::from_str("app-").concat(opt.wasm_version.as_str()).concat(".wasm");
    CopyPlan {
        from: opt.tmp_dir.join("package_bg.wasm"),
        to: opt.dist_dir.join(name.as_str()),
        options: copy_options(),
    }
}

/// The script element that loads the packed script and starts it on the
/// versioned binary.
pub open spec fn script_element(package_js: Seq<char>, version: Seq<char>) -> Seq<char> {
    "<script type=\"module\">"@ + package_js + " init('app-"@ + version + ".wasm'); </script>"@
}

/// The style element with the compiled style sheet.
pub open spec fn style_element(css: Seq<char>) -> Seq<char> {
    "<style>"@ + css + "</style>"@
}

/// The base address: the one given, else `/`.
pub open spec fn base_address(base_url: Option<String>) -> Seq<char> {
    match base_url {
        Some(url) => url@,
        None => "/"@,
    }
}

/// The options that the bundle's style sheet is compiled with.
pub fn bundle_style_options() -> (r: StyleOptions)
    ensures
        r.output_style == OutputStyle::Compressed,
        r.precision == 4,
        r.indented_syntax,
        r.include_paths@.len() == 0,
{
    StyleOptions {
        output_style: OutputStyle::Compressed,
        precision: 4,
        indented_syntax: true,
        include_paths: Vec::new(),
    }
}

/// What the entry document's template is given, for the packed script and
/// the compiled style sheet.
pub fn index_context(opt: &WebBundlerOpt, package_js: &str, css: &str) -> (r: IndexContext)
    ensures
        r.javascript@ == script_element(package_js@, opt.wasm_version@),
        r.base_url@ == base_address(opt.base_url),
        r.stylesheet@ == style_element(css@),
{
    let javascript = String::from_str("<script type=\"module\">").concat(package_js).concat(
        " init('app-",
    ).concat(opt.wasm_version.as_str()).concat(".wasm'); </script>");
    let base_url = match &opt.base_url {
        Some(url) => url.clone(),
        None => String::from_str("/"),
    };
    let stylesheet = String::from_str("<style>").concat(css).concat("</style>");
    IndexContext { javascript, base_url, stylesheet }
}

/// The names and values of a list of pairs.
pub open spec fn pair_views(list: Seq<(String, String)>) -> Seq<(Seq<char>, Seq<char>)> {
    Seq::new(list.len(), |i: int| (list[i].0@, list[i].1@))
}

/// What the template engine is handed beside the template: the script
/// element under the name `javascript`, the base address under `base_url`,
/// the style element under `stylesheet`, in this order.
pub fn index_values(opt: &WebBundlerOpt, package_js: &str, css: &str) -> (r: Vec<(String, String)>)
    ensures
        pair_views(r@) == seq![
            ("javascript"@, script_element(package_js@, opt.wasm_version@)),
            ("base_url"@, base_address(opt.base_url)),
            ("stylesheet"@, style_element(css@)),
        ],
{
    let context = index_context(opt, package_js, css);
    let mut values: Vec<(String, String)> = Vec::new();
    values.push((String::from_str("javascript"), context.javascript));
    values.push((String::from_str("base_url"), context.base_url));
    values.push((String::from_str("stylesheet"), context.stylesheet));
    assert(pair_views(values@) =~= seq![
        ("javascript"@, script_element(package_js@, opt.wasm_version@)),
        ("base_url"@, base_address(opt.base_url)),
        ("stylesheet"@, style_element(css@)),
    ]);
    values
}

/// What becomes of the template engine's answer: the page it rendered is the
/// entry document, and its refusal is a template error.
pub fn index_page(rendered: Result<String, String>) -> (r: Result<String, BundleError>)
    ensures
        r == (match rendered {
            Ok(page) => Ok::<String, BundleError>(page),
            Err(_) => Err::<String, BundleError>(BundleError::Template),
        }),
{
    match rendered {
        Ok(page) => Ok(page),
        Err(_) => Err(BundleError::Template),
    }
}

/// Where the entry document's template is read from, where the packed script
/// is read from, where the style source is, and where the entry document is
/// written.
pub fn index_paths(opt: &WebBundlerOpt) -> (r: (FsPath, FsPath, FsPath, FsPath))
    ensures
        r.0@ == opt.src_dir@.push("index.html"@),
        r.1@ == opt.tmp_dir@.push("package.js"@),
        r.2@ == opt.src_dir@.push("css"@).push("style.scss"@),
        r.3@ == opt.dist_dir@.push("index.html"@),
{
    (
        opt.src_dir.join("index.html"),
        opt.tmp_dir.join("package.js"),
        opt.src_dir.join("css").join("style.scss"),
        opt.dist_dir.join("index.html"),
    )
}

/// The state after the steps went as reported.
pub open spec fn progress_after(start: Progress, steps: Seq<(Outcome, u64)>) -> Progress
    decreases steps.len(),
{
    if steps.len() == 0 {
        start
    } else {
        progress_after(start, steps.drop_last()).spec_after(steps.last().0, steps.last().1)
    }
}

/// How many of the reported steps were answered with a pause and a retry.
pub open spec fn retries_taken(start: Progress, steps: Seq<(Outcome, u64)>) -> nat
    decreases steps.len(),
{
    if steps.len() == 0 {
        0
    } else {
        let before = progress_after(start, steps.drop_last());
        let taken = retries_taken(start, steps.drop_last());
        if before.step is WasmPack && progress_after(start, steps).step is Backoff {
            taken + 1
        } else {
            taken
        }
    }
}

/// Retry bound: however the steps go, the retries taken and the retries left
/// add up to the budget that the bundling began with.
pub proof fn lemma_packer_retries_are_bounded(start: Progress, steps: Seq<(Outcome, u64)>)
    ensures
        retries_taken(start, steps) + progress_after(start, steps).retries_left
            == start.retries_left,
        retries_taken(start, steps) <= start.retries_left,
    decreases steps.len(),
{
    if steps.len() > 0 {
        lemma_packer_retries_are_bounded(start, steps.drop_last());
    }
}

/// A packer failure with no retry left, or with a message of another kind,
/// fails the bundling.
pub proof fn lemma_packer_failure_is_final(state: Progress, outcome: Outcome, pause: u64)
    requires
        state.step is WasmPack,
        !outcome.spec_succeeded(),
        state.retries_left == 0 || !outcome.spec_transient(),
    ensures
        state.spec_after(outcome, pause).step == BundleStep::Failed,
{
}

} // verus!
