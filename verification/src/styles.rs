//! Style sheets: which sources are compiled, with which options, and where the
//! results go.
//!
//! Every file of a style directory with the extension `sass` or `scss` is
//! compiled, except those whose name begins with `_`, which exist to be
//! imported by others. The result lies in the output directory where the
//! source lies in its style directory, with the extension `css`.

use vstd::prelude::*;
use vstd::string::*;
use crate::path::{extension, extension_of, name_with_extension, path_prefix, FsPath};
use crate::profile::{BuildProfile, OutputStyle};
use crate::project::Package;
use crate::text::same_text;

verus! {

/// The options that the style compiler is run with.
#[derive(Debug)]
pub struct StyleOptions {
    /// How the style sheet is written out.
    pub output_style: OutputStyle,
    /// How many digits after the decimal point are kept.
    pub precision: usize,
    /// Whether the source is in the indented syntax.
    pub indented_syntax: bool,
    /// Where imports are looked up.
    pub include_paths: Vec<String>,
}

/// One source to compile and where its result goes.
#[derive(Debug)]
pub struct StyleJob {
    /// The source.
    pub source: FsPath,
    /// The style sheet to write.
    pub target: FsPath,
}

/// The file name is that of a style source.
pub open spec fn style_source(name: Seq<char>) -> bool {
    extension_of(name) == Some("sass"@) || extension_of(name) == Some("scss"@)
}

/// The file name marks a source that is only imported by others.
pub open spec fn partial_source(name: Seq<char>) -> bool {
    name.len() > 0 && name[0] == '_'
}

/// The file at `path` is compiled as part of the style directory `input_dir`.
pub open spec fn compiled(input_dir: Seq<Seq<char>>, path: Seq<Seq<char>>) -> bool {
    path_prefix(input_dir, path) && path.len() > input_dir.len() && style_source(path.last())
        && !partial_source(path.last())
}

/// Where the style sheet of the source at `path` goes.
pub open spec fn css_path(
    build_path: Seq<Seq<char>>,
    input_dir: Seq<Seq<char>>,
    path: Seq<Seq<char>>,
) -> Seq<Seq<char>> {
    build_path + path.subrange(input_dir.len() as int, path.len() - 1).push(
        name_with_extension(path.last(), "css"@),
    )
}

/// The jobs for the files of a style directory, in the order of the files.
pub open spec fn style_jobs(
    build_path: Seq<Seq<char>>,
    input_dir: Seq<Seq<char>>,
    files: Seq<FsPath>,
) -> Seq<(Seq<Seq<char>>, Seq<Seq<char>>)>
    decreases files.len(),
{
    if files.len() == 0 {
        Seq::empty()
    } else {
        let rest = style_jobs(build_path, input_dir, files.drop_last());
        if compiled(input_dir, files.last()@) {
            rest.push((files.last()@, css_path(build_path, input_dir, files.last()@)))
        } else {
            rest
        }
    }
}

/// The sources and targets that a list of jobs holds.
pub open spec fn job_views(jobs: Seq<StyleJob>) -> Seq<(Seq<Seq<char>>, Seq<Seq<char>>)> {
    Seq::new(jobs.len(), |i: int| (jobs[i].source@, jobs[i].target@))
}

/// The directories of a unit in which style sources are looked for.
pub open spec fn style_directories(unit_dir: Seq<Seq<char>>) -> Seq<Seq<Seq<char>>> {
    seq![
        unit_dir.push("assets"@),
        unit_dir.push("styles"@),
        unit_dir.push("css"@),
        unit_dir.push("sass"@),
    ]
}

/// Calls `sass_rs::Options::default()` and hands its fields over one by one:
/// nested output, five digits of precision, the usual syntax, and no include
/// path.
#[verifier::external_body]
fn default_style_options() -> (r: StyleOptions)
    ensures
        r.output_style == OutputStyle::Nested,
        r.precision == 5,
        !r.indented_syntax,
        r.include_paths@.len() == 0,
{
    let options = sass_rs::Options::default();
    StyleOptions {
        output_style: match options.output_style {
            sass_rs::OutputStyle::Nested => OutputStyle::Nested,
            sass_rs::OutputStyle::Expanded => OutputStyle::Expanded,
            sass_rs::OutputStyle::Compact => OutputStyle::Compact,
            sass_rs::OutputStyle::Compressed => OutputStyle::Compressed,
        },
        precision: options.precision,
        indented_syntax: options.indented_syntax,
        include_paths: options.include_paths,
    }
}

/// The options for a build under `profile`: the style compiler's defaults,
/// with compressed output for a release or profiling build.
pub fn style_options(profile: BuildProfile) -> (r: StyleOptions)
    ensures
        r.output_style == (if profile.spec_is_release() {
            OutputStyle::Compressed
        } else {
            OutputStyle::Nested
        }),
        r.precision == 5,
        !r.indented_syntax,
        r.include_paths@.len() == 0,
{
    let mut options = default_style_options();
    options.output_style = profile.sass_output_style();
    options
}

/// The directories of `unit` in which style sources are looked for. The
/// caller keeps those that exist.
pub fn style_lookup_directories(unit: &Package) -> (r: Vec<FsPath>)
    ensures
        r@.len() == 4,
        forall|i: int| 0 <= i < 4 ==> (#[trigger] r@[i])@ == style_directories(
            unit.manifest_dir@,
        )[i],
{
    let mut dirs: Vec<FsPath> = Vec::new();
    dirs.push(unit.manifest_dir.join("assets"));
    dirs.push(unit.manifest_dir.join("styles"));
    dirs.push(unit.manifest_dir.join("css"));
    dirs.push(unit.manifest_dir.join("sass"));
    dirs
}

/// Is the file name that of a style source?
pub fn is_style_source(name: &str) -> (r: bool)
    ensures
        r == style_source(name@),
{
    match extension(name) {
        Some(ext) => same_text(ext, "sass") || same_text(ext, "scss"),
        None => false,
    }
}

/// Does the file name mark a source that is only imported by others?
pub fn is_partial(name: &str) -> (r: bool)
    ensures
        r == partial_source(name@),
{
    name.unicode_len() > 0 && name.get_char(0) == '_'
}

/// Where the style sheet of the source at `path` goes; `None` where the file
/// is not compiled as part of `input_dir`.
pub fn css_output_path(build_path: &FsPath, input_dir: &FsPath, path: &FsPath) -> (r: Option<
    FsPath,
>)
    ensures
        r is Some <==> compiled(input_dir@, path@),
        r matches Some(target) ==> target@ == css_path(build_path@, input_dir@, path@),
{
    match path.strip_prefix(input_dir) {
        None => None,
        Some(below) => match below.file_name() {
            None => None,
            Some(name) => {
                assert(name@ == path@.last());
                if is_style_source(name.as_str()) && !is_partial(name.as_str()) {
                    let target = build_path.join_path(&below).with_extension("css");
                    assert(target@ =~= css_path(build_path@, input_dir@, path@));
                    Some(target)
                } else {
                    None
                }
            },
        },
    }
}

/// The jobs for the files found in the style directory `input_dir`.
pub fn style_jobs_in(build_path: &FsPath, input_dir: &FsPath, files: &Vec<FsPath>) -> (r:
    Vec<StyleJob>)
    ensures
        job_views(r@) == style_jobs(build_path@, input_dir@, files@),
{
    let mut jobs: Vec<StyleJob> = Vec::new();
    assert(job_views(jobs@) =~= style_jobs(build_path@, input_dir@, files@.take(0)));
    let mut k: usize = 0;
    while k < files.len()
        invariant
            k <= files@.len(),
            job_views(jobs@) == style_jobs(build_path@, input_dir@, files@.take(k as int)),
        decreases files@.len() - k,
    {
        let ghost before = job_views(jobs@);
        assert(files@.take(k + 1).drop_last() =~= files@.take(k as int));
        match css_output_path(build_path, input_dir, &files[k]) {
            Some(target) => {
                let source = files[k].clone();
                jobs.push(StyleJob { source, target });
                assert(job_views(jobs@) =~= before.push(
                    (files@[k as int]@, css_path(build_path@, input_dir@, files@[k as int]@)),
                ));
            },
            None => {},
        }
        k += 1;
    }
    assert(files@.take(k as int) =~= files@);
    jobs
}

/// A source whose name begins with `_` gives no style sheet, whatever its
/// extension and wherever it lies.
pub proof fn lemma_partials_are_not_compiled(input_dir: Seq<Seq<char>>, path: Seq<Seq<char>>)
    requires
        path.len() > 0,
        partial_source(path.last()),
    ensures
        !compiled(input_dir, path),
{
}

} // verus!
