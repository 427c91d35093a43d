//! How an application declares its command line: which units it builds,
//! which hooks it replaces, and which configuration types it brings.
//!
//! The declaration is a list of tokens: up to two names in quotes, the
//! frontend unit's and the backend unit's, then arguments, each a name alone
//! or a name, `=` and a path, with commas between and one allowed at the end.
//! A name that is not recognized, a name given twice and a token out of place
//! are refused, with the position of the token.

use vstd::prelude::*;
use vstd::string::*;
use crate::text::{decimal, decimal_text, same_text, text_of};

verus! {

/// One token of a declaration.
#[derive(Debug)]
pub enum Token {
    /// A text in quotes.
    Literal(String),
    /// A name.
    Ident(String),
    /// `=`
    Equals,
    /// `,`
    Comma,
    /// `::`
    PathSep,
    /// Any other token.
    Other,
}

/// The arguments that a declaration may hold.
#[derive(Debug, PartialEq, Eq, Clone, Copy, Structural)]
pub enum ArgName {
    /// The handler of the application's own commands.
    OtherCliCommands,
    /// The pre-build hook.
    PreBuild,
    /// The post-build hook.
    PostBuild,
    /// The hook that sets up the server.
    Serve,
    /// The hook that sets up the frontend's watcher.
    FrontendWatch,
    /// The hook that sets up the backend's watcher.
    BackendWatch,
    /// The hook that builds the backend's command.
    BackendCommand,
    /// The function that gives the default output directory.
    DefaultBuildPath,
    /// The application's build configuration type.
    BuildArgs,
    /// The application's serve configuration type.
    ServeArgs,
}

/// Why a declaration was refused. Each error holds the position of the token
/// at which it was found.
#[derive(Debug, PartialEq, Eq, Clone, Copy, Structural)]
pub enum AttrError {
    /// A comma was expected.
    ExpectedComma(usize),
    /// A name was expected.
    ExpectedIdent(usize),
    /// A path was expected after `=`.
    ExpectedPath(usize),
    /// The name is not that of an argument.
    InvalidArgument(usize),
    /// The argument was given before.
    DuplicateArgument(usize),
}

/// What is said of a refused declaration, without the position.
pub open spec fn attr_error_kind(error: AttrError) -> Seq<char> {
    match error {
        AttrError::ExpectedComma(_) => "expected `,`"@,
        AttrError::ExpectedIdent(_) => "expected identifier"@,
        AttrError::ExpectedPath(_) => "expected path"@,
        AttrError::InvalidArgument(_) => "invalid argument"@,
        AttrError::DuplicateArgument(_) => "duplicate argument"@,
    }
}

impl AttrError {
    /// The position of the token at which the error was found.
    pub open spec fn spec_position(self) -> usize {
        match self {
            AttrError::ExpectedComma(at) => at,
            AttrError::ExpectedIdent(at) => at,
            AttrError::ExpectedPath(at) => at,
            AttrError::InvalidArgument(at) => at,
            AttrError::DuplicateArgument(at) => at,
        }
    }

    /// The position of the token at which the error was found.
    #[verifier::when_used_as_spec(spec_position)]
    pub fn position(self) -> (r: usize)
        ensures
            r == self.spec_position(),
    {
        match self {
            AttrError::ExpectedComma(at) => at,
            AttrError::ExpectedIdent(at) => at,
            AttrError::ExpectedPath(at) => at,
            AttrError::InvalidArgument(at) => at,
            AttrError::DuplicateArgument(at) => at,
        }
    }

    /// What is said of the error: what is wrong, and at which token.
    pub fn message(&self) -> (r: String)
        ensures
            r@ == attr_error_kind(*self) + " at token "@ + decimal(self.spec_position() as nat),
    {
        let kind = match self {
            AttrError::ExpectedComma(_) => "expected `,`",
            AttrError::ExpectedIdent(_) => "expected identifier",
            AttrError::ExpectedPath(_) => "expected path",
            AttrError::InvalidArgument(_) => "invalid argument",
            AttrError::DuplicateArgument(_) => "duplicate argument",
        };
        let at = decimal_text(self.position() as u64);
        String::from_str(kind).concat(" at token ").concat(at.as_str())
    }
}

/// A path to an item: names with `::` between, and maybe `::` in front.
#[derive(Debug)]
pub struct ItemPath {
    /// Whether the path begins with `::`.
    pub leading_colon: bool,
    /// The names.
    pub segments: Vec<String>,
}

/// One argument of a declaration.
#[derive(Debug)]
pub struct AttrEntry {
    /// Which argument it is.
    pub name: ArgName,
    /// The item that it names.
    pub path: ItemPath,
}

/// A declaration.
#[derive(Debug)]
pub struct Attr {
    /// The frontend unit's name, where one was given.
    pub frontend_pkg_name: Option<String>,
    /// The backend unit's name, where one was given.
    pub backend_pkg_name: Option<String>,
    /// The arguments, in the order in which they were given, none twice.
    pub entries: Vec<AttrEntry>,
}

/// What a path holds: whether it begins with `::`, and its names.
pub type PathView = (bool, Seq<Seq<char>>);

/// What a declaration holds: the two names, and the arguments with their
/// paths.
pub type AttrView = (Option<Seq<char>>, Option<Seq<char>>, Seq<(ArgName, PathView)>);

impl View for ItemPath {
    type V = PathView;

    open spec fn view(&self) -> PathView {
        (self.leading_colon, Seq::new(self.segments@.len(), |i: int| self.segments@[i]@))
    }
}

/// The arguments that a list of entries holds.
pub open spec fn entry_views(entries: Seq<AttrEntry>) -> Seq<(ArgName, PathView)> {
    Seq::new(entries.len(), |i: int| (entries[i].name, entries[i].path@))
}

impl View for Attr {
    type V = AttrView;

    open spec fn view(&self) -> AttrView {
        (
            text_of(self.frontend_pkg_name),
            text_of(self.backend_pkg_name),
            entry_views(self.entries@),
        )
    }
}

/// The argument that a name stands for.
pub open spec fn arg_named(name: Seq<char>) -> Option<ArgName> {
    if name == "other_cli_commands"@ {
        Some(ArgName::OtherCliCommands)
    } else if name == "pre_build"@ {
        Some(ArgName::PreBuild)
    } else if name == "post_build"@ {
        Some(ArgName::PostBuild)
    } else if name == "serve"@ {
        Some(ArgName::Serve)
    } else if name == "frontend_watch"@ {
        Some(ArgName::FrontendWatch)
    } else if name == "backend_watch"@ {
        Some(ArgName::BackendWatch)
    } else if name == "backend_command"@ {
        Some(ArgName::BackendCommand)
    } else if name == "default_build_path"@ {
        Some(ArgName::DefaultBuildPath)
    } else if name == "build_args"@ {
        Some(ArgName::BuildArgs)
    } else if name == "serve_args"@ {
        Some(ArgName::ServeArgs)
    } else {
        None
    }
}

/// The token at `pos` is a name.
pub open spec fn ident_at(tokens: Seq<Token>, pos: int) -> bool {
    0 <= pos < tokens.len() && tokens[pos] is Ident
}

/// The text of the name or quoted text at `pos`.
pub open spec fn text_at(tokens: Seq<Token>, pos: int) -> Seq<char> {
    match tokens[pos] {
        Token::Ident(s) => s@,
        Token::Literal(s) => s@,
        _ => Seq::empty(),
    }
}

/// How many times `::` and a name follow each other from `pos` on.
pub open spec fn extra_segments(tokens: Seq<Token>, pos: int) -> nat
    decreases tokens.len() - pos,
{
    if 0 <= pos && pos + 1 < tokens.len() && tokens[pos] is PathSep && tokens[pos + 1] is Ident {
        1 + extra_segments(tokens, pos + 2)
    } else {
        0
    }
}

/// A path begins with `::` at `pos`.
pub open spec fn path_leads(tokens: Seq<Token>, pos: int) -> bool {
    0 <= pos < tokens.len() && tokens[pos] is PathSep
}

/// Where the first name of a path at `pos` stands.
pub open spec fn path_first(tokens: Seq<Token>, pos: int) -> int {
    if path_leads(tokens, pos) {
        pos + 1
    } else {
        pos
    }
}

/// A path begins at `pos`.
pub open spec fn path_begins(tokens: Seq<Token>, pos: int) -> bool {
    ident_at(tokens, path_first(tokens, pos))
}

/// The path that begins at `pos`.
pub open spec fn path_value(tokens: Seq<Token>, pos: int) -> PathView {
    let first = path_first(tokens, pos);
    (
        path_leads(tokens, pos),
        Seq::new(
            1 + extra_segments(tokens, first + 1),
            |k: int| text_at(tokens, first + 2 * k),
        ),
    )
}

/// The number of tokens that the path at `pos` takes.
pub open spec fn path_taken(tokens: Seq<Token>, pos: int) -> nat {
    let first = path_first(tokens, pos);
    (first - pos + 1 + 2 * extra_segments(tokens, first + 1)) as nat
}

/// The argument is among those given so far.
pub open spec fn given(entries: Seq<(ArgName, PathView)>, name: ArgName) -> bool {
    exists|i: int| 0 <= i < entries.len() && (#[trigger] entries[i]).0 == name
}

/// The arguments from `pos` on, added to those given so far.
pub open spec fn entries_from(
    tokens: Seq<Token>,
    pos: int,
    so_far: Seq<(ArgName, PathView)>,
) -> Result<Seq<(ArgName, PathView)>, AttrError>
    decreases tokens.len() - pos,
{
    if pos < 0 || pos >= tokens.len() {
        Ok(so_far)
    } else if !(tokens[pos] is Ident) {
        Err(AttrError::ExpectedIdent(pos as usize))
    } else {
        let name = text_at(tokens, pos);
        let with_value = pos + 1 < tokens.len() && tokens[pos + 1] is Equals;
        if with_value && !path_begins(tokens, pos + 2) {
            Err(AttrError::ExpectedPath((pos + 2) as usize))
        } else {
            let path = if with_value {
                path_value(tokens, pos + 2)
            } else {
                (false, seq![name])
            };
            let end = if with_value {
                pos + 2 + path_taken(tokens, pos + 2)
            } else {
                pos + 1
            };
            match arg_named(name) {
                None => Err(AttrError::InvalidArgument(pos as usize)),
                Some(arg) => if given(so_far, arg) {
                    Err(AttrError::DuplicateArgument(pos as usize))
                } else if end >= tokens.len() {
                    Ok(so_far.push((arg, path)))
                } else if tokens[end] is Comma {
                    entries_from(tokens, end + 1, so_far.push((arg, path)))
                } else {
                    Err(AttrError::ExpectedComma(end as usize))
                },
            }
        }
    }
}

/// Where the declaration goes on after the quoted text at `pos`: after the
/// comma that follows it, where anything follows.
pub open spec fn after_name(tokens: Seq<Token>, pos: int) -> Result<int, AttrError> {
    if pos + 1 >= tokens.len() {
        Ok(pos + 1)
    } else if tokens[pos + 1] is Comma {
        Ok(pos + 2)
    } else {
        Err(AttrError::ExpectedComma((pos + 1) as usize))
    }
}

/// The quoted text at `pos`, where there is one, and where the declaration
/// goes on.
pub open spec fn name_at(tokens: Seq<Token>, pos: int) -> Result<(Option<Seq<char>>, int), AttrError> {
    if 0 <= pos < tokens.len() && tokens[pos] is Literal {
        match after_name(tokens, pos) {
            Ok(next) => Ok((Some(text_at(tokens, pos)), next)),
            Err(e) => Err(e),
        }
    } else {
        Ok((None, pos))
    }
}

/// What the tokens declare, or why they are refused.
pub open spec fn parsed(tokens: Seq<Token>) -> Result<AttrView, AttrError> {
    match name_at(tokens, 0) {
        Err(e) => Err(e),
        Ok((frontend, next)) => match name_at(tokens, next) {
            Err(e) => Err(e),
            Ok((backend, next)) => match entries_from(tokens, next, Seq::empty()) {
                Err(e) => Err(e),
                Ok(entries) => Ok((frontend, backend, entries)),
            },
        },
    }
}

impl ArgName {
    /// The argument that `name` stands for; `None` for any other text.
    pub fn parse(name: &str) -> (r: Option<ArgName>)
        ensures
            r == arg_named(name@),
    {
        if same_text(name, "other_cli_commands") {
            Some(ArgName::OtherCliCommands)
        } else if same_text(name, "pre_build") {
            Some(ArgName::PreBuild)
        } else if same_text(name, "post_build") {
            Some(ArgName::PostBuild)
        } else if same_text(name, "serve") {
            Some(ArgName::Serve)
        } else if same_text(name, "frontend_watch") {
            Some(ArgName::FrontendWatch)
        } else if same_text(name, "backend_watch") {
            Some(ArgName::BackendWatch)
        } else if same_text(name, "backend_command") {
            Some(ArgName::BackendCommand)
        } else if same_text(name, "default_build_path") {
            Some(ArgName::DefaultBuildPath)
        } else if same_text(name, "build_args") {
            Some(ArgName::BuildArgs)
        } else if same_text(name, "serve_args") {
            Some(ArgName::ServeArgs)
        } else {
            None
        }
    }
}

/// Is the token at `pos` a name? Returns the name.
fn ident_text(tokens: &Vec<Token>, pos: usize) -> (r: Option<&String>)
    ensures
        r is Some <==> ident_at(tokens@, pos as int),
        r matches Some(s) ==> s@ == text_at(tokens@, pos as int),
{
    if pos < tokens.len() {
        match &tokens[pos] {
            Token::Ident(s) => Some(s),
            _ => None,
        }
    } else {
        None
    }
}

/// Is the token at `pos` a `::`?
fn is_path_sep(tokens: &Vec<Token>, pos: usize) -> (r: bool)
    ensures
        r == (pos < tokens@.len() && tokens@[pos as int] is PathSep),
{
    if pos < tokens.len() {
        match &tokens[pos] {
            Token::PathSep => true,
            _ => false,
        }
    } else {
        false
    }
}

/// Is the token at `pos` a comma?
fn is_comma(tokens: &Vec<Token>, pos: usize) -> (r: bool)
    ensures
        r == (pos < tokens@.len() && tokens@[pos as int] is Comma),
{
    if pos < tokens.len() {
        match &tokens[pos] {
            Token::Comma => true,
            _ => false,
        }
    } else {
        false
    }
}

/// Is the token at `pos` a `=`?
fn is_equals(tokens: &Vec<Token>, pos: usize) -> (r: bool)
    ensures
        r == (pos < tokens@.len() && tokens@[pos as int] is Equals),
{
    if pos < tokens.len() {
        match &tokens[pos] {
            Token::Equals => true,
            _ => false,
        }
    } else {
        false
    }
}

/// The path that begins at `pos`, and the position after it.
fn parse_path(tokens: &Vec<Token>, pos: usize) -> (r: Option<(ItemPath, usize)>)
    requires
        pos <= tokens@.len(),
    ensures
        r is Some <==> path_begins(tokens@, pos as int),
        r matches Some((path, end)) ==> path@ == path_value(tokens@, pos as int) && end == pos
            + path_taken(tokens@, pos as int) && end <= tokens@.len(),
{
    let n: usize = tokens.len();
    let lead = is_path_sep(tokens, pos);
    let first: usize = if lead {
        pos + 1
    } else {
        pos
    };
    let head = match ident_text(tokens, first) {
        Some(s) => s.clone(),
        None => {
            return None;
        },
    };
    let mut segments: Vec<String> = Vec::new();
    segments.push(head);
    let mut cur: usize = first + 1;
    let mut count: usize = 0;
    loop
        invariant
            n == tokens@.len(),
            first < tokens@.len(),
            cur == first + 1 + 2 * count,
            cur <= tokens@.len(),
            segments@.len() == 1 + count,
            forall|k: int| 0 <= k <= count ==> (#[trigger] segments@[k])@ == text_at(
                tokens@,
                first + 2 * k,
            ),
            extra_segments(tokens@, first + 1) == count + extra_segments(tokens@, cur as int),
        ensures
            extra_segments(tokens@, cur as int) == 0,
        decreases tokens@.len() - cur,
    {
        if !is_path_sep(tokens, cur) {
            break ;
        }
        match ident_text(tokens, cur + 1) {
            Some(s) => {
                segments.push(s.clone());
                cur = cur + 2;
                count = count + 1;
            },
            None => {
                break ;
            },
        }
    }
    let path = ItemPath { leading_colon: lead, segments };
    assert(path.segments@.len() == 1 + extra_segments(tokens@, first + 1));
    assert(path@ =~= path_value(tokens@, pos as int));
    Some((path, cur))
}

/// The quoted text at `pos`, where there is one, and the position at which
/// the declaration goes on.
fn parse_name(tokens: &Vec<Token>, pos: usize) -> (r: Result<(Option<String>, usize), AttrError>)
    requires
        pos <= tokens@.len(),
    ensures
        match name_at(tokens@, pos as int) {
            Ok((name, next)) => r matches Ok((got, at)) && text_of(got) == name && at == next
                && at <= tokens@.len(),
            Err(e) => r matches Err(got) && got == e,
        },
{
    if pos < tokens.len() {
        match &tokens[pos] {
            Token::Literal(s) => {
                if pos + 1 >= tokens.len() {
                    Ok((Some(s.clone()), pos + 1))
                } else if is_comma(tokens, pos + 1) {
                    Ok((Some(s.clone()), pos + 2))
                } else {
                    Err(AttrError::ExpectedComma(pos + 1))
                }
            },
            _ => Ok((None, pos)),
        }
    } else {
        Ok((None, pos))
    }
}

/// Is the argument among the entries?
fn has_entry(entries: &Vec<AttrEntry>, name: ArgName) -> (r: bool)
    ensures
        r == given(entry_views(entries@), name),
{
    let mut i: usize = 0;
    while i < entries.len()
        invariant
            i <= entries@.len(),
            forall|j: int| 0 <= j < i ==> (#[trigger] entry_views(entries@)[j]).0 != name,
        decreases entries@.len() - i,
    {
        if entries[i].name == name {
            assert(entry_views(entries@)[i as int].0 == name);
            return true;
        }
        i += 1;
    }
    false
}

impl Attr {
    /// Reads a declaration.
    pub fn parse(tokens: &Vec<Token>) -> (r: Result<Attr, AttrError>)
        ensures
            match parsed(tokens@) {
                Ok(declared) => r matches Ok(attr) && attr@ == declared,
                Err(e) => r matches Err(got) && got == e,
            },
    {
        let (frontend_pkg_name, next) = match parse_name(tokens, 0) {
            Ok(found) => found,
            Err(e) => {
                return Err(e);
            },
        };
        let (backend_pkg_name, next) = match parse_name(tokens, next) {
            Ok(found) => found,
            Err(e) => {
                return Err(e);
            },
        };
        let ghost start = next as int;
        let n: usize = tokens.len();
        let mut entries: Vec<AttrEntry> = Vec::new();
        let mut pos: usize = next;
        assert(entry_views(entries@) =~= Seq::empty());
        while pos < n
            invariant
                n == tokens@.len(),
                pos <= tokens@.len(),
                parsed(tokens@) == (match entries_from(tokens@, start, Seq::empty()) {
                    Err(e) => Err::<AttrView, AttrError>(e),
                    Ok(entries) => Ok::<AttrView, AttrError>(
                        (text_of(frontend_pkg_name), text_of(backend_pkg_name), entries),
                    ),
                }),
                entries_from(tokens@, start, Seq::empty()) == entries_from(
                    tokens@,
                    pos as int,
                    entry_views(entries@),
                ),
            decreases tokens@.len() - pos,
        {
            let name = match ident_text(tokens, pos) {
                Some(s) => s,
                None => {
                    return Err(AttrError::ExpectedIdent(pos));
                },
            };
            let with_value = is_equals(tokens, pos + 1);
            let (path, end) = if with_value {
                match parse_path(tokens, pos + 2) {
                    Some(found) => found,
                    None => {
                        return Err(AttrError::ExpectedPath(pos + 2));
                    },
                }
            } else {
                let mut segments: Vec<String> = Vec::new();
                segments.push(name.clone());
                let path = ItemPath { leading_colon: false, segments };
                assert(path@ =~= (false, seq![name@]));
                (path, pos + 1)
            };
            let arg = match ArgName::parse(name.as_str()) {
                Some(arg) => arg,
                None => {
                    return Err(AttrError::InvalidArgument(pos));
                },
            };
            if has_entry(&entries, arg) {
                return Err(AttrError::DuplicateArgument(pos));
            }
            let ghost before = entry_views(entries@);
            let ghost added = (arg, path@);
            entries.push(AttrEntry { name: arg, path });
            assert(entry_views(entries@) =~= before.push(added));
            if end >= n {
                pos = n;
            } else if is_comma(tokens, end) {
                pos = end + 1;
            } else {
                return Err(AttrError::ExpectedComma(end));
            }
        }
        Ok(Attr { frontend_pkg_name, backend_pkg_name, entries })
    }

    /// The item that the argument names, where the argument was given.
    pub fn get(&self, name: ArgName) -> (r: Option<&ItemPath>)
        ensures
            r is Some <==> given(entry_views(self.entries@), name),
            r matches Some(path) ==> exists|i: int|
                0 <= i < self.entries@.len() && (#[trigger] self.entries@[i]).name == name
                    && self.entries@[i].path == *path && forall|j: int|
                    0 <= j < i ==> (#[trigger] self.entries@[j]).name != name,
    {
        let mut i: usize = 0;
        while i < self.entries.len()
            invariant
                i <= self.entries@.len(),
                forall|j: int| 0 <= j < i ==> (#[trigger] entry_views(self.entries@)[j]).0 != name,
            decreases self.entries@.len() - i,
        {
            if self.entries[i].name == name {
                assert(entry_views(self.entries@)[i as int].0 == name);
                assert forall|j: int| 0 <= j < i implies (#[trigger] self.entries@[j]).name
                    != name by {
                    assert(entry_views(self.entries@)[j].0 != name);
                }
                return Some(&self.entries[i].path);
            }
            i += 1;
        }
        None
    }
}

} // verus!
