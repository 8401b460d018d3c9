//! What the tools share: the shape of requests and answers, how arguments
//! are read, and how places in files are found.

use vstd::prelude::*;
use vstd::string::*;
use crate::project::{
    Platform, Project, opt_view, platform_outcome, replace_separator, texts, with_separator,
};
use crate::lsp::rust_analyzer_lsp::{Position, SymbolInformation};

verus! {

/// The lines of a text as `str::lines` gives them.
pub uninterp spec fn lines_of(content: Seq<char>) -> Seq<Seq<char>>;

/// Calls `str::lines`. Trusted: the result holds the lines of the text, in
/// order, without their line endings.
#[verifier::external_body]
fn split_lines(content: &str) -> (r: Vec<String>)
    ensures
        texts(r@) == lines_of(content@),
{
    content.lines().map(String::from).collect()
}

/// The answer to a tool call: pieces of text, and whether they report an
/// error.
#[derive(Debug, Clone)]
pub struct ToolResponse {
    pub content: Vec<String>,
    pub is_error: Option<bool>,
}

pub struct ToolResponseView {
    pub content: Seq<Seq<char>>,
    pub is_error: Option<bool>,
}

impl View for ToolResponse {
    type V = ToolResponseView;

    open spec fn view(&self) -> ToolResponseView {
        ToolResponseView { content: texts(self.content@), is_error: self.is_error }
    }
}

/// An answer that reports the error `message`.
pub open spec fn error_view(message: Seq<char>) -> ToolResponseView {
    ToolResponseView { content: seq![message], is_error: Some(true) }
}

/// An answer that carries `text` and reports no error.
pub open spec fn text_view(text: Seq<char>) -> ToolResponseView {
    ToolResponseView { content: seq![text], is_error: None }
}

/// An answer that reports the error `message`.
pub fn error_response(message: &str) -> (r: ToolResponse)
    ensures
        r@ == error_view(message@),
{
    let mut content: Vec<String> = Vec::new();
    content.push(String::from_str(message));
    let r = ToolResponse { content, is_error: Some(true) };
    assert(r@.content =~= seq![message@]);
    r
}

/// An answer that carries `text` and reports no error.
pub fn text_response(text: String) -> (r: ToolResponse)
    ensures
        r@ == text_view(text@),
{
    let ghost wanted = text@;
    let mut content: Vec<String> = Vec::new();
    content.push(text);
    let r = ToolResponse { content, is_error: None };
    assert(r@.content =~= seq![wanted]);
    r
}

/// The value of an argument, as far as the tools read it.
#[derive(Debug, Clone)]
pub enum ArgValue {
    Null,
    Bool(bool),
    /// A number that is a non-negative integer below 2^64.
    Unsigned(u64),
    Text(String),
    /// Any other value: another number, a list, an object.
    Other,
}

/// One named argument of a request.
#[derive(Debug, Clone)]
pub struct Argument {
    pub name: String,
    pub value: ArgValue,
}

/// A call of a tool. The arguments are held in the order in which they were
/// handed over; where a name occurs twice the first occurrence counts.
#[derive(Debug, Clone)]
pub struct CallToolRequest {
    pub name: String,
    pub arguments: Option<Vec<Argument>>,
}

/// The value of the first argument named `key`.
pub open spec fn find_argument(arguments: Seq<Argument>, key: Seq<char>) -> Option<ArgValue>
    decreases arguments.len(),
{
    if arguments.len() == 0 {
        None
    } else if arguments[0].name@ == key {
        Some(arguments[0].value)
    } else {
        find_argument(arguments.skip(1), key)
    }
}

/// The text of an argument that must be there, or the error that asks for it.
pub open spec fn required_text(found: Option<ArgValue>, complaint: Seq<char>) -> Result<
    Seq<char>,
    ToolResponseView,
> {
    match found {
        Some(ArgValue::Text(text)) => Ok(text@),
        _ => Err(error_view(complaint)),
    }
}

/// The view of a text or an error answer.
pub open spec fn text_or_response(r: Result<String, ToolResponse>) -> Result<
    Seq<char>,
    ToolResponseView,
> {
    match r {
        Ok(text) => Ok(text@),
        Err(response) => Err(response@),
    }
}

/// Whether no name occurs twice among the arguments, as in the map that a
/// client sends.
pub open spec fn distinct_names(arguments: Seq<Argument>) -> bool {
    forall|i: int, j: int|
        0 <= i < j < arguments.len() ==> arguments[i].name@ != arguments[j].name@
}

/// Among arguments with distinct names every argument is found under its
/// name, wherever it stands: the order of the arguments plays no part.
pub proof fn lemma_lookup_finds_each(arguments: Seq<Argument>, i: int)
    requires
        distinct_names(arguments),
        0 <= i < arguments.len(),
    ensures
        find_argument(arguments, arguments[i].name@) == Some(arguments[i].value),
    decreases i,
{
    if i > 0 {
        let rest = arguments.skip(1);
        assert forall|a: int, b: int| 0 <= a < b < rest.len() implies rest[a].name@
            != rest[b].name@ by {
            assert(rest[a] == arguments[a + 1]);
            assert(rest[b] == arguments[b + 1]);
        }
        assert(rest[i - 1] == arguments[i]);
        lemma_lookup_finds_each(rest, i - 1);
    }
}

/// The value of the first argument named `key`.
pub fn lookup<'a>(arguments: &'a Vec<Argument>, key: &str) -> (r: Option<&'a ArgValue>)
    ensures
        match find_argument(arguments@, key@) {
            Some(value) => r == Some(&value),
            None => r.is_none(),
        },
{
    let wanted = String::from_str(key);
    let mut i: usize = 0;
    assert(arguments@.skip(0) =~= arguments@);
    while i < arguments.len()
        invariant
            i <= arguments.len(),
            wanted@ == key@,
            find_argument(arguments@, key@) == find_argument(arguments@.skip(i as int), key@),
        decreases arguments.len() - i,
    {
        assert(arguments@.skip(i as int)[0] == arguments@[i as int]);
        assert(arguments@.skip(i as int).skip(1) =~= arguments@.skip(i + 1));
        if arguments[i].name == wanted {
            return Some(&arguments[i].value);
        }
        i = i + 1;
    }
    None
}

impl CallToolRequest {
    /// Whether the arguments are a map: no name occurs twice.
    pub open spec fn wf(&self) -> bool {
        match self.arguments {
            Some(arguments) => distinct_names(arguments@),
            None => true,
        }
    }

    /// The value of the argument named `key`, if the request has one.
    pub open spec fn argument(&self, key: Seq<char>) -> Option<ArgValue> {
        match self.arguments {
            Some(arguments) => find_argument(arguments@, key),
            None => None,
        }
    }

    /// The value of the argument named `key`, if the request has one.
    pub fn get_argument(&self, key: &str) -> (r: Option<&ArgValue>)
        ensures
            match self.argument(key@) {
                Some(value) => r == Some(&value),
                None => r.is_none(),
            },
    {
        match &self.arguments {
            None => None,
            Some(arguments) => lookup(arguments, key),
        }
    }

    /// The `line` argument: a non-negative integer, counted as the client
    /// counts it.
    pub fn get_line(&self) -> (r: Result<u64, ToolResponse>)
        ensures
            match self.argument("line"@) {
                Some(ArgValue::Unsigned(n)) => r == Ok::<u64, ToolResponse>(n),
                _ => r matches Err(response) && response@ == error_view("Line is required"@),
            },
    {
        match self.get_argument("line") {
            Some(ArgValue::Unsigned(n)) => Ok(*n),
            _ => Err(error_response("Line is required")),
        }
    }

    /// The `symbol` argument: a text.
    pub fn get_symbol(&self) -> (r: Result<String, ToolResponse>)
        ensures
            text_or_response(r) == required_text(
                self.argument("symbol"@),
                "Symbol is required"@,
            ),
    {
        match self.get_argument("symbol") {
            Some(ArgValue::Text(text)) => Ok(text.clone()),
            _ => Err(error_response("Symbol is required")),
        }
    }

    /// The `file` argument: a text.
    pub fn get_file(&self) -> (r: Result<String, ToolResponse>)
        ensures
            text_or_response(r) == required_text(self.argument("file"@), "File is required"@),
    {
        match self.get_argument("file") {
            Some(ArgValue::Text(text)) => Ok(text.clone()),
            _ => Err(error_response("File is required")),
        }
    }
}

/// The file a request is about: its path relative to the project and its
/// path as given.
#[derive(Debug, Clone)]
pub struct RequestInfo {
    pub relative_path: String,
    pub absolute_path: String,
}

pub struct RequestInfoView {
    pub relative_path: Seq<char>,
    pub absolute_path: Seq<char>,
}

impl View for RequestInfo {
    type V = RequestInfoView;

    open spec fn view(&self) -> RequestInfoView {
        RequestInfoView {
            relative_path: self.relative_path@,
            absolute_path: self.absolute_path@,
        }
    }
}

/// The canonical forms of a project's root and of a request's file, where
/// the file system has them.
#[derive(Debug, Clone)]
pub struct CanonicalForms {
    pub root: Option<String>,
    pub path: Option<String>,
}

/// The file that a request names, as the platform reads it: on `Windows`
/// every backslash counts as a forward slash.
pub open spec fn request_file(request: CallToolRequest, platform: Platform) -> Result<
    Seq<char>,
    ToolResponseView,
> {
    match required_text(request.argument("file"@), "File is required"@) {
        Err(response) => Err(response),
        Ok(file) => Ok(
            if platform == Platform::Windows {
                with_separator(file, '\\', '/')
            } else {
                file
            },
        ),
    }
}

/// The complaint that no project holds `file`.
pub open spec fn no_project_text(platform: Platform, file: Seq<char>) -> Seq<char> {
    if platform == Platform::Windows {
        "No project found for file "@ + file
            + ". On Windows, try using forward slashes in paths."@
    } else {
        "No project found for file "@ + file
    }
}

/// The complaint that a file's path could not be made relative.
pub open spec fn unresolved_text(platform: Platform, complaint: Seq<char>) -> Seq<char> {
    if platform == Platform::Windows {
        complaint + ". Windows paths may need normalization. Try using forward slashes."@
    } else {
        complaint
    }
}

/// The absolute path reported for a file: on `Windows` its canonical form
/// where it has one, else the file as the platform reads it.
pub open spec fn absolute_text(
    platform: Platform,
    file: Seq<char>,
    canonical_path: Option<Seq<char>>,
) -> Seq<char> {
    match canonical_path {
        Some(canonical) => if platform == Platform::Windows {
            canonical
        } else {
            file
        },
        None => file,
    }
}

/// What `get_info_from_request` gives for a request, the project that holds
/// its file, if one does, and the canonical forms of root and file.
pub open spec fn request_info(
    request: CallToolRequest,
    project: Option<Project>,
    platform: Platform,
    canonical_root: Option<Seq<char>>,
    canonical_path: Option<Seq<char>>,
) -> Result<RequestInfoView, ToolResponseView> {
    match request_file(request, platform) {
        Err(response) => Err(response),
        Ok(file) => match project {
            None => Err(error_view(no_project_text(platform, file))),
            Some(p) => match platform_outcome(
                platform,
                p.root@,
                file,
                canonical_root,
                canonical_path,
            ) {
                Ok(relative) => Ok(
                    RequestInfoView {
                        relative_path: relative,
                        absolute_path: absolute_text(platform, file, canonical_path),
                    },
                ),
                Err(complaint) => Err(error_view(unresolved_text(platform, complaint))),
            },
        },
    }
}

/// The project behind an optional reference.
pub open spec fn project_value(project: Option<&Project>) -> Option<Project> {
    match project {
        Some(p) => Some(*p),
        None => None,
    }
}

/// The view of a request's file or an error answer.
pub open spec fn info_view(r: Result<RequestInfo, ToolResponse>) -> Result<
    RequestInfoView,
    ToolResponseView,
> {
    match r {
        Ok(info) => Ok(info@),
        Err(response) => Err(response@),
    }
}

/// The file that a request names, as the platform reads it. The project
/// that holds the file is looked up under this name.
pub fn file_of_request(request: &CallToolRequest, platform: Platform) -> (r: Result<
    String,
    ToolResponse,
>)
    ensures
        text_or_response(r) == request_file(*request, platform),
{
    match request.get_file() {
        Ok(file) => {
            if platform == Platform::Windows {
                Ok(replace_separator(file.as_str(), '\\', '/'))
            } else {
                Ok(file)
            }
        },
        Err(response) => Err(response),
    }
}

/// Finds the file a request is about. `project` is the project that holds
/// the file named by the request, if one is known; `canonical` holds the
/// canonical forms of that project's root and of the file, which only
/// `Windows` reads. The answer is an error where the argument is missing,
/// where no project holds the file, and where the file's path cannot be made
/// relative to the project's root.
pub fn get_info_from_request(
    request: &CallToolRequest,
    project: Option<&Project>,
    platform: Platform,
    canonical: CanonicalForms,
) -> (r: Result<RequestInfo, ToolResponse>)
    ensures
        info_view(r) == request_info(
            *request,
            project_value(project),
            platform,
            opt_view(canonical.root),
            opt_view(canonical.path),
        ),
{
    let file = match file_of_request(request, platform) {
        Ok(file) => file,
        Err(response) => {
            return Err(response);
        },
    };
    let windows = platform == Platform::Windows;
    let project = match project {
        None => {
            let mut message = String::from_str("No project found for file ").concat(
                file.as_str(),
            );
            if windows {
                message.append(". On Windows, try using forward slashes in paths.");
            }
            return Err(error_response(message.as_str()));
        },
        Some(project) => project,
    };
    let absolute_path = match &canonical.path {
        Some(found) => {
            if windows {
                found.clone()
            } else {
                file.clone()
            }
        },
        None => file.clone(),
    };
    match project.relative_path_on(platform, file.as_str(), canonical.root, canonical.path) {
        Ok(relative_path) => Ok(RequestInfo { relative_path, absolute_path }),
        Err(complaint) => {
            let mut message = complaint;
            if windows {
                message.append(
                    ". Windows paths may need normalization. Try using forward slashes.",
                );
            }
            Err(error_response(message.as_str()))
        },
    }
}

/// The start of the first symbol that starts on `line`.
pub open spec fn first_on_line(symbols: Seq<SymbolInformation>, line: u32) -> Option<Position>
    decreases symbols.len(),
{
    if symbols.len() == 0 {
        None
    } else if symbols[0].start.line == line {
        Some(symbols[0].start)
    } else {
        first_on_line(symbols.skip(1), line)
    }
}

/// The start of the first symbol that starts on `line`.
pub fn symbol_start(symbols: &Vec<SymbolInformation>, line: u32) -> (r: Option<Position>)
    ensures
        r == first_on_line(symbols@, line),
{
    let mut i: usize = 0;
    assert(symbols@.skip(0) =~= symbols@);
    while i < symbols.len()
        invariant
            i <= symbols.len(),
            first_on_line(symbols@, line) == first_on_line(symbols@.skip(i as int), line),
        decreases symbols.len() - i,
    {
        assert(symbols@.skip(i as int)[0] == symbols@[i as int]);
        assert(symbols@.skip(i as int).skip(1) =~= symbols@.skip(i + 1));
        if symbols[i].start.line == line {
            return Some(symbols[i].start);
        }
        i = i + 1;
    }
    None
}

/// What `find_symbol_position_in_file` gives.
pub open spec fn symbol_position(
    symbols: Result<Option<Vec<SymbolInformation>>, String>,
    relative_file: Seq<char>,
    symbol: Seq<char>,
    line: u64,
) -> Result<Position, Seq<char>> {
    match symbols {
        Ok(Some(list)) => match first_on_line(list@, #[verifier::truncate] (line as u32)) {
            Some(position) => Ok(position),
            None => Err("Symbol "@ + symbol + " not found in file "@ + relative_file),
        },
        Ok(None) => Err("No symbols found"@),
        Err(cause) => Err(cause@),
    }
}

/// The view of a position or a complaint.
pub open spec fn position_view(r: Result<Position, String>) -> Result<Position, Seq<char>> {
    match r {
        Ok(position) => Ok(position),
        Err(complaint) => Err(complaint@),
    }
}

/// Finds where a symbol stands in a file, given the file's symbols as the
/// session listed them: the start of the first symbol that starts on `line`.
/// The line is taken by its low 32 bits.
pub fn find_symbol_position_in_file(
    symbols: Result<Option<Vec<SymbolInformation>>, String>,
    relative_file: &str,
    symbol: &str,
    line: u64,
) -> (r: Result<Position, String>)
    ensures
        position_view(r) == symbol_position(symbols, relative_file@, symbol@, line),
{
    let list = match symbols {
        Ok(Some(list)) => list,
        Ok(None) => {
            return Err(String::from_str("No symbols found"));
        },
        Err(cause) => {
            return Err(cause);
        },
    };
    let wanted: u32 = #[verifier::truncate]
    (line as u32);
    match symbol_start(&list, wanted) {
        Some(position) => {
            return Ok(position);
        },
        None => {},
    }
    let text = String::from_str("Symbol ").concat(symbol).concat(" not found in file ").concat(
        relative_file,
    );
    Err(text)
}

/// Lines set one after the other with a line feed between each two.
pub open spec fn join_lines(lines: Seq<Seq<char>>) -> Seq<char>
    decreases lines.len(),
{
    if lines.len() == 0 {
        Seq::empty()
    } else if lines.len() == 1 {
        lines[0]
    } else {
        join_lines(lines.drop_last()) + "\n"@ + lines.last()
    }
}

/// The first and last line to give for a request, from zero, in a text of
/// `count` lines: `prefix` lines more before `start_line`, as far as there
/// are any, and `suffix` lines more after `end_line`. There is none where the
/// last line asked for is not in the text, or the first lies after the last.
/// The number of lines is taken by its low 32 bits.
pub open spec fn line_window(count: u64, start_line: u32, end_line: u32, prefix: u8, suffix: u8) -> Option<
    (int, int),
> {
    let len = count as u32;
    let start: int = if start_line >= prefix {
        start_line - prefix
    } else {
        0
    };
    let wanted: int = if end_line + suffix > u32::MAX {
        u32::MAX as int
    } else {
        end_line + suffix
    };
    let end: int = if wanted > len {
        len as int
    } else {
        wanted
    };
    if start > end || end >= len {
        None
    } else {
        Some((start, end))
    }
}

/// What `get_file_lines` gives for the lines of a text.
pub open spec fn selected_lines(
    lines: Seq<Seq<char>>,
    start_line: u32,
    end_line: u32,
    prefix: u8,
    suffix: u8,
) -> Option<Seq<char>> {
    match line_window(lines.len() as u64, start_line, end_line, prefix, suffix) {
        Some((start, end)) => Some(join_lines(lines.subrange(start, end + 1))),
        None => None,
    }
}

/// The lines from `start_line` to `end_line`, both counted from zero and
/// both included, with `prefix` lines before and `suffix` lines after, joined
/// by line feeds.
pub fn select_lines(lines: &Vec<String>, start_line: u32, end_line: u32, prefix: u8, suffix: u8) -> (r:
    Option<String>)
    ensures
        opt_view(r) == selected_lines(
            texts(lines@),
            start_line,
            end_line,
            prefix,
            suffix,
        ),
{
    let count: u64 = lines.len() as u64;
    let len: u32 = #[verifier::truncate]
    (count as u32);
    assert((count as u32) as u64 <= count) by (bit_vector);
    let start: u32 = start_line.saturating_sub(prefix as u32);
    let mut end: u32 = end_line.saturating_add(suffix as u32);
    if end > len {
        end = len;
    }
    if start > end || end >= len {
        return None;
    }
    let ghost all = texts(lines@);
    let first: usize = start as usize;
    let last: usize = end as usize;
    let mut text: String = lines[first].clone();
    let mut i: usize = first + 1;
    assert(all.subrange(first as int, i as int) =~= seq![all[first as int]]);
    while i <= last
        invariant
            first < i <= last + 1,
            last < lines.len(),
            all == texts(lines@),
            text@ == join_lines(all.subrange(first as int, i as int)),
        decreases last + 1 - i,
    {
        let ghost upto = all.subrange(first as int, i + 1);
        assert(upto.drop_last() =~= all.subrange(first as int, i as int));
        assert(upto.last() == lines@[i as int]@);
        text.append("\n");
        text.append(lines[i].as_str());
        i = i + 1;
    }
    assert(i == last + 1);
    Some(text)
}

/// The lines of `content` from `start_line` to `end_line`, both counted from
/// zero and both included, with `prefix` lines before and `suffix` lines
/// after, joined by line feeds; `None` where a line asked for is not there.
pub fn get_file_lines(content: &str, start_line: u32, end_line: u32, prefix: u8, suffix: u8) -> (r:
    Option<String>)
    ensures
        opt_view(r) == selected_lines(
            lines_of(content@),
            start_line,
            end_line,
            prefix,
            suffix,
        ),
{
    let lines = split_lines(content);
    select_lines(&lines, start_line, end_line, prefix, suffix)
}

} // verus!
