//! The bridge to `git http-backend`: its CGI environment and the header lines it writes.
use vstd::prelude::*;

use crate::forward::header_views;
use crate::text::{find_char, first_index_of, has_prefix, strip_prefix};

verus! {

/// Size of the chunks the response body is forwarded in.
pub const BODY_CHUNK_SIZE: usize = 8192;

/// Chunks that may wait between the backend and the client.
pub const BODY_CHANNEL_CAPACITY: usize = 100;

/// Adds `byte` of the backend's output to the current `line`: a line feed ends the
/// line, a carriage return is dropped, any other byte is kept.
pub fn push_line_byte(line: &mut Vec<u8>, byte: u8) -> (done: bool)
    ensures
        done == (byte == 10),
        final(line)@ == (if byte == 10 || byte == 13 {
            old(line)@
        } else {
            old(line)@.push(byte)
        }),
{
    if byte == 13 {
        false
    } else if byte == 10 {
        true
    } else {
        line.push(byte);
        false
    }
}

/// One line of the backend's header section.
pub enum HeaderLine {
    /// The empty line that ends the headers.
    End,
    /// `Name:Value`, split at the first colon.
    Header(String, String),
    /// A line without a colon.
    Ignored,
}

/// Reads one line of the header section.
pub fn parse_header_line(line: &str) -> (r: HeaderLine)
    ensures
        line@.len() == 0 ==> r is End,
        line@.len() > 0 ==> match first_index_of(line@, ':') {
            None => r is Ignored,
            Some(i) => r matches HeaderLine::Header(name, value) && name@ == line@.subrange(0, i)
                && value@ == line@.skip(i + 1),
        },
{
    let n = line.unicode_len();
    if n == 0 {
        return HeaderLine::End;
    }
    match find_char(line, ':') {
        Some(i) => {
            let name = line.substring_char(0, i).to_owned();
            let value = line.substring_char(i + 1, n).to_owned();
            HeaderLine::Header(name, value)
        },
        None => HeaderLine::Ignored,
    }
}

/// The CGI environment of the backend for a request, when `request_path` lies in `scope`.
pub open spec fn cgi_environment_spec(
    method: Seq<char>,
    query: Seq<char>,
    git_dir: Seq<char>,
    request_path: Seq<char>,
    scope: Seq<char>,
    content_type: Seq<char>,
) -> Seq<(Seq<char>, Seq<char>)> {
    seq![
        ("GIT_HTTP_EXPORT_ALL"@, ""@),
        ("REQUEST_METHOD"@, method),
        ("QUERY_STRING"@, query),
        ("PATH_TRANSLATED"@, git_dir + request_path.skip(scope.len() as int)),
        ("CONTENT_TYPE"@, content_type),
    ]
}

/// The environment `git http-backend` runs with for a request to `request_path`
/// below `scope`, serving the repository in `git_dir`; none outside the scope.
pub fn cgi_environment(
    method: &str,
    query: &str,
    git_dir: &str,
    request_path: &str,
    scope: &str,
    content_type: &str,
) -> (r: Option<Vec<(String, String)>>)
    ensures
        r is Some <==> has_prefix(request_path@, scope@),
        r matches Some(env) ==> header_views(env@) == cgi_environment_spec(
            method@,
            query@,
            git_dir@,
            request_path@,
            scope@,
            content_type@,
        ),
{
    match strip_prefix(request_path, scope) {
        None => None,
        Some(rest) => {
            let mut translated = git_dir.to_owned();
            translated.append(rest.as_str());
            let mut env: Vec<(String, String)> = Vec::new();
            env.push(("GIT_HTTP_EXPORT_ALL".to_owned(), "".to_owned()));
            env.push(("REQUEST_METHOD".to_owned(), method.to_owned()));
            env.push(("QUERY_STRING".to_owned(), query.to_owned()));
            env.push(("PATH_TRANSLATED".to_owned(), translated));
            env.push(("CONTENT_TYPE".to_owned(), content_type.to_owned()));
            assert(header_views(env@) =~= cgi_environment_spec(
                method@,
                query@,
                git_dir@,
                request_path@,
                scope@,
                content_type@,
            ));
            Some(env)
        },
    }
}

} // verus!
