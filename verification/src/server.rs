//! The two subsystems of the server, and what they are started with.

pub mod alert;
pub mod limiter;
pub mod watch;

use reqwest::header::{HeaderValue, InvalidHeaderValue};
use std::path::PathBuf;
use vstd::prelude::*;
use vstd::string::*;
use vstd::utf8::{encode_utf8, is_ascii_chars, is_ascii_chars_encode_utf8};

verus! {

/// The `server` subcommand: where the configuration file is.
#[derive(Debug)]
pub struct Command {
    config_file: PathBuf,
}

impl Command {
    /// The path this command was given.
    pub closed spec fn path(&self) -> PathBuf {
        self.config_file
    }

    /// The command for this configuration file.
    pub fn new(config_file: PathBuf) -> (command: Command)
        ensures
            command.path() == config_file,
    {
        Command { config_file }
    }

    /// The path of the configuration file.
    pub fn get_config_file(&self) -> (path: PathBuf)
        ensures
            path == self.path(),
    {
        self.config_file.clone()
    }
}

/// What is said of a configuration file that cannot be used.
pub open spec fn not_a_file(shown: Seq<char>) -> Seq<char> {
    "\""@ + shown + "\" is not a regular file or not exist"@
}

/// Accepts the path of the configuration file where it names a regular
/// file.  The caller has looked at the file system: `is_file` says what it
/// found, and `shown` is the path as the user wrote it.
pub fn is_config_exist(path: PathBuf, shown: &str, is_file: bool) -> (checked: Result<
    PathBuf,
    String,
>)
    ensures
        is_file ==> checked == Ok::<PathBuf, String>(path),
        !is_file ==> checked is Err && checked->Err_0@ == not_a_file(shown@),
{
    if is_file {
        Ok(path)
    } else {
        let mut said = String::new();
        said.append("\"");
        said.append(shown);
        said.append("\" is not a regular file or not exist");
        Err(said)
    }
}

/// `reqwest::header::HeaderValue`, of which this crate reads nothing.
#[verifier::external_type_specification]
#[verifier::external_body]
pub struct ExHeaderValue(reqwest::header::HeaderValue);

/// `reqwest::header::InvalidHeaderValue`, the error of a header value that
/// holds a byte it may not hold.
#[verifier::external_type_specification]
#[verifier::external_body]
pub struct ExInvalidHeaderValue(reqwest::header::InvalidHeaderValue);

/// The bytes a header value may hold: the tab, and everything from the space
/// on but the delete character.
pub open spec fn legal_value_byte(byte: u8) -> bool {
    (byte >= 32 && byte != 127) || byte == 9
}

/// Whether these bytes make a header value.
pub open spec fn legal_header_value(bytes: Seq<u8>) -> bool {
    forall|i: int| 0 <= i < bytes.len() ==> legal_value_byte(#[trigger] bytes[i])
}

/// Parses a header value, by `str::parse` into a `HeaderValue`, which is
/// `HeaderValue::from_str`.  That function walks the bytes of the text and
/// fails at the first that is neither a tab nor at least 32 and other than
/// 127; the contract says when it succeeds, and nothing of the value.
#[verifier::external_body]
fn parse_header_value(token: &str) -> (parsed: Result<HeaderValue, InvalidHeaderValue>)
    ensures
        parsed is Ok <==> legal_header_value(encode_utf8(token@)),
{
    token.parse::<HeaderValue>()
}

/// Mathematical value of a [`Header`].
pub struct HeaderView {
    pub name: Seq<char>,
    pub value: Seq<char>,
}

/// One header of a request.
#[derive(Debug)]
pub struct Header {
    pub name: String,
    pub value: String,
}

impl View for Header {
    type V = HeaderView;

    open spec fn view(&self) -> HeaderView {
        HeaderView { name: self.name@, value: self.value@ }
    }
}

/// The values of a list of headers.
pub open spec fn header_views(list: Seq<Header>) -> Seq<HeaderView> {
    Seq::new(list.len(), |i: int| list[i]@)
}

/// Why the headers of a fetch could not be built.
#[derive(Clone, Copy, Debug, PartialEq, Eq, Structural)]
pub enum HeaderError {
    /// The configured authorization token cannot stand in a header.
    InvalidToken,
}

/// The headers that go with every fetch: the version of the API, the media
/// type that is accepted, and the authorization token.
pub open spec fn fetch_headers(token: Seq<char>) -> Seq<HeaderView> {
    seq![
        HeaderView { name: "X-GitHub-Api-Version"@, value: "2022-11-28"@ },
        HeaderView { name: "accept"@, value: "application/vnd.github+json"@ },
        HeaderView { name: "authorization"@, value: token },
    ]
}

/// One header from two pieces of text.
fn header(name: &str, value: &str) -> (built: Header)
    ensures
        built@ == (HeaderView { name: name@, value: value@ }),
{
    Header { name: name.to_owned(), value: value.to_owned() }
}

/// Builds the headers that go with every fetch.  It fails where the token
/// cannot stand in a header, and only there.
pub fn build_header(token: String) -> (built: Result<Vec<Header>, HeaderError>)
    ensures
        built is Ok <==> legal_header_value(encode_utf8(token@)),
        built matches Ok(headers) ==> header_views(headers@) == fetch_headers(token@),
{
    match parse_header_value(token.as_str()) {
        Err(_) => Err(HeaderError::InvalidToken),
        Ok(_) => {
            let mut headers: Vec<Header> = Vec::new();
            headers.push(header("X-GitHub-Api-Version", "2022-11-28"));
            headers.push(header("accept", "application/vnd.github+json"));
            headers.push(header("authorization", token.as_str()));
            assert(header_views(headers@) =~= fetch_headers(token@));
            Ok(headers)
        },
    }
}

/// The characters of the ASCII range that a header value may hold: the
/// tab, and the printable ones from the space to the tilde.
pub open spec fn legal_value_char(c: char) -> bool {
    c == '\t' || (' ' <= c && c <= '~')
}

/// For a token of ASCII characters the rule on bytes is a rule on
/// characters: the token can stand in a header exactly where each of its
/// characters is a tab or printable.
pub proof fn law_ascii_token(token: Seq<char>)
    requires
        is_ascii_chars(token),
    ensures
        legal_header_value(encode_utf8(token)) <==> forall|i: int|
            0 <= i < token.len() ==> legal_value_char(#[trigger] token[i]),
{
    is_ascii_chars_encode_utf8(token);
    let bytes = encode_utf8(token);
    assert forall|i: int| 0 <= i < token.len() implies (legal_value_byte(#[trigger] bytes[i])
        <==> legal_value_char(token[i])) by {
        let c = token[i];
        assert(c as u8 == bytes[i]);
        assert('\0' <= c <= '\u{7f}');
    }
    if legal_header_value(bytes) {
        assert forall|i: int| 0 <= i < token.len() implies legal_value_char(
            #[trigger] token[i],
        ) by {
            assert(legal_value_byte(bytes[i]));
        }
    }
}

} // verus!
