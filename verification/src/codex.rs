//! The snippets that point the Codex CLI at the Penpot MCP stream.
use vstd::prelude::*;
use vstd::utf8::encode_utf8;
use crate::config::{AppConfig, DesktopEnv, mcp_stream_url_of};
use crate::text::owned;

verus! {

pub const TOKEN_QUERY: &'static str = "?userToken=";

pub const CLI_OVERRIDE_PREFIX: &'static str = "mcp_servers.penpot.url=\"";

pub const CLI_OVERRIDE_SUFFIX: &'static str = "\"";

pub const TOML_PREFIX: &'static str = "# Penpot MCP — paste into Codex config or pass via: codex -c '...'\n[mcp_servers.penpot]\nurl = \"";

pub const TOML_SUFFIX: &'static str = "\"\n";

/// ASCII alphanumerics and `-`, `.`, `_`, `~`: the bytes that percent
/// encoding leaves as they are.
pub open spec fn is_unreserved_byte(b: u8) -> bool {
    ||| (48 <= b && b <= 57)
    ||| (65 <= b && b <= 90)
    ||| (97 <= b && b <= 122)
    ||| b == 45
    ||| b == 46
    ||| b == 95
    ||| b == 126
}

/// The uppercase hexadecimal digit of `d < 16`.
pub open spec fn hex_digit_upper(d: int) -> char {
    if d < 10 {
        (48 + d) as char
    } else {
        (55 + d) as char
    }
}

/// One byte, percent-encoded.
pub open spec fn percent_encode_byte(b: u8) -> Seq<char> {
    if is_unreserved_byte(b) {
        seq![b as char]
    } else {
        seq!['%', hex_digit_upper((b / 16) as int), hex_digit_upper((b % 16) as int)]
    }
}

/// A byte string, percent-encoded byte by byte.
pub open spec fn percent_encoded(bytes: Seq<u8>) -> Seq<char>
    decreases bytes.len(),
{
    if bytes.len() == 0 {
        Seq::empty()
    } else {
        percent_encode_byte(bytes[0]) + percent_encoded(bytes.drop_first())
    }
}

/// `urlencoding::encode`: percent-encodes every byte of the UTF-8 encoding
/// of `data` except ASCII alphanumerics and `-`, `.`, `_`, `~`, writing
/// `%` and two uppercase hexadecimal digits for each.
#[verifier::external_body]
fn url_encode(data: &str) -> (r: String)
    ensures
        r@ == percent_encoded(encode_utf8(data@)),
{
    urlencoding::encode(data).into_owned()
}

/// The stream URL, the `codex -c` override and the TOML table for Codex.
pub struct CodexSnippet {
    pub stream_url: String,
    pub cli_override: String,
    pub toml_snippet: String,
}

pub struct CodexSnippetView {
    pub stream_url: Seq<char>,
    pub cli_override: Seq<char>,
    pub toml_snippet: Seq<char>,
}

impl View for CodexSnippet {
    type V = CodexSnippetView;

    open spec fn view(&self) -> CodexSnippetView {
        CodexSnippetView {
            stream_url: self.stream_url@,
            cli_override: self.cli_override@,
            toml_snippet: self.toml_snippet@,
        }
    }
}

/// The snippets that point Codex at `stream_url`.
pub open spec fn snippet_for(stream_url: Seq<char>) -> CodexSnippetView {
    CodexSnippetView {
        stream_url,
        cli_override: CLI_OVERRIDE_PREFIX@ + stream_url + CLI_OVERRIDE_SUFFIX@,
        toml_snippet: TOML_PREFIX@ + stream_url + TOML_SUFFIX@,
    }
}

/// The MCP stream URL that Codex is given: with the user's token, percent
/// encoded, as the `userToken` query parameter where there is one.
pub open spec fn codex_stream_url(base: Seq<char>, user_token: Option<Seq<char>>) -> Seq<char> {
    match user_token {
        Some(t) => base + TOKEN_QUERY@ + percent_encoded(encode_utf8(t)),
        None => base,
    }
}

/// The snippets that point Codex at `stream_url`.
pub fn codex_snippet_for(stream_url: String) -> (s: CodexSnippet)
    ensures
        s@ == snippet_for(stream_url@),
{
    let mut cli_override = owned(CLI_OVERRIDE_PREFIX);
    cli_override.append(stream_url.as_str());
    cli_override.append(CLI_OVERRIDE_SUFFIX);
    let mut toml_snippet = owned(TOML_PREFIX);
    toml_snippet.append(stream_url.as_str());
    toml_snippet.append(TOML_SUFFIX);
    CodexSnippet { stream_url, cli_override, toml_snippet }
}

/// The Codex snippets for the configured MCP stream, carrying the user's
/// token where one is given.
pub fn build_codex_snippet(config: &AppConfig, env: &DesktopEnv, user_token: Option<&str>) -> (s:
    CodexSnippet)
    ensures
        s@ == snippet_for(
            codex_stream_url(
                mcp_stream_url_of(config@, env@),
                match user_token {
                    Some(t) => Some(t@),
                    None => None,
                },
            ),
        ),
{
    let stream_url = match user_token {
        Some(token) => {
            let mut url = config.mcp_stream_url(env);
            url.append(TOKEN_QUERY);
            let encoded = url_encode(token);
            url.append(encoded.as_str());
            url
        },
        None => config.mcp_stream_url(env),
    };
    codex_snippet_for(stream_url)
}

} // verus!
