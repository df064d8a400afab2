//! The report of a check of the MCP stream endpoint.
use vstd::prelude::*;
use crate::config::{
    mcp_stream_url_of, mcp_ws_url_of, normalized_uri, AppConfig, DesktopEnv,
};
use crate::text::{concat, decimal, decimal_string};

verus! {

pub const REACHABLE_PREFIX: &'static str = "MCP stream reachable (HTTP ";

pub const REACHABLE_INFIX: &'static str = ")\n";

pub const UNREACHABLE_PREFIX: &'static str = "MCP stream not reachable\n";

pub const NEWLINE: &'static str = "\n";

/// What a check of the MCP stream found.
pub struct McpHealthReport {
    pub penpot_uri: String,
    pub mcp_stream_url: String,
    pub mcp_ws_url: String,
    pub stream_reachable: bool,
    pub stream_status: Option<u16>,
    pub error: Option<String>,
}

pub struct McpHealthView {
    pub penpot_uri: Seq<char>,
    pub mcp_stream_url: Seq<char>,
    pub mcp_ws_url: Seq<char>,
    pub stream_reachable: bool,
    pub stream_status: Option<u16>,
    pub error: Option<Seq<char>>,
}

impl View for McpHealthReport {
    type V = McpHealthView;

    open spec fn view(&self) -> McpHealthView {
        McpHealthView {
            penpot_uri: self.penpot_uri@,
            mcp_stream_url: self.mcp_stream_url@,
            mcp_ws_url: self.mcp_ws_url@,
            stream_reachable: self.stream_reachable,
            stream_status: self.stream_status,
            error: self.error.deep_view(),
        }
    }
}

/// The stream answers the check when its status is a success (2xx) or
/// "method not allowed" (405, a stream that only takes POST).
pub open spec fn stream_answers(status: u16) -> bool {
    (200 <= status && status <= 299) || status == 405
}

/// The text that reports a check to the user.
pub open spec fn health_summary_of(r: McpHealthView) -> Seq<char> {
    if r.stream_reachable {
        REACHABLE_PREFIX@ + decimal(
            match r.stream_status {
                Some(s) => s as nat,
                None => 0,
            },
        ) + REACHABLE_INFIX@ + r.mcp_stream_url
    } else {
        UNREACHABLE_PREFIX@ + r.mcp_stream_url + NEWLINE@ + match r.error {
            Some(e) => e,
            None => Seq::empty(),
        }
    }
}

impl McpHealthReport {
    /// The report before the stream is contacted: the endpoints, nothing
    /// reached yet.
    pub fn initial(config: &AppConfig, env: &DesktopEnv) -> (r: Self)
        ensures
            r@ == (McpHealthView {
                penpot_uri: normalized_uri(config@.penpot_public_uri),
                mcp_stream_url: mcp_stream_url_of(config@, env@),
                mcp_ws_url: mcp_ws_url_of(config@, env@),
                stream_reachable: false,
                stream_status: None,
                error: None,
            }),
    {
        McpHealthReport {
            penpot_uri: config.normalized_public_uri(),
            mcp_stream_url: config.mcp_stream_url(env),
            mcp_ws_url: config.mcp_ws_url(env),
            stream_reachable: false,
            stream_status: None,
            error: None,
        }
    }

    /// The stream answered with `status`.
    pub fn record_status(&mut self, status: u16)
        ensures
            final(self)@ == (McpHealthView {
                stream_status: Some(status),
                stream_reachable: stream_answers(status),
                ..old(self)@
            }),
    {
        self.stream_status = Some(status);
        self.stream_reachable = (200 <= status && status <= 299) || status == 405;
    }

    /// The check failed for the reason given (no client, or no answer).
    pub fn record_error(&mut self, message: String)
        ensures
            final(self)@ == (McpHealthView { error: Some(message@), ..old(self)@ }),
    {
        self.error = Some(message);
    }

    /// The text that reports the check to the user.
    pub fn summary(&self) -> (s: String)
        ensures
            s@ == health_summary_of(self@),
    {
        if self.stream_reachable {
            let code: u16 = match self.stream_status {
                Some(c) => c,
                None => 0,
            };
            let mut s = concat(REACHABLE_PREFIX, decimal_string(code as u64).as_str());
            s.append(REACHABLE_INFIX);
            s.append(self.mcp_stream_url.as_str());
            s
        } else {
            let mut s = concat(UNREACHABLE_PREFIX, self.mcp_stream_url.as_str());
            s.append(NEWLINE);
            match &self.error {
                Some(e) => s.append(e.as_str()),
                None => {},
            }
            proof {
                assert(s@ =~= health_summary_of(self@));
            }
            s
        }
    }
}

/// Which answers count as the stream being up: every success status
/// (200 to 299) and 405, and nothing else: no informational, redirect or
/// other client error status, and no server error. A stream that answers is
/// also reachable in the probe's sense (below 500).
pub proof fn lemma_stream_answer_classes(status: u16)
    ensures
        200 <= status <= 299 ==> stream_answers(status),
        status == 405 ==> stream_answers(status),
        status < 200 ==> !stream_answers(status),
        300 <= status < 405 ==> !stream_answers(status),
        406 <= status ==> !stream_answers(status),
        stream_answers(status) ==> status < 500,
{
}

} // verus!
