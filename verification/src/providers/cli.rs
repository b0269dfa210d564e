//! The decisions of the two command-line adapters (`ClaudeCliProvider`, whose binary and
//! labels the host configures, and Antigravity's `agy`): the arguments and prompt handed to
//! the tool, the image size asked for, what is kept of the tool's output, and the provider
//! identity. Running the tool is left to the host.
use vstd::prelude::*;

use crate::providers::error::ProviderId;
use crate::providers::svg::{image_prompt, svg_prompt};
use crate::providers::types::{ImageRequest, TextRequest, TextResponse};
use crate::text::{trim, trim_str};

verus! {

/// The single prompt a command-line tool receives for a text request: the trimmed system
/// instruction, a blank line, then the trimmed prompt.
pub open spec fn cli_text_prompt(req: TextRequest) -> Seq<char> {
    trim(req.system@) + "\n\n"@ + trim(req.prompt@)
}

/// The trimmed system instruction, a blank line, then the trimmed prompt.
pub fn text_prompt(req: &TextRequest) -> (s: String)
    ensures
        s@ == cli_text_prompt(*req),
{
    let mut s = trim_str(req.system.as_str());
    s.append("\n\n");
    let p = trim_str(req.prompt.as_str());
    s.append(p.as_str());
    s
}

/// The text the tool printed, trimmed.
pub fn text_response(stdout: &str) -> (r: TextResponse)
    ensures
        r.text@ == trim(stdout@),
{
    TextResponse { text: trim_str(stdout) }
}

/// The size an image is drawn at: the requested size, at least one pixel each way.
pub fn image_size(req: &ImageRequest) -> (wh: (u32, u32))
    ensures
        wh.0 == (if req.size.width < 1 { 1 } else { req.size.width }),
        wh.1 == (if req.size.height < 1 { 1 } else { req.size.height }),
{
    let w = if req.size.width < 1 { 1 } else { req.size.width };
    let h = if req.size.height < 1 { 1 } else { req.size.height };
    (w, h)
}

/// The SVG prompt a tool receives for an image request, at the size it is drawn at.
pub fn svg_request_prompt(req: &ImageRequest) -> (s: String)
    ensures
        s@ == svg_prompt(
            req.prompt@,
            if req.size.width < 1 { 1 } else { req.size.width },
            if req.size.height < 1 { 1 } else { req.size.height },
        ),
{
    let (w, h) = image_size(req);
    image_prompt(req.prompt.as_str(), w, h)
}

/// The `ClaudeCliProvider` adapter: drives the configured binary in non-interactive print
/// mode (`-p <prompt> --output-format text`, with `--model` when pinned). Its provider label
/// is `assistant-cli`.
#[derive(Debug, Clone)]
pub struct ClaudeCliProvider {
    binary: String,
    model: Option<String>,
}

impl ClaudeCliProvider {
    /// An adapter running `binary`, optionally pinned to `model`.
    pub fn new(binary: String, model: Option<String>) -> (p: Self)
        ensures
            p.binary() == binary,
            p.model() == model,
    {
        ClaudeCliProvider { binary, model }
    }

    pub closed spec fn binary(&self) -> String {
        self.binary
    }

    pub closed spec fn model(&self) -> Option<String> {
        self.model
    }

    pub fn binary_name(&self) -> (s: &str)
        ensures
            s@ == self.binary()@,
    {
        self.binary.as_str()
    }

    pub fn model_name(&self) -> (m: &Option<String>)
        ensures
            *m == self.model(),
    {
        &self.model
    }

    /// The arguments the binary is run with for `prompt`: `-p <prompt> --output-format text`,
    /// then `--model <model>` when a model is pinned.
    pub fn print_args(&self, prompt: &str) -> (args: Vec<String>)
        ensures
            args@.len() == (if self.model() is Some { 6int } else { 4int }),
            args@[0]@ == "-p"@,
            args@[1]@ == prompt@,
            args@[2]@ == "--output-format"@,
            args@[3]@ == "text"@,
            self.model() matches Some(m) ==> args@[4]@ == "--model"@ && args@[5]@ == m@,
    {
        let mut args: Vec<String> = Vec::new();
        args.push(String::from_str("-p"));
        args.push(String::from_str(prompt));
        args.push(String::from_str("--output-format"));
        args.push(String::from_str("text"));
        match &self.model {
            Some(m) => {
                args.push(String::from_str("--model"));
                args.push(m.clone());
            },
            None => {},
        }
        args
    }

    /// `assistant-cli`, with the pinned model or `assistant-code`.
    pub fn id(&self) -> (id: ProviderId)
        ensures
            id.provider@ == "assistant-cli"@,
            id.model@ == (match self.model() {
                Some(m) => m@,
                None => "assistant-code"@,
            }),
    {
        let model = match &self.model {
            Some(m) => m.clone(),
            None => String::from_str("assistant-code"),
        };
        ProviderId::new(String::from_str("assistant-cli"), model)
    }
}

/// Drives the `agy` binary in non-interactive print mode.
#[derive(Debug, Clone)]
pub struct AgyCliProvider {
    binary: String,
    /// Value passed to `--print-timeout` (a duration such as `5m`).
    timeout: String,
}

impl AgyCliProvider {
    /// An adapter running `binary` with the given print timeout.
    pub fn new(binary: String, timeout: String) -> (p: Self)
        ensures
            p.binary() == binary,
            p.timeout() == timeout,
    {
        AgyCliProvider { binary, timeout }
    }

    pub closed spec fn binary(&self) -> String {
        self.binary
    }

    pub closed spec fn timeout(&self) -> String {
        self.timeout
    }

    pub fn binary_name(&self) -> (s: &str)
        ensures
            s@ == self.binary()@,
    {
        self.binary.as_str()
    }

    pub fn timeout_value(&self) -> (s: &str)
        ensures
            s@ == self.timeout()@,
    {
        self.timeout.as_str()
    }

    /// The arguments the binary is run with for `prompt`:
    /// `-p <prompt> --print-timeout <timeout>`.
    pub fn print_args(&self, prompt: &str) -> (args: Vec<String>)
        ensures
            args@.len() == 4,
            args@[0]@ == "-p"@,
            args@[1]@ == prompt@,
            args@[2]@ == "--print-timeout"@,
            args@[3]@ == self.timeout()@,
    {
        let mut args: Vec<String> = Vec::new();
        args.push(String::from_str("-p"));
        args.push(String::from_str(prompt));
        args.push(String::from_str("--print-timeout"));
        args.push(self.timeout.clone());
        args
    }

    /// `antigravity` / `agy`.
    pub fn id(&self) -> (id: ProviderId)
        ensures
            id.provider@ == "antigravity"@,
            id.model@ == "agy"@,
    {
        ProviderId::new(String::from_str("antigravity"), String::from_str("agy"))
    }
}

} // verus!
