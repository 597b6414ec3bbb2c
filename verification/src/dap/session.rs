//! The DAP server's protocol logic: parsing the framing header, framing
//! outgoing messages, and deciding every command's response. The TCP
//! socket, the JSON codec and the server thread live outside the library
//! and hand plain values in and out.

use vstd::prelude::*;
use vstd::string::StrSliceExecFns;
use vstd::string::StringExecFns;

use super::comm::{ChannelTryRecvError, DapCommChannel};
use super::errors::DapError;
use super::messages::{DapRequest, DapResponse, clone_opt_string};
use super::protocol::{BreakpointInfo, Capabilities, ContinueResponseBody, ContinuedEventBody,
    EvaluateArguments, EvaluateResponseBody, Event, EventBody, ExitedEventBody,
    InitializeRequestArguments, OutputEventBody, Response, ResponseBody, ScopeInfo,
    ScopesArguments, ScopesResponseBody, SetBreakpointsArguments, SetBreakpointsResponseBody,
    SetFunctionBreakpointsArguments, Source, StackFrameInfo, StackTraceArguments,
    StackTraceResponseBody, StoppedEventBody, ThreadInfo, ThreadsResponseBody, VariableInfo,
    VariablesArguments, VariablesResponseBody, DisconnectArguments};
use crate::structured_log::{dec_digits, render_u64};

verus! {

/// The ASCII whitespace characters the framing parser trims.
pub open spec fn is_ws_char(c: char) -> bool {
    c == ' ' || c == '\t' || c == '\n' || c == '\r' || c == '\x0b' || c == '\x0c'
}

/// `s` with leading whitespace removed.
pub open spec fn trim_front(s: Seq<char>) -> Seq<char>
    decreases s.len(),
{
    if s.len() > 0 && is_ws_char(s.first()) {
        trim_front(s.drop_first())
    } else {
        s
    }
}

/// `s` with trailing whitespace removed.
pub open spec fn trim_back(s: Seq<char>) -> Seq<char>
    decreases s.len(),
{
    if s.len() > 0 && is_ws_char(s.last()) {
        trim_back(s.drop_last())
    } else {
        s
    }
}

/// `s` with whitespace removed from both ends.
pub open spec fn trimmed(s: Seq<char>) -> Seq<char> {
    trim_back(trim_front(s))
}

proof fn lemma_trim_front_subrange(s: Seq<char>, lo: int)
    requires
        0 <= lo <= s.len(),
        forall|i: int| 0 <= i < lo ==> is_ws_char(s[i]),
        lo < s.len() ==> !is_ws_char(s[lo]),
    ensures
        trim_front(s) =~= s.subrange(lo, s.len() as int),
    decreases lo,
{
    if lo == 0 {
    } else {
        lemma_trim_front_subrange(s.drop_first(), lo - 1);
        assert(s.drop_first().subrange(lo - 1, s.drop_first().len() as int) =~= s.subrange(
            lo,
            s.len() as int,
        ));
    }
}

proof fn lemma_trim_back_subrange(s: Seq<char>, hi: int)
    requires
        0 <= hi <= s.len(),
        forall|i: int| hi <= i < s.len() ==> is_ws_char(s[i]),
        hi > 0 ==> !is_ws_char(s[hi - 1]),
    ensures
        trim_back(s) =~= s.subrange(0, hi),
    decreases s.len(),
{
    if hi == s.len() {
    } else {
        lemma_trim_back_subrange(s.drop_last(), hi);
        assert(s.drop_last().subrange(0, hi) =~= s.subrange(0, hi));
    }
}

/// The decimal digit a character stands for, or 10 when it is no digit.
pub open spec fn char_digit(c: char) -> int {
    if c == '0' {
        0
    } else if c == '1' {
        1
    } else if c == '2' {
        2
    } else if c == '3' {
        3
    } else if c == '4' {
        4
    } else if c == '5' {
        5
    } else if c == '6' {
        6
    } else if c == '7' {
        7
    } else if c == '8' {
        8
    } else if c == '9' {
        9
    } else {
        10
    }
}

/// Whether a character is a decimal digit.
pub open spec fn is_digit_char(c: char) -> bool {
    char_digit(c) < 10
}

/// The numeric value of a digit string, most significant digit first.
pub open spec fn dec_value(s: Seq<char>) -> int
    decreases s.len(),
{
    if s.len() == 0 {
        0
    } else {
        dec_value(s.drop_last()) * 10 + char_digit(s.last())
    }
}

/// The index of the first colon in `s`, or -1 when it has none.
pub open spec fn find_colon(s: Seq<char>) -> int
    decreases s.len(),
{
    if s.len() == 0 {
        -1
    } else if s.first() == ':' {
        0
    } else if find_colon(s.drop_first()) == -1 {
        -1
    } else {
        1 + find_colon(s.drop_first())
    }
}

proof fn lemma_find_colon_at(s: Seq<char>, k: int)
    requires
        0 <= k <= s.len(),
        forall|i: int| 0 <= i < k ==> s[i] != ':',
        k < s.len() ==> s[k] == ':',
    ensures
        k < s.len() ==> find_colon(s) == k,
        k == s.len() ==> find_colon(s) == -1,
    decreases s.len(),
{
    if s.len() == 0 {
    } else if s.first() == ':' {
    } else {
        lemma_find_colon_at(s.drop_first(), k - 1);
    }
}

/// Whether `s` spells the content-length header name, each letter in
/// either case.
pub open spec fn matches_content_length(s: Seq<char>) -> bool {
    s.len() == "content-length"@.len() && forall|i: int|
        0 <= i < s.len() ==> s[i] == "content-length"@[i] || s[i] == "CONTENT-LENGTH"@[i]
}

/// The digits of a number token: the token with one leading plus sign
/// removed, as the standard integer parser accepts.
pub open spec fn number_digits(t: Seq<char>) -> Seq<char> {
    if t.len() > 0 && t.first() == '+' {
        t.drop_first()
    } else {
        t
    }
}

/// Whether a token is a well-formed unsigned number: at least one digit,
/// nothing but digits after an optional leading plus sign.
pub open spec fn is_number_token(t: Seq<char>) -> bool {
    &&& number_digits(t).len() > 0
    &&& forall|i: int| 0 <= i < number_digits(t).len() ==> is_digit_char(number_digits(t)[i])
}

/// The decimal digit `c` stands for, or 10 when it is no digit.
fn digit_of(c: char) -> (d: u8)
    ensures
        d == char_digit(c),
{
    match c {
        '0' => 0,
        '1' => 1,
        '2' => 2,
        '3' => 3,
        '4' => 4,
        '5' => 5,
        '6' => 6,
        '7' => 7,
        '8' => 8,
        '9' => 9,
        _ => 10,
    }
}

/// Whether `c` is ASCII whitespace.
fn is_ws(c: char) -> (b: bool)
    ensures
        b == is_ws_char(c),
{
    c == ' ' || c == '\t' || c == '\n' || c == '\r' || c == '\x0b' || c == '\x0c'
}

/// Trim ASCII whitespace from both ends of `s`.
fn trim_str<'a>(s: &'a str) -> (t: &'a str)
    ensures
        t@ =~= trimmed(s@),
{
    let n = s.unicode_len();
    let mut lo: usize = 0;
    while lo < n && is_ws(s.get_char(lo))
        invariant
            0 <= lo <= n,
            n == s@.len(),
            forall|i: int| 0 <= i < lo ==> is_ws_char(s@[i]),
        decreases n - lo,
    {
        lo = lo + 1;
    }
    let mut hi: usize = n;
    while hi > lo && is_ws(s.get_char(hi - 1))
        invariant
            lo <= hi <= n,
            n == s@.len(),
            forall|i: int| 0 <= i < lo ==> is_ws_char(s@[i]),
            lo < n ==> !is_ws_char(s@[lo as int]),
            forall|i: int| hi <= i < n ==> is_ws_char(s@[i]),
        decreases hi,
    {
        hi = hi - 1;
    }
    proof {
        lemma_trim_front_subrange(s@, lo as int);
        let f = s@.subrange(lo as int, n as int);
        if hi == lo {
            lemma_trim_back_subrange(f, 0);
        } else {
            lemma_trim_back_subrange(f, hi - lo);
        }
        assert(f.subrange(0, hi - lo) =~= s@.subrange(lo as int, hi as int));
    }
    s.substring_char(lo, hi)
}

/// Parses the Content-Length header of the DAP framing protocol: trims
/// the line, splits it at the first colon, accepts any casing of the
/// header name, and parses the value as an unsigned decimal that must
/// fit the platform's size type. Each malformed shape is rejected with a
/// parse error naming the offending part.
pub fn parse_content_length(header: &str) -> (r: Result<usize, DapError>)
    ensures
        ({
            let t = trimmed(header@);
            let c = find_colon(t);
            let name = t.subrange(0, if c >= 0 { c } else { 0 });
            let value = t.subrange(if c >= 0 { c + 1 } else { 0 }, t.len() as int);
            match r {
                Ok(n) => {
                    &&& t.len() > 0
                    &&& c >= 0
                    &&& matches_content_length(trimmed(name))
                    &&& is_number_token(trimmed(value))
                    &&& n == dec_value(number_digits(trimmed(value)))
                },
                Err(e) => e matches DapError::ParseError(m) && {
                    if t.len() == 0 {
                        m@ == "Empty header"@
                    } else if c < 0 {
                        m@ == "Invalid header format: "@ + t
                    } else if !matches_content_length(trimmed(name)) {
                        m@ == "Expected Content-Length header, got: "@ + name
                    } else {
                        &&& (!is_number_token(trimmed(value)) || dec_value(
                            number_digits(trimmed(value)),
                        ) > usize::MAX)
                        &&& m@ == "Invalid Content-Length value: "@ + value
                    }
                },
            }
        }),
{
    let header = trim_str(header);
    let n = header.unicode_len();
    if n == 0 {
        return Err(DapError::parse("Empty header"));
    }

    let mut colon: usize = 0;
    while colon < n && header.get_char(colon) != ':'
        invariant
            0 <= colon <= n,
            n == header@.len(),
            forall|i: int| 0 <= i < colon ==> header@[i] != ':',
        decreases n - colon,
    {
        colon = colon + 1;
    }
    proof {
        lemma_find_colon_at(header@, colon as int);
    }
    if colon == n {
        let mut msg: String = "Invalid header format: ".to_owned();
        msg.append(header);
        proof {
            assert(header@.subrange(0, n as int) =~= header@);
        }
        return Err(DapError::ParseError(msg));
    }

    let name = header.substring_char(0, colon);
    let value = header.substring_char(colon + 1, n);
    let name_trimmed = trim_str(name);

    let lower = "content-length";
    let upper = "CONTENT-LENGTH";
    let name_len = name_trimmed.unicode_len();
    let mut name_ok = name_len == 14;
    proof {
        reveal_strlit("content-length");
        reveal_strlit("CONTENT-LENGTH");
    }
    let mut i: usize = 0;
    while i < name_len && name_ok
        invariant
            0 <= i <= name_len,
            name_len == name_trimmed@.len(),
            lower@ == "content-length"@,
            upper@ == "CONTENT-LENGTH"@,
            lower@.len() == 14,
            upper@.len() == 14,
            name_ok ==> name_len == 14,
            name_ok ==> forall|j: int|
                0 <= j < i ==> name_trimmed@[j] == "content-length"@[j] || name_trimmed@[j]
                    == "CONTENT-LENGTH"@[j],
            !name_ok ==> !matches_content_length(name_trimmed@),
        decreases name_len - i,
    {
        let c = name_trimmed.get_char(i);
        if c != lower.get_char(i) && c != upper.get_char(i) {
            name_ok = false;
        }
        i = i + 1;
    }
    if !name_ok {
        let mut msg: String = "Expected Content-Length header, got: ".to_owned();
        msg.append(name);
        return Err(DapError::ParseError(msg));
    }

    let value_trimmed = trim_str(value);
    match parse_usize(value_trimmed) {
        Some(parsed) => Ok(parsed),
        None => {
            let mut msg: String = "Invalid Content-Length value: ".to_owned();
            msg.append(value);
            Err(DapError::ParseError(msg))
        },
    }
}

proof fn lemma_dec_value_nonneg(s: Seq<char>)
    ensures
        dec_value(s) >= 0,
    decreases s.len(),
{
    if s.len() > 0 {
        lemma_dec_value_nonneg(s.drop_last());
    }
}

proof fn lemma_dec_value_grows(s: Seq<char>, i: int)
    requires
        0 <= i <= s.len(),
    ensures
        dec_value(s) >= dec_value(s.subrange(0, i)),
    decreases s.len() - i,
{
    if i < s.len() {
        lemma_dec_value_grows(s, i + 1);
        let longer = s.subrange(0, i + 1);
        assert(longer.drop_last() =~= s.subrange(0, i));
        lemma_dec_value_nonneg(longer.drop_last());
    } else {
        assert(s.subrange(0, i) =~= s);
    }
}

/// Parse a trimmed token as an unsigned decimal number: an optional
/// leading plus sign, then one or more digits, whose value fits the
/// platform's size type; anything else is rejected.
fn parse_usize(t: &str) -> (r: Option<usize>)
    ensures
        match r {
            Some(n) => is_number_token(t@) && n == dec_value(number_digits(t@)),
            None => !is_number_token(t@) || dec_value(number_digits(t@)) > usize::MAX,
        },
{
    let n = t.unicode_len();
    let start: usize = if n > 0 && t.get_char(0) == '+' {
        1
    } else {
        0
    };
    if start == n {
        return None;
    }
    let ghost digits = number_digits(t@);
    proof {
        assert(digits =~= t@.subrange(start as int, n as int));
    }
    let mut acc: usize = 0;
    let mut i: usize = start;
    while i < n
        invariant
            start <= i <= n,
            n == t@.len(),
            start < n,
            digits == number_digits(t@),
            digits =~= t@.subrange(start as int, n as int),
            forall|j: int| start <= j < i ==> is_digit_char(t@[j]),
            acc == dec_value(digits.subrange(0, i - start)),
        decreases n - i,
    {
        let c = t.get_char(i);
        let d = digit_of(c);
        if d >= 10 {
            proof {
                assert(digits[i - start] == t@[i as int]);
                assert(!is_digit_char(digits[i - start]));
            }
            return None;
        }
        if acc > (usize::MAX - (d as usize)) / 10 {
            proof {
                let done = digits.subrange(0, i + 1 - start);
                assert(done.drop_last() =~= digits.subrange(0, i - start));
                assert(done.last() == t@[i as int]);
                assert(char_digit(done.last()) == d);
                vstd::arithmetic::div_mod::lemma_fundamental_div_mod(
                    (usize::MAX - d) as int,
                    10,
                );
                assert(dec_value(done) == acc * 10 + d);
                assert(acc * 10 + d > usize::MAX);
                lemma_dec_value_grows(digits, i + 1 - start);
            }
            return None;
        }
        acc = acc * 10 + (d as usize);
        i = i + 1;
        proof {
            let done = digits.subrange(0, i - start);
            assert(done.drop_last() =~= digits.subrange(0, i - 1 - start));
            assert(done.last() == t@[i - 1]);
        }
    }
    proof {
        assert(digits.subrange(0, n - start) =~= digits);
    }
    Some(acc)
}

/// The DAP framing of one message: the Content-Length header with the
/// payload's length, a blank line, then the payload itself.
pub open spec fn framed_spec(payload: Seq<char>) -> Seq<char> {
    "Content-Length: "@ + dec_digits(payload.len()) + "\r\n\r\n"@ + payload
}

/// Frame one serialized message for the wire: prefix it with its
/// Content-Length header and the blank separator line.
pub fn frame_message(payload: &str) -> (framed: String)
    ensures
        framed@ == framed_spec(payload@),
{
    let mut out: String = "Content-Length: ".to_owned();
    out.append(render_u64(payload.unicode_len() as u64).as_str());
    out.append("\r\n\r\n");
    out.append(payload);
    proof {
        assert(out@ =~= framed_spec(payload@));
    }
    out
}

/// The thread id the server reports; guests are single-threaded, so
/// there is exactly one.
pub const MAIN_THREAD_ID: i64 = 1;

/// One parsed client command with its typed arguments. The JSON text of
/// a request is decoded outside the library; the session decides on the
/// decoded value.
#[derive(Debug)]
pub enum DapCommand {
    /// The `initialize` request.
    Initialize(InitializeRequestArguments),
    /// The `launch` request; its arguments are not used.
    Launch,
    /// The `attach` request; its arguments are not used.
    Attach,
    /// The `configurationDone` request.
    ConfigurationDone,
    /// The `setBreakpoints` request.
    SetBreakpoints(SetBreakpointsArguments),
    /// The `setFunctionBreakpoints` request.
    SetFunctionBreakpoints(SetFunctionBreakpointsArguments),
    /// The `threads` request.
    Threads,
    /// The `stackTrace` request.
    StackTrace(StackTraceArguments),
    /// The `scopes` request.
    Scopes(ScopesArguments),
    /// The `variables` request.
    Variables(VariablesArguments),
    /// The `continue` request.
    Continue,
    /// The `next` request.
    Next,
    /// The `stepIn` request.
    StepIn,
    /// The `stepOut` request.
    StepOut,
    /// The `pause` request.
    Pause,
    /// The `evaluate` request.
    Evaluate(EvaluateArguments),
    /// The `disconnect` request.
    Disconnect(DisconnectArguments),
    /// A command the server does not know, carrying its name.
    Unknown(String),
}

/// The capabilities this server advertises on `initialize`.
pub open spec fn advertised_capabilities() -> Capabilities {
    Capabilities {
        supports_configuration_done_request: true,
        supports_function_breakpoints: true,
        supports_conditional_breakpoints: false,
        supports_hit_conditional_breakpoints: false,
        supports_evaluate_for_hovers: true,
        supports_step_back: false,
        supports_set_variable: false,
        supports_restart_frame: false,
        supports_goto_targets_request: false,
        supports_step_in_targets_request: false,
        supports_completions_request: false,
        supports_modules_request: false,
        supports_terminate_request: false,
        supports_exception_options: false,
        supports_value_formatting_options: false,
        supports_exception_info_request: false,
        support_terminate_debuggee: true,
        supports_delayed_stack_trace_loading: false,
        supports_loaded_sources_request: false,
        supports_log_points: false,
        supports_terminate_threads_request: false,
        supports_set_expression: false,
        supports_single_thread_execution_requests: false,
    }
}

/// Build the capabilities this server advertises.
fn build_capabilities() -> (c: Capabilities)
    ensures
        c == advertised_capabilities(),
{
    Capabilities {
        supports_configuration_done_request: true,
        supports_function_breakpoints: true,
        supports_conditional_breakpoints: false,
        supports_hit_conditional_breakpoints: false,
        supports_evaluate_for_hovers: true,
        supports_step_back: false,
        supports_set_variable: false,
        supports_restart_frame: false,
        supports_goto_targets_request: false,
        supports_step_in_targets_request: false,
        supports_completions_request: false,
        supports_modules_request: false,
        supports_terminate_request: false,
        supports_exception_options: false,
        supports_value_formatting_options: false,
        supports_exception_info_request: false,
        support_terminate_debuggee: true,
        supports_delayed_stack_trace_loading: false,
        supports_loaded_sources_request: false,
        supports_log_points: false,
        supports_terminate_threads_request: false,
        supports_set_expression: false,
        supports_single_thread_execution_requests: false,
    }
}

/// The source path a breakpoint request names: its path when given, else
/// its display name, else empty.
pub open spec fn chosen_source_path(source: Source) -> Seq<char> {
    match source.path {
        Some(p) => p@,
        None => match source.name {
            Some(n) => n@,
            None => Seq::empty(),
        },
    }
}

/// The response to a stack-trace reply from the sandbox: the frames
/// rendered for the client, an error response for an error reply, and an
/// unexpected-response error for anything else.
pub fn stack_trace_response(request_seq: i64, reply: DapResponse) -> (r: Response)
    ensures
        r.request_seq == request_seq,
        r.command@ == "stackTrace"@,
        match reply {
            DapResponse::StackTrace { frames, total_frames } => {
                &&& r.success
                &&& (r.body matches Some(b) && b matches ResponseBody::StackTrace(body) && {
                    &&& body.total_frames == Some(total_frames as i64)
                    &&& body.stack_frames@.len() == frames@.len()
                    &&& forall|j: int|
                        0 <= j < frames@.len() ==> {
                            let f = #[trigger] body.stack_frames@[j];
                            &&& f.id == frames@[j].id as i64
                            &&& f.name == frames@[j].name
                            &&& (f.source matches Some(src) && src.path matches Some(p) && p
                                == frames@[j].location.filename && src.name is None
                                && src.source_reference is None)
                            &&& f.line == frames@[j].location.line as i64
                            &&& f.column == (match frames@[j].location.column {
                                Some(c) => c as i64,
                                None => 1,
                            })
                        }
                })
            },
            DapResponse::Error { message } => !r.success && (r.message matches Some(m) && m@
                == message@),
            _ => !r.success && (r.message matches Some(m) && m@
                == "Unexpected response from VM"@),
        },
{
    match reply {
        DapResponse::StackTrace { frames, total_frames } => {
            let mut stack_frames: Vec<StackFrameInfo> = Vec::new();
            let mut j: usize = 0;
            while j < frames.len()
                invariant
                    j <= frames@.len(),
                    stack_frames@.len() == j,
                    forall|k: int|
                        0 <= k < j ==> {
                            let f = #[trigger] stack_frames@[k];
                            &&& f.id == frames@[k].id as i64
                            &&& f.name == frames@[k].name
                            &&& (f.source matches Some(src) && src.path matches Some(p) && p
                                == frames@[k].location.filename && src.name is None
                                && src.source_reference is None)
                            &&& f.line == frames@[k].location.line as i64
                            &&& f.column == (match frames@[k].location.column {
                                Some(c) => c as i64,
                                None => 1,
                            })
                        },
                decreases frames@.len() - j,
            {
                let frame = &frames[j];
                let column: i64 = match frame.location.column {
                    Some(c) => c as i64,
                    None => 1,
                };
                stack_frames.push(
                    StackFrameInfo {
                        id: frame.id as i64,
                        name: frame.name.clone(),
                        source: Some(
                            Source {
                                name: None,
                                path: Some(frame.location.filename.clone()),
                                source_reference: None,
                            },
                        ),
                        line: frame.location.line as i64,
                        column,
                    },
                );
                j = j + 1;
            }
            let body = StackTraceResponseBody {
                stack_frames,
                total_frames: Some(total_frames as i64),
            };
            Response::success(request_seq, "stackTrace", Some(ResponseBody::StackTrace(body)))
        },
        DapResponse::Error { message } => Response::error(
            request_seq,
            "stackTrace",
            message.as_str(),
        ),
        _ => Response::error(request_seq, "stackTrace", "Unexpected response from VM"),
    }
}

/// The response to a scopes reply from the sandbox.
pub fn scopes_response(request_seq: i64, reply: DapResponse) -> (r: Response)
    ensures
        r.request_seq == request_seq,
        r.command@ == "scopes"@,
        match reply {
            DapResponse::Scopes { scopes } => {
                &&& r.success
                &&& (r.body matches Some(b) && b matches ResponseBody::Scopes(body) && {
                    &&& body.scopes@.len() == scopes@.len()
                    &&& forall|j: int|
                        0 <= j < scopes@.len() ==> {
                            let s = #[trigger] body.scopes@[j];
                            &&& s.name == scopes@[j].name
                            &&& s.variables_reference == scopes@[j].variables_reference as i64
                            &&& s.expensive == scopes@[j].expensive
                        }
                })
            },
            DapResponse::Error { message } => !r.success && (r.message matches Some(m) && m@
                == message@),
            _ => !r.success && (r.message matches Some(m) && m@
                == "Unexpected response from VM"@),
        },
{
    match reply {
        DapResponse::Scopes { scopes } => {
            let mut infos: Vec<ScopeInfo> = Vec::new();
            let mut j: usize = 0;
            while j < scopes.len()
                invariant
                    j <= scopes@.len(),
                    infos@.len() == j,
                    forall|k: int|
                        0 <= k < j ==> {
                            let s = #[trigger] infos@[k];
                            &&& s.name == scopes@[k].name
                            &&& s.variables_reference == scopes@[k].variables_reference as i64
                            &&& s.expensive == scopes@[k].expensive
                        },
                decreases scopes@.len() - j,
            {
                let scope = &scopes[j];
                infos.push(
                    ScopeInfo {
                        name: scope.name.clone(),
                        variables_reference: scope.variables_reference as i64,
                        expensive: scope.expensive,
                    },
                );
                j = j + 1;
            }
            let body = ScopesResponseBody { scopes: infos };
            Response::success(request_seq, "scopes", Some(ResponseBody::Scopes(body)))
        },
        DapResponse::Error { message } => Response::error(request_seq, "scopes", message.as_str()),
        _ => Response::error(request_seq, "scopes", "Unexpected response from VM"),
    }
}

/// The response to a variables reply from the sandbox.
pub fn variables_response(request_seq: i64, reply: DapResponse) -> (r: Response)
    ensures
        r.request_seq == request_seq,
        r.command@ == "variables"@,
        match reply {
            DapResponse::Variables { variables } => {
                &&& r.success
                &&& (r.body matches Some(b) && b matches ResponseBody::Variables(body) && {
                    &&& body.variables@.len() == variables@.len()
                    &&& forall|j: int|
                        0 <= j < variables@.len() ==> {
                            let v = #[trigger] body.variables@[j];
                            &&& v.name == variables@[j].name
                            &&& v.value == variables@[j].value
                            &&& v.value_type == variables@[j].value_type
                            &&& v.variables_reference == variables@[j].variables_reference as i64
                        }
                })
            },
            DapResponse::Error { message } => !r.success && (r.message matches Some(m) && m@
                == message@),
            _ => !r.success && (r.message matches Some(m) && m@
                == "Unexpected response from VM"@),
        },
{
    match reply {
        DapResponse::Variables { variables } => {
            let mut infos: Vec<VariableInfo> = Vec::new();
            let mut j: usize = 0;
            while j < variables.len()
                invariant
                    j <= variables@.len(),
                    infos@.len() == j,
                    forall|k: int|
                        0 <= k < j ==> {
                            let v = #[trigger] infos@[k];
                            &&& v.name == variables@[k].name
                            &&& v.value == variables@[k].value
                            &&& v.value_type == variables@[k].value_type
                            &&& v.variables_reference == variables@[k].variables_reference as i64
                        },
                decreases variables@.len() - j,
            {
                let variable = &variables[j];
                infos.push(
                    VariableInfo {
                        name: variable.name.clone(),
                        value: variable.value.clone(),
                        value_type: clone_opt_string(&variable.value_type),
                        variables_reference: variable.variables_reference as i64,
                    },
                );
                j = j + 1;
            }
            let body = VariablesResponseBody { variables: infos };
            Response::success(request_seq, "variables", Some(ResponseBody::Variables(body)))
        },
        DapResponse::Error { message } => Response::error(
            request_seq,
            "variables",
            message.as_str(),
        ),
        _ => Response::error(request_seq, "variables", "Unexpected response from VM"),
    }
}

/// The response to an evaluate reply from the sandbox.
pub fn evaluate_response(request_seq: i64, reply: DapResponse) -> (r: Response)
    ensures
        r.request_seq == request_seq,
        r.command@ == "evaluate"@,
        match reply {
            DapResponse::Evaluate { result, value_type, variables_reference } => {
                &&& r.success
                &&& (r.body matches Some(b) && b matches ResponseBody::Evaluate(body) && {
                    &&& body.result == result
                    &&& body.value_type == value_type
                    &&& body.variables_reference == variables_reference as i64
                })
            },
            DapResponse::Error { message } => !r.success && (r.message matches Some(m) && m@
                == message@),
            _ => !r.success && (r.message matches Some(m) && m@
                == "Unexpected response from VM"@),
        },
{
    match reply {
        DapResponse::Evaluate { result, value_type, variables_reference } => {
            let body = EvaluateResponseBody {
                result,
                value_type,
                variables_reference: variables_reference as i64,
            };
            Response::success(request_seq, "evaluate", Some(ResponseBody::Evaluate(body)))
        },
        DapResponse::Error { message } => Response::error(
            request_seq,
            "evaluate",
            message.as_str(),
        ),
        _ => Response::error(request_seq, "evaluate", "Unexpected response from VM"),
    }
}

/// The protocol state of one debug session: the channel to the sandbox,
/// the outgoing sequence counter, and the session flags. The TCP socket
/// and the JSON codec live with the caller, which hands decoded commands
/// in and sends stamped messages out.
pub struct DapSession {
    /// Channel to the sandbox-owning thread.
    vm_channel: DapCommChannel<DapRequest, DapResponse>,
    /// Sequence number for the next outgoing message.
    seq: i64,
    /// Whether the session has been initialized.
    initialized: bool,
    /// Whether the guest is running rather than stopped.
    running: bool,
    /// Whether the session is shutting down.
    shutdown: bool,
}

impl DapSession {
    /// The next outgoing sequence number.
    pub closed spec fn spec_seq(&self) -> i64 {
        self.seq
    }

    /// Whether the session has been initialized.
    pub closed spec fn spec_initialized(&self) -> bool {
        self.initialized
    }

    /// Whether the guest is running rather than stopped.
    pub closed spec fn spec_running(&self) -> bool {
        self.running
    }

    /// Whether the session is shutting down.
    pub closed spec fn spec_shutdown(&self) -> bool {
        self.shutdown
    }

    /// Create the session state for one accepted debugger connection.
    pub fn new(vm_channel: DapCommChannel<DapRequest, DapResponse>) -> (s: DapSession)
        ensures
            s.spec_seq() == 1,
            !s.spec_initialized(),
            !s.spec_running(),
            !s.spec_shutdown(),
    {
        DapSession { vm_channel, seq: 1, initialized: false, running: false, shutdown: false }
    }

    /// Whether the session has been initialized.
    pub fn is_initialized(&self) -> (b: bool)
        ensures
            b == self.spec_initialized(),
    {
        self.initialized
    }

    /// Whether the guest is running rather than stopped.
    pub fn is_running(&self) -> (b: bool)
        ensures
            b == self.spec_running(),
    {
        self.running
    }

    /// Whether the session is shutting down.
    pub fn is_shutdown(&self) -> (b: bool)
        ensures
            b == self.spec_shutdown(),
    {
        self.shutdown
    }

    /// Hand out the next sequence number and advance the counter,
    /// wrapping at the end of the range.
    pub fn next_seq(&mut self) -> (n: i64)
        ensures
            n == old(self).spec_seq(),
            final(self).spec_seq() == if old(self).spec_seq() == i64::MAX {
                i64::MIN as int
            } else {
                old(self).spec_seq() + 1
            },
            final(self).spec_initialized() == old(self).spec_initialized(),
            final(self).spec_running() == old(self).spec_running(),
            final(self).spec_shutdown() == old(self).spec_shutdown(),
    {
        let n = self.seq;
        if self.seq == i64::MAX {
            self.seq = i64::MIN;
        } else {
            self.seq = self.seq + 1;
        }
        n
    }

    /// Stamp a response with the next sequence number, ready to send.
    pub fn stamp_response(&mut self, response: Response) -> (r: Response)
        ensures
            r.seq == old(self).spec_seq(),
            r.message_type == response.message_type,
            r.request_seq == response.request_seq,
            r.success == response.success,
            r.command == response.command,
            r.message == response.message,
            r.body == response.body,
            final(self).spec_initialized() == old(self).spec_initialized(),
            final(self).spec_running() == old(self).spec_running(),
            final(self).spec_shutdown() == old(self).spec_shutdown(),
    {
        let seq = self.next_seq();
        Response { seq, ..response }
    }

    /// Stamp an event with the next sequence number, ready to send.
    pub fn stamp_event(&mut self, event: Event) -> (r: Event)
        ensures
            r.seq == old(self).spec_seq(),
            r.message_type == event.message_type,
            r.event == event.event,
            r.body == event.body,
            final(self).spec_initialized() == old(self).spec_initialized(),
            final(self).spec_running() == old(self).spec_running(),
            final(self).spec_shutdown() == old(self).spec_shutdown(),
    {
        let seq = self.next_seq();
        Event { seq, ..event }
    }

    /// Handle the `initialize` request: reject a second initialization,
    /// forward the request to the sandbox, and advertise the server's
    /// capabilities.
    pub fn handle_initialize(
        &mut self,
        request_seq: i64,
        _args: InitializeRequestArguments,
    ) -> (r: Response)
        ensures
            r.request_seq == request_seq,
            r.command@ == "initialize"@,
            final(self).spec_seq() == old(self).spec_seq(),
            final(self).spec_running() == old(self).spec_running(),
            final(self).spec_shutdown() == old(self).spec_shutdown(),
            old(self).spec_initialized() ==> {
                &&& !r.success
                &&& (r.message matches Some(m) && m@ == "Already initialized"@)
                &&& final(self).spec_initialized()
            },
            !old(self).spec_initialized() ==> {
                &&& r.success == final(self).spec_initialized()
                &&& r.success ==> (r.body matches Some(b) && b matches ResponseBody::Capabilities(
                    c,
                ) && c == advertised_capabilities())
                &&& !r.success ==> (r.message matches Some(m) && m@
                    == "Failed to send message through channel"@)
            },
    {
        if self.initialized {
            return Response::error(request_seq, "initialize", "Already initialized");
        }
        match self.vm_channel.send(DapRequest::Initialize) {
            Ok(()) => {},
            Err(e) => {
                return Response::error(request_seq, "initialize", e.message().as_str());
            },
        }
        self.initialized = true;
        let capabilities = build_capabilities();
        Response::success(
            request_seq,
            "initialize",
            Some(ResponseBody::Capabilities(capabilities)),
        )
    }

    /// Handle the `launch` request: the guest is already loaded, so this
    /// only acknowledges and raises the `initialized` event.
    pub fn handle_launch(&mut self, request_seq: i64) -> (r: (Event, Response))
        ensures
            r.0.event@ == "initialized"@,
            r.0.body is None,
            r.1.request_seq == request_seq,
            r.1.command@ == "launch"@,
            r.1.success,
            *old(self) == *final(self),
    {
        (Event::new("initialized", None), Response::success(request_seq, "launch", None))
    }

    /// Handle the `attach` request, which for this sandbox behaves like
    /// `launch`.
    pub fn handle_attach(&mut self, request_seq: i64) -> (r: (Event, Response))
        ensures
            r.0.event@ == "initialized"@,
            r.0.body is None,
            r.1.request_seq == request_seq,
            r.1.command@ == "attach"@,
            r.1.success,
            *old(self) == *final(self),
    {
        (Event::new("initialized", None), Response::success(request_seq, "attach", None))
    }

    /// Handle the `configurationDone` request: notify the sandbox and
    /// mark the guest running.
    pub fn handle_configuration_done(&mut self, request_seq: i64) -> (r: Response)
        ensures
            r.request_seq == request_seq,
            r.command@ == "configurationDone"@,
            final(self).spec_seq() == old(self).spec_seq(),
            final(self).spec_initialized() == old(self).spec_initialized(),
            final(self).spec_shutdown() == old(self).spec_shutdown(),
            r.success ==> final(self).spec_running() && r.body is None && r.message is None,
            !r.success ==> final(self).spec_running() == old(self).spec_running() && (r.message
                matches Some(m) && m@ == "Failed to send message through channel"@),
    {
        match self.vm_channel.send(DapRequest::ConfigurationDone) {
            Ok(()) => {},
            Err(e) => {
                return Response::error(request_seq, "configurationDone", e.message().as_str());
            },
        }
        self.running = true;
        Response::success(request_seq, "configurationDone", None)
    }

    /// Handle the `setBreakpoints` request: forward the requested lines
    /// to the sandbox and report every breakpoint as verified, numbered
    /// from 1, at its requested line.
    pub fn handle_set_breakpoints(
        &mut self,
        request_seq: i64,
        args: SetBreakpointsArguments,
    ) -> (r: Response)
        ensures
            r.request_seq == request_seq,
            r.command@ == "setBreakpoints"@,
            *old(self) == *final(self),
            r.success ==> (r.body matches Some(b) && b matches ResponseBody::SetBreakpoints(body)
                && {
                &&& body.breakpoints@.len() == args.breakpoints@.len()
                &&& forall|j: int|
                    0 <= j < body.breakpoints@.len() ==> {
                        let info = #[trigger] body.breakpoints@[j];
                        &&& info.id == Some(((j as u32) as i64 + 1) as i64)
                        &&& info.verified == true
                        &&& info.message is None
                        &&& (info.source matches Some(src) && src.name is None
                            && src.source_reference is None && (src.path matches Some(p) && p@
                            == chosen_source_path(args.source)))
                        &&& info.line == Some((args.breakpoints@[j].line as u32) as i64)
                        &&& info.column is None
                    }
            }),
            !r.success ==> (r.message matches Some(m) && m@
                == "Failed to send message through channel"@),
    {
        let source_path: String = match &args.source.path {
            Some(p) => p.clone(),
            None => match &args.source.name {
                Some(n) => n.clone(),
                None => String::new(),
            },
        };
        let mut lines: Vec<u32> = Vec::new();
        let mut i: usize = 0;
        while i < args.breakpoints.len()
            invariant
                i <= args.breakpoints@.len(),
                lines@.len() == i,
                forall|k: int|
                    0 <= k < i ==> #[trigger] lines@[k] == args.breakpoints@[k].line as u32,
            decreases args.breakpoints@.len() - i,
        {
            lines.push(args.breakpoints[i].line as u32);
            i = i + 1;
        }

        let mut lines_to_send: Vec<u32> = Vec::new();
        let mut j: usize = 0;
        while j < lines.len()
            invariant
                j <= lines@.len(),
                lines_to_send@.len() == j,
                forall|k: int| 0 <= k < j ==> #[trigger] lines_to_send@[k] == lines@[k],
            decreases lines@.len() - j,
        {
            lines_to_send.push(lines[j]);
            j = j + 1;
        }
        match self.vm_channel.send(
            DapRequest::SetBreakpoints { source_path: source_path.clone(), lines: lines_to_send },
        ) {
            Ok(()) => {},
            Err(e) => {
                return Response::error(request_seq, "setBreakpoints", e.message().as_str());
            },
        }

        let mut breakpoints: Vec<BreakpointInfo> = Vec::new();
        let mut k: usize = 0;
        while k < lines.len()
            invariant
                k <= lines@.len(),
                breakpoints@.len() == k,
                source_path@ == chosen_source_path(args.source),
                forall|m: int|
                    0 <= m < lines@.len() ==> #[trigger] lines@[m] == args.breakpoints@[m].line
                        as u32,
                forall|m: int|
                    0 <= m < k ==> {
                        let info = #[trigger] breakpoints@[m];
                        &&& info.id == Some(((m as u32) as i64 + 1) as i64)
                        &&& info.verified == true
                        &&& info.message is None
                        &&& (info.source matches Some(src) && src.name is None
                            && src.source_reference is None && (src.path matches Some(p) && p@
                            == chosen_source_path(args.source)))
                        &&& info.line == Some((args.breakpoints@[m].line as u32) as i64)
                        &&& info.column is None
                    },
            decreases lines@.len() - k,
        {
            let id: i64 = (k as u32) as i64 + 1;
            breakpoints.push(
                BreakpointInfo {
                    id: Some(id),
                    verified: true,
                    message: None,
                    source: Some(
                        Source {
                            name: None,
                            path: Some(source_path.clone()),
                            source_reference: None,
                        },
                    ),
                    line: Some(lines[k] as i64),
                    column: None,
                },
            );
            k = k + 1;
        }
        let body = SetBreakpointsResponseBody { breakpoints };
        Response::success(request_seq, "setBreakpoints", Some(ResponseBody::SetBreakpoints(body)))
    }

    /// Handle the `setFunctionBreakpoints` request: forward the function
    /// names to the sandbox and report every breakpoint as verified,
    /// numbered from 1000.
    pub fn handle_set_function_breakpoints(
        &mut self,
        request_seq: i64,
        args: SetFunctionBreakpointsArguments,
    ) -> (r: Response)
        ensures
            r.request_seq == request_seq,
            r.command@ == "setFunctionBreakpoints"@,
            *old(self) == *final(self),
            r.success ==> (r.body matches Some(b) && b matches ResponseBody::SetBreakpoints(body)
                && {
                &&& body.breakpoints@.len() == args.breakpoints@.len()
                &&& forall|j: int|
                    0 <= j < body.breakpoints@.len() ==> {
                        let info = #[trigger] body.breakpoints@[j];
                        &&& info.id == Some(((j as u32) as i64 + 1000) as i64)
                        &&& info.verified == true
                        &&& info.message is None
                        &&& info.source is None
                        &&& info.line is None
                        &&& info.column is None
                    }
            }),
            !r.success ==> (r.message matches Some(m) && m@
                == "Failed to send message through channel"@),
    {
        let mut names: Vec<String> = Vec::new();
        let mut i: usize = 0;
        while i < args.breakpoints.len()
            invariant
                i <= args.breakpoints@.len(),
                names@.len() == i,
            decreases args.breakpoints@.len() - i,
        {
            names.push(args.breakpoints[i].name.clone());
            i = i + 1;
        }
        match self.vm_channel.send(DapRequest::SetFunctionBreakpoints { names }) {
            Ok(()) => {},
            Err(e) => {
                return Response::error(
                    request_seq,
                    "setFunctionBreakpoints",
                    e.message().as_str(),
                );
            },
        }
        let mut breakpoints: Vec<BreakpointInfo> = Vec::new();
        let mut k: usize = 0;
        while k < args.breakpoints.len()
            invariant
                k <= args.breakpoints@.len(),
                breakpoints@.len() == k,
                forall|m: int|
                    0 <= m < k ==> {
                        let info = #[trigger] breakpoints@[m];
                        &&& info.id == Some(((m as u32) as i64 + 1000) as i64)
                        &&& info.verified == true
                        &&& info.message is None
                        &&& info.source is None
                        &&& info.line is None
                        &&& info.column is None
                    },
            decreases args.breakpoints@.len() - k,
        {
            let id: i64 = (k as u32) as i64 + 1000;
            breakpoints.push(
                BreakpointInfo {
                    id: Some(id),
                    verified: true,
                    message: None,
                    source: None,
                    line: None,
                    column: None,
                },
            );
            k = k + 1;
        }
        let body = SetBreakpointsResponseBody { breakpoints };
        Response::success(
            request_seq,
            "setFunctionBreakpoints",
            Some(ResponseBody::SetBreakpoints(body)),
        )
    }

    /// Handle the `threads` request: guests are single-threaded, so the
    /// answer is always exactly the main thread.
    pub fn handle_threads(&mut self, request_seq: i64) -> (r: Response)
        ensures
            r.request_seq == request_seq,
            r.command@ == "threads"@,
            r.success,
            *old(self) == *final(self),
            r.body matches Some(b) && b matches ResponseBody::Threads(body)
                && body.threads@.len() == 1 && body.threads@[0].id == MAIN_THREAD_ID
                && body.threads@[0].name@ == "main"@,
    {
        let threads = vec![ThreadInfo { id: MAIN_THREAD_ID, name: "main".to_owned() }];
        let body = ThreadsResponseBody { threads };
        Response::success(request_seq, "threads", Some(ResponseBody::Threads(body)))
    }

    /// Handle the `stackTrace` request: ask the sandbox for the current
    /// stack and render its reply with `stack_trace_response`.
    pub fn handle_stack_trace(&mut self, request_seq: i64, args: StackTraceArguments) -> (r:
        Response)
        ensures
            r.request_seq == request_seq,
            r.command@ == "stackTrace"@,
            *old(self) == *final(self),
    {
        let start_frame: Option<u32> = match args.start_frame {
            Some(f) => Some(f as u32),
            None => None,
        };
        let levels: Option<u32> = match args.levels {
            Some(l) => Some(l as u32),
            None => None,
        };
        match self.vm_channel.send(DapRequest::StackTrace { start_frame, levels }) {
            Ok(()) => {},
            Err(e) => {
                return Response::error(request_seq, "stackTrace", e.message().as_str());
            },
        }
        match self.vm_channel.recv() {
            Ok(reply) => stack_trace_response(request_seq, reply),
            Err(_) => Response::error(request_seq, "stackTrace", "Unexpected response from VM"),
        }
    }

    /// Handle the `scopes` request: ask the sandbox for the frame's
    /// scopes and render its reply with `scopes_response`.
    pub fn handle_scopes(&mut self, request_seq: i64, args: ScopesArguments) -> (r: Response)
        ensures
            r.request_seq == request_seq,
            r.command@ == "scopes"@,
            *old(self) == *final(self),
    {
        match self.vm_channel.send(DapRequest::Scopes { frame_id: args.frame_id as u32 }) {
            Ok(()) => {},
            Err(e) => {
                return Response::error(request_seq, "scopes", e.message().as_str());
            },
        }
        match self.vm_channel.recv() {
            Ok(reply) => scopes_response(request_seq, reply),
            Err(_) => Response::error(request_seq, "scopes", "Unexpected response from VM"),
        }
    }

    /// Handle the `variables` request: ask the sandbox for the variables
    /// of a container and render its reply with `variables_response`.
    pub fn handle_variables(&mut self, request_seq: i64, args: VariablesArguments) -> (r: Response)
        ensures
            r.request_seq == request_seq,
            r.command@ == "variables"@,
            *old(self) == *final(self),
    {
        match self.vm_channel.send(
            DapRequest::Variables { variables_reference: args.variables_reference as u32 },
        ) {
            Ok(()) => {},
            Err(e) => {
                return Response::error(request_seq, "variables", e.message().as_str());
            },
        }
        match self.vm_channel.recv() {
            Ok(reply) => variables_response(request_seq, reply),
            Err(_) => Response::error(request_seq, "variables", "Unexpected response from VM"),
        }
    }

    /// Handle the `continue` request: resume the guest and report all
    /// threads continued.
    pub fn handle_continue(&mut self, request_seq: i64) -> (r: Response)
        ensures
            r.request_seq == request_seq,
            r.command@ == "continue"@,
            final(self).spec_seq() == old(self).spec_seq(),
            final(self).spec_initialized() == old(self).spec_initialized(),
            final(self).spec_shutdown() == old(self).spec_shutdown(),
            r.success ==> final(self).spec_running() && (r.body matches Some(b) && b matches
                ResponseBody::Continue(body) && body.all_threads_continued == true),
            !r.success ==> final(self).spec_running() == old(self).spec_running() && (r.message
                matches Some(m) && m@ == "Failed to send message through channel"@),
    {
        match self.vm_channel.send(DapRequest::Continue) {
            Ok(()) => {},
            Err(e) => {
                return Response::error(request_seq, "continue", e.message().as_str());
            },
        }
        self.running = true;
        let body = ContinueResponseBody { all_threads_continued: true };
        Response::success(request_seq, "continue", Some(ResponseBody::Continue(body)))
    }

    /// Handle the `next` request: step the guest over the current line.
    pub fn handle_next(&mut self, request_seq: i64) -> (r: Response)
        ensures
            r.request_seq == request_seq,
            r.command@ == "next"@,
            final(self).spec_seq() == old(self).spec_seq(),
            final(self).spec_initialized() == old(self).spec_initialized(),
            final(self).spec_shutdown() == old(self).spec_shutdown(),
            r.success ==> final(self).spec_running() && r.body is None,
            !r.success ==> final(self).spec_running() == old(self).spec_running() && (r.message
                matches Some(m) && m@ == "Failed to send message through channel"@),
    {
        match self.vm_channel.send(DapRequest::Next) {
            Ok(()) => {},
            Err(e) => {
                return Response::error(request_seq, "next", e.message().as_str());
            },
        }
        self.running = true;
        Response::success(request_seq, "next", None)
    }

    /// Handle the `stepIn` request.
    pub fn handle_step_in(&mut self, request_seq: i64) -> (r: Response)
        ensures
            r.request_seq == request_seq,
            r.command@ == "stepIn"@,
            final(self).spec_seq() == old(self).spec_seq(),
            final(self).spec_initialized() == old(self).spec_initialized(),
            final(self).spec_shutdown() == old(self).spec_shutdown(),
            r.success ==> final(self).spec_running() && r.body is None,
            !r.success ==> final(self).spec_running() == old(self).spec_running() && (r.message
                matches Some(m) && m@ == "Failed to send message through channel"@),
    {
        match self.vm_channel.send(DapRequest::StepIn) {
            Ok(()) => {},
            Err(e) => {
                return Response::error(request_seq, "stepIn", e.message().as_str());
            },
        }
        self.running = true;
        Response::success(request_seq, "stepIn", None)
    }

    /// Handle the `stepOut` request.
    pub fn handle_step_out(&mut self, request_seq: i64) -> (r: Response)
        ensures
            r.request_seq == request_seq,
            r.command@ == "stepOut"@,
            final(self).spec_seq() == old(self).spec_seq(),
            final(self).spec_initialized() == old(self).spec_initialized(),
            final(self).spec_shutdown() == old(self).spec_shutdown(),
            r.success ==> final(self).spec_running() && r.body is None,
            !r.success ==> final(self).spec_running() == old(self).spec_running() && (r.message
                matches Some(m) && m@ == "Failed to send message through channel"@),
    {
        match self.vm_channel.send(DapRequest::StepOut) {
            Ok(()) => {},
            Err(e) => {
                return Response::error(request_seq, "stepOut", e.message().as_str());
            },
        }
        self.running = true;
        Response::success(request_seq, "stepOut", None)
    }

    /// Handle the `pause` request: ask the sandbox to stop the guest.
    pub fn handle_pause(&mut self, request_seq: i64) -> (r: Response)
        ensures
            r.request_seq == request_seq,
            r.command@ == "pause"@,
            *old(self) == *final(self),
            r.success ==> r.body is None,
            !r.success ==> (r.message matches Some(m) && m@
                == "Failed to send message through channel"@),
    {
        match self.vm_channel.send(DapRequest::Pause) {
            Ok(()) => {},
            Err(e) => {
                return Response::error(request_seq, "pause", e.message().as_str());
            },
        }
        Response::success(request_seq, "pause", None)
    }

    /// Handle the `evaluate` request: forward the expression to the
    /// sandbox and render its reply with `evaluate_response`.
    pub fn handle_evaluate(&mut self, request_seq: i64, args: EvaluateArguments) -> (r: Response)
        ensures
            r.request_seq == request_seq,
            r.command@ == "evaluate"@,
            *old(self) == *final(self),
    {
        let frame_id: Option<u32> = match args.frame_id {
            Some(f) => Some(f as u32),
            None => None,
        };
        match self.vm_channel.send(
            DapRequest::Evaluate { expression: args.expression, frame_id, context: args.context },
        ) {
            Ok(()) => {},
            Err(e) => {
                return Response::error(request_seq, "evaluate", e.message().as_str());
            },
        }
        match self.vm_channel.recv() {
            Ok(reply) => evaluate_response(request_seq, reply),
            Err(_) => Response::error(request_seq, "evaluate", "Unexpected response from VM"),
        }
    }

    /// Handle the `disconnect` request: tell the sandbox, mark the
    /// session shut down, and acknowledge regardless of channel state.
    pub fn handle_disconnect(&mut self, request_seq: i64, args: DisconnectArguments) -> (r:
        Response)
        ensures
            r.request_seq == request_seq,
            r.command@ == "disconnect"@,
            r.success,
            r.body is None,
            final(self).spec_seq() == old(self).spec_seq(),
            final(self).spec_initialized() == old(self).spec_initialized(),
            final(self).spec_running() == old(self).spec_running(),
            final(self).spec_shutdown(),
    {
        let _ = self.vm_channel.send(
            DapRequest::Disconnect { terminate: args.terminate_debuggee },
        );
        self.shutdown = true;
        Response::success(request_seq, "disconnect", None)
    }

    /// Dispatch one decoded client command to its handler. The first
    /// element carries the `initialized` event that `launch` and
    /// `attach` raise before their response; every other command raises
    /// none. The response answers the dispatched command by name, with
    /// the detail each handler's own contract fixes.
    pub fn handle_command(&mut self, request_seq: i64, command: DapCommand) -> (r: (
        Option<Event>,
        Response,
    ))
        ensures
            r.1.request_seq == request_seq,
            command matches DapCommand::Initialize(..) ==> r.1.command@ == "initialize"@,
            command is Launch ==> r.1.command@ == "launch"@ && r.1.success && (r.0 matches Some(
                ev,
            ) && ev.event@ == "initialized"@),
            command is Attach ==> r.1.command@ == "attach"@ && r.1.success && (r.0 matches Some(
                ev,
            ) && ev.event@ == "initialized"@),
            command is ConfigurationDone ==> r.1.command@ == "configurationDone"@,
            command matches DapCommand::SetBreakpoints(..) ==> r.1.command@ == "setBreakpoints"@,
            command matches DapCommand::SetFunctionBreakpoints(..) ==> r.1.command@
                == "setFunctionBreakpoints"@,
            command is Threads ==> r.1.command@ == "threads"@ && r.1.success,
            command matches DapCommand::StackTrace(..) ==> r.1.command@ == "stackTrace"@,
            command matches DapCommand::Scopes(..) ==> r.1.command@ == "scopes"@,
            command matches DapCommand::Variables(..) ==> r.1.command@ == "variables"@,
            command is Continue ==> r.1.command@ == "continue"@,
            command is Next ==> r.1.command@ == "next"@,
            command is StepIn ==> r.1.command@ == "stepIn"@,
            command is StepOut ==> r.1.command@ == "stepOut"@,
            command is Pause ==> r.1.command@ == "pause"@,
            command matches DapCommand::Evaluate(..) ==> r.1.command@ == "evaluate"@,
            command matches DapCommand::Disconnect(..) ==> r.1.command@ == "disconnect"@
                && r.1.success && final(self).spec_shutdown(),
            !(command is Launch) && !(command is Attach) ==> r.0 is None,
            command matches DapCommand::Unknown(name) ==> {
                &&& !r.1.success
                &&& r.1.command@ == name@
                &&& (r.1.message matches Some(m) && m@ == "Unknown command"@)
                &&& *old(self) == *final(self)
            },
    {
        match command {
            DapCommand::Initialize(args) => (None, self.handle_initialize(request_seq, args)),
            DapCommand::Launch => {
                let (event, response) = self.handle_launch(request_seq);
                (Some(event), response)
            },
            DapCommand::Attach => {
                let (event, response) = self.handle_attach(request_seq);
                (Some(event), response)
            },
            DapCommand::ConfigurationDone => (
                None,
                self.handle_configuration_done(request_seq),
            ),
            DapCommand::SetBreakpoints(args) => (
                None,
                self.handle_set_breakpoints(request_seq, args),
            ),
            DapCommand::SetFunctionBreakpoints(args) => (
                None,
                self.handle_set_function_breakpoints(request_seq, args),
            ),
            DapCommand::Threads => (None, self.handle_threads(request_seq)),
            DapCommand::StackTrace(args) => (None, self.handle_stack_trace(request_seq, args)),
            DapCommand::Scopes(args) => (None, self.handle_scopes(request_seq, args)),
            DapCommand::Variables(args) => (None, self.handle_variables(request_seq, args)),
            DapCommand::Continue => (None, self.handle_continue(request_seq)),
            DapCommand::Next => (None, self.handle_next(request_seq)),
            DapCommand::StepIn => (None, self.handle_step_in(request_seq)),
            DapCommand::StepOut => (None, self.handle_step_out(request_seq)),
            DapCommand::Pause => (None, self.handle_pause(request_seq)),
            DapCommand::Evaluate(args) => (None, self.handle_evaluate(request_seq, args)),
            DapCommand::Disconnect(args) => (None, self.handle_disconnect(request_seq, args)),
            DapCommand::Unknown(name) => (
                None,
                Response::error(request_seq, name.as_str(), "Unknown command"),
            ),
        }
    }

    /// Convert one sandbox response into the client event it raises, or
    /// none for responses that answer a pending request. A stop marks
    /// the guest stopped; a continue marks it running.
    pub fn response_to_event(&mut self, response: DapResponse) -> (ev: Option<Event>)
        ensures
            final(self).spec_seq() == old(self).spec_seq(),
            final(self).spec_initialized() == old(self).spec_initialized(),
            final(self).spec_shutdown() == old(self).spec_shutdown(),
            match response {
                DapResponse::Stopped { reason, location, hit_breakpoint_ids, exception_text } => {
                    &&& !final(self).spec_running()
                    &&& (ev matches Some(event) && event.event@ == "stopped"@ && (event.body
                        matches Some(b) && b matches EventBody::Stopped(body) && {
                        &&& body.reason@ == reason.as_str_spec()
                        &&& (body.description matches Some(d) && d@ == "Paused at "@
                            + location.filename@ + ":"@ + dec_digits(location.line as nat))
                        &&& body.thread_id == Some(MAIN_THREAD_ID)
                        &&& body.all_threads_stopped == true
                        &&& (match hit_breakpoint_ids {
                            Some(ids) => body.hit_breakpoint_ids matches Some(out) && out@.len()
                                == ids@.len() && forall|j: int|
                                0 <= j < ids@.len() ==> #[trigger] out@[j] == ids@[j] as i64,
                            None => body.hit_breakpoint_ids is None,
                        })
                        &&& body.text == exception_text
                    }))
                },
                DapResponse::Continued => {
                    &&& final(self).spec_running()
                    &&& (ev matches Some(event) && event.event@ == "continued"@ && (event.body
                        matches Some(b) && b matches EventBody::Continued(body) && {
                        &&& body.thread_id == MAIN_THREAD_ID
                        &&& body.all_threads_continued == true
                    }))
                },
                DapResponse::Output { category, output, location } => {
                    &&& final(self).spec_running() == old(self).spec_running()
                    &&& (ev matches Some(event) && event.event@ == "output"@ && (event.body
                        matches Some(b) && b matches EventBody::Output(body) && {
                        &&& (body.category matches Some(c) && c == category)
                        &&& body.output == output
                        &&& (match location {
                            Some(loc) => {
                                &&& (body.source matches Some(src) && src.name is None
                                    && src.source_reference is None && (src.path matches Some(p)
                                    && p == loc.filename))
                                &&& body.line == Some(loc.line as i64)
                                &&& body.column == (match loc.column {
                                    Some(c) => Some(c as i64),
                                    None => None,
                                })
                            },
                            None => body.source is None && body.line is None && body.column
                                is None,
                        })
                    }))
                },
                DapResponse::Terminated => {
                    &&& final(self).spec_running() == old(self).spec_running()
                    &&& (ev matches Some(event) && event.event@ == "terminated"@ && event.body
                        == Some(EventBody::Terminated))
                },
                DapResponse::Exited { exit_code } => {
                    &&& final(self).spec_running() == old(self).spec_running()
                    &&& (ev matches Some(event) && event.event@ == "exited"@ && (event.body
                        matches Some(b) && b matches EventBody::Exited(body)
                        && body.exit_code == exit_code as i64))
                },
                _ => final(self).spec_running() == old(self).spec_running() && ev is None,
            },
    {
        match response {
            DapResponse::Stopped { reason, location, hit_breakpoint_ids, exception_text } => {
                self.running = false;
                let mut description: String = "Paused at ".to_owned();
                description.append(location.filename.as_str());
                description.append(":");
                description.append(render_u64(location.line as u64).as_str());
                let hit_ids: Option<Vec<i64>> = match &hit_breakpoint_ids {
                    Some(ids) => {
                        let mut out: Vec<i64> = Vec::new();
                        let mut j: usize = 0;
                        while j < ids.len()
                            invariant
                                j <= ids@.len(),
                                out@.len() == j,
                                forall|k: int|
                                    0 <= k < j ==> #[trigger] out@[k] == ids@[k] as i64,
                            decreases ids@.len() - j,
                        {
                            out.push(ids[j] as i64);
                            j = j + 1;
                        }
                        Some(out)
                    },
                    None => None,
                };
                let body = StoppedEventBody {
                    reason: reason.as_str().to_owned(),
                    description: Some(description),
                    thread_id: Some(MAIN_THREAD_ID),
                    all_threads_stopped: true,
                    hit_breakpoint_ids: hit_ids,
                    text: exception_text,
                };
                Some(Event::new("stopped", Some(EventBody::Stopped(body))))
            },
            DapResponse::Continued => {
                self.running = true;
                let body = ContinuedEventBody {
                    thread_id: MAIN_THREAD_ID,
                    all_threads_continued: true,
                };
                Some(Event::new("continued", Some(EventBody::Continued(body))))
            },
            DapResponse::Output { category, output, location } => {
                let (source, line, column) = match &location {
                    Some(loc) => {
                        let column: Option<i64> = match loc.column {
                            Some(c) => Some(c as i64),
                            None => None,
                        };
                        (
                            Some(
                                Source {
                                    name: None,
                                    path: Some(loc.filename.clone()),
                                    source_reference: None,
                                },
                            ),
                            Some(loc.line as i64),
                            column,
                        )
                    },
                    None => (None, None, None),
                };
                let body = OutputEventBody {
                    category: Some(category),
                    output,
                    source,
                    line,
                    column,
                };
                Some(Event::new("output", Some(EventBody::Output(body))))
            },
            DapResponse::Terminated => Some(
                Event::new("terminated", Some(EventBody::Terminated)),
            ),
            DapResponse::Exited { exit_code } => {
                let body = ExitedEventBody { exit_code: exit_code as i64 };
                Some(Event::new("exited", Some(EventBody::Exited(body))))
            },
            _ => None,
        }
    }

    /// Drain the sandbox messages that were pending when the call was
    /// made, converting each into its client event; a disconnected
    /// channel marks the session shut down.
    pub fn poll_vm_events(&mut self) -> (events: Vec<Event>)
        ensures
            final(self).spec_seq() == old(self).spec_seq(),
            final(self).spec_initialized() == old(self).spec_initialized(),
    {
        let mut events: Vec<Event> = Vec::new();
        let mut budget = self.vm_channel.len();
        while budget > 0
            invariant
                self.spec_seq() == old(self).spec_seq(),
                self.spec_initialized() == old(self).spec_initialized(),
            decreases budget,
        {
            budget = budget - 1;
            match self.vm_channel.try_recv() {
                Ok(response) => {
                    let event = self.response_to_event(response);
                    if let Some(event) = event {
                        events.push(event);
                    }
                },
                Err(ChannelTryRecvError::Empty) => {
                    return events;
                },
                Err(ChannelTryRecvError::Disconnected) => {
                    self.shutdown = true;
                    return events;
                },
            }
        }
        events
    }
}


} // verus!
