use vstd::prelude::*;
use vstd::string::StringExecFns;

verus! {

/// The character of a decimal digit.
pub open spec fn digit_char(d: nat) -> char {
    if d == 0 {
        '0'
    } else if d == 1 {
        '1'
    } else if d == 2 {
        '2'
    } else if d == 3 {
        '3'
    } else if d == 4 {
        '4'
    } else if d == 5 {
        '5'
    } else if d == 6 {
        '6'
    } else if d == 7 {
        '7'
    } else if d == 8 {
        '8'
    } else {
        '9'
    }
}

/// The decimal notation of `n`, without leading zeros.
pub open spec fn decimal(n: nat) -> Seq<char>
    decreases n,
{
    if n < 10 {
        seq![digit_char(n)]
    } else {
        decimal(n / 10).push(digit_char(n % 10))
    }
}

/// `needle` occurs in `hay` as a contiguous run.
pub open spec fn contains(hay: Seq<char>, needle: Seq<char>) -> bool {
    exists|i: int|
        0 <= i && i + needle.len() <= hay.len() && #[trigger] hay.subrange(i, i + needle.len())
            == needle
}

fn digit_str(d: u16) -> (r: &'static str)
    requires
        d < 10,
    ensures
        r@ == seq![digit_char(d as nat)],
{
    proof {
        reveal_strlit("0");
        reveal_strlit("1");
        reveal_strlit("2");
        reveal_strlit("3");
        reveal_strlit("4");
        reveal_strlit("5");
        reveal_strlit("6");
        reveal_strlit("7");
        reveal_strlit("8");
        reveal_strlit("9");
    }
    if d == 0 {
        "0"
    } else if d == 1 {
        "1"
    } else if d == 2 {
        "2"
    } else if d == 3 {
        "3"
    } else if d == 4 {
        "4"
    } else if d == 5 {
        "5"
    } else if d == 6 {
        "6"
    } else if d == 7 {
        "7"
    } else if d == 8 {
        "8"
    } else {
        "9"
    }
}

/// Writes `n` in decimal.
pub fn decimal_string(n: u16) -> (r: String)
    ensures
        r@ == decimal(n as nat),
    decreases n,
{
    if n < 10 {
        String::from_str(digit_str(n))
    } else {
        let mut s = decimal_string(n / 10);
        s.append(digit_str(n % 10));
        s
    }
}

/// The ways in which configuration handling and extraction fail.
#[derive(Clone, Debug)]
pub enum XtractError {
    /// The platform's configuration directory cannot be determined.
    ConfigDir,
    /// The configuration file exists but does not parse.
    ConfigParse { detail: String },
    /// The image cannot be read or decoded.
    Load { detail: String },
    /// The image cannot be written as PNG.
    Encode { detail: String },
    /// The request could not be sent, or no answer came in time.
    Transport { detail: String },
    /// The service answered with a status outside the success range.
    Api { status: u16, body: String },
    /// A successful answer is not a chat-completion response.
    Parse { detail: String },
    /// The chat-completion response holds no choice.
    NoChoice,
    /// Writing the output file failed.
    Io { detail: String },
}

/// Text that replaces the body of a failed answer when it cannot be read.
pub open spec fn unreadable_body_text() -> Seq<char> {
    "Failed to read error response body"@
}

pub open spec fn api_message(status: u16, body: Seq<char>) -> Seq<char> {
    "OCR API request failed with status "@ + decimal(status as nat) + ": "@ + body
}

/// The human-readable message of each error.
pub open spec fn message_of(e: XtractError) -> Seq<char> {
    match e {
        XtractError::ConfigDir => "Failed to get config directory"@,
        XtractError::ConfigParse { detail } => "Failed to parse config file: "@ + detail@,
        XtractError::Load { detail } => "Failed to load image: "@ + detail@,
        XtractError::Encode { detail } => "Failed to encode image to PNG: "@ + detail@,
        XtractError::Transport { detail } => "Failed to send request to OCR API: "@ + detail@,
        XtractError::Api { status, body } => api_message(status, body@),
        XtractError::Parse { detail } => "Failed to parse OCR API response: "@ + detail@,
        XtractError::NoChoice => "No response from OCR API"@,
        XtractError::Io { detail } => "I/O error: "@ + detail@,
    }
}

fn prefixed(prefix: &str, detail: &String) -> (r: String)
    ensures
        r@ == prefix@ + detail@,
{
    let mut s = String::from_str(prefix);
    s.append(detail.as_str());
    s
}

impl XtractError {
    /// The message that describes this error to a person.
    pub fn message(&self) -> (r: String)
        ensures
            r@ == message_of(*self),
    {
        match self {
            XtractError::ConfigDir => String::from_str("Failed to get config directory"),
            XtractError::ConfigParse { detail } => prefixed("Failed to parse config file: ", detail),
            XtractError::Load { detail } => prefixed("Failed to load image: ", detail),
            XtractError::Encode { detail } => prefixed("Failed to encode image to PNG: ", detail),
            XtractError::Transport { detail } => prefixed(
                "Failed to send request to OCR API: ",
                detail,
            ),
            XtractError::Api { status, body } => {
                let mut s = String::from_str("OCR API request failed with status ");
                let digits = decimal_string(*status);
                s.append(digits.as_str());
                s.append(": ");
                s.append(body.as_str());
                s
            },
            XtractError::Parse { detail } => prefixed(
                "Failed to parse OCR API response: ",
                detail,
            ),
            XtractError::NoChoice => String::from_str("No response from OCR API"),
            XtractError::Io { detail } => prefixed("I/O error: ", detail),
        }
    }
}

/// The message of a failed answer names both its status code and its body.
pub proof fn lemma_api_message_names_status_and_body(status: u16, body: Seq<char>)
    ensures
        contains(api_message(status, body), decimal(status as nat)),
        contains(api_message(status, body), body),
{
    let head: Seq<char> = "OCR API request failed with status "@;
    let m = api_message(status, body);
    let d = decimal(status as nat);
    let i = head.len() as int;
    assert(m.subrange(i, i + d.len()) =~= d);
    let j = m.len() - body.len();
    assert(m.subrange(j, j + body.len()) =~= body);
}

} // verus!
