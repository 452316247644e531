use vstd::prelude::*;

verus! {

/// The settings a run is started with: target URL, requests per tick,
/// run duration, per-attempt timeout and retry bound. Immutable for the
/// run's lifetime once validated.
pub struct Args {
    /// Target URL; must be a non-blank, parseable absolute URL.
    pub url: String,
    /// Number of concurrent requests launched per tick; must be positive.
    pub concurrency: u32,
    /// Total run duration in seconds; must be positive.
    pub duration: u64,
    /// Per-attempt timeout in seconds; must be positive.
    pub timeout: u64,
    /// Number of retries after the first attempt; may be zero.
    pub retries: u32,
}

/// A fatal configuration problem, found before any request is dispatched.
pub enum AppError {
    ArgumentError(String),
}

/// Whether `c` carries the Unicode `White_Space` property, the set of
/// characters that `str::trim` strips.
pub open spec fn is_space(c: char) -> bool {
    let u = c as u32;
    ||| (0x09 <= u && u <= 0x0D)
    ||| u == 0x20
    ||| u == 0x85
    ||| u == 0xA0
    ||| u == 0x1680
    ||| (0x2000 <= u && u <= 0x200A)
    ||| u == 0x2028
    ||| u == 0x2029
    ||| u == 0x202F
    ||| u == 0x205F
    ||| u == 0x3000
}

/// A string is blank when trimming whitespace from it leaves nothing.
pub open spec fn is_blank(s: Seq<char>) -> bool {
    forall|i: int| 0 <= i < s.len() ==> is_space(#[trigger] s[i])
}

fn space_char(c: char) -> (r: bool)
    ensures
        r == is_space(c),
{
    let u = c as u32;
    (0x09 <= u && u <= 0x0D) || u == 0x20 || u == 0x85 || u == 0xA0 || u == 0x1680 || (0x2000 <= u
        && u <= 0x200A) || u == 0x2028 || u == 0x2029 || u == 0x202F || u == 0x205F || u == 0x3000
}

/// Whether the string holds nothing but whitespace.
fn blank_str(s: &str) -> (r: bool)
    ensures
        r == is_blank(s@),
{
    let n = s.unicode_len();
    let mut i: usize = 0;
    while i < n
        invariant
            0 <= i <= n,
            n == s@.len(),
            forall|k: int| 0 <= k < i ==> is_space(#[trigger] s@[k]),
        decreases n - i,
    {
        if !space_char(s.get_char(i)) {
            return false;
        }
        i += 1;
    }
    true
}

/// What `url::Url::parse` accepts: whether the string is a valid
/// absolute URL. A pure function of the string alone.
pub uninterp spec fn is_valid_url(s: Seq<char>) -> bool;

/// Relies on `url::Url::parse`: returns `Ok` exactly on valid absolute
/// URLs, and its verdict depends on the input string alone.
#[verifier::external_body]
fn url_parses(s: &str) -> (r: bool)
    ensures
        r == is_valid_url(s@),
{
    url::Url::parse(s).is_ok()
}

/// Whether a settings value passes every validation rule.
pub open spec fn args_valid(a: Args) -> bool {
    &&& !is_blank(a.url@)
    &&& is_valid_url(a.url@)
    &&& a.concurrency > 0
    &&& a.duration > 0
    &&& a.timeout > 0
}

/// Checks the run settings before any request is dispatched: the URL must
/// be non-blank and parseable, and concurrency, duration and timeout must
/// all be positive. Returns the first failing rule's message, in this
/// order of precedence; `Ok` exactly when every rule passes.
pub fn validate_args(args: &Args) -> (r: Result<(), AppError>)
    ensures
        r is Ok <==> args_valid(*args),
        is_blank(args.url@) ==> (r matches Err(AppError::ArgumentError(m))
            && m@ == "Target URL is required"@),
        !is_blank(args.url@) && !is_valid_url(args.url@) ==> (r matches Err(
            AppError::ArgumentError(m),
        ) && m@ == "Invalid target URL"@),
        !is_blank(args.url@) && is_valid_url(args.url@) && args.concurrency == 0 ==> (r matches Err(
            AppError::ArgumentError(m),
        ) && m@ == "Concurrency must be > 0"@),
        !is_blank(args.url@) && is_valid_url(args.url@) && args.concurrency > 0 && args.duration
            == 0 ==> (r matches Err(AppError::ArgumentError(m)) && m@ == "Duration must be > 0"@),
        !is_blank(args.url@) && is_valid_url(args.url@) && args.concurrency > 0 && args.duration > 0
            && args.timeout == 0 ==> (r matches Err(AppError::ArgumentError(m))
            && m@ == "Timeout must be > 0"@),
{
    if blank_str(args.url.as_str()) {
        return Err(AppError::ArgumentError(String::from_str("Target URL is required")));
    }
    if !url_parses(args.url.as_str()) {
        return Err(AppError::ArgumentError(String::from_str("Invalid target URL")));
    }
    if args.concurrency == 0 {
        return Err(AppError::ArgumentError(String::from_str("Concurrency must be > 0")));
    }
    if args.duration == 0 {
        return Err(AppError::ArgumentError(String::from_str("Duration must be > 0")));
    }
    if args.timeout == 0 {
        return Err(AppError::ArgumentError(String::from_str("Timeout must be > 0")));
    }
    Ok(())
}

impl AppError {
    /// The error's message, for display by a caller.
    pub fn message(&self) -> (m: &str)
        ensures
            self matches AppError::ArgumentError(s) && m@ == s@,
    {
        match self {
            AppError::ArgumentError(s) => s.as_str(),
        }
    }
}

} // verus!
