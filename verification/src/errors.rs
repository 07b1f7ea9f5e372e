//! Errors of a request to the model, as far as decisions depend on them.
use crate::text::decimal;
use vstd::prelude::*;
use vstd::string::*;

verus! {

/// The status code of an HTTP response: three digits.
#[derive(Debug, Clone, Copy, PartialEq, Eq, Structural)]
pub struct Status {
    code: u16,
}

impl View for Status {
    type V = u16;

    closed spec fn view(&self) -> u16 {
        self.code
    }
}

/// The reason that `reqwest::StatusCode` gives for a code: its `canonical_reason`, or a mark where
/// there is none.
pub uninterp spec fn status_reason(code: u16) -> Seq<char>;

/// A code and its reason in words.
pub open spec fn status_words(code: u16) -> Seq<char> {
    decimal(code as nat) + " "@ + status_reason(code)
}

/// The `Display` of `reqwest::StatusCode`: the number, a space and the reason that belongs to it.
/// Which reason that is, the claim leaves open; it depends on the code alone.
#[verifier::external_body]
fn write_status(code: u16) -> (r: String)
    requires
        100 <= code <= 999,
    ensures
        r@ == decimal(code as nat) + " "@ + status_reason(code),
{
    reqwest::StatusCode::from_u16(code).unwrap().to_string()
}

impl Status {
    #[verifier::type_invariant]
    closed spec fn three_digits(self) -> bool {
        100 <= self.code <= 999
    }

    /// The status with the given code, if it has three digits.
    pub fn new(code: u16) -> (r: Option<Self>)
        ensures
            r is Some <==> 100 <= code <= 999,
            r matches Some(status) ==> status@ == code,
    {
        if 100 <= code && code <= 999 {
            Some(Status { code })
        } else {
            None
        }
    }

    /// The code.
    pub fn code(&self) -> (r: u16)
        ensures
            r == self@,
            100 <= r <= 999,
    {
        proof {
            use_type_invariant(self);
        }
        self.code
    }

    /// The code and its reason in words.
    pub fn words(&self) -> (r: String)
        ensures
            r@ == status_words(self@),
    {
        proof {
            use_type_invariant(self);
        }
        write_status(self.code)
    }
}

/// The request was at fault.
pub open spec fn client_error(code: u16) -> bool {
    400 <= code < 500
}

/// The server was at fault.
pub open spec fn server_error(code: u16) -> bool {
    500 <= code < 600
}

/// An error of the HTTP client.
#[derive(Debug, Clone)]
pub struct ReqwestError {
    pub is_timeout: bool,
    pub is_connect: bool,
    pub is_request: bool,
    pub status: Option<Status>,
    /// The error in words.
    pub text: String,
}

/// An error of input or output.
#[derive(Debug, Clone, Copy)]
pub struct IoError {
    pub timed_out: bool,
}

/// An error that the model's client reports.
#[derive(Debug, Clone)]
pub enum CodexErr {
    Stream(String),
    Timeout,
    UnexpectedStatus { status: Status, body: String },
    UsageLimitReached { resets_in_seconds: Option<u64> },
    UsageNotIncluded,
    AuthRefreshPermanent,
    QuotaExceeded,
    ServerError,
    RetryLimit { status: Status, retryable: bool },
    Reqwest(ReqwestError),
    Io(IoError),
    /// An error on which no decision depends.
    Other,
}

/// One link in a chain of causes.
#[derive(Debug, Clone)]
pub enum Cause {
    Codex(CodexErr),
    Reqwest(ReqwestError),
    Io(IoError),
    /// A cause on which no decision depends.
    Other,
}

/// An error with its causes, the outermost first.
#[derive(Debug, Clone)]
pub struct ErrorChain {
    /// The outermost error in words.
    pub text: String,
    pub causes: Vec<Cause>,
    /// Whether the run was cancelled.
    pub cancelled: bool,
}

/// A kind of error that can be looked for in a chain.
pub trait InChain: Sized {
    /// The error of this kind that a link holds.
    spec fn held_by(cause: Cause) -> Option<Self>;

    /// The error of this kind that a link holds.
    fn held(cause: &Cause) -> (r: Option<&Self>)
        ensures
            match r {
                Some(found) => Self::held_by(*cause) == Some(*found),
                None => Self::held_by(*cause) is None,
            },
    ;
}

impl InChain for CodexErr {
    open spec fn held_by(cause: Cause) -> Option<CodexErr> {
        match cause {
            Cause::Codex(e) => Some(e),
            _ => None,
        }
    }

    fn held(cause: &Cause) -> (r: Option<&Self>) {
        match cause {
            Cause::Codex(e) => Some(e),
            _ => None,
        }
    }
}

impl InChain for ReqwestError {
    open spec fn held_by(cause: Cause) -> Option<ReqwestError> {
        match cause {
            Cause::Reqwest(e) => Some(e),
            _ => None,
        }
    }

    fn held(cause: &Cause) -> (r: Option<&Self>) {
        match cause {
            Cause::Reqwest(e) => Some(e),
            _ => None,
        }
    }
}

impl InChain for IoError {
    open spec fn held_by(cause: Cause) -> Option<IoError> {
        match cause {
            Cause::Io(e) => Some(e),
            _ => None,
        }
    }

    fn held(cause: &Cause) -> (r: Option<&Self>) {
        match cause {
            Cause::Io(e) => Some(e),
            _ => None,
        }
    }
}

/// The first error of a kind among the causes from index `from` on.
pub open spec fn first_in_chain<T: InChain>(causes: Seq<Cause>, from: int) -> Option<T>
    decreases causes.len() - from,
{
    if from >= causes.len() {
        None
    } else {
        match T::held_by(causes[from]) {
            Some(e) => Some(e),
            None => first_in_chain::<T>(causes, from + 1),
        }
    }
}

/// The first error of a kind in a chain.
pub fn find_in_chain<'a, T: InChain>(error: &'a ErrorChain) -> (r: Option<&'a T>)
    ensures
        match r {
            Some(found) => first_in_chain::<T>(error.causes@, 0) == Some(*found),
            None => first_in_chain::<T>(error.causes@, 0) is None,
        },
{
    let mut i: usize = 0;
    while i < error.causes.len()
        invariant
            i <= error.causes@.len(),
            first_in_chain::<T>(error.causes@, 0) == first_in_chain::<T>(error.causes@, i as int),
        decreases error.causes.len() - i,
    {
        if let Some(found) = T::held(&error.causes[i]) {
            return Some(found);
        }
        i = i + 1;
    }
    None
}

/// What is found in a chain is held by one of its links, and no earlier link holds its kind.
pub proof fn law_first_in_chain<T: InChain>(causes: Seq<Cause>, from: int)
    requires
        0 <= from,
    ensures
        match first_in_chain::<T>(causes, from) {
            Some(e) => exists|i: int|
                {
                    &&& from <= i < causes.len()
                    &&& T::held_by(#[trigger] causes[i]) == Some(e)
                    &&& forall|j: int| from <= j < i ==> T::held_by(#[trigger] causes[j]) is None
                },
            None => forall|j: int| from <= j < causes.len() ==> T::held_by(#[trigger] causes[j]) is None,
        },
    decreases causes.len() - from,
{
    if from < causes.len() {
        if T::held_by(causes[from]) is None {
            law_first_in_chain::<T>(causes, from + 1);
        }
    }
}

impl ErrorChain {
    /// An error that tells only its words.
    pub fn message(text: String) -> (r: Self)
        ensures
            r.text == text,
            r.causes@ == seq![Cause::Other],
            !r.cancelled,
    {
        let mut causes: Vec<Cause> = Vec::new();
        causes.push(Cause::Other);
        assert(causes@ =~= seq![Cause::Other]);
        ErrorChain { text, causes, cancelled: false }
    }

    /// The error of a run that was cancelled.
    pub fn cancelled() -> (r: Self)
        ensures
            r.text@ == "auto coordinator cancelled"@,
            r.causes@ == seq![Cause::Other],
            r.cancelled,
    {
        let mut causes: Vec<Cause> = Vec::new();
        causes.push(Cause::Other);
        assert(causes@ =~= seq![Cause::Other]);
        ErrorChain { text: "auto coordinator cancelled".to_owned(), causes, cancelled: true }
    }

    /// The error with words of its own in front of its causes.
    pub fn with_context(self, text: String) -> (r: Self)
        ensures
            r.text == text,
            r.causes@ == seq![Cause::Other] + self.causes@,
            r.cancelled == self.cancelled,
    {
        let mut causes = self.causes;
        causes.insert(0, Cause::Other);
        assert(causes@ =~= seq![Cause::Other] + self.causes@);
        ErrorChain { text, causes, cancelled: self.cancelled }
    }
}

/// Words put in front of an error hide none of its causes.
pub proof fn law_context_keeps_causes<T: InChain>(causes: Seq<Cause>)
    requires
        T::held_by(Cause::Other) is None,
    ensures
        first_in_chain::<T>(seq![Cause::Other] + causes, 0) == first_in_chain::<T>(causes, 0),
{
    lemma_chain_shift::<T>(causes, 0);
}

proof fn lemma_chain_shift<T: InChain>(causes: Seq<Cause>, from: int)
    requires
        0 <= from,
    ensures
        first_in_chain::<T>(seq![Cause::Other] + causes, from + 1) == first_in_chain::<T>(causes, from),
    decreases causes.len() - from,
{
    let longer = seq![Cause::Other] + causes;
    if from < causes.len() {
        assert(longer[from + 1] == causes[from]);
        lemma_chain_shift::<T>(causes, from + 1);
    }
}

/// A status from 400 to 499 blames the request, one from 500 to 599 the server; its words begin with
/// its number.
pub proof fn law_whom_a_status_blames(code: u16)
    ensures
        client_error(code) <==> 400 <= code <= 499,
        server_error(code) <==> 500 <= code <= 599,
        decimal(code as nat).is_prefix_of(status_words(code)),
{
}

/// Each link of a chain holds the error that it is made of, whatever it says, and no other.
pub proof fn law_what_links_hold(client: CodexErr, http: ReqwestError, io: IoError)
    ensures
        <CodexErr as InChain>::held_by(Cause::Codex(client)) == Some(client),
        <CodexErr as InChain>::held_by(Cause::Reqwest(http)) is None,
        <CodexErr as InChain>::held_by(Cause::Io(io)) is None,
        <CodexErr as InChain>::held_by(Cause::Other) is None,
        <ReqwestError as InChain>::held_by(Cause::Reqwest(http)) == Some(http),
        <ReqwestError as InChain>::held_by(Cause::Codex(client)) is None,
        <ReqwestError as InChain>::held_by(Cause::Io(io)) is None,
        <ReqwestError as InChain>::held_by(Cause::Other) is None,
        <IoError as InChain>::held_by(Cause::Io(io)) == Some(io),
        <IoError as InChain>::held_by(Cause::Codex(client)) is None,
        <IoError as InChain>::held_by(Cause::Reqwest(http)) is None,
        <IoError as InChain>::held_by(Cause::Other) is None,
{
}

/// Words in front of an error hide none of its causes and leave a cancelled run cancelled; an error of
/// words alone is no cancelled run.
pub proof fn law_errors_keep_their_causes(
    error: ErrorChain,
    text: String,
    wrapped: ErrorChain,
    plain: ErrorChain,
    cancelled: ErrorChain,
)
    requires
        call_ensures(ErrorChain::with_context, (error, text), wrapped),
        call_ensures(ErrorChain::message, (text,), plain),
        call_ensures(ErrorChain::cancelled, (), cancelled),
    ensures
        wrapped.text@ == text@,
        first_in_chain::<CodexErr>(wrapped.causes@, 0) == first_in_chain::<CodexErr>(
            error.causes@,
            0,
        ),
        wrapped.cancelled == error.cancelled,
        plain.text@ == text@,
        !plain.cancelled,
        cancelled.cancelled,
{
    law_context_keeps_causes::<CodexErr>(error.causes@);
}

} // verus!
