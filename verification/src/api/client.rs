//! What is asked of the transport and what is made of its answers: a request
//! as a plain value, the line between success and rejection, and the
//! reception of a streamed body chunk by chunk.

use url::ParseError;
use url::Url;
use vstd::prelude::*;

verus! {

/// The request methods in use.
#[derive(Debug, Clone, Copy, PartialEq, Eq, Structural)]
pub enum Method {
    Post,
    Get,
}

/// Why a call did not give what was asked for.
#[derive(Debug, PartialEq, Eq)]
pub enum ClientError {
    /// The body of a response is not the JSON that was expected; the text
    /// says where it went wrong.
    JsonParseError(String),
    /// The transport failed: while sending, while reading the body, or in
    /// the middle of a stream. The text is the transport's own.
    RequestError(String),
    /// The URL is not an absolute URL. No request was made.
    UrlError(ParseError),
    /// The server answered with a status outside 200 to 299. The body is
    /// kept as it came.
    Http { status: u16, body: String },
    /// The archive could not be unpacked.
    DecodeError(String),
    /// The release has no archive among its assets. No request was made.
    NoAsset,
}

/// A parsed absolute URL of the `url` crate.
#[verifier::external_type_specification]
#[verifier::external_body]
pub struct ExUrl(Url);

/// The reasons for which the `url` crate refuses a string.
#[verifier::external_type_specification]
#[verifier::external_body]
pub struct ExParseError(ParseError);

/// What `url::Url::parse` makes of a string.
pub uninterp spec fn parsed_url(input: Seq<char>) -> Result<Url, ParseError>;

/// `url::Url::parse` reads an absolute URL from a string. Trusted: what it
/// returns depends on the characters of the string alone.
pub assume_specification[ Url::parse ](input: &str) -> (parsed: Result<Url, ParseError>)
    ensures
        parsed == parsed_url(input@),
;

/// A request that is ready to be sent.
#[derive(Debug)]
pub struct Request<'a, P> {
    pub url: Url,
    pub method: Method,
    /// Present only on a `Post`.
    pub body: Option<P>,
    /// In the order in which they are to be attached.
    pub headers: Vec<(&'a str, &'a str)>,
}

/// Puts a request together, or refuses the URL before anything is sent.
///
/// A body is attached to a `Post` only; on a `Get` it is dropped. Without a
/// list of headers the request has none.
pub fn prepare<'a, P>(
    url: &str,
    method: Method,
    body: Option<P>,
    headers: Option<Vec<(&'a str, &'a str)>>,
) -> (prepared: Result<Request<'a, P>, ClientError>)
    ensures
        match parsed_url(url@) {
            Ok(target) => {
                &&& prepared is Ok
                &&& prepared->Ok_0.url == target
                &&& prepared->Ok_0.method == method
                &&& prepared->Ok_0.body == (if method == Method::Post {
                    body
                } else {
                    None
                })
                &&& prepared->Ok_0.headers@ == (match headers {
                    Some(list) => list@,
                    None => Seq::empty(),
                })
            },
            Err(reason) => prepared == Err::<Request<'a, P>, ClientError>(
                ClientError::UrlError(reason),
            ),
        },
{
    let target = match Url::parse(url) {
        Ok(target) => target,
        Err(reason) => {
            return Err(ClientError::UrlError(reason));
        },
    };
    let body = match method {
        Method::Post => body,
        Method::Get => None,
    };
    let headers = match headers {
        Some(list) => list,
        None => Vec::new(),
    };
    Ok(Request { url: target, method, body, headers })
}

/// Whether a status code stands for success: 200 to 299.
pub open spec fn is_success_status(status: u16) -> bool {
    200 <= status <= 299
}

/// Whether a status code stands for success.
pub fn is_success(status: u16) -> (b: bool)
    ensures
        b == is_success_status(status),
{
    200 <= status && status <= 299
}

/// The text of a response, or the rejection that it carries.
///
/// The body of a rejected response is not lost: it comes back in the error,
/// beside the status.
pub fn text_response(status: u16, text: String) -> (outcome: Result<String, ClientError>)
    ensures
        outcome == (if is_success_status(status) {
            Ok::<String, ClientError>(text)
        } else {
            Err::<String, ClientError>(ClientError::Http { status, body: text })
        }),
{
    if is_success(status) {
        Ok(text)
    } else {
        Err(ClientError::Http { status, body: text })
    }
}

/// Where the reception of a streamed body stands.
#[derive(Debug, PartialEq, Eq)]
pub enum Transfer {
    /// The request is out and the status has not come yet.
    AwaitingHead,
    /// The server rejected the request; the text of its body is being read.
    AwaitingFailureText { status: u16 },
    /// The body is coming in; `buffer` holds what has come so far.
    Receiving { buffer: Vec<u8> },
    /// The call is over and its result was handed out.
    Closed,
}

/// What the transport reports.
#[derive(Debug, PartialEq, Eq)]
pub enum Incoming {
    /// The response has begun, with this status.
    Head { status: u16 },
    /// The whole body, read as text.
    Text(String),
    /// The next chunk of the body, of whatever size the transport chose.
    Chunk(Vec<u8>),
    /// The body has ended.
    End,
    /// What was asked for last has failed.
    Failed(String),
}

/// What is to be done next.
#[derive(Debug, PartialEq, Eq)]
pub enum Outgoing {
    /// Read the body as text.
    ReadText,
    /// Read the first chunk of the body.
    ReadChunk,
    /// Hand this count of bytes to the progress sink, then read the next
    /// chunk.
    Progress(i64),
    /// The call is over: return this.
    Return(Result<Vec<u8>, ClientError>),
    /// Nothing: the report was not awaited.
    Nothing,
}

/// A `Transfer` with its buffer as a sequence of bytes.
pub enum TransferModel {
    AwaitingHead,
    AwaitingFailureText { status: u16 },
    Receiving { buffer: Seq<u8> },
    Closed,
}

/// An `Outgoing` with its buffer as a sequence of bytes.
pub enum OutgoingModel {
    ReadText,
    ReadChunk,
    Progress(i64),
    Return(Result<Seq<u8>, ClientError>),
    Nothing,
}

impl View for Transfer {
    type V = TransferModel;

    open spec fn view(&self) -> TransferModel {
        match *self {
            Transfer::AwaitingHead => TransferModel::AwaitingHead,
            Transfer::AwaitingFailureText { status } => TransferModel::AwaitingFailureText {
                status,
            },
            Transfer::Receiving { buffer } => TransferModel::Receiving { buffer: buffer@ },
            Transfer::Closed => TransferModel::Closed,
        }
    }
}

impl View for Outgoing {
    type V = OutgoingModel;

    open spec fn view(&self) -> OutgoingModel {
        match *self {
            Outgoing::ReadText => OutgoingModel::ReadText,
            Outgoing::ReadChunk => OutgoingModel::ReadChunk,
            Outgoing::Progress(count) => OutgoingModel::Progress(count),
            Outgoing::Return(Ok(buffer)) => OutgoingModel::Return(Ok(buffer@)),
            Outgoing::Return(Err(error)) => OutgoingModel::Return(Err(error)),
            Outgoing::Nothing => OutgoingModel::Nothing,
        }
    }
}

/// The failure of the transport, as the call returns it.
pub open spec fn transport_failure(message: String) -> OutgoingModel {
    OutgoingModel::Return(Err(ClientError::RequestError(message)))
}

/// One step of a reception: the state after a report, and what to do next.
///
/// A rejected response is read to its end for the sake of the error. A
/// chunk is counted and appended. A failure ends the call with nothing but
/// the error, whatever had been received. A report that the state does not
/// await changes nothing.
pub open spec fn step(state: TransferModel, incoming: Incoming) -> (TransferModel, OutgoingModel) {
    match (state, incoming) {
        (TransferModel::AwaitingHead, Incoming::Head { status }) => if is_success_status(status) {
            (TransferModel::Receiving { buffer: Seq::empty() }, OutgoingModel::ReadChunk)
        } else {
            (TransferModel::AwaitingFailureText { status }, OutgoingModel::ReadText)
        },
        (TransferModel::AwaitingHead, Incoming::Failed(message)) => (
            TransferModel::Closed,
            transport_failure(message),
        ),
        (TransferModel::AwaitingFailureText { status }, Incoming::Text(body)) => (
            TransferModel::Closed,
            OutgoingModel::Return(Err(ClientError::Http { status, body })),
        ),
        (TransferModel::AwaitingFailureText { .. }, Incoming::Failed(message)) => (
            TransferModel::Closed,
            transport_failure(message),
        ),
        (TransferModel::Receiving { buffer }, Incoming::Chunk(chunk)) => (
            TransferModel::Receiving { buffer: buffer + chunk@ },
            OutgoingModel::Progress(chunk@.len() as i64),
        ),
        (TransferModel::Receiving { buffer }, Incoming::End) => (
            TransferModel::Closed,
            OutgoingModel::Return(Ok(buffer)),
        ),
        (TransferModel::Receiving { .. }, Incoming::Failed(message)) => (
            TransferModel::Closed,
            transport_failure(message),
        ),
        _ => (state, OutgoingModel::Nothing),
    }
}

/// Takes one report of the transport and says what to do next.
pub fn on_incoming(state: Transfer, incoming: Incoming) -> (next: (Transfer, Outgoing))
    ensures
        (next.0@, next.1@) == step(state@, incoming),
{
    match (state, incoming) {
        (Transfer::AwaitingHead, Incoming::Head { status }) => {
            if is_success(status) {
                (Transfer::Receiving { buffer: Vec::new() }, Outgoing::ReadChunk)
            } else {
                (Transfer::AwaitingFailureText { status }, Outgoing::ReadText)
            }
        },
        (Transfer::AwaitingHead, Incoming::Failed(message)) => (
            Transfer::Closed,
            Outgoing::Return(Err(ClientError::RequestError(message))),
        ),
        (Transfer::AwaitingFailureText { status }, Incoming::Text(body)) => (
            Transfer::Closed,
            Outgoing::Return(Err(ClientError::Http { status, body })),
        ),
        (Transfer::AwaitingFailureText { .. }, Incoming::Failed(message)) => (
            Transfer::Closed,
            Outgoing::Return(Err(ClientError::RequestError(message))),
        ),
        (Transfer::Receiving { buffer }, Incoming::Chunk(chunk)) => {
            let count = #[verifier::truncate]
            (chunk.len() as i64);
            let mut buffer = buffer;
            let ghost before = buffer@;
            buffer.extend_from_slice(chunk.as_slice());
            assert(buffer@ =~= before + chunk@);
            (Transfer::Receiving { buffer }, Outgoing::Progress(count))
        },
        (Transfer::Receiving { buffer }, Incoming::End) => (
            Transfer::Closed,
            Outgoing::Return(Ok(buffer)),
        ),
        (Transfer::Receiving { .. }, Incoming::Failed(message)) => (
            Transfer::Closed,
            Outgoing::Return(Err(ClientError::RequestError(message))),
        ),
        (state, _) => (state, Outgoing::Nothing),
    }
}

/// A whole reception: the state after a series of reports, and what was
/// asked for after each of them.
pub open spec fn run(state: TransferModel, reports: Seq<Incoming>) -> (
    TransferModel,
    Seq<OutgoingModel>,
)
    decreases reports.len(),
{
    if reports.len() == 0 {
        (state, Seq::empty())
    } else {
        let (before, asked) = run(state, reports.drop_last());
        let (after, last) = step(before, reports.last());
        (after, asked.push(last))
    }
}

/// The reports of a body that arrives in these chunks.
pub open spec fn chunk_reports(chunks: Seq<Vec<u8>>) -> Seq<Incoming> {
    Seq::new(chunks.len(), |i: int| Incoming::Chunk(chunks[i]))
}

/// The progress events that these chunks give rise to: one for each, in
/// their order.
pub open spec fn progress_events(chunks: Seq<Vec<u8>>) -> Seq<OutgoingModel> {
    Seq::new(chunks.len(), |i: int| OutgoingModel::Progress(chunks[i]@.len() as i64))
}

/// The bytes of the chunks, one chunk after the other.
pub open spec fn joined(chunks: Seq<Vec<u8>>) -> Seq<u8>
    decreases chunks.len(),
{
    if chunks.len() == 0 {
        Seq::empty()
    } else {
        joined(chunks.drop_last()) + chunks.last()@
    }
}

/// The sizes of the chunks, added up.
pub open spec fn total_size(chunks: Seq<Vec<u8>>) -> nat
    decreases chunks.len(),
{
    if chunks.len() == 0 {
        0
    } else {
        total_size(chunks.drop_last()) + chunks.last()@.len()
    }
}

/// While chunks arrive, the buffer is what has arrived, and each chunk was
/// counted once.
pub proof fn lemma_chunks_accumulate(chunks: Seq<Vec<u8>>)
    ensures
        run(TransferModel::Receiving { buffer: Seq::empty() }, chunk_reports(chunks)) == (
            TransferModel::Receiving { buffer: joined(chunks) },
            progress_events(chunks),
        ),
        joined(chunks).len() == total_size(chunks),
    decreases chunks.len(),
{
    if chunks.len() == 0 {
        assert(progress_events(chunks) =~= Seq::empty());
    } else {
        let earlier = chunks.drop_last();
        lemma_chunks_accumulate(earlier);
        assert(chunk_reports(chunks).drop_last() =~= chunk_reports(earlier));
        assert(chunk_reports(chunks).last() == Incoming::Chunk(chunks.last()));
        assert(progress_events(earlier).push(
            OutgoingModel::Progress(chunks.last()@.len() as i64),
        ) =~= progress_events(chunks));
    }
}

/// A body that arrives whole is returned whole: the buffer is every chunk
/// in its order of arrival, none left out and none twice, its length is the
/// sum of their sizes, and the progress events are their sizes in the same
/// order.
pub proof fn lemma_stream_is_complete(chunks: Seq<Vec<u8>>)
    ensures
        run(
            TransferModel::Receiving { buffer: Seq::empty() },
            chunk_reports(chunks).push(Incoming::End),
        ) == (
            TransferModel::Closed,
            progress_events(chunks).push(OutgoingModel::Return(Ok(joined(chunks)))),
        ),
        joined(chunks).len() == total_size(chunks),
        forall|i: int|
            0 <= i < chunks.len() && chunks[i]@.len() <= i64::MAX
                ==> #[trigger] progress_events(chunks)[i] == OutgoingModel::Progress(
                chunks[i]@.len() as i64,
            ) && chunks[i]@.len() as i64 == chunks[i]@.len(),
{
    lemma_chunks_accumulate(chunks);
    let reports = chunk_reports(chunks).push(Incoming::End);
    assert(reports.drop_last() =~= chunk_reports(chunks));
    assert(reports.last() == Incoming::End);
}

/// A read that fails ends the call with the failure alone: whatever had
/// been received is not returned, in whole or in part.
pub proof fn lemma_failed_read_discards(chunks: Seq<Vec<u8>>, message: String)
    ensures
        run(
            TransferModel::Receiving { buffer: Seq::empty() },
            chunk_reports(chunks).push(Incoming::Failed(message)),
        ) == (TransferModel::Closed, progress_events(chunks).push(transport_failure(message))),
{
    lemma_chunks_accumulate(chunks);
    let reports = chunk_reports(chunks).push(Incoming::Failed(message));
    assert(reports.drop_last() =~= chunk_reports(chunks));
    assert(reports.last() == Incoming::Failed(message));
}

/// Once a call is over, nothing more is asked for and nothing is returned a
/// second time.
pub proof fn lemma_closed_stays_closed(reports: Seq<Incoming>)
    ensures
        run(TransferModel::Closed, reports) == (
            TransferModel::Closed,
            Seq::new(reports.len(), |i: int| OutgoingModel::Nothing),
        ),
    decreases reports.len(),
{
    let idle = Seq::new(reports.len(), |i: int| OutgoingModel::Nothing);
    if reports.len() == 0 {
        assert(idle =~= Seq::empty());
    } else {
        lemma_closed_stays_closed(reports.drop_last());
        let earlier = Seq::new(reports.drop_last().len(), |i: int| OutgoingModel::Nothing);
        assert(earlier.push(OutgoingModel::Nothing) =~= idle);
    }
}

/// A response with a status outside 200 to 299 ends the call with that
/// status and the body as it came, and no chunk is read.
pub proof fn lemma_rejection_keeps_body(status: u16, body: String)
    requires
        !is_success_status(status),
    ensures
        run(TransferModel::AwaitingHead, seq![Incoming::Head { status }, Incoming::Text(body)])
            == (
            TransferModel::Closed,
            seq![
                OutgoingModel::ReadText,
                OutgoingModel::Return(Err(ClientError::Http { status, body })),
            ],
        ),
{
    let reports = seq![Incoming::Head { status }, Incoming::Text(body)];
    let first = reports.drop_last();
    assert(first.len() == 1);
    assert(first.drop_last().len() == 0);
    assert(first.last() == Incoming::Head { status });
    assert(run(TransferModel::AwaitingHead, first.drop_last()) == (
        TransferModel::AwaitingHead,
        Seq::<OutgoingModel>::empty(),
    ));
    assert(run(TransferModel::AwaitingHead, first) == (
        TransferModel::AwaitingFailureText { status },
        Seq::<OutgoingModel>::empty().push(OutgoingModel::ReadText),
    ));
    assert(reports.last() == Incoming::Text(body));
    assert(Seq::<OutgoingModel>::empty().push(OutgoingModel::ReadText).push(
        OutgoingModel::Return(Err(ClientError::Http { status, body })),
    ) =~= seq![
        OutgoingModel::ReadText,
        OutgoingModel::Return(Err(ClientError::Http { status, body })),
    ]);
}

} // verus!
