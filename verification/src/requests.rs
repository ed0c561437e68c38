//! The requests that a server forwards: for each method, where its
//! governing document is named and which of its positions are rewritten,
//! and the check that keeps a stale result from being returned.

use vstd::prelude::*;
use crate::encoding::Encoding;
use crate::position::Position;
use crate::document::{Document, DocumentView};
use crate::conversions::{converted_position, try_position_to_encoding};
use crate::lines::line_count;
use crate::server_state::{ServerState, changed_document, after_change};
use crate::document::Edit;

verus! {

/// The encoding in which handlers see positions.
pub open spec fn canonical_encoding() -> Encoding {
    Encoding::UTF8
}

/// The encoding in which handlers see positions.
pub fn canonical() -> (e: Encoding)
    ensures
        e == canonical_encoding(),
{
    Encoding::UTF8
}

/// What a request or a response holds of interest to the dispatcher: the
/// address of the document it is about, where it names one, and the
/// positions in it, in a fixed order.
#[derive(Debug)]
pub struct RequestPayload {
    pub uri: Option<String>,
    pub positions: Vec<Position>,
}

/// A `String` that may be absent, as the text it holds.
pub open spec fn opt_string_view(s: Option<String>) -> Option<Seq<char>> {
    match s {
        Some(t) => Some(t@),
        None => None,
    }
}

/// A position rewritten from one encoding to another within a text. A
/// position on a line that the text does not have stays as it is.
pub open spec fn rewritten_position(text: Seq<char>, position: Position, source: Encoding, target: Encoding) -> Position {
    if source == target || position.line < line_count(text) {
        converted_position(text, position, source, target)
    } else {
        position
    }
}

/// Each position of a list rewritten.
pub open spec fn rewritten_positions(
    text: Seq<char>,
    positions: Seq<Position>,
    source: Encoding,
    target: Encoding,
) -> Seq<Position> {
    Seq::new(positions.len(), |i: int| rewritten_position(text, positions[i], source, target))
}

/// Rewrites a position of a request from the session's encoding to the
/// canonical one.
pub fn modify_incoming_position(encoding: Encoding, document: &Document, position: &mut Position)
    ensures
        *final(position) == rewritten_position(
            document@.text,
            *old(position),
            encoding,
            canonical_encoding(),
        ),
{
    match try_position_to_encoding(document.text(), *position, encoding, canonical()) {
        Some(p) => {
            *position = p;
        },
        None => {},
    }
}

/// Rewrites a position of a response from the canonical encoding to the
/// session's.
pub fn modify_outgoing_position(encoding: Encoding, document: &Document, position: &mut Position)
    ensures
        *final(position) == rewritten_position(
            document@.text,
            *old(position),
            canonical_encoding(),
            encoding,
        ),
{
    match try_position_to_encoding(document.text(), *position, canonical(), encoding) {
        Some(p) => {
            *position = p;
        },
        None => {},
    }
}

/// Rewrites every position of a list from one encoding to another.
pub fn rewrite_positions(document: &Document, positions: &mut Vec<Position>, source: Encoding, target: Encoding)
    ensures
        final(positions)@ == rewritten_positions(document@.text, old(positions)@, source, target),
{
    let mut i: usize = 0;
    while i < positions.len()
        invariant
            i <= positions@.len(),
            positions@.len() == old(positions)@.len(),
            forall|k: int|
                0 <= k < i ==> positions@[k] == rewritten_position(
                    document@.text,
                    old(positions)@[k],
                    source,
                    target,
                ),
            forall|k: int| i <= k < positions@.len() ==> positions@[k] == old(positions)@[k],
        decreases positions.len() - i,
    {
        match try_position_to_encoding(document.text(), positions[i], source, target) {
            Some(p) => {
                positions.set(i, p);
            },
            None => {},
        }
        i += 1;
    }
    assert(positions@ =~= rewritten_positions(document@.text, old(positions)@, source, target));
}

/// The address that a payload names, as a copy.
pub fn named_url(params: &RequestPayload) -> (url: Option<String>)
    ensures
        opt_string_view(url) == opt_string_view(params.uri),
{
    match &params.uri {
        Some(uri) => Some(uri.clone()),
        None => None,
    }
}

/// One request method: where the governing document is named, and which
/// positions are rewritten on the way in and on the way out.
pub trait Request {
    /// Whether requests of this method name a governing document.
    spec fn has_url() -> bool;

    /// Whether the positions of the parameters are rewritten.
    spec fn rewrites_params() -> bool;

    /// Whether the positions of the response are rewritten.
    spec fn rewrites_response() -> bool;

    /// The address of the governing document, where the method has one
    /// and the parameters name it.
    fn extract_url(params: &RequestPayload) -> (url: Option<String>)
        ensures
            opt_string_view(url) == if Self::has_url() {
                opt_string_view(params.uri)
            } else {
                None
            },
    ;

    /// Rewrites the positions of the parameters from the session's
    /// encoding to the canonical one, for a method that has it so.
    fn modify_params(encoding: Encoding, document: &Document, params: &mut RequestPayload)
        ensures
            final(params).uri == old(params).uri,
            final(params).positions@ == if Self::rewrites_params() {
                rewritten_positions(
                    document@.text,
                    old(params).positions@,
                    encoding,
                    canonical_encoding(),
                )
            } else {
                old(params).positions@
            },
    ;

    /// Rewrites the positions of the response from the canonical encoding
    /// to the session's, for a method that has it so.
    fn modify_response(encoding: Encoding, document: &Document, response: &mut RequestPayload)
        ensures
            final(response).uri == old(response).uri,
            final(response).positions@ == if Self::rewrites_response() {
                rewritten_positions(
                    document@.text,
                    old(response).positions@,
                    canonical_encoding(),
                    encoding,
                )
            } else {
                old(response).positions@
            },
    ;
}

/// The hover request.
pub struct Hover;

impl Request for Hover {
    open spec fn has_url() -> bool {
        true
    }

    open spec fn rewrites_params() -> bool {
        true
    }

    open spec fn rewrites_response() -> bool {
        true
    }

    fn extract_url(params: &RequestPayload) -> (url: Option<String>) {
        named_url(params)
    }

    fn modify_params(encoding: Encoding, document: &Document, params: &mut RequestPayload) {
        rewrite_positions(document, &mut params.positions, encoding, canonical());
    }

    fn modify_response(encoding: Encoding, document: &Document, response: &mut RequestPayload) {
        rewrite_positions(document, &mut response.positions, canonical(), encoding);
    }
}

/// The completion request.
pub struct Completion;

impl Request for Completion {
    open spec fn has_url() -> bool {
        true
    }

    open spec fn rewrites_params() -> bool {
        true
    }

    open spec fn rewrites_response() -> bool {
        true
    }

    fn extract_url(params: &RequestPayload) -> (url: Option<String>) {
        named_url(params)
    }

    fn modify_params(encoding: Encoding, document: &Document, params: &mut RequestPayload) {
        rewrite_positions(document, &mut params.positions, encoding, canonical());
    }

    fn modify_response(encoding: Encoding, document: &Document, response: &mut RequestPayload) {
        rewrite_positions(document, &mut response.positions, canonical(), encoding);
    }
}

/// The completion item resolve request. A completion item names no document.
pub struct CompletionResolve;

impl Request for CompletionResolve {
    open spec fn has_url() -> bool {
        false
    }

    open spec fn rewrites_params() -> bool {
        false
    }

    open spec fn rewrites_response() -> bool {
        true
    }

    fn extract_url(params: &RequestPayload) -> (url: Option<String>) {
        None
    }

    fn modify_params(encoding: Encoding, document: &Document, params: &mut RequestPayload) {
    }

    fn modify_response(encoding: Encoding, document: &Document, response: &mut RequestPayload) {
        rewrite_positions(document, &mut response.positions, canonical(), encoding);
    }
}

/// The code action request.
pub struct CodeAction;

impl Request for CodeAction {
    open spec fn has_url() -> bool {
        true
    }

    open spec fn rewrites_params() -> bool {
        true
    }

    open spec fn rewrites_response() -> bool {
        true
    }

    fn extract_url(params: &RequestPayload) -> (url: Option<String>) {
        named_url(params)
    }

    fn modify_params(encoding: Encoding, document: &Document, params: &mut RequestPayload) {
        rewrite_positions(document, &mut params.positions, encoding, canonical());
    }

    fn modify_response(encoding: Encoding, document: &Document, response: &mut RequestPayload) {
        rewrite_positions(document, &mut response.positions, canonical(), encoding);
    }
}

/// The code action resolve request. A code action names no document.
pub struct CodeActionResolve;

impl Request for CodeActionResolve {
    open spec fn has_url() -> bool {
        false
    }

    open spec fn rewrites_params() -> bool {
        false
    }

    open spec fn rewrites_response() -> bool {
        true
    }

    fn extract_url(params: &RequestPayload) -> (url: Option<String>) {
        None
    }

    fn modify_params(encoding: Encoding, document: &Document, params: &mut RequestPayload) {
    }

    fn modify_response(encoding: Encoding, document: &Document, response: &mut RequestPayload) {
        rewrite_positions(document, &mut response.positions, canonical(), encoding);
    }
}

/// The document link request. Its parameters hold no position.
pub struct DocumentLink;

impl Request for DocumentLink {
    open spec fn has_url() -> bool {
        true
    }

    open spec fn rewrites_params() -> bool {
        false
    }

    open spec fn rewrites_response() -> bool {
        true
    }

    fn extract_url(params: &RequestPayload) -> (url: Option<String>) {
        named_url(params)
    }

    fn modify_params(encoding: Encoding, document: &Document, params: &mut RequestPayload) {
    }

    fn modify_response(encoding: Encoding, document: &Document, response: &mut RequestPayload) {
        rewrite_positions(document, &mut response.positions, canonical(), encoding);
    }
}

/// The document link resolve request. The governing document is the link's target, where it has one.
pub struct DocumentLinkResolve;

impl Request for DocumentLinkResolve {
    open spec fn has_url() -> bool {
        true
    }

    open spec fn rewrites_params() -> bool {
        true
    }

    open spec fn rewrites_response() -> bool {
        true
    }

    fn extract_url(params: &RequestPayload) -> (url: Option<String>) {
        named_url(params)
    }

    fn modify_params(encoding: Encoding, document: &Document, params: &mut RequestPayload) {
        rewrite_positions(document, &mut params.positions, encoding, canonical());
    }

    fn modify_response(encoding: Encoding, document: &Document, response: &mut RequestPayload) {
        rewrite_positions(document, &mut response.positions, canonical(), encoding);
    }
}

/// The go to definition request.
pub struct Definition;

impl Request for Definition {
    open spec fn has_url() -> bool {
        true
    }

    open spec fn rewrites_params() -> bool {
        true
    }

    open spec fn rewrites_response() -> bool {
        true
    }

    fn extract_url(params: &RequestPayload) -> (url: Option<String>) {
        named_url(params)
    }

    fn modify_params(encoding: Encoding, document: &Document, params: &mut RequestPayload) {
        rewrite_positions(document, &mut params.positions, encoding, canonical());
    }

    fn modify_response(encoding: Encoding, document: &Document, response: &mut RequestPayload) {
        rewrite_positions(document, &mut response.positions, canonical(), encoding);
    }
}

/// The go to declaration request.
pub struct Declaration;

impl Request for Declaration {
    open spec fn has_url() -> bool {
        true
    }

    open spec fn rewrites_params() -> bool {
        true
    }

    open spec fn rewrites_response() -> bool {
        true
    }

    fn extract_url(params: &RequestPayload) -> (url: Option<String>) {
        named_url(params)
    }

    fn modify_params(encoding: Encoding, document: &Document, params: &mut RequestPayload) {
        rewrite_positions(document, &mut params.positions, encoding, canonical());
    }

    fn modify_response(encoding: Encoding, document: &Document, response: &mut RequestPayload) {
        rewrite_positions(document, &mut response.positions, canonical(), encoding);
    }
}

/// The references request.
pub struct References;

impl Request for References {
    open spec fn has_url() -> bool {
        true
    }

    open spec fn rewrites_params() -> bool {
        true
    }

    open spec fn rewrites_response() -> bool {
        true
    }

    fn extract_url(params: &RequestPayload) -> (url: Option<String>) {
        named_url(params)
    }

    fn modify_params(encoding: Encoding, document: &Document, params: &mut RequestPayload) {
        rewrite_positions(document, &mut params.positions, encoding, canonical());
    }

    fn modify_response(encoding: Encoding, document: &Document, response: &mut RequestPayload) {
        rewrite_positions(document, &mut response.positions, canonical(), encoding);
    }
}

/// The rename request.
pub struct Rename;

impl Request for Rename {
    open spec fn has_url() -> bool {
        true
    }

    open spec fn rewrites_params() -> bool {
        true
    }

    open spec fn rewrites_response() -> bool {
        true
    }

    fn extract_url(params: &RequestPayload) -> (url: Option<String>) {
        named_url(params)
    }

    fn modify_params(encoding: Encoding, document: &Document, params: &mut RequestPayload) {
        rewrite_positions(document, &mut params.positions, encoding, canonical());
    }

    fn modify_response(encoding: Encoding, document: &Document, response: &mut RequestPayload) {
        rewrite_positions(document, &mut response.positions, canonical(), encoding);
    }
}

/// The prepare rename request.
pub struct RenamePrepare;

impl Request for RenamePrepare {
    open spec fn has_url() -> bool {
        true
    }

    open spec fn rewrites_params() -> bool {
        true
    }

    open spec fn rewrites_response() -> bool {
        true
    }

    fn extract_url(params: &RequestPayload) -> (url: Option<String>) {
        named_url(params)
    }

    fn modify_params(encoding: Encoding, document: &Document, params: &mut RequestPayload) {
        rewrite_positions(document, &mut params.positions, encoding, canonical());
    }

    fn modify_response(encoding: Encoding, document: &Document, response: &mut RequestPayload) {
        rewrite_positions(document, &mut response.positions, canonical(), encoding);
    }
}

/// The document formatting request. Its parameters hold no position.
pub struct DocumentFormat;

impl Request for DocumentFormat {
    open spec fn has_url() -> bool {
        true
    }

    open spec fn rewrites_params() -> bool {
        false
    }

    open spec fn rewrites_response() -> bool {
        true
    }

    fn extract_url(params: &RequestPayload) -> (url: Option<String>) {
        named_url(params)
    }

    fn modify_params(encoding: Encoding, document: &Document, params: &mut RequestPayload) {
    }

    fn modify_response(encoding: Encoding, document: &Document, response: &mut RequestPayload) {
        rewrite_positions(document, &mut response.positions, canonical(), encoding);
    }
}

/// The range formatting request.
pub struct DocumentRangeFormat;

impl Request for DocumentRangeFormat {
    open spec fn has_url() -> bool {
        true
    }

    open spec fn rewrites_params() -> bool {
        true
    }

    open spec fn rewrites_response() -> bool {
        true
    }

    fn extract_url(params: &RequestPayload) -> (url: Option<String>) {
        named_url(params)
    }

    fn modify_params(encoding: Encoding, document: &Document, params: &mut RequestPayload) {
        rewrite_positions(document, &mut params.positions, encoding, canonical());
    }

    fn modify_response(encoding: Encoding, document: &Document, response: &mut RequestPayload) {
        rewrite_positions(document, &mut response.positions, canonical(), encoding);
    }
}

/// Why a request got no result.
#[derive(Debug, Clone, Copy, PartialEq, Eq, Structural)]
pub enum RequestError {
    /// No handler is registered for the method.
    MethodNotImplemented,
    /// The document changed while the handler ran.
    ContentModified,
    /// The handler failed, with this error code.
    Handler(i32),
}

/// What the dispatcher remembers of a request while its handler runs: the
/// address of the governing document, and the version that the document
/// had when the parameters were rewritten, where one was tracked.
#[derive(Debug)]
pub struct RequestTicket {
    pub uri: Option<String>,
    pub version: Option<i32>,
}

/// The version of the document under an address that may be absent.
pub open spec fn tracked_version(documents: Map<Seq<char>, DocumentView>, uri: Option<Seq<char>>) -> Option<
    i32,
> {
    match uri {
        Some(u) => if documents.contains_key(u) {
            Some(documents[u].version)
        } else {
            None
        },
        None => None,
    }
}

/// Whether a result is stale: the document had a version when the
/// request came in, it is still tracked, and its version is another now.
pub open spec fn is_stale(remembered: Option<i32>, current: Option<i32>) -> bool {
    match (remembered, current) {
        (Some(before), Some(now)) => before != now,
        _ => false,
    }
}

/// Decides whether a result is stale.
pub fn check_stale(remembered: Option<i32>, current: Option<i32>) -> (stale: bool)
    ensures
        stale == is_stale(remembered, current),
{
    match (remembered, current) {
        (Some(before), Some(now)) => before != now,
        _ => false,
    }
}

/// What a request returns, given whether its result is stale and what
/// the handler gave. Staleness wins over everything the handler gave,
/// an error too.
pub open spec fn concluded<T>(stale: bool, handled: Result<T, i32>) -> Result<T, RequestError> {
    if stale {
        Err(RequestError::ContentModified)
    } else {
        match handled {
            Ok(result) => Ok(result),
            Err(code) => Err(RequestError::Handler(code)),
        }
    }
}

/// Decides what a request returns.
pub fn conclude<T>(stale: bool, handled: Result<T, i32>) -> (outcome: Result<T, RequestError>)
    ensures
        outcome == concluded(stale, handled),
        stale ==> outcome == Err::<T, RequestError>(RequestError::ContentModified),
{
    if stale {
        Err(RequestError::ContentModified)
    } else {
        match handled {
            Ok(result) => Ok(result),
            Err(code) => Err(RequestError::Handler(code)),
        }
    }
}

/// The parameters of a request as its handler sees them.
pub open spec fn prepared_positions<R: Request>(
    documents: Map<Seq<char>, DocumentView>,
    encoding: Encoding,
    params: RequestPayload,
) -> Seq<Position> {
    if R::has_url() && params.uri.is_some() && documents.contains_key(params.uri.unwrap()@)
        && R::rewrites_params() {
        rewritten_positions(
            documents[params.uri.unwrap()@].text,
            params.positions@,
            encoding,
            canonical_encoding(),
        )
    } else {
        params.positions@
    }
}

/// The first half of a request, before its handler runs. Without a
/// handler the request ends here, as not implemented, and nothing is
/// touched. Otherwise the governing document is looked up, its version is
/// remembered, and the positions of the parameters are rewritten against
/// it as the method has it. Without a governing document, or without one
/// that is tracked, the parameters stay as they are.
pub fn begin_request<R: Request>(state: &ServerState, has_handler: bool, params: &mut RequestPayload) -> (ticket:
    Result<RequestTicket, RequestError>)
    ensures
        final(params).uri == old(params).uri,
        !has_handler ==> ticket == Err::<RequestTicket, RequestError>(
            RequestError::MethodNotImplemented,
        ) && final(params).positions@ == old(params).positions@,
        has_handler ==> ticket.is_ok() && final(params).positions@ == prepared_positions::<R>(
            state.documents(),
            state.encoding(),
            *old(params),
        ) && opt_string_view(ticket.unwrap().uri) == (if R::has_url() {
            opt_string_view(old(params).uri)
        } else {
            None
        }) && ticket.unwrap().version == tracked_version(
            state.documents(),
            opt_string_view(ticket.unwrap().uri),
        ),
{
    if !has_handler {
        return Err(RequestError::MethodNotImplemented);
    }
    let uri = R::extract_url(params);
    let mut version: Option<i32> = None;
    match &uri {
        Some(u) => {
            match state.document(u.as_str()) {
                Some(doc) => {
                    version = Some(doc.version());
                    R::modify_params(state.get_position_encoding(), &doc, params);
                },
                None => {},
            }
        },
        None => {},
    }
    Ok(RequestTicket { uri, version })
}

/// The response of a request as its caller sees it, where it is returned.
pub open spec fn finished_positions<R: Request>(
    documents: Map<Seq<char>, DocumentView>,
    encoding: Encoding,
    uri: Option<Seq<char>>,
    response: RequestPayload,
) -> Seq<Position> {
    if uri.is_some() && documents.contains_key(uri.unwrap()) && R::rewrites_response() {
        rewritten_positions(
            documents[uri.unwrap()].text,
            response.positions@,
            canonical_encoding(),
            encoding,
        )
    } else {
        response.positions@
    }
}

/// The second half of a request, after its handler has run. The
/// governing document is looked up again. Where its version is no longer
/// the remembered one, the request ends as content modified, whatever the
/// handler gave. Otherwise an error of the handler is passed on, and the
/// positions of a response are rewritten against the document as it is
/// now, where one is tracked.
pub fn finish_request<R: Request>(
    state: &ServerState,
    ticket: &RequestTicket,
    handled: Result<RequestPayload, i32>,
) -> (outcome: Result<RequestPayload, RequestError>)
    ensures
        match concluded(
            is_stale(
                ticket.version,
                tracked_version(state.documents(), opt_string_view(ticket.uri)),
            ),
            handled,
        ) {
            Ok(response) => outcome.is_ok() && outcome.unwrap().uri == response.uri
                && outcome.unwrap().positions@ == finished_positions::<R>(
                state.documents(),
                state.encoding(),
                opt_string_view(ticket.uri),
                response,
            ),
            Err(error) => outcome == Err::<RequestPayload, RequestError>(error),
        },
        is_stale(
            ticket.version,
            tracked_version(state.documents(), opt_string_view(ticket.uri)),
        ) ==> outcome == Err::<RequestPayload, RequestError>(RequestError::ContentModified),
{
    let current = match &ticket.uri {
        Some(u) => state.document(u.as_str()),
        None => None,
    };
    let now = match &current {
        Some(doc) => Some(doc.version()),
        None => None,
    };
    let stale = check_stale(ticket.version, now);
    match conclude(stale, handled) {
        Ok(response) => {
            let mut response = response;
            match &current {
                Some(doc) => {
                    R::modify_response(state.get_position_encoding(), doc, &mut response);
                },
                None => {},
            }
            Ok(response)
        },
        Err(error) => Err(error),
    }
}

/// Staleness: a change notification that is accepted while a handler
/// runs, under a version other than the one the document had when the
/// request came in, makes the result stale: the version that the ticket
/// remembers is not the one found afterwards, and the request ends as
/// content modified whatever the handler computed.
pub proof fn lemma_change_makes_stale<T>(
    documents: Map<Seq<char>, DocumentView>,
    uri: Seq<char>,
    version: i32,
    edits: Seq<Edit>,
    encoding: Encoding,
    handled: Result<T, i32>,
)
    requires
        documents.contains_key(uri),
        version != documents[uri].version,
        changed_document(documents[uri], version, edits, encoding).is_some(),
    ensures
        is_stale(
            tracked_version(documents, Some(uri)),
            tracked_version(after_change(documents, uri, version, edits, encoding), Some(uri)),
        ),
        concluded(
            is_stale(
                tracked_version(documents, Some(uri)),
                tracked_version(after_change(documents, uri, version, edits, encoding), Some(uri)),
            ),
            handled,
        ) == Err::<T, RequestError>(RequestError::ContentModified),
{
}

} // verus!
