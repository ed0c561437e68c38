//! The state of a server: the tracked documents, the matcher table and
//! the session's encoding, and how notifications change them.

use vstd::prelude::*;
use dashmap::DashMap;
use crate::encoding::{Encoding, negotiated};
use crate::document::{Document, DocumentView, Edit, Matched, MatchedView, apply_edits,
    opt_matched_view};
use crate::document_matcher::{DocumentMatcher, DocumentMatchers, find_match};
use crate::lines::line_count;
use crate::store::{no_documents, store_docs, store_new, store_insert, store_remove, store_get, guard_value};

verus! {

/// A `&str` that may be absent, as the text it holds.
pub open spec fn opt_view(s: Option<&str>) -> Option<Seq<char>> {
    match s {
        Some(t) => Some(t@),
        None => None,
    }
}

/// What a document keeps of the matcher that it falls under, if it falls
/// under one: the name and the grammar of the matcher.
pub open spec fn matched_config(
    configs: Seq<DocumentMatcher>,
    path: Option<Seq<char>>,
    language: Seq<char>,
) -> Option<MatchedView> {
    match find_match(configs, path, language) {
        Some(i) => Some(MatchedView { name: configs[i].name@, grammar: configs[i].lang_grammar }),
        None => None,
    }
}

/// A document as it is when opened with the given contents.
pub open spec fn opened_document(
    configs: Seq<DocumentMatcher>,
    uri: Seq<char>,
    path: Option<Seq<char>>,
    text: Seq<char>,
    version: i32,
    language: Seq<char>,
) -> DocumentView {
    DocumentView { uri, text, version, language, matcher: matched_config(configs, path, language) }
}

/// A document after a change notification that could be applied
/// incrementally: the edited text under the notification's version.
/// `None` where some edit cannot be applied.
pub open spec fn changed_document(
    doc: DocumentView,
    version: i32,
    edits: Seq<Edit>,
    encoding: Encoding,
) -> Option<DocumentView> {
    match apply_edits(doc.text, edits, encoding) {
        Some(text) => Some(DocumentView { text, version, ..doc }),
        None => None,
    }
}

/// One change notification: a version and its edits.
pub struct Change {
    pub version: i32,
    pub edits: Seq<Edit>,
}

/// A document after a sequence of change notifications, each applied
/// incrementally. `None` where one of them cannot be.
pub open spec fn after_changes(doc: DocumentView, changes: Seq<Change>, encoding: Encoding) -> Option<
    DocumentView,
>
    decreases changes.len(),
{
    if changes.len() == 0 {
        Some(doc)
    } else {
        match after_changes(doc, changes.drop_last(), encoding) {
            Some(before) => changed_document(
                before,
                changes.last().version,
                changes.last().edits,
                encoding,
            ),
            None => None,
        }
    }
}

/// The edits of a sequence of change notifications, one after the other.
pub open spec fn all_edits(changes: Seq<Change>) -> Seq<Edit>
    decreases changes.len(),
{
    if changes.len() == 0 {
        Seq::empty()
    } else {
        all_edits(changes.drop_last()) + changes.last().edits
    }
}

/// Version: after a sequence of accepted change notifications the
/// document carries the version of the last one. Address, language and
/// matcher are those it had before.
pub proof fn lemma_version_is_last(doc: DocumentView, changes: Seq<Change>, encoding: Encoding)
    requires
        changes.len() > 0,
        after_changes(doc, changes, encoding).is_some(),
    ensures
        after_changes(doc, changes, encoding).unwrap().version == changes.last().version,
        after_changes(doc, changes, encoding).unwrap().uri == doc.uri,
        after_changes(doc, changes, encoding).unwrap().language == doc.language,
        after_changes(doc, changes, encoding).unwrap().matcher == doc.matcher,
    decreases changes.len(),
{
    if changes.len() > 1 {
        lemma_version_is_last(doc, changes.drop_last(), encoding);
    } else {
        assert(after_changes(doc, changes.drop_last(), encoding) == Some(doc));
    }
}

/// Incremental equivalence: the text after a sequence of accepted change
/// notifications is the text that all their edits, put together into one
/// list, build directly from the text at the start.
pub proof fn lemma_incremental_equivalence(doc: DocumentView, changes: Seq<Change>, encoding: Encoding)
    requires
        after_changes(doc, changes, encoding).is_some(),
    ensures
        apply_edits(doc.text, all_edits(changes), encoding) == Some(
            after_changes(doc, changes, encoding).unwrap().text,
        ),
    decreases changes.len(),
{
    if changes.len() > 0 {
        lemma_incremental_equivalence(doc, changes.drop_last(), encoding);
        crate::document::lemma_apply_edits_concat(
            doc.text,
            all_edits(changes.drop_last()),
            changes.last().edits,
            encoding,
        );
    }
}

/// The tracked documents after a change notification. An address that is
/// not tracked changes nothing. A tracked document carries the edited
/// text and the new version where every edit can be applied, and is
/// dropped where one cannot.
pub open spec fn after_change(
    documents: Map<Seq<char>, DocumentView>,
    uri: Seq<char>,
    version: i32,
    edits: Seq<Edit>,
    encoding: Encoding,
) -> Map<Seq<char>, DocumentView> {
    if !documents.contains_key(uri) {
        documents
    } else {
        match changed_document(documents[uri], version, edits, encoding) {
            Some(doc) => documents.insert(uri, doc),
            None => documents.remove(uri),
        }
    }
}

/// The tracked documents after a reload: with a source that could be
/// read, the document is tracked as if opened with it; without, it is not
/// tracked.
pub open spec fn after_reload(
    documents: Map<Seq<char>, DocumentView>,
    configs: Seq<DocumentMatcher>,
    uri: Seq<char>,
    path: Option<Seq<char>>,
    source: Option<Seq<char>>,
    version: i32,
    language: Seq<char>,
) -> Map<Seq<char>, DocumentView> {
    match source {
        Some(text) => documents.insert(
            uri,
            opened_document(configs, uri, path, text, version, language),
        ),
        None => documents.remove(uri),
    }
}

/// The tracked documents after a save notification. An address that is
/// not tracked changes nothing. With a text, the tracked document carries
/// it, with its matcher found anew; without, it is dropped.
pub open spec fn after_save(
    documents: Map<Seq<char>, DocumentView>,
    configs: Seq<DocumentMatcher>,
    uri: Seq<char>,
    path: Option<Seq<char>>,
    text: Option<Seq<char>>,
) -> Map<Seq<char>, DocumentView> {
    if !documents.contains_key(uri) {
        documents
    } else {
        match text {
            Some(t) => documents.insert(
                uri,
                DocumentView {
                    text: t,
                    matcher: matched_config(configs, path, documents[uri].language),
                    ..documents[uri]
                },
            ),
            None => documents.remove(uri),
        }
    }
}

/// Fallback: a change notification with an edit that names a line beyond
/// the line count of the text that the edits before it left cannot be
/// applied incrementally, whatever its other edits are. The document is
/// dropped, and where its source cannot be read for the reload, no
/// document is tracked under its address afterwards.
pub proof fn lemma_line_beyond_count_forces_reload(
    documents: Map<Seq<char>, DocumentView>,
    configs: Seq<DocumentMatcher>,
    uri: Seq<char>,
    path: Option<Seq<char>>,
    version: i32,
    edits: Seq<Edit>,
    k: int,
    encoding: Encoding,
)
    requires
        documents.contains_key(uri),
        0 <= k < edits.len(),
        apply_edits(documents[uri].text, edits.take(k), encoding).is_some(),
        edits[k].range.is_some(),
        edits[k].range.unwrap().start.line > line_count(
            apply_edits(documents[uri].text, edits.take(k), encoding).unwrap(),
        ) || edits[k].range.unwrap().end.line > line_count(
            apply_edits(documents[uri].text, edits.take(k), encoding).unwrap(),
        ),
    ensures
        changed_document(documents[uri], version, edits, encoding).is_none(),
        after_change(documents, uri, version, edits, encoding) == documents.remove(uri),
        !after_reload(
            after_change(documents, uri, version, edits, encoding),
            configs,
            uri,
            path,
            None,
            version,
            documents[uri].language,
        ).contains_key(uri),
{
    crate::document::lemma_failing_edit_fails_all(documents[uri].text, edits, k, encoding);
}

/// How the server synchronises documents, as it tells the client.
#[derive(Debug, Clone, Copy, PartialEq, Eq, Structural)]
pub struct SyncCapabilities {
    /// Changes come as edits rather than as whole texts.
    pub incremental: bool,
    /// The client tells of documents opened and closed.
    pub open_close: bool,
    /// A save notification carries the saved text.
    pub save_includes_text: bool,
}

/// What the server answers to the handshake: the encoding of the
/// session, and how documents are synchronised.
#[derive(Debug, Clone, Copy, PartialEq, Eq, Structural)]
pub struct Negotiation {
    pub position_encoding: Encoding,
    pub sync: SyncCapabilities,
}

/// What became of a change notification.
#[derive(Debug)]
pub enum ChangeOutcome {
    /// No document is tracked under the address. Nothing changed.
    Untracked,
    /// Every edit was applied. The document carries the new version.
    Updated,
    /// Some edit could not be applied. The document is no longer tracked;
    /// it has to be loaded anew from where it is kept, under the version
    /// of the notification and the language given here.
    NeedsReload { language: String },
}

/// The state of a server.
pub struct ServerState {
    documents: DashMap<String, Document>,
    matchers: DocumentMatchers,
    encoding: Encoding,
}

impl ServerState {
    /// The tracked documents, by their address.
    pub closed spec fn documents(&self) -> Map<Seq<char>, DocumentView> {
        store_docs(self.documents)
    }

    /// The matcher configurations, in the order of their registration.
    pub closed spec fn configs(&self) -> Seq<DocumentMatcher> {
        self.matchers.configs()
    }

    /// The encoding of the session.
    pub closed spec fn encoding(&self) -> Encoding {
        self.encoding
    }

    /// The matcher table is in order.
    pub closed spec fn well_formed(&self) -> bool {
        self.matchers.well_formed()
    }

    /// A state without documents, with the default encoding.
    pub fn new(matchers: Vec<DocumentMatcher>) -> (state: Self)
        ensures
            state.well_formed(),
            state.documents() == no_documents(),
            state.configs() == matchers@,
            state.encoding() == Encoding::UTF16,
    {
        ServerState {
            documents: store_new(),
            matchers: DocumentMatchers::new(matchers),
            encoding: Encoding::default(),
        }
    }

    /// A snapshot of the document under an address: an independent copy
    /// that later changes do not reach. `None` where none is tracked.
    #[must_use]
    pub fn document(&self, uri: &str) -> (doc: Option<Document>)
        ensures
            doc.is_some() == self.documents().contains_key(uri@),
            doc.is_some() ==> doc.unwrap()@ == self.documents()[uri@],
    {
        match store_get(&self.documents, uri) {
            Some(guard) => Some(guard_value(&guard).snapshot()),
            None => None,
        }
    }

    /// The matcher table.
    pub fn matchers(&self) -> (table: &DocumentMatchers)
        ensures
            table.configs() == self.configs(),
            self.well_formed() ==> table.well_formed(),
    {
        &self.matchers
    }

    /// The encoding of the session.
    pub fn get_position_encoding(&self) -> (encoding: Encoding)
        ensures
            encoding == self.encoding(),
    {
        self.encoding
    }

    /// Fixes the encoding of the session.
    pub fn set_position_encoding(&mut self, encoding: Encoding)
        ensures
            final(self).encoding() == encoding,
            final(self).documents() == old(self).documents(),
            final(self).configs() == old(self).configs(),
            final(self).well_formed() == old(self).well_formed(),
    {
        self.encoding = encoding;
    }

    /// Takes the handshake of a session. The encoding of the session is
    /// fixed: the first of UTF-8, UTF-32 and UTF-16 that the client has
    /// declared, and UTF-16 where it has declared none. The answer says
    /// so, and that documents are synchronised incrementally, with open
    /// and close notifications, and with the text in save notifications.
    pub fn initialize(&mut self, client_encodings: &Vec<Encoding>) -> (answer: Negotiation)
        ensures
            answer.position_encoding == negotiated(client_encodings@),
            answer.sync == (SyncCapabilities {
                incremental: true,
                open_close: true,
                save_includes_text: true,
            }),
            final(self).encoding() == negotiated(client_encodings@),
            final(self).documents() == old(self).documents(),
            final(self).configs() == old(self).configs(),
            final(self).well_formed() == old(self).well_formed(),
    {
        let encoding = Encoding::negotiate(client_encodings);
        self.set_position_encoding(encoding);
        Negotiation {
            position_encoding: encoding,
            sync: SyncCapabilities { incremental: true, open_close: true, save_includes_text: true },
        }
    }

    /// Tracks a document with the given contents, in place of what was
    /// tracked under its address before. The matcher is found by the
    /// language identifier and, where the address resolves to one, by the
    /// file path; the document keeps its name and its grammar.
    pub fn insert_document(
        &mut self,
        uri: String,
        path: Option<&str>,
        text: &str,
        version: i32,
        language: String,
    )
        requires
            old(self).well_formed(),
        ensures
            final(self).well_formed(),
            final(self).configs() == old(self).configs(),
            final(self).encoding() == old(self).encoding(),
            final(self).documents() == old(self).documents().insert(
                uri@,
                opened_document(old(self).configs(), uri@, opt_view(path), text@, version, language@),
            ),
    {
        let matcher = self.find_matched(path, language.as_str());
        let doc = Document::new(uri.clone(), text, version, language, matcher);
        store_insert(&mut self.documents, uri, doc);
    }

    /// What a document keeps of the matcher that it falls under.
    fn find_matched(&self, path: Option<&str>, language: &str) -> (matched: Option<Matched>)
        requires
            self.well_formed(),
        ensures
            opt_matched_view(matched) == matched_config(self.configs(), opt_view(path), language@),
    {
        match self.matchers.find(path, language) {
            Some(i) => {
                let config = self.matchers.get(i);
                Some(Matched { name: config.name.clone(), grammar: config.lang_grammar })
            },
            None => None,
        }
    }

    /// Discards the grammar of a document, for a grammar that no parser
    /// can be made for: the document stays tracked, without a grammar.
    /// An address that is not tracked changes nothing.
    pub fn discard_grammar(&mut self, uri: &str)
        ensures
            final(self).well_formed() == old(self).well_formed(),
            final(self).configs() == old(self).configs(),
            final(self).encoding() == old(self).encoding(),
            final(self).documents() == if old(self).documents().contains_key(uri@) {
                old(self).documents().insert(
                    uri@,
                    DocumentView {
                        matcher: match old(self).documents()[uri@].matcher {
                            Some(m) => Some(MatchedView { grammar: None, ..m }),
                            None => None,
                        },
                        ..old(self).documents()[uri@]
                    },
                )
            } else {
                old(self).documents()
            },
    {
        match store_remove(&mut self.documents, uri) {
            Some(doc) => {
                let mut doc = doc;
                doc.discard_grammar();
                let ghost kept = doc@;
                store_insert(&mut self.documents, uri.to_owned(), doc);
                assert(self.documents() =~= old(self).documents().insert(uri@, kept));
            },
            None => {
                assert(self.documents() =~= old(self).documents());
            },
        }
    }

    /// Takes an open notification: the document is tracked from now on.
    pub fn handle_document_open(
        &mut self,
        uri: String,
        path: Option<&str>,
        text: &str,
        version: i32,
        language: String,
    )
        requires
            old(self).well_formed(),
        ensures
            final(self).well_formed(),
            final(self).configs() == old(self).configs(),
            final(self).encoding() == old(self).encoding(),
            final(self).documents() == old(self).documents().insert(
                uri@,
                opened_document(old(self).configs(), uri@, opt_view(path), text@, version, language@),
            ),
    {
        self.insert_document(uri, path, text, version, language);
    }

    /// Takes a close notification: the document is no longer tracked.
    pub fn handle_document_close(&mut self, uri: &str)
        ensures
            final(self).well_formed() == old(self).well_formed(),
            final(self).configs() == old(self).configs(),
            final(self).encoding() == old(self).encoding(),
            final(self).documents() == old(self).documents().remove(uri@),
    {
        let _ = store_remove(&mut self.documents, uri);
    }

    /// Takes a change notification. The edits are applied in order, each
    /// to the text that the one before it left, with their columns read
    /// under the session's encoding.
    ///
    /// Where every edit can be applied, the document carries the edited
    /// text and the notification's version. Where one cannot, none of the
    /// others counts: the document is dropped, and the caller has to hand
    /// what it reads from where the document is kept to `reload_document`.
    /// A notification for an address that is not tracked changes nothing.
    pub fn handle_document_change(&mut self, uri: &str, version: i32, edits: &Vec<Edit>) -> (outcome:
        ChangeOutcome)
        ensures
            final(self).well_formed() == old(self).well_formed(),
            final(self).configs() == old(self).configs(),
            final(self).encoding() == old(self).encoding(),
            final(self).documents() == after_change(
                old(self).documents(),
                uri@,
                version,
                edits@,
                old(self).encoding(),
            ),
            outcome is Untracked <==> !old(self).documents().contains_key(uri@),
            outcome is Updated <==> old(self).documents().contains_key(uri@) && changed_document(
                old(self).documents()[uri@],
                version,
                edits@,
                old(self).encoding(),
            ).is_some(),
            outcome matches ChangeOutcome::NeedsReload { language } ==> language@ == old(
                self
            ).documents()[uri@].language,
    {
        let mut doc = match store_remove(&mut self.documents, uri) {
            Some(doc) => doc,
            None => {
                assert(self.documents() =~= old(self).documents());
                return ChangeOutcome::Untracked;
            },
        };
        if doc.apply_changes(version, edits, self.encoding) {
            let ghost updated = doc@;
            store_insert(&mut self.documents, uri.to_owned(), doc);
            assert(self.documents() =~= old(self).documents().insert(uri@, updated));
            ChangeOutcome::Updated
        } else {
            ChangeOutcome::NeedsReload { language: doc.language().to_owned() }
        }
    }

    /// Ends what a failed change began: with the text read from where the
    /// document is kept, the document is tracked again as if opened with
    /// it; without, it stays dropped.
    pub fn reload_document(
        &mut self,
        uri: String,
        path: Option<&str>,
        source: Option<&str>,
        version: i32,
        language: String,
    )
        requires
            old(self).well_formed(),
        ensures
            final(self).well_formed(),
            final(self).configs() == old(self).configs(),
            final(self).encoding() == old(self).encoding(),
            final(self).documents() == after_reload(
                old(self).documents(),
                old(self).configs(),
                uri@,
                opt_view(path),
                opt_view(source),
                version,
                language@,
            ),
    {
        match source {
            Some(text) => {
                self.insert_document(uri, path, text, version, language);
            },
            None => {
                let _ = store_remove(&mut self.documents, uri.as_str());
            },
        }
    }

    /// Takes a save notification. `text` is the text that came with the
    /// notification or, where none came, what was read from where the
    /// document is kept; `None` where that could not be read.
    ///
    /// With a text the document carries it from now on, under the version
    /// and language it had, with its matcher found anew. Without, the
    /// document is dropped. A notification for an address that is not
    /// tracked changes nothing.
    pub fn handle_document_save(&mut self, uri: &str, path: Option<&str>, text: Option<&str>)
        requires
            old(self).well_formed(),
        ensures
            final(self).well_formed(),
            final(self).configs() == old(self).configs(),
            final(self).encoding() == old(self).encoding(),
            final(self).documents() == after_save(
                old(self).documents(),
                old(self).configs(),
                uri@,
                opt_view(path),
                opt_view(text),
            ),
    {
        let mut doc = match store_remove(&mut self.documents, uri) {
            Some(doc) => doc,
            None => {
                assert(self.documents() =~= old(self).documents());
                return ;
            },
        };
        match text {
            Some(t) => {
                let matcher = self.find_matched(path, doc.language());
                doc.replace_text(t, matcher);
                let ghost saved = doc@;
                store_insert(&mut self.documents, uri.to_owned(), doc);
                assert(self.documents() =~= old(self).documents().insert(uri@, saved));
            },
            None => {},
        }
    }
}

} // verus!
