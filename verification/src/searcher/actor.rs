use vstd::prelude::*;
use crate::doc::{DocId, Document, DocumentView};
use crate::error::SearchError;
use crate::searcher::engine::{date_fits, hit_ids, well_formed_query, SearchEngine};

verus! {

/// How many messages may wait for the coordinator at once.
pub const CHANNEL_CAPACITY: usize = 32;

/// Whether the coordinator still takes messages.
#[derive(Clone, Copy, Debug, PartialEq, Eq, Structural)]
pub enum ProcessState {
    Running,
    Shutdown,
}

#[verifier::external_type_specification]
#[verifier::external_body]
#[verifier::reject_recursive_types(T)]
pub struct ExReplySender<T>(tokio::sync::oneshot::Sender<T>);

/// `tokio::sync::oneshot::Sender::send`: hands a value to the one receiver
/// of the channel. It fails where the receiver is gone, and then gives the
/// value back.
#[verifier::external_body]
fn send_reply<T>(resp: tokio::sync::oneshot::Sender<T>, reply: T) -> (sent: Result<(), T>)
    ensures
        sent is Err ==> sent->Err_0 == reply,
{
    resp.send(reply)
}

/// What a caller asks of the engine, with the channel for the one reply.
#[derive(Debug)]
#[allow(inconsistent_fields)]
pub enum SearchEngineMsg {
    /// Add this document to the index.
    Index { doc: Document, resp: tokio::sync::oneshot::Sender<Result<(), SearchError>> },
    /// Find the `limit` best matches of this query.
    Search {
        limit: usize,
        query: String,
        resp: tokio::sync::oneshot::Sender<Result<Vec<DocId>, SearchError>>,
    },
}

/// What holds of the reply to an `Index` message, and of the documents
/// acknowledged before and after it: a document whose parse date does not
/// fit is turned down; any other is acknowledged exactly when the reply is
/// `Ok`, and goes to the end.
pub open spec fn indexed_as_asked(
    doc: DocumentView,
    before: Seq<DocumentView>,
    outcome: Result<(), SearchError>,
    after: Seq<DocumentView>,
) -> bool {
    &&& !date_fits(doc) ==> outcome == Err::<(), SearchError>(SearchError::TimestampOverflow)
    &&& date_fits(doc) ==> outcome is Ok || outcome->Err_0 is IndexIo
    &&& outcome is Ok ==> after == before.push(doc)
    &&& outcome is Err ==> after == before
}

/// What holds of the reply to a `Search` message: no more handles than the
/// limit; none at all and no error for a limit of zero; for any other limit
/// the error `QuerySyntax` exactly for a text that is no query, and no other
/// error but that of the index.
pub open spec fn found_as_asked(
    query: Seq<char>,
    limit: usize,
    outcome: Result<Vec<DocId>, SearchError>,
) -> bool {
    &&& limit == 0 ==> outcome is Ok && outcome->Ok_0@.len() == 0
    &&& outcome is Ok ==> outcome->Ok_0@.len() <= limit
    &&& limit > 0 && !well_formed_query(query) ==> outcome is Err && outcome->Err_0 is QuerySyntax
    &&& limit > 0 && well_formed_query(query) ==> outcome is Ok || outcome->Err_0 is IndexIo
}

/// What a message may do to the documents acknowledged. An `Index` message
/// adds its document at the end or leaves them as they are, and it leaves
/// them as they are where the coordinator has shut down or the parse date
/// does not fit. A `Search` message leaves them as they are.
pub open spec fn handled_as_asked(
    state: ProcessState,
    msg: SearchEngineMsg,
    before: Seq<DocumentView>,
    after: Seq<DocumentView>,
) -> bool {
    match msg {
        SearchEngineMsg::Index { doc, resp } => {
            ||| after == before
            ||| state == ProcessState::Running && date_fits(doc@) && after == before.push(doc@)
        },
        SearchEngineMsg::Search { limit, query, resp } => after == before,
    }
}

/// The state of a coordinator after its channel has given a message
/// (`true`) or has closed (`false`).
pub open spec fn next_state(state: ProcessState, message: bool) -> ProcessState {
    if message {
        state
    } else {
        ProcessState::Shutdown
    }
}

/// The state of a coordinator after a run of events, each a message (`true`)
/// or the closing of the channel (`false`).
pub open spec fn state_after(state: ProcessState, events: Seq<bool>) -> ProcessState
    decreases events.len(),
{
    if events.len() == 0 {
        state
    } else {
        next_state(state_after(state, events.drop_last()), events.last())
    }
}

/// The one owner of an engine. It takes one message at a time and answers it
/// before it takes the next, so that no two operations on the engine ever
/// overlap.
pub struct SearchActor {
    engine: SearchEngine,
    state: ProcessState,
}

impl SearchActor {
    /// Whether the coordinator still takes messages.
    pub closed spec fn state(&self) -> ProcessState {
        self.state
    }

    /// The documents that the engine has acknowledged.
    pub closed spec fn acknowledged(&self) -> Seq<DocumentView> {
        self.engine.acknowledged()
    }

    /// A running coordinator for an engine.
    pub fn new(engine: SearchEngine) -> (actor: Self)
        ensures
            actor.state() == ProcessState::Running,
            actor.acknowledged() == engine.acknowledged(),
    {
        SearchActor { engine, state: ProcessState::Running }
    }

    /// Whether the coordinator still takes messages.
    pub fn process_state(&self) -> (state: ProcessState)
        ensures
            state == self.state(),
    {
        self.state
    }

    /// Adds a document to the index. A running coordinator hands it to the
    /// engine and stays running whatever the outcome. One that has shut down
    /// leaves the engine alone and answers `ChannelClosed`.
    pub fn index(&mut self, doc: Document) -> (outcome: Result<(), SearchError>)
        ensures
            final(self).state() == old(self).state(),
            old(self).state() == ProcessState::Running ==> indexed_as_asked(
                doc@,
                old(self).acknowledged(),
                outcome,
                final(self).acknowledged(),
            ),
            old(self).state() == ProcessState::Shutdown ==> outcome == Err::<(), SearchError>(
                SearchError::ChannelClosed,
            ) && final(self).acknowledged() == old(self).acknowledged(),
    {
        match self.state {
            ProcessState::Running => self.engine.add_doc(doc),
            ProcessState::Shutdown => Err(SearchError::ChannelClosed),
        }
    }

    /// The handles of the best matches of a query, best first. A coordinator
    /// that has shut down leaves the engine alone and answers `ChannelClosed`.
    pub fn search(&self, query: &str, limit: usize) -> (outcome: Result<Vec<DocId>, SearchError>)
        ensures
            self.state() == ProcessState::Running ==> found_as_asked(query@, limit, outcome),
            self.state() == ProcessState::Shutdown ==> outcome is Err && outcome->Err_0
                == SearchError::ChannelClosed,
    {
        match self.state {
            ProcessState::Running => match self.engine.search(query, limit) {
                Ok(hits) => Ok(hit_ids(&hits)),
                Err(error) => Err(error),
            },
            ProcessState::Shutdown => Err(SearchError::ChannelClosed),
        }
    }

    /// Performs what one message asks and sends the outcome into the
    /// message's reply channel. The result says whether the reply could be
    /// handed over: it cannot where the caller has given up waiting. What
    /// the engine did stands either way, and the coordinator goes on.
    pub fn handle(&mut self, msg: SearchEngineMsg) -> (delivered: bool)
        ensures
            final(self).state() == old(self).state(),
            handled_as_asked(
                old(self).state(),
                msg,
                old(self).acknowledged(),
                final(self).acknowledged(),
            ),
    {
        match msg {
            SearchEngineMsg::Index { doc, resp } => {
                let outcome = self.index(doc);
                send_reply(resp, outcome).is_ok()
            },
            SearchEngineMsg::Search { limit, query, resp } => {
                let outcome = self.search(query.as_str(), limit);
                send_reply(resp, outcome).is_ok()
            },
        }
    }

    /// Takes what the channel gave: a message, which is handled, or
    /// nothing, which means that every sender is gone. Then the coordinator
    /// shuts down. The result says whether a reply was handed over.
    pub fn step(&mut self, received: Option<SearchEngineMsg>) -> (delivered: Option<bool>)
        ensures
            final(self).state() == next_state(old(self).state(), received is Some),
            received is Some <==> delivered is Some,
            received is None ==> final(self).acknowledged() == old(self).acknowledged(),
            received is Some ==> handled_as_asked(
                old(self).state(),
                received->Some_0,
                old(self).acknowledged(),
                final(self).acknowledged(),
            ),
    {
        match received {
            Some(msg) => Some(self.handle(msg)),
            None => {
                self.state = ProcessState::Shutdown;
                None
            },
        }
    }
}

/// Opens the engine in a directory and puts a running coordinator in charge
/// of it.
pub fn start_actor(index_dir: &str) -> (started: Result<SearchActor, SearchError>)
    ensures
        started is Ok ==> started->Ok_0.state() == ProcessState::Running
            && started->Ok_0.acknowledged() == Seq::<DocumentView>::empty(),
        started is Err ==> started->Err_0 is IndexIo,
{
    match SearchEngine::new(index_dir) {
        Ok(engine) => Ok(SearchActor::new(engine)),
        Err(error) => Err(error),
    }
}

/// A coordinator whose channel has closed is shut down, whatever else
/// happens, and one whose channel has not closed is in the state it began in.
pub proof fn lemma_shutdown_is_final(state: ProcessState, events: Seq<bool>)
    ensures
        events.contains(false) ==> state_after(state, events) == ProcessState::Shutdown,
        !events.contains(false) ==> state_after(state, events) == state,
        state == ProcessState::Shutdown ==> state_after(state, events) == ProcessState::Shutdown,
    decreases events.len(),
{
    if events.len() > 0 {
        let earlier = events.drop_last();
        lemma_shutdown_is_final(state, earlier);
        if events.last() {
            if events.contains(false) {
                let at = choose|i: int| 0 <= i < events.len() && events[i] == false;
                assert(at < events.len() - 1);
                assert(earlier[at] == false);
                assert(earlier.contains(false));
            } else {
                assert forall|i: int| 0 <= i < earlier.len() implies earlier[i] != false by {
                    assert(events[i] == earlier[i]);
                    assert(events.contains(events[i]));
                }
            }
        } else {
            assert(events[events.len() - 1] == false);
            assert(events.contains(false));
        }
    }
}

} // verus!
