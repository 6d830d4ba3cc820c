//! What a dispatch task asks of the audio engine.
//!
//! A task carries the trigger of one chat message. It first decides between
//! stopping all playback and searching for matching sounds; once the engine
//! has answered a search, one of the matches is picked at random.
//!
//! The engine itself is not part of this crate. The functions here decide; the
//! caller performs the engine calls while it holds the engine's lock, and does
//! nothing when there is no engine.

use crate::text::{lowercase, trim, trimmed};
use rand::seq::SliceRandom;
use vstd::prelude::*;

verus! {

/// The query that stops all playback, `"sh"`.
pub open spec fn stop_token() -> Seq<char> {
    seq!['s', 'h']
}

/// The normal form of a trigger: trimmed, then lowercased.
pub open spec fn normalized(trigger: Seq<char>) -> Seq<char> {
    lowercase(trimmed(trigger))
}

/// A request to the audio engine.
#[derive(Debug, Clone, PartialEq, Eq)]
pub enum EngineRequest {
    /// Halt all playback.
    StopAll,
    /// Search for the sounds that match the text.
    Find(String),
}

/// The mathematical form of an `EngineRequest`.
pub enum EngineRequestModel {
    StopAll,
    Find(Seq<char>),
}

impl View for EngineRequest {
    type V = EngineRequestModel;

    open spec fn view(&self) -> EngineRequestModel {
        match self {
            EngineRequest::StopAll => EngineRequestModel::StopAll,
            EngineRequest::Find(text) => EngineRequestModel::Find(text@),
        }
    }
}

/// The request for a trigger whose trimmed text is `search` and whose normal
/// form is `query`. The stop token is tested first, so it is never searched
/// for.
pub open spec fn request_for(search: Seq<char>, query: Seq<char>) -> EngineRequestModel {
    if query == stop_token() {
        EngineRequestModel::StopAll
    } else {
        EngineRequestModel::Find(search)
    }
}

/// The request for `trigger`: the search uses the trimmed text as it was
/// written, the stop test uses its normal form.
pub open spec fn request_of(trigger: Seq<char>) -> EngineRequestModel {
    request_for(trimmed(trigger), normalized(trigger))
}

/// The normal form of `trigger`: trimmed, then lowercased.
pub fn normalize(trigger: &str) -> (query: String)
    ensures
        query@ == normalized(trigger@),
{
    trim(trigger).to_lowercase()
}

/// Whether `query` is the stop token.
pub fn is_stop_token(query: &str) -> (b: bool)
    ensures
        b == (query@ == stop_token()),
{
    let b = query.unicode_len() == 2 && query.get_char(0) == 's' && query.get_char(1) == 'h';
    proof {
        if b {
            assert(query@ =~= stop_token());
        }
    }
    b
}

/// The request for a trigger, given its trimmed text and its normal form.
pub fn plan_request(search: &str, query: &str) -> (request: EngineRequest)
    ensures
        request@ == request_for(search@, query@),
{
    if is_stop_token(query) {
        EngineRequest::StopAll
    } else {
        EngineRequest::Find(search.to_owned())
    }
}

/// One unit of background work: the trigger of one chat message.
///
/// A task has no identity and reports nothing back to whoever created it.
#[derive(Debug, Clone, PartialEq, Eq)]
pub struct DispatchTask {
    trigger: String,
}

impl View for DispatchTask {
    type V = Seq<char>;

    /// The trigger that the task carries.
    closed spec fn view(&self) -> Seq<char> {
        self.trigger@
    }
}

impl DispatchTask {
    /// A task for `trigger`.
    pub fn new(trigger: String) -> (task: Self)
        ensures
            task@ == trigger@,
    {
        DispatchTask { trigger }
    }

    /// The trigger that the task carries.
    pub fn trigger(&self) -> (trigger: &str)
        ensures
            trigger@ == self@,
    {
        self.trigger.as_str()
    }

    /// What the task asks of the engine first.
    pub fn request(&self) -> (request: EngineRequest)
        ensures
            request@ == request_of(self@),
    {
        let search = trim(self.trigger.as_str());
        let query = search.to_lowercase();
        plan_request(search, query.as_str())
    }
}

/// `SliceRandom::choose` of `rand`, drawing from the thread-local generator
/// `rand::thread_rng()`. It returns `None` for an empty slice and otherwise a
/// reference to the element at a uniformly drawn index. Which element comes
/// back is not determined by the arguments, so the contract states only what
/// holds of every draw. (`thread_rng` panics if the operating system cannot
/// seed the generator for the thread.)
#[verifier::external_body]
fn choose_at_random<T>(items: &[T]) -> (chosen: Option<&T>)
    ensures
        chosen is None <==> items@.len() == 0,
        chosen matches Some(item) ==> exists|i: int| 0 <= i < items@.len() && items@[i] == *item,
{
    items.choose(&mut rand::thread_rng())
}

/// Picks the sound to play among the matches of one search.
///
/// With no match there is nothing to play. Otherwise one of the matches is
/// drawn uniformly at random; the pick is always one of `matches`, so a task
/// never plays a sound that another task's search found.
pub fn select_match<T>(matches: &[T]) -> (selected: Option<&T>)
    ensures
        selected is None <==> matches@.len() == 0,
        selected matches Some(sound) ==> matches@.contains(*sound),
{
    choose_at_random(matches)
}

} // verus!
