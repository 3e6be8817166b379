//! Resolution of a query string as the identifier of an object on another
//! host.
//!
//! The resolver decides; its caller fetches and stores. A resolution starts
//! with `resolve`, which either ends at once or asks for the object to be
//! fetched. Each result of that outside work is handed to `step`, which
//! asks for the next piece of work or ends the resolution. Whatever goes
//! wrong on the way, the resolution ends as not applicable.

use crate::kinds::{EntityKind, SearchType};
use crate::response::{LocalEntity, SearchResponse, SearchResponseView};
use crate::text::same_text;
use crate::uri::{addresses_remote_host, is_remote};
use vstd::prelude::*;

verus! {

/// The time allowed for fetching one object, in seconds.
pub const FETCH_TIMEOUT_SECONDS: u64 = 10;

/// An object as it was fetched from another host.
#[derive(Debug, PartialEq, Eq)]
pub struct RemoteObject {
    /// The kind the object declares itself to be.
    pub declared_kind: String,
    /// The object as it was received.
    pub document: String,
}

/// Why an object could not be fetched.
#[derive(Debug, PartialEq, Eq)]
pub struct FetchError {
    pub reason: String,
}

/// Why a fetched object could not be stored.
#[derive(Debug, PartialEq, Eq)]
pub struct MaterializationError {
    pub reason: String,
}

/// How a resolution ended.
#[derive(Debug, PartialEq, Eq)]
pub enum RemoteResolutionOutcome {
    /// The query named an object; the answer holds it and nothing else.
    Resolved(SearchResponse),
    /// The query names no object on another host, or the object could not
    /// be had.
    NotApplicable,
    /// The resolution could not be carried out. The resolver of this
    /// library never ends so; the variant is for callers that resolve by
    /// other means.
    TransientFailure(String),
}

/// What a resolution is waiting for.
#[derive(Clone, Copy, Debug, PartialEq, Eq, Structural)]
pub enum ResolverPhase {
    /// The object is being fetched.
    Fetching,
    /// The fetched object, of the given kind, is being stored.
    Materializing(EntityKind),
    /// The resolution has ended.
    Done,
}

/// What the caller of the resolver is to do next.
#[derive(Debug, PartialEq, Eq)]
pub enum ResolverAction {
    /// Fetch the object at `uri`, giving up after `timeout_seconds`.
    Fetch { uri: String, timeout_seconds: u64 },
    /// Store `object` as a row of `kind`, or update the row it has.
    Materialize { kind: EntityKind, object: RemoteObject },
    /// The resolution has ended with this outcome.
    Finish(RemoteResolutionOutcome),
}

/// The result of a piece of outside work.
#[derive(Debug, PartialEq, Eq)]
pub enum ResolverEvent {
    Fetched(Result<RemoteObject, FetchError>),
    Materialized(Result<LocalEntity, MaterializationError>),
}

/// A resolution under way.
#[derive(Debug, PartialEq, Eq)]
pub struct RemoteObjectResolver {
    pub phase: ResolverPhase,
}

/// The kind of row that an object of the declared kind `label` becomes.
pub open spec fn declared_kind_named(label: Seq<char>) -> Option<EntityKind> {
    if label == "Page"@ {
        Some(EntityKind::Post)
    } else if label == "Note"@ {
        Some(EntityKind::Comment)
    } else if label == "Group"@ {
        Some(EntityKind::Community)
    } else if label == "Person"@ {
        Some(EntityKind::User)
    } else {
        None
    }
}

/// The kind of row that an object of the declared kind `label` becomes.
pub fn declared_kind(label: &str) -> (kind: Option<EntityKind>)
    ensures
        kind == declared_kind_named(label@),
{
    if same_text(label, "Page") {
        Some(EntityKind::Post)
    } else if same_text(label, "Note") {
        Some(EntityKind::Comment)
    } else if same_text(label, "Group") {
        Some(EntityKind::Community)
    } else if same_text(label, "Person") {
        Some(EntityKind::User)
    } else {
        None
    }
}

/// The action ends the resolution as not applicable.
pub open spec fn ends_not_applicable(next: (RemoteObjectResolver, ResolverAction)) -> bool {
    &&& next.0.phase == ResolverPhase::Done
    &&& next.1 == ResolverAction::Finish(RemoteResolutionOutcome::NotApplicable)
}

impl RemoteObjectResolver {
    /// Starts the resolution of `candidate` on the host `local_host`.
    ///
    /// A candidate that is no identifier, or that addresses the local host
    /// itself, ends the resolution at once and nothing is fetched. Every
    /// other candidate is to be fetched, within the time allowed.
    pub fn resolve(candidate: &str, local_host: &str) -> (next: (
        RemoteObjectResolver,
        ResolverAction,
    ))
        ensures
            if is_remote(candidate@, local_host@) {
                &&& next.0.phase == ResolverPhase::Fetching
                &&& next.1 matches ResolverAction::Fetch { uri, timeout_seconds }
                &&& uri@ == candidate@
                &&& timeout_seconds == FETCH_TIMEOUT_SECONDS
            } else {
                ends_not_applicable(next)
            },
    {
        if addresses_remote_host(candidate, local_host) {
            (
                RemoteObjectResolver { phase: ResolverPhase::Fetching },
                ResolverAction::Fetch {
                    uri: candidate.to_owned(),
                    timeout_seconds: FETCH_TIMEOUT_SECONDS,
                },
            )
        } else {
            (
                RemoteObjectResolver { phase: ResolverPhase::Done },
                ResolverAction::Finish(RemoteResolutionOutcome::NotApplicable),
            )
        }
    }

    /// Takes the result of the work that was asked for last.
    ///
    /// A fetched object whose declared kind is known is to be stored as a
    /// row of that kind. A stored row of that kind ends the resolution with
    /// an answer that holds the row alone. A failure, an object of unknown
    /// kind, a row of another kind, and a result that was not asked for all
    /// end the resolution as not applicable.
    pub fn step(self, event: ResolverEvent) -> (next: (RemoteObjectResolver, ResolverAction))
        ensures
            match (self.phase, event) {
                (ResolverPhase::Fetching, ResolverEvent::Fetched(Ok(object))) => {
                    match declared_kind_named(object.declared_kind@) {
                        Some(kind) => {
                            &&& next.0.phase == ResolverPhase::Materializing(kind)
                            &&& next.1 == (ResolverAction::Materialize { kind, object })
                        },
                        None => ends_not_applicable(next),
                    }
                },
                (ResolverPhase::Materializing(kind), ResolverEvent::Materialized(Ok(entity))) => {
                    if entity.kind() == kind {
                        &&& next.0.phase == ResolverPhase::Done
                        &&& next.1 matches ResolverAction::Finish(
                            RemoteResolutionOutcome::Resolved(response),
                        )
                        &&& response@ == SearchResponseView::holding(SearchType::All.name(), entity)
                        &&& response@.populated_buckets() == 1
                    } else {
                        ends_not_applicable(next)
                    }
                },
                _ => ends_not_applicable(next),
            },
    {
        let ended = (
            RemoteObjectResolver { phase: ResolverPhase::Done },
            ResolverAction::Finish(RemoteResolutionOutcome::NotApplicable),
        );
        match (self.phase, event) {
            (ResolverPhase::Fetching, ResolverEvent::Fetched(Ok(object))) => {
                match declared_kind(object.declared_kind.as_str()) {
                    Some(kind) => (
                        RemoteObjectResolver { phase: ResolverPhase::Materializing(kind) },
                        ResolverAction::Materialize { kind, object },
                    ),
                    None => ended,
                }
            },
            (ResolverPhase::Materializing(kind), ResolverEvent::Materialized(Ok(entity))) => {
                if entity.entity_kind() == kind {
                    let response = SearchResponse::of_entity(
                        SearchType::All.as_str().to_owned(),
                        entity,
                    );
                    (
                        RemoteObjectResolver { phase: ResolverPhase::Done },
                        ResolverAction::Finish(RemoteResolutionOutcome::Resolved(response)),
                    )
                } else {
                    ended
                }
            },
            _ => ended,
        }
    }
}

} // verus!
