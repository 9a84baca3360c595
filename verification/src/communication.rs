use vstd::prelude::*;

use crate::errors::{map_registration_error, registration_report, ErrorClass, ErrorReport, ErrorReportView, RegistrationError};
use crate::listeners::ListenerRegistry;
use crate::uri::{UUri, UUriView};

verus! {

/// The `Debug` text of the up-rust identifier with the fields of `uri`.
pub uninterp spec fn uri_debug_text(uri: UUriView) -> Seq<char>;

/// `Debug` formatting (`{:?}`) of the `up_rust::UUri` with the fields of `topic`. Claimed: the
/// text is the named result for those fields, and no identifier with other fields has the same
/// text (the derived `Debug` prints every field, the authority quoted and escaped).
#[verifier::external_body]
fn outside_uri_debug_text(topic: &UUri) -> (r: String)
    ensures
        r@ == uri_debug_text(topic@),
        forall|other: UUriView| other != topic@ ==> uri_debug_text(other) != r@,
{
    let uri = up_rust::UUri {
        authority_name: topic.authority_name.clone(),
        ue_id: topic.ue_id,
        ue_version_major: topic.ue_version_major,
        resource_id: topic.resource_id,
        ..Default::default()
    };
    format!("{:?}", uri)
}

/// The listeners after filing `listener` under the topic text `key`.
pub open spec fn spec_start<L>(m: Map<Seq<char>, L>, key: Seq<char>, listener: L) -> Map<Seq<char>, L> {
    m.insert(key, listener)
}

/// The listener filed under the topic text `key`, if any.
pub open spec fn spec_listener_for<L>(m: Map<Seq<char>, L>, key: Seq<char>) -> Option<L> {
    if m.contains_key(key) {
        Some(m[key])
    } else {
        None
    }
}

/// The listeners after the one under the topic text `key` is stopped.
pub open spec fn spec_stop<L>(m: Map<Seq<char>, L>, key: Seq<char>) -> Map<Seq<char>, L> {
    m.remove(key)
}

/// The `RegistrationError` raised where no listener is filed for a topic:
/// text `No listener registered for topic: TEXT`, kind `NOT_FOUND`.
pub open spec fn no_listener_report(key: Seq<char>) -> ErrorReportView {
    ErrorReportView {
        class: ErrorClass::Registration,
        text: "No listener registered for topic: "@ + key,
        kind: Some("NOT_FOUND"@),
        code: None,
        message: Some("no listener registered for given pattern"@),
    }
}

/// Whether distinct identifiers other than `topic` have texts other than that of `topic`.
pub open spec fn topic_text_distinct(topic: UUriView) -> bool {
    forall|other: UUriView| other != topic ==> uri_debug_text(other) != uri_debug_text(topic)
}

/// Notifier as the bindings keep it: the notifier itself (`inner`), which sends and receives
/// notifications, and the listeners started through the bindings, filed by the text of their
/// topic.
///
/// A listener is filed only after the notifier has accepted it, and taken out only after the
/// notifier has let it go.
pub struct SimpleNotifier<N, L> {
    pub inner: N,
    listeners: ListenerRegistry<String, L>,
}

impl<N, L> SimpleNotifier<N, L> {
    /// The notifier's internal consistency.
    pub closed spec fn wf(&self) -> bool {
        self.listeners.wf()
    }

    /// The notifier that sends and receives.
    pub closed spec fn spec_inner(&self) -> N {
        self.inner
    }

    /// The listeners started through the bindings, by the text of their topic.
    pub closed spec fn listeners_view(&self) -> Map<Seq<char>, L> {
        self.listeners@
    }

    /// Wraps the notifier `inner`, with no listener filed.
    pub fn new(inner: N) -> (r: Self)
        ensures
            r.wf(),
            r.spec_inner() == inner,
            r.listeners_view() == Map::<Seq<char>, L>::empty(),
    {
        SimpleNotifier { inner, listeners: ListenerRegistry::new() }
    }

    /// The key under which listeners for `topic` are filed: the topic's text, which no other
    /// identifier shares.
    pub fn topic_key(topic: &UUri) -> (r: String)
        ensures
            r@ == uri_debug_text(topic@),
            topic_text_distinct(topic@),
    {
        outside_uri_debug_text(topic)
    }

    /// Records the notifier's answer to starting `listener` on `topic`: on
    /// success the listener is filed under the topic (replacing any before); on failure nothing
    /// changes and the failure becomes a `RegistrationError` with context
    /// `Failed to start listening`.
    pub fn start_listening(&mut self, topic: &UUri, listener: L, outcome: Result<(), RegistrationError>) -> (r: Result<(), ErrorReport>)
        requires
            old(self).wf(),
        ensures
            final(self).wf(),
            final(self).spec_inner() == old(self).spec_inner(),
            topic_text_distinct(topic@),
            outcome is Ok ==> r is Ok && final(self).listeners_view() == spec_start(
                old(self).listeners_view(),
                uri_debug_text(topic@),
                listener,
            ),
            outcome matches Err(e) ==> (r matches Err(rep) && rep@ == registration_report("Failed to start listening"@, e))
                && final(self).listeners_view() == old(self).listeners_view(),
    {
        let key = Self::topic_key(topic);
        match outcome {
            Ok(()) => {
                self.listeners.insert(key, listener);
                Ok(())
            },
            Err(e) => Err(map_registration_error("Failed to start listening", e)),
        }
    }

    /// The listener filed for `topic`, to be handed to the notifier for stopping (the caller's
    /// callback plays no part). Where none is filed, fails with a `RegistrationError`
    /// `No listener registered for topic: TEXT` of kind `NOT_FOUND`.
    pub fn listener_for(&self, topic: &UUri) -> (r: Result<&L, ErrorReport>)
        requires
            self.wf(),
        ensures
            topic_text_distinct(topic@),
            spec_listener_for(self.listeners_view(), uri_debug_text(topic@)) matches Some(l)
                ==> (r matches Ok(x) && *x == l),
            spec_listener_for(self.listeners_view(), uri_debug_text(topic@)) is None
                ==> (r matches Err(e) && e@ == no_listener_report(uri_debug_text(topic@))),
    {
        let key = Self::topic_key(topic);
        match self.listeners.get(&key) {
            Some(l) => Ok(l),
            None => {
                let mut text = String::from_str("No listener registered for topic: ");
                text.append(key.as_str());
                Err(ErrorReport {
                    class: ErrorClass::Registration,
                    text,
                    kind: Some(String::from_str("NOT_FOUND")),
                    code: None,
                    message: Some(String::from_str("no listener registered for given pattern")),
                })
            },
        }
    }

    /// Records the notifier's answer to stopping the listener on `topic`: on success the
    /// listener is taken out; on failure nothing changes and the failure becomes a
    /// `RegistrationError` with context `Failed to stop listening`.
    pub fn stop_listening(&mut self, topic: &UUri, outcome: Result<(), RegistrationError>) -> (r: Result<(), ErrorReport>)
        requires
            old(self).wf(),
        ensures
            final(self).wf(),
            final(self).spec_inner() == old(self).spec_inner(),
            topic_text_distinct(topic@),
            outcome is Ok ==> r is Ok && final(self).listeners_view() == spec_stop(
                old(self).listeners_view(),
                uri_debug_text(topic@),
            ),
            outcome matches Err(e) ==> (r matches Err(rep) && rep@ == registration_report("Failed to stop listening"@, e))
                && final(self).listeners_view() == old(self).listeners_view(),
    {
        let key = Self::topic_key(topic);
        match outcome {
            Ok(()) => {
                let _ = self.listeners.remove(&key);
                Ok(())
            },
            Err(e) => Err(map_registration_error("Failed to stop listening", e)),
        }
    }
}

/// Stopping a topic takes out that topic's listener and no other: afterwards nothing is filed
/// under its text, and every other text has exactly the listener it had before.
pub proof fn stop_touches_only_its_topic<L>(m: Map<Seq<char>, L>, key: Seq<char>, other: Seq<char>)
    ensures
        !spec_stop(m, key).contains_key(key),
        other != key ==> spec_stop(m, key).contains_key(other) == m.contains_key(other),
        other != key && m.contains_key(other) ==> spec_stop(m, key)[other] == m[other],
        spec_stop(m, key).dom().len() <= m.dom().len() || !m.dom().finite(),
{
    if m.dom().finite() {
        if m.contains_key(key) {
            assert(spec_stop(m, key).dom() =~= m.dom().remove(key));
        } else {
            assert(spec_stop(m, key).dom() =~= m.dom());
        }
    }
}

/// Starting a listener on a topic files it under that topic's text and changes no other
/// topic's listener.
pub proof fn start_touches_only_its_topic<L>(m: Map<Seq<char>, L>, key: Seq<char>, listener: L, other: Seq<char>)
    ensures
        spec_start(m, key, listener).contains_key(key),
        spec_start(m, key, listener)[key] == listener,
        other != key ==> spec_start(m, key, listener).contains_key(other) == m.contains_key(other),
        other != key && m.contains_key(other) ==> spec_start(m, key, listener)[other] == m[other],
{
}

/// The listener found for a topic text is the one filed under it, and none is found exactly
/// where none is filed.
pub proof fn lookup_finds_the_filed_listener<L>(m: Map<Seq<char>, L>, key: Seq<char>)
    ensures
        (spec_listener_for(m, key) is Some) == m.contains_key(key),
        spec_listener_for(m, key) matches Some(l) ==> l == m[key],
{
}

/// Starting, finding and stopping, as `start_listening`, `listener_for` and `stop_listening`
/// perform them: the listener started on a topic is the one found for it; once stopped,
/// nothing is found for the topic (so stopping again is refused); and starting on another
/// topic does not change what is found for this one (topic texts being distinct, as
/// `topic_key` and every notifier step ensure).
pub proof fn start_then_stop<L>(m: Map<Seq<char>, L>, topic: UUriView, listener: L, other: UUriView, other_listener: L)
    ensures
        spec_listener_for(spec_start(m, uri_debug_text(topic), listener), uri_debug_text(topic)) == Some(listener),
        spec_listener_for(spec_stop(spec_start(m, uri_debug_text(topic), listener), uri_debug_text(topic)), uri_debug_text(topic)) is None,
        spec_listener_for(spec_stop(m, uri_debug_text(topic)), uri_debug_text(topic)) is None,
        topic_text_distinct(topic) && other != topic ==> spec_listener_for(spec_start(m, uri_debug_text(other), other_listener), uri_debug_text(topic))
            == spec_listener_for(m, uri_debug_text(topic)),
{
}

/// A stop refused for want of a listener is raised as `RegistrationError` of kind `NOT_FOUND`,
/// and its text ends with the topic's text.
pub proof fn missing_listener_is_not_found(key: Seq<char>)
    ensures
        no_listener_report(key).class == ErrorClass::Registration,
        no_listener_report(key).kind == Some("NOT_FOUND"@),
        no_listener_report(key).code is None,
        no_listener_report(key).text.len() >= key.len(),
        no_listener_report(key).text.subrange(no_listener_report(key).text.len() - key.len(), no_listener_report(key).text.len() as int) == key,
{
    let t = no_listener_report(key).text;
    assert(t.subrange(t.len() - key.len(), t.len() as int) =~= key);
}

} // verus!
