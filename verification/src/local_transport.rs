use vstd::prelude::*;

use crate::errors::{bare_error, bare_report, map_ustatus_error, status_report, ErrorClass, ErrorReport};
use crate::listeners::{ListenerRegistry, RegistryKey};
use crate::ucode::UStatus;
use crate::uri::{clone_opt_uri, opt_uri_view, same_opt_uri, UUri, UUriView};

verus! {

/// The filter criteria that a listener is registered for: a source pattern and an optional
/// sink pattern.
pub struct FilterKey {
    pub source: UUri,
    pub sink: Option<UUri>,
}

/// The mathematical value of a [`FilterKey`].
pub type FilterView = (UUriView, Option<UUriView>);

impl View for FilterKey {
    type V = FilterView;

    open spec fn view(&self) -> FilterView {
        (self.source@, opt_uri_view(self.sink))
    }
}

impl RegistryKey for FilterKey {
    fn same_key(&self, other: &Self) -> (r: bool) {
        self.source.same_as(&other.source) && same_opt_uri(&self.sink, &other.sink)
    }
}

/// The filter view of a source pattern and an optional sink pattern.
pub open spec fn filter_view(source_filter: &UUri, sink_filter: Option<&UUri>) -> FilterView {
    (
        source_filter@,
        match sink_filter {
            Some(s) => Some(s@),
            None => None,
        },
    )
}

/// Makes the filter key of a source pattern and an optional sink pattern.
pub fn filter_key(source_filter: &UUri, sink_filter: Option<&UUri>) -> (r: FilterKey)
    ensures
        r@ == filter_view(source_filter, sink_filter),
{
    let sink = match sink_filter {
        Some(s) => Some(s.clone()),
        None => None,
    };
    let r = FilterKey { source: source_filter.clone(), sink };
    r
}

/// The listeners after filing `listener`, identified by `id`, under `filters` (replacing
/// whatever was filed there).
pub open spec fn spec_register<L>(m: Map<FilterView, (u64, L)>, filters: FilterView, id: u64, listener: L) -> Map<FilterView, (u64, L)> {
    m.insert(filters, (id, listener))
}

/// Unregistering the listener identified by `id` from `filters`: where that very listener is
/// filed there, the listeners without it and the listener taken out; otherwise `None` (refused).
pub open spec fn spec_unregister<L>(m: Map<FilterView, (u64, L)>, filters: FilterView, id: u64) -> Option<(Map<FilterView, (u64, L)>, L)> {
    if m.contains_key(filters) && m[filters].0 == id {
        Some((m.remove(filters), m[filters].1))
    } else {
        None
    }
}

/// Filter keys tell filters apart field by field: two pairs of source and sink filters have the
/// same key exactly when their sources agree on authority, entity, version and resource, and
/// their sinks are both absent or agree on all four fields.
pub proof fn filter_keys_tell_filters_apart(source1: &UUri, sink1: Option<&UUri>, source2: &UUri, sink2: Option<&UUri>)
    ensures
        (filter_view(source1, sink1) == filter_view(source2, sink2)) == (
            source1.authority_name@ == source2.authority_name@
            && source1.ue_id == source2.ue_id
            && source1.ue_version_major == source2.ue_version_major
            && source1.resource_id == source2.resource_id
            && match (sink1, sink2) {
                (None, None) => true,
                (Some(a), Some(b)) => a.authority_name@ == b.authority_name@
                    && a.ue_id == b.ue_id
                    && a.ue_version_major == b.ue_version_major
                    && a.resource_id == b.resource_id,
                _ => false,
            }
        ),
{
}

/// Registering files the listener with its identity under the filters and leaves every other
/// filter's entry as it was; unregistering succeeds exactly where that identity is filed under
/// the filters, hands back its listener, and then leaves nothing under the filters and every
/// other filter's entry as it was.
pub proof fn filter_steps_touch_only_their_filters<L>(m: Map<FilterView, (u64, L)>, filters: FilterView, id: u64, listener: L, other: FilterView)
    ensures
        spec_register(m, filters, id, listener).contains_key(filters),
        spec_register(m, filters, id, listener)[filters] == (id, listener),
        other != filters ==> spec_register(m, filters, id, listener).contains_key(other) == m.contains_key(other),
        other != filters && m.contains_key(other) ==> spec_register(m, filters, id, listener)[other] == m[other],
        (spec_unregister(m, filters, id) is Some) == (m.contains_key(filters) && m[filters].0 == id),
        spec_unregister(m, filters, id) matches Some((m2, l)) ==> {
            &&& l == m[filters].1
            &&& !m2.contains_key(filters)
            &&& (other != filters ==> m2.contains_key(other) == m.contains_key(other))
            &&& (other != filters && m.contains_key(other) ==> m2[other] == m[other])
        },
{
}

/// In-process transport as the bindings keep it: the transport itself (`inner`), which does
/// the delivery, and the listeners registered through the bindings, filed by their filters
/// together with the identity of the caller's listener object.
///
/// Registration files the listener before the transport is asked; unregistration takes the
/// listener out before the transport is asked, and is refused where the given listener is not
/// the one filed under the filters.
pub struct LocalTransport<T, L> {
    pub inner: T,
    listeners: ListenerRegistry<FilterKey, (u64, L)>,
}

impl<T, L> LocalTransport<T, L> {
    /// The transport's internal consistency.
    pub closed spec fn wf(&self) -> bool {
        self.listeners.wf()
    }

    /// The transport that does the delivery.
    pub closed spec fn spec_inner(&self) -> T {
        self.inner
    }

    /// The listeners filed through the bindings, by filter, with their identities.
    pub closed spec fn listeners_view(&self) -> Map<FilterView, (u64, L)> {
        self.listeners@
    }

    /// Wraps the transport `inner`, with no listener filed.
    pub fn new(inner: T) -> (r: Self)
        ensures
            r.wf(),
            r.spec_inner() == inner,
            r.listeners_view() == Map::<FilterView, (u64, L)>::empty(),
    {
        LocalTransport { inner, listeners: ListenerRegistry::new() }
    }

    /// Files `listener`, whose caller-side identity is `id`, under the filters (replacing any
    /// listener filed there before). This is done before the transport itself is asked to
    /// register it, and stays whatever the transport answers.
    pub fn register_listener(&mut self, source_filter: &UUri, sink_filter: Option<&UUri>, id: u64, listener: L)
        requires
            old(self).wf(),
        ensures
            final(self).wf(),
            final(self).spec_inner() == old(self).spec_inner(),
            final(self).listeners_view() == spec_register(
                old(self).listeners_view(),
                filter_view(source_filter, sink_filter),
                id,
                listener,
            ),
    {
        let key = filter_key(source_filter, sink_filter);
        self.listeners.insert(key, (id, listener));
    }

    /// Takes out the listener with identity `id` filed under the filters, to be handed to the
    /// transport for unregistration. Where no listener is filed there, or another one is,
    /// fails with `UStatusError("Listener not found")` and changes nothing.
    pub fn unregister_listener(&mut self, source_filter: &UUri, sink_filter: Option<&UUri>, id: u64) -> (r: Result<L, ErrorReport>)
        requires
            old(self).wf(),
        ensures
            final(self).wf(),
            final(self).spec_inner() == old(self).spec_inner(),
            match spec_unregister(old(self).listeners_view(), filter_view(source_filter, sink_filter), id) {
                Some((m, l)) => final(self).listeners_view() == m && r == Ok::<L, ErrorReport>(l),
                None => final(self).listeners_view() == old(self).listeners_view() && (r matches Err(e)
                    && e@ == bare_report(ErrorClass::Status, "Listener not found"@)),
            },
    {
        let key = filter_key(source_filter, sink_filter);
        let filed = match self.listeners.get(&key) {
            Some(entry) => entry.0 == id,
            None => false,
        };
        if filed {
            match self.listeners.remove(&key) {
                Some((_, l)) => Ok(l),
                None => Err(bare_error(ErrorClass::Status, String::from_str("Listener not found"))),
            }
        } else {
            Err(bare_error(ErrorClass::Status, String::from_str("Listener not found")))
        }
    }

    /// Maps the transport's answer to a registration: success stays success, a failed status
    /// becomes `UStatusError` with context `Failed to register listener`.
    pub fn register_outcome(outcome: Result<(), UStatus>) -> (r: Result<(), ErrorReport>)
        ensures
            outcome is Ok ==> r is Ok,
            outcome matches Err(s) ==> (r matches Err(e) && e@ == status_report("Failed to register listener"@, s)),
    {
        match outcome {
            Ok(()) => Ok(()),
            Err(s) => Err(map_ustatus_error("Failed to register listener", &s)),
        }
    }

    /// Maps the transport's answer to an unregistration: success stays success, a failed status
    /// becomes `UStatusError` with context `Failed to unregister listener`.
    pub fn unregister_outcome(outcome: Result<(), UStatus>) -> (r: Result<(), ErrorReport>)
        ensures
            outcome is Ok ==> r is Ok,
            outcome matches Err(s) ==> (r matches Err(e) && e@ == status_report("Failed to unregister listener"@, s)),
    {
        match outcome {
            Ok(()) => Ok(()),
            Err(s) => Err(map_ustatus_error("Failed to unregister listener", &s)),
        }
    }
}

/// Registration and unregistration, as `register_listener` and `unregister_listener` perform
/// them: unregistering the listener just registered under some filters hands it back and
/// leaves the filters as they were before minus it; unregistering with any other listener is
/// refused; a second unregistration is refused; and registering under other filters does not
/// change what unregistering these filters does.
pub proof fn register_then_unregister<L>(
    m: Map<FilterView, (u64, L)>,
    filters: FilterView,
    id: u64,
    listener: L,
    other_id: u64,
    other_filters: FilterView,
    other_listener: L,
)
    ensures
        spec_unregister(spec_register(m, filters, id, listener), filters, id) == Some((m.remove(filters), listener)),
        other_id != id ==> spec_unregister(spec_register(m, filters, id, listener), filters, other_id) is None,
        spec_unregister(m.remove(filters), filters, other_id) is None,
        other_filters != filters ==> spec_unregister(spec_register(m, other_filters, other_id, other_listener), filters, id)
            == (match spec_unregister(m, filters, id) {
                Some((m2, l2)) => Some((spec_register(m2, other_filters, other_id, other_listener), l2)),
                None => None,
            }),
{
    let m1 = spec_register(m, filters, id, listener);
    assert(m1.remove(filters) =~= m.remove(filters));
    if other_filters != filters {
        let m3 = spec_register(m, other_filters, other_id, other_listener);
        if m.contains_key(filters) && m[filters].0 == id {
            assert(m3.remove(filters) =~= spec_register(m.remove(filters), other_filters, other_id, other_listener));
        }
    }
}

} // verus!
