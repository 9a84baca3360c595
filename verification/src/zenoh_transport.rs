use vstd::prelude::*;

use crate::errors::{bare_error, bare_report, ErrorClass, ErrorReport};
use crate::listeners::ListenerRegistry;
use crate::local_transport::{filter_key, filter_view, FilterKey, FilterView};
use crate::uattributes::opt_str_view;
use crate::ucode::{StatusDetailView, UStatus};
use crate::uri::UUri;

verus! {

/// The `Display` text of the up-rust status with the given code number, message and details.
pub uninterp spec fn status_display_text(code: i32, message: Option<Seq<char>>, details: Seq<StatusDetailView>) -> Seq<char>;

/// `Display` formatting (`to_string`) of the `up_rust::UStatus` with the code, message and
/// details of `status` (protobuf's text format). Claimed: the text is the named result for
/// those fields; nothing more is stated of it.
#[verifier::external_body]
fn outside_status_text(status: &UStatus) -> (r: String)
    ensures
        r@ == status_display_text(status.code, opt_str_view(status.message), status.spec_details()),
{
    let details = status.details.iter().map(|d| protobuf::well_known_types::any::Any {
        type_url: d.type_url.clone(),
        value: d.value.clone(),
        ..Default::default()
    });
    let status = up_rust::UStatus {
        code: protobuf::EnumOrUnknown::from_i32(status.code),
        message: status.message.clone(),
        details: details.collect(),
        ..Default::default()
    };
    status.to_string()
}

/// The text `context: STATUS` of a transport call that failed with `status`.
pub open spec fn zenoh_failure_text(context: Seq<char>, status: UStatus) -> Seq<char> {
    context + ": "@ + status_display_text(status.code, opt_str_view(status.message), status.spec_details())
}

/// A plain exception `context: STATUS` for a transport call that failed with `status`.
fn zenoh_failure(context: &str, status: &UStatus) -> (r: ErrorReport)
    ensures
        r@ == bare_report(ErrorClass::Plain, zenoh_failure_text(context@, *status)),
{
    let mut text = String::from_str(context);
    text.append(": ");
    let detail = outside_status_text(status);
    text.append(detail.as_str());
    bare_error(ErrorClass::Plain, text)
}

/// Network transport over Zenoh as the bindings keep it: the transport itself (`transport`),
/// which does the delivery, and the listeners registered through the bindings, filed by their
/// filters.
///
/// Registration files the listener before the transport is asked; unregistration takes out
/// whatever listener is filed under the filters before the transport is asked, and is refused
/// where none is filed.
pub struct UPTransportZenoh<T, L> {
    pub transport: T,
    listeners: ListenerRegistry<FilterKey, L>,
}

/// Configuration of a Zenoh transport that is yet to be built: the authority it serves.
pub struct UPTransportZenohBuilder {
    pub authority: String,
}

impl<T, L> UPTransportZenoh<T, L> {
    /// The transport's internal consistency.
    pub closed spec fn wf(&self) -> bool {
        self.listeners.wf()
    }

    /// The transport that does the delivery.
    pub closed spec fn spec_transport(&self) -> T {
        self.transport
    }

    /// The listeners filed through the bindings, by filter.
    pub closed spec fn listeners_view(&self) -> Map<FilterView, L> {
        self.listeners@
    }

    /// Starts the configuration of a transport for `authority`.
    pub fn builder(authority: &str) -> (r: UPTransportZenohBuilder)
        ensures
            r.authority@ == authority@,
    {
        UPTransportZenohBuilder { authority: String::from_str(authority) }
    }

    /// Wraps the built transport `transport`, with no listener filed.
    pub fn new(transport: T) -> (r: Self)
        ensures
            r.wf(),
            r.spec_transport() == transport,
            r.listeners_view() == Map::<FilterView, L>::empty(),
    {
        UPTransportZenoh { transport, listeners: ListenerRegistry::new() }
    }

    /// Files `listener` under the filters (replacing any listener filed there before). This is
    /// done before the transport itself is asked to register it, and stays whatever the
    /// transport answers.
    pub fn register_listener(&mut self, source_filter: &UUri, sink_filter: Option<&UUri>, listener: L)
        requires
            old(self).wf(),
        ensures
            final(self).wf(),
            final(self).spec_transport() == old(self).spec_transport(),
            final(self).listeners_view() == old(self).listeners_view().insert(
                filter_view(source_filter, sink_filter),
                listener,
            ),
    {
        let key = filter_key(source_filter, sink_filter);
        self.listeners.insert(key, listener);
    }

    /// Takes out whatever listener is filed under the filters, to be handed to the transport for
    /// unregistration (the caller's listener object plays no part). Where none is filed, fails
    /// with a plain `Listener not found` exception and changes nothing.
    pub fn unregister_listener(&mut self, source_filter: &UUri, sink_filter: Option<&UUri>) -> (r: Result<L, ErrorReport>)
        requires
            old(self).wf(),
        ensures
            final(self).wf(),
            final(self).spec_transport() == old(self).spec_transport(),
            old(self).listeners_view().contains_key(filter_view(source_filter, sink_filter)) ==> {
                &&& final(self).listeners_view() == old(self).listeners_view().remove(filter_view(source_filter, sink_filter))
                &&& r == Ok::<L, ErrorReport>(old(self).listeners_view()[filter_view(source_filter, sink_filter)])
            },
            !old(self).listeners_view().contains_key(filter_view(source_filter, sink_filter)) ==> {
                &&& final(self).listeners_view() == old(self).listeners_view()
                &&& r matches Err(e) && e@ == bare_report(ErrorClass::Plain, "Listener not found"@)
            },
    {
        let key = filter_key(source_filter, sink_filter);
        match self.listeners.remove(&key) {
            Some(l) => Ok(l),
            None => Err(bare_error(ErrorClass::Plain, String::from_str("Listener not found"))),
        }
    }

    /// Maps the transport's answer to sending a message: a failed status becomes a plain
    /// exception `Failed to send message: STATUS`.
    pub fn send_outcome(outcome: Result<(), UStatus>) -> (r: Result<(), ErrorReport>)
        ensures
            outcome is Ok ==> r is Ok,
            outcome matches Err(s) ==> (r matches Err(e)
                && e@ == bare_report(ErrorClass::Plain, zenoh_failure_text("Failed to send message"@, s))),
    {
        match outcome {
            Ok(()) => Ok(()),
            Err(s) => Err(zenoh_failure("Failed to send message", &s)),
        }
    }

    /// Maps the transport's answer to a registration: a failed status becomes a plain exception
    /// `Failed to register listener: STATUS`.
    pub fn register_outcome(outcome: Result<(), UStatus>) -> (r: Result<(), ErrorReport>)
        ensures
            outcome is Ok ==> r is Ok,
            outcome matches Err(s) ==> (r matches Err(e)
                && e@ == bare_report(ErrorClass::Plain, zenoh_failure_text("Failed to register listener"@, s))),
    {
        match outcome {
            Ok(()) => Ok(()),
            Err(s) => Err(zenoh_failure("Failed to register listener", &s)),
        }
    }

    /// Maps the transport's answer to an unregistration: a failed status becomes a plain
    /// exception `Failed to unregister listener: STATUS`.
    pub fn unregister_outcome(outcome: Result<(), UStatus>) -> (r: Result<(), ErrorReport>)
        ensures
            outcome is Ok ==> r is Ok,
            outcome matches Err(s) ==> (r matches Err(e)
                && e@ == bare_report(ErrorClass::Plain, zenoh_failure_text("Failed to unregister listener"@, s))),
    {
        match outcome {
            Ok(()) => Ok(()),
            Err(s) => Err(zenoh_failure("Failed to unregister listener", &s)),
        }
    }
}

/// Registration and unregistration, as `register_listener` and `unregister_listener` perform
/// them: unregistering filters hands back the listener last registered under them and leaves
/// nothing filed there, so a second unregistration is refused; registering under other
/// filters does not change what is filed under these.
pub proof fn zenoh_register_then_unregister<L>(m: Map<FilterView, L>, filters: FilterView, listener: L, other: FilterView, other_listener: L)
    ensures
        m.insert(filters, listener).contains_key(filters),
        m.insert(filters, listener)[filters] == listener,
        m.insert(filters, listener).remove(filters) == m.remove(filters),
        !m.remove(filters).contains_key(filters),
        other != filters ==> m.insert(other, other_listener).contains_key(filters) == m.contains_key(filters),
        other != filters && m.contains_key(filters) ==> m.insert(other, other_listener)[filters] == m[filters],
{
    assert(m.insert(filters, listener).remove(filters) =~= m.remove(filters));
}

/// The text of a failed Zenoh transport call starts with its context and `": "`, followed by
/// the status's text.
pub proof fn zenoh_failure_text_starts_with_context(context: Seq<char>, status: UStatus)
    ensures
        zenoh_failure_text(context, status).subrange(0, context.len() + 2int) == context + ": "@,
        zenoh_failure_text(context, status).subrange(context.len() + 2int, zenoh_failure_text(context, status).len() as int)
            == status_display_text(status.code, opt_str_view(status.message), status.spec_details()),
{
    reveal_strlit(": ");
    let t = zenoh_failure_text(context, status);
    assert(t.subrange(0, context.len() + 2int) =~= context + ": "@);
    assert(t.subrange(context.len() + 2int, t.len() as int)
        =~= status_display_text(status.code, opt_str_view(status.message), status.spec_details()));
}

} // verus!
