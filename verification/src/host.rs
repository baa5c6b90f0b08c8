//! The plugin-facing view of a host instance.
//!
//! A host presents a record of four required UTF-8 strings (name, vendor,
//! url, version), the protocol version it talks, and a table of the
//! capabilities it offers; the record stays valid and unchanged for the
//! instance's lifetime. The raw wire record is validated once at the process
//! boundary; this module works on the validated plain values. A handle over
//! the same record additionally carries the host's request entry points,
//! which any context may call: they only enqueue non-blocking notifications
//! for the main context, or fail cleanly where the operation is not
//! implemented.

use vstd::prelude::*;

use crate::extension::ExtensionDescriptor;
use crate::extension::find_extension;
use crate::extension::first_match;
use crate::extension::table_view;
use crate::msg::MainThreadMessage;
use crate::msg::MessageQueue;

verus! {

/// The protocol version a host declares: a major/minor/revision triple.
#[derive(Copy, Clone, Debug, PartialEq, Eq, Structural)]
pub struct ClapVersion {
    pub major: u32,
    pub minor: u32,
    pub revision: u32,
}

/// Failures of a host request. An operation whose semantics this layer does
/// not implement fails loudly with `Unsupported` instead of silently
/// succeeding.
#[derive(Copy, Clone, Debug, PartialEq, Eq, Structural)]
pub enum HostError {
    Unsupported,
}

/// A host's instantiation-time record: identity strings, protocol version,
/// and the capability table the host offers to the plugin. Read-only once
/// constructed.
pub struct HostInfo {
    name: String,
    vendor: String,
    url: String,
    version: String,
    clap_version: ClapVersion,
    extensions: Vec<ExtensionDescriptor>,
}

impl HostInfo {
    /// The host's name.
    pub closed spec fn spec_name(self) -> Seq<char> {
        self.name@
    }

    /// The host's vendor.
    pub closed spec fn spec_vendor(self) -> Seq<char> {
        self.vendor@
    }

    /// The host's url.
    pub closed spec fn spec_url(self) -> Seq<char> {
        self.url@
    }

    /// The host's own version string.
    pub closed spec fn spec_version(self) -> Seq<char> {
        self.version@
    }

    /// The protocol version the host declares.
    pub closed spec fn spec_clap_version(self) -> ClapVersion {
        self.clap_version
    }

    /// The host's capability table, as identifier/handle pairs in offer
    /// order.
    pub closed spec fn spec_extensions(self) -> Seq<(Seq<u8>, u64)> {
        table_view(self.extensions@)
    }

    /// Assembles a host record from already-validated plain values.
    pub fn new(
        name: String,
        vendor: String,
        url: String,
        version: String,
        clap_version: ClapVersion,
        extensions: Vec<ExtensionDescriptor>,
    ) -> (r: HostInfo)
        ensures
            r.spec_name() == name@,
            r.spec_vendor() == vendor@,
            r.spec_url() == url@,
            r.spec_version() == version@,
            r.spec_clap_version() == clap_version,
            r.spec_extensions() == table_view(extensions@),
    {
        HostInfo { name, vendor, url, version, clap_version, extensions }
    }

    /// The protocol version the host declares.
    pub fn clap_version(&self) -> (r: ClapVersion)
        ensures
            r == self.spec_clap_version(),
    {
        self.clap_version
    }

    /// The host's name.
    pub fn name(&self) -> (r: &str)
        ensures
            r@ == self.spec_name(),
    {
        self.name.as_str()
    }

    /// The host's vendor.
    pub fn vendor(&self) -> (r: &str)
        ensures
            r@ == self.spec_vendor(),
    {
        self.vendor.as_str()
    }

    /// The host's url.
    pub fn url(&self) -> (r: &str)
        ensures
            r@ == self.spec_url(),
    {
        self.url.as_str()
    }

    /// The host's own version string.
    pub fn version(&self) -> (r: &str)
        ensures
            r@ == self.spec_version(),
    {
        self.version.as_str()
    }

    /// Looks a capability up by identifier in the host's table: the handle
    /// of the first exact match, or absence when the host does not offer the
    /// extension — which is not an error; the caller decides whether the
    /// optional feature matters.
    pub fn get_extension(&self, identifier: &[u8]) -> (r: Option<u64>)
        ensures
            r == first_match(self.spec_extensions(), identifier@),
    {
        find_extension(&self.extensions, identifier)
    }

    /// Turns the record into a request-capable handle over the same host,
    /// with no notification pending yet.
    pub fn to_handle(self) -> (r: HostHandle)
        ensures
            r.spec_info() == self,
            r.spec_pending() == Seq::<MainThreadMessage>::empty(),
    {
        HostHandle { info: self, pending: MessageQueue::new() }
    }
}

/// A handle to a host instance: the host's record plus its request entry
/// points. Requests are safe from any context, the audio context included:
/// they never block, only enqueueing a notification that the main-context
/// loop consumes.
pub struct HostHandle {
    info: HostInfo,
    pending: MessageQueue,
}

impl HostHandle {
    /// The host record behind this handle.
    pub closed spec fn spec_info(self) -> HostInfo {
        self.info
    }

    /// The notifications enqueued through this handle and not yet consumed,
    /// oldest first.
    pub closed spec fn spec_pending(self) -> Seq<MainThreadMessage> {
        self.pending@
    }

    /// The host record behind this handle.
    pub fn info(&self) -> (r: &HostInfo)
        ensures
            *r == self.spec_info(),
    {
        &self.info
    }

    /// Asks the host to deactivate and reactivate the plugin. The semantics
    /// of restarting are not implemented by this layer, so the request fails
    /// loudly instead of silently succeeding; nothing is enqueued.
    pub fn request_restart(&mut self) -> (r: Result<(), HostError>)
        ensures
            r == Err::<(), HostError>(HostError::Unsupported),
            *final(self) == *old(self),
    {
        Err(HostError::Unsupported)
    }

    /// Asks the host to start processing audio. Processing is never paused
    /// by this layer, so there is deliberately nothing to do: the handle is
    /// left exactly as it was.
    pub fn request_process(&mut self)
        ensures
            *final(self) == *old(self),
    {
    }

    /// Asks the host to call the plugin back on the main thread: enqueues
    /// the notification for the main-context loop without blocking.
    pub fn request_callback(&mut self)
        ensures
            final(self).spec_info() == old(self).spec_info(),
            final(self).spec_pending() == old(self).spec_pending().push(
                MainThreadMessage::RunOnMainThread,
            ),
    {
        self.pending.send(MainThreadMessage::RunOnMainThread);
    }

    /// Hands the main-context loop the oldest pending notification, if any.
    pub fn take_pending(&mut self) -> (r: Option<MainThreadMessage>)
        ensures
            final(self).spec_info() == old(self).spec_info(),
            old(self).spec_pending().len() == 0 ==> r is None && *final(self) == *old(self),
            old(self).spec_pending().len() > 0 ==> r == Some(old(self).spec_pending()[0])
                && final(self).spec_pending() == old(self).spec_pending().drop_first(),
    {
        self.pending.try_recv()
    }
}

} // verus!
