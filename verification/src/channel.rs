use vstd::prelude::*;
use crate::metadata::{kv_insert_all, Metadata, MetadataView};
use crate::shared_cell::SharedCell;

verus! {

/// Abstract state of a channel: the immutable target and options, and the
/// transport handle, present only between a completed connect attempt and
/// the next disconnect.
pub struct ChannelView<H> {
    pub target: Seq<char>,
    pub options: MetadataView,
    pub handle: Option<H>,
}

/// The channel state after a disconnect: the handle is gone, the
/// configuration stays.
pub open spec fn after_disconnect<H>(c: ChannelView<H>) -> ChannelView<H> {
    ChannelView { target: c.target, options: c.options, handle: None }
}

/// The channel state after a connect attempt publishes `h` (last write
/// wins).
pub open spec fn after_publish<H>(c: ChannelView<H>, h: H) -> ChannelView<H> {
    ChannelView { target: c.target, options: c.options, handle: Some(h) }
}

/// What `is_connected` reports of a channel state.
pub open spec fn reports_connected<H>(c: ChannelView<H>) -> bool {
    c.handle is Some
}

/// Once a channel is disconnected it reports not-connected, whatever handle
/// any earlier connect attempt had published; only a later publication can
/// change the report again.
pub proof fn lemma_disconnect_not_connected<H>(c: ChannelView<H>)
    ensures
        !reports_connected(after_disconnect(c)),
{
}

/// The data a connect attempt needs: a copy of the channel's target and
/// options, handed to the task that builds the transport connection.
#[derive(Debug)]
pub struct ConnectRequest {
    pub target: String,
    pub options: Vec<(String, String)>,
}

/// Client-side connection lifecycle manager: binds a target address to a
/// lazily established transport connection.
///
/// Construction stores configuration only and performs no I/O.  `connect`
/// merely describes the attempt; the runtime performs it on a background
/// task and publishes the resulting handle with `publish_handle`.  A
/// connect failure is therefore never reported here synchronously — it
/// surfaces when a dependent call fails.
pub struct Channel<H> {
    target: String,
    options: Metadata,
    cell: SharedCell<H>,
}

impl<H> View for Channel<H> {
    type V = ChannelView<H>;

    closed spec fn view(&self) -> ChannelView<H> {
        ChannelView { target: self.target@, options: self.options@, handle: self.cell@ }
    }
}

impl<H> Channel<H> {
    /// Stores the target and options; never touches I/O.  Option pairs are
    /// inserted in order, a repeated key keeping its last value.
    pub fn new(target: String, options: Vec<(String, String)>) -> (c: Self)
        ensures
            c@.target == target@,
            c@.options == kv_insert_all(
                Seq::<(Seq<char>, Seq<char>)>::empty(),
                options.deep_view(),
            ),
            c@.handle is None,
    {
        Channel { target, options: Metadata::from_pairs(options), cell: SharedCell::new() }
    }

    /// Describes a connect attempt: a copy of the configuration for the
    /// background task that will build the connection and publish its
    /// handle.  Calling again while an attempt is in flight simply launches
    /// another attempt whose publication overwrites the earlier one.
    pub fn connect(&self) -> (req: ConnectRequest)
        ensures
            req.target@ == self@.target,
            req.options.deep_view() == self@.options,
    {
        ConnectRequest { target: self.target.clone(), options: self.options.items() }
    }

    /// Publishes the handle an attempt produced; last write wins.
    pub fn publish_handle(&mut self, h: H)
        ensures
            final(self)@ == after_publish(old(self)@, h),
    {
        self.cell.publish(h);
    }

    /// Clears the published handle and returns it so the runtime can
    /// release it.  Outstanding calls that still reference the old handle
    /// must independently detect its disappearance.
    pub fn disconnect(&mut self) -> (h: Option<H>)
        ensures
            h == old(self)@.handle,
            final(self)@ == after_disconnect(old(self)@),
    {
        self.cell.take()
    }

    /// A best-effort snapshot of handle presence.  Publication is
    /// asynchronous, so a `true` may be stale a moment later; that race is
    /// inherent, not a defect.
    pub fn is_connected(&self) -> (r: bool)
        ensures
            r == reports_connected(self@),
    {
        self.cell.snapshot()
    }

    pub fn get_target(&self) -> (r: String)
        ensures
            r@ == self@.target,
    {
        self.target.clone()
    }

    /// The configured options, in insertion order.
    pub fn get_options(&self) -> (r: Vec<(String, String)>)
        ensures
            r.deep_view() == self@.options,
    {
        self.options.items()
    }
}

} // verus!
