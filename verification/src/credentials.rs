use vstd::prelude::*;
use crate::metadata::{kv_insert, kv_insert_all, Metadata, MetadataView};
use crate::shared_cell::SharedCell;

verus! {

/// Abstract state of per-call credentials: the metadata to attach, and the
/// transport credentials handle once materialized.
pub struct CallCredentialsView<H> {
    pub metadata: MetadataView,
    pub handle: Option<H>,
}

/// Abstract state of channel credentials: the SSL flag, the three optional
/// file paths (absent whenever SSL is disabled), and the transport
/// credentials handle once materialized.
pub struct ChannelCredentialsView<H> {
    pub ssl_enabled: bool,
    pub cert_file: Option<Seq<char>>,
    pub key_file: Option<Seq<char>>,
    pub ca_file: Option<Seq<char>>,
    pub handle: Option<H>,
}

/// Per-call credentials: metadata that the transport attaches to each
/// request this credentials object decorates.
///
/// Materializing the transport handle is idempotent and not undo-able: the
/// first published handle is kept, later publications are ignored.
pub struct CallCredentials<H> {
    metadata: Metadata,
    cell: SharedCell<H>,
}

impl<H> View for CallCredentials<H> {
    type V = CallCredentialsView<H>;

    closed spec fn view(&self) -> CallCredentialsView<H> {
        CallCredentialsView { metadata: self.metadata@, handle: self.cell@ }
    }
}

impl<H> CallCredentials<H> {
    /// Stores the metadata pairs, inserted in order, a repeated key keeping
    /// its last value.
    pub fn new(metadata: Vec<(String, String)>) -> (c: Self)
        ensures
            c@.metadata == kv_insert_all(
                Seq::<(Seq<char>, Seq<char>)>::empty(),
                metadata.deep_view(),
            ),
            c@.handle is None,
    {
        CallCredentials { metadata: Metadata::from_pairs(metadata), cell: SharedCell::new() }
    }

    /// Inserts one more metadata pair.
    pub fn add_metadata(&mut self, key: String, value: String)
        ensures
            final(self)@.metadata == kv_insert(old(self)@.metadata, key@, value@),
            final(self)@.handle == old(self)@.handle,
    {
        self.metadata.add(key, value);
    }

    /// The metadata to attach, in insertion order.
    pub fn get_metadata(&self) -> (r: Vec<(String, String)>)
        ensures
            r.deep_view() == self@.metadata,
    {
        self.metadata.items()
    }

    /// Describes the materialization: a copy of the metadata for the task
    /// that builds the transport credentials handle and publishes it with
    /// `publish_credentials`.
    pub fn create_call_credentials(&self) -> (r: Vec<(String, String)>)
        ensures
            r.deep_view() == self@.metadata,
    {
        self.metadata.items()
    }

    /// Publishes the materialized handle.  Idempotent and not undo-able:
    /// once a handle is present, it is immutable and later publications are
    /// ignored.
    pub fn publish_credentials(&mut self, h: H)
        ensures
            final(self)@.metadata == old(self)@.metadata,
            final(self)@.handle == if old(self)@.handle is Some {
                old(self)@.handle
            } else {
                Some(h)
            },
    {
        if !self.cell.snapshot() {
            self.cell.publish(h);
        }
    }

    /// Whether the transport handle has been materialized yet.
    pub fn is_materialized(&self) -> (r: bool)
        ensures
            r == (self@.handle is Some),
    {
        self.cell.snapshot()
    }
}

/// Channel-level trust material: an SSL flag and up to three file paths.
/// When SSL is disabled the paths are ignored entirely and never stored.
///
/// Materializing the transport handle is idempotent and not undo-able, as
/// for `CallCredentials`.
pub struct ChannelCredentials<H> {
    ssl_enabled: bool,
    cert_file: Option<String>,
    key_file: Option<String>,
    ca_file: Option<String>,
    cell: SharedCell<H>,
}

impl<H> View for ChannelCredentials<H> {
    type V = ChannelCredentialsView<H>;

    closed spec fn view(&self) -> ChannelCredentialsView<H> {
        ChannelCredentialsView {
            ssl_enabled: self.ssl_enabled,
            cert_file: self.cert_file.deep_view(),
            key_file: self.key_file.deep_view(),
            ca_file: self.ca_file.deep_view(),
            handle: self.cell@,
        }
    }
}

impl<H> ChannelCredentials<H> {
    /// Stores the SSL flag; the paths are kept only when SSL is enabled,
    /// and ignored otherwise.
    pub fn new(
        ssl_enabled: bool,
        cert_file: Option<String>,
        key_file: Option<String>,
        ca_file: Option<String>,
    ) -> (c: Self)
        ensures
            c@.ssl_enabled == ssl_enabled,
            c@.cert_file == if ssl_enabled {
                cert_file.deep_view()
            } else {
                None::<Seq<char>>
            },
            c@.key_file == if ssl_enabled {
                key_file.deep_view()
            } else {
                None::<Seq<char>>
            },
            c@.ca_file == if ssl_enabled {
                ca_file.deep_view()
            } else {
                None::<Seq<char>>
            },
            c@.handle is None,
    {
        if ssl_enabled {
            ChannelCredentials { ssl_enabled, cert_file, key_file, ca_file, cell: SharedCell::new() }
        } else {
            ChannelCredentials {
                ssl_enabled,
                cert_file: None,
                key_file: None,
                ca_file: None,
                cell: SharedCell::new(),
            }
        }
    }

    /// Describes the materialization: the stored configuration for the
    /// task that builds the transport credentials handle — the secure kind
    /// when SSL is enabled, the insecure kind otherwise — and publishes it
    /// with `publish_credentials`.
    pub fn create_channel_credentials(&self) -> (r: (
        bool,
        Option<String>,
        Option<String>,
        Option<String>,
    ))
        ensures
            r.0 == self@.ssl_enabled,
            r.1.deep_view() == self@.cert_file,
            r.2.deep_view() == self@.key_file,
            r.3.deep_view() == self@.ca_file,
    {
        (
            self.ssl_enabled,
            clone_opt_string(&self.cert_file),
            clone_opt_string(&self.key_file),
            clone_opt_string(&self.ca_file),
        )
    }

    /// Publishes the materialized handle.  Idempotent and not undo-able.
    pub fn publish_credentials(&mut self, h: H)
        ensures
            final(self)@.ssl_enabled == old(self)@.ssl_enabled,
            final(self)@.cert_file == old(self)@.cert_file,
            final(self)@.key_file == old(self)@.key_file,
            final(self)@.ca_file == old(self)@.ca_file,
            final(self)@.handle == if old(self)@.handle is Some {
                old(self)@.handle
            } else {
                Some(h)
            },
    {
        if !self.cell.snapshot() {
            self.cell.publish(h);
        }
    }

    /// Whether the transport handle has been materialized yet.
    pub fn is_materialized(&self) -> (r: bool)
        ensures
            r == (self@.handle is Some),
    {
        self.cell.snapshot()
    }

    pub fn is_ssl_enabled(&self) -> (r: bool)
        ensures
            r == self@.ssl_enabled,
    {
        self.ssl_enabled
    }

    pub fn get_cert_file(&self) -> (r: Option<String>)
        ensures
            r.deep_view() == self@.cert_file,
    {
        clone_opt_string(&self.cert_file)
    }

    pub fn get_key_file(&self) -> (r: Option<String>)
        ensures
            r.deep_view() == self@.key_file,
    {
        clone_opt_string(&self.key_file)
    }

    pub fn get_ca_file(&self) -> (r: Option<String>)
        ensures
            r.deep_view() == self@.ca_file,
    {
        clone_opt_string(&self.ca_file)
    }
}

/// A copy of an optional path.
fn clone_opt_string(s: &Option<String>) -> (r: Option<String>)
    ensures
        r.deep_view() == s.deep_view(),
{
    match s {
        Some(p) => Some(p.clone()),
        None => None,
    }
}

} // verus!
