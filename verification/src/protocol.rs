use vstd::prelude::*;

use crate::errors::Error;
use crate::types::AtomId;

verus! {

/// The named protocol identifiers this client interns once per connection.
#[derive(Clone, Copy, PartialEq, Eq, Structural, Debug)]
pub enum AtomRole {
    /// Per-window property enumerating the protocols the window opts into.
    ProtocolList,
    /// Always registered; a message naming it asks the window to close.
    CloseRequest,
    /// Liveness check; echoed back to the shell, never surfaced to the caller.
    PingKeepalive,
    /// Property holding a window's UTF-8 title.
    WindowName,
    /// The UTF-8 string property type used by the title.
    NameEncoding,
    /// Registered for a window exactly while synchronized redraw is enabled.
    SyncRequest,
    /// Per-window property holding the native sync counter identifier.
    SyncCounterProperty,
    /// Identifies synthetic global messages carrying an opaque payload.
    UserMessage,
}

impl AtomRole {
    /// The wire name each role is interned under.
    pub open spec fn spec_name(self) -> Seq<char> {
        match self {
            AtomRole::ProtocolList => "WM_PROTOCOLS"@,
            AtomRole::CloseRequest => "WM_DELETE_WINDOW"@,
            AtomRole::PingKeepalive => "_NET_WM_PING"@,
            AtomRole::WindowName => "_NET_WM_NAME"@,
            AtomRole::NameEncoding => "UTF8_STRING"@,
            AtomRole::SyncRequest => "_NET_WM_SYNC_REQUEST"@,
            AtomRole::SyncCounterProperty => "_NET_WM_SYNC_REQUEST_COUNTER"@,
            AtomRole::UserMessage => "FEJIXWM_USER_EVENT"@,
        }
    }

    /// The wire name to intern this role under.
    pub fn name(&self) -> (r: &'static str)
        ensures
            r@ == self.spec_name(),
    {
        match self {
            AtomRole::ProtocolList => "WM_PROTOCOLS",
            AtomRole::CloseRequest => "WM_DELETE_WINDOW",
            AtomRole::PingKeepalive => "_NET_WM_PING",
            AtomRole::WindowName => "_NET_WM_NAME",
            AtomRole::NameEncoding => "UTF8_STRING",
            AtomRole::SyncRequest => "_NET_WM_SYNC_REQUEST",
            AtomRole::SyncCounterProperty => "_NET_WM_SYNC_REQUEST_COUNTER",
            AtomRole::UserMessage => "FEJIXWM_USER_EVENT",
        }
    }

    /// Every role, in the order a connection interns them.
    pub fn all() -> (r: Vec<AtomRole>)
        ensures
            r@ == seq![
                AtomRole::ProtocolList,
                AtomRole::CloseRequest,
                AtomRole::PingKeepalive,
                AtomRole::WindowName,
                AtomRole::NameEncoding,
                AtomRole::SyncRequest,
                AtomRole::SyncCounterProperty,
                AtomRole::UserMessage,
            ],
    {
        let r = vec![
            AtomRole::ProtocolList,
            AtomRole::CloseRequest,
            AtomRole::PingKeepalive,
            AtomRole::WindowName,
            AtomRole::NameEncoding,
            AtomRole::SyncRequest,
            AtomRole::SyncCounterProperty,
            AtomRole::UserMessage,
        ];
        proof {
            assert(r@ =~= seq![
                AtomRole::ProtocolList,
                AtomRole::CloseRequest,
                AtomRole::PingKeepalive,
                AtomRole::WindowName,
                AtomRole::NameEncoding,
                AtomRole::SyncRequest,
                AtomRole::SyncCounterProperty,
                AtomRole::UserMessage,
            ]);
        }
        r
    }
}

/// The interned protocol identifiers of one connection, one per [`AtomRole`].
#[derive(Clone, Copy, PartialEq, Eq, Structural, Debug)]
pub struct AtomTable {
    pub protocol_list: AtomId,
    pub close_request: AtomId,
    pub ping_keepalive: AtomId,
    pub window_name: AtomId,
    pub name_encoding: AtomId,
    pub sync_request: AtomId,
    pub sync_counter_property: AtomId,
    pub user_message: AtomId,
}

impl AtomTable {
    /// The table's entries in interning order.
    pub open spec fn spec_entries(self) -> Seq<AtomId> {
        seq![
            self.protocol_list,
            self.close_request,
            self.ping_keepalive,
            self.window_name,
            self.name_encoding,
            self.sync_request,
            self.sync_counter_property,
            self.user_message,
        ]
    }

    /// A usable table: the shell interns distinct names to distinct, nonzero
    /// identifiers.
    pub open spec fn spec_valid(self) -> bool {
        &&& forall|i: int, j: int|
            0 <= i < j < self.spec_entries().len() ==> self.spec_entries()[i]
                != self.spec_entries()[j]
        &&& forall|i: int| 0 <= i < self.spec_entries().len() ==> self.spec_entries()[i] != 0
    }

    /// Builds the table from the identifiers the shell returned, in interning
    /// order. Rejects a reply the shell cannot legally give: interned
    /// identifiers are nonzero and distinct names intern to distinct values.
    pub fn new(entries: &Vec<AtomId>) -> (r: Result<AtomTable, Error>)
        ensures
            match r {
                Ok(t) => {
                    &&& entries@.len() == 8
                    &&& t.spec_entries() =~= entries@
                    &&& t.spec_valid()
                },
                Err(e) => {
                    &&& e == Error::InvalidArgument
                    &&& (entries@.len() != 8 || !(AtomTable {
                        protocol_list: entries@[0],
                        close_request: entries@[1],
                        ping_keepalive: entries@[2],
                        window_name: entries@[3],
                        name_encoding: entries@[4],
                        sync_request: entries@[5],
                        sync_counter_property: entries@[6],
                        user_message: entries@[7],
                    }).spec_valid())
                },
            },
    {
        if entries.len() != 8 {
            return Err(Error::InvalidArgument);
        }
        let t = AtomTable {
            protocol_list: entries[0],
            close_request: entries[1],
            ping_keepalive: entries[2],
            window_name: entries[3],
            name_encoding: entries[4],
            sync_request: entries[5],
            sync_counter_property: entries[6],
            user_message: entries[7],
        };
        proof {
            assert(t.spec_entries() =~= entries@);
        }
        let mut i: usize = 0;
        while i < 8
            invariant
                i <= 8,
                t.spec_entries().len() == 8,
                t.spec_entries() =~= entries@,
                entries@.len() == 8,
                forall|p: int, q: int| 0 <= p < q < i ==> t.spec_entries()[p] != t.spec_entries()[q],
                forall|p: int| 0 <= p < i ==> t.spec_entries()[p] != 0,
            decreases 8 - i,
        {
            if entries[i] == 0 {
                return Err(Error::InvalidArgument);
            }
            let mut j: usize = 0;
            while j < i
                invariant
                    j <= i < 8,
                    t.spec_entries().len() == 8,
                    t.spec_entries() =~= entries@,
                    entries@.len() == 8,
                    forall|p: int| 0 <= p < j ==> t.spec_entries()[p] != t.spec_entries()[i as int],
                decreases i - j,
            {
                if entries[j] == entries[i] {
                    return Err(Error::InvalidArgument);
                }
                j += 1;
            }
            i += 1;
        }
        Ok(t)
    }
}

} // verus!
