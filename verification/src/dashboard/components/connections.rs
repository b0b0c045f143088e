//! The connections tab: the clients that asked to connect, the clients
//! that may, and the popup that edits one of them.

use vstd::prelude::*;
use crate::address::IpAddress;
use crate::request::DashboardRequest;
use crate::session::{record_views, ClientListAction, ClientRecordView, SessionDocument};

verus! {

/// The hostname that the popup proposes for a client that is added by hand.
pub open spec fn hostname_template() -> Seq<char> {
    "XXXX.client.alvr"@
}

/// The address that a new line of the popup starts with.
pub open spec fn address_template() -> Seq<char> {
    "192.168.1.2"@
}

/// What the popup holds while a client is edited or added.
#[derive(Debug, PartialEq, Eq)]
pub struct EditPopupState {
    /// Whether the client is being added. The hostname of an existing
    /// client cannot be edited.
    pub new_client: bool,
    pub hostname: String,
    /// The manual addresses, one per line, as typed.
    pub ips: Vec<String>,
}

pub struct EditPopupView {
    pub new_client: bool,
    pub hostname: Seq<char>,
    pub ips: Seq<Seq<char>>,
}

impl View for EditPopupState {
    type V = EditPopupView;

    open spec fn view(&self) -> EditPopupView {
        EditPopupView {
            new_client: self.new_client,
            hostname: self.hostname@,
            ips: self.ips.deep_view(),
        }
    }
}

/// The addresses among `parsed`, in order: a line that is no address is
/// passed over.
pub open spec fn addresses_among(parsed: Seq<Option<IpAddress>>) -> Seq<IpAddress>
    decreases parsed.len(),
{
    if parsed.len() == 0 {
        Seq::empty()
    } else {
        match parsed.last() {
            Some(address) => addresses_among(parsed.drop_last()).push(address),
            None => addresses_among(parsed.drop_last()),
        }
    }
}

/// The positions of the entries that are trusted (or, for `false`, that are
/// not), in order.
pub open spec fn positions_with_trust(clients: Seq<ClientRecordView>, trusted: bool) -> Seq<int>
    decreases clients.len(),
{
    if clients.len() == 0 {
        Seq::empty()
    } else {
        let front = positions_with_trust(clients.drop_last(), trusted);
        if clients.last().trusted == trusted {
            front.push(clients.len() - 1)
        } else {
            front
        }
    }
}

/// The same positions as machine integers.
pub open spec fn as_positions(indices: Seq<usize>) -> Seq<int> {
    indices.map_values(|i: usize| i as int)
}

impl EditPopupState {
    /// Adds a line for one more address, filled with a sample.
    pub fn add_address(&mut self)
        ensures
            final(self)@ == (EditPopupView {
                ips: old(self)@.ips.push(address_template()),
                ..old(self)@
            }),
    {
        self.ips.push("192.168.1.2".to_string());
        assert(self.ips.deep_view() =~= old(self).ips.deep_view().push(address_template()));
    }

    /// The request that "Ok" stands for. `parsed` holds, for each line of
    /// the popup, the address it spells, if it spells one. A client that is
    /// being added is added as trusted; an existing client gets its manual
    /// addresses replaced.
    pub fn confirm(self, parsed: Vec<Option<IpAddress>>) -> (request: DashboardRequest)
        ensures
            request matches DashboardRequest::UpdateClientList { hostname, action }
                && hostname@ == self.hostname@ && (if self.new_client {
                action matches ClientListAction::AddIfMissing { trusted, manual_ips } && trusted
                    && manual_ips@ == addresses_among(parsed@)
            } else {
                action matches ClientListAction::SetManualIps(manual_ips) && manual_ips@
                    == addresses_among(parsed@)
            }),
    {
        let mut manual_ips: Vec<IpAddress> = Vec::new();
        let mut i: usize = 0;
        while i < parsed.len()
            invariant
                i <= parsed.len(),
                manual_ips@ == addresses_among(parsed@.take(i as int)),
            decreases parsed.len() - i,
        {
            assert(parsed@.take(i + 1).drop_last() =~= parsed@.take(i as int));
            if let Some(address) = parsed[i] {
                manual_ips.push(address);
            }
            i += 1;
        }
        assert(parsed@.take(i as int) =~= parsed@);
        if self.new_client {
            DashboardRequest::UpdateClientList {
                hostname: self.hostname,
                action: ClientListAction::AddIfMissing { trusted: true, manual_ips },
            }
        } else {
            DashboardRequest::UpdateClientList {
                hostname: self.hostname,
                action: ClientListAction::SetManualIps(manual_ips),
            }
        }
    }
}

/// The state of the connections tab.
#[derive(Debug, PartialEq, Eq)]
pub struct ConnectionsTab {
    edit_popup_state: Option<EditPopupState>,
}

impl View for ConnectionsTab {
    type V = Option<EditPopupView>;

    closed spec fn view(&self) -> Option<EditPopupView> {
        match self.edit_popup_state {
            Some(state) => Some(state@),
            None => None,
        }
    }
}

impl ConnectionsTab {
    /// A tab with the popup closed.
    pub fn new() -> (tab: Self)
        ensures
            tab@ is None,
    {
        Self { edit_popup_state: None }
    }

    /// The positions, in the session's client list, of the clients that are
    /// trusted and of those that are not, each in the order of the list.
    pub fn split_clients(session: &SessionDocument) -> (split: (Vec<usize>, Vec<usize>))
        ensures
            as_positions(split.0@) == positions_with_trust(session@.clients, true),
            as_positions(split.1@) == positions_with_trust(session@.clients, false),
    {
        let clients = session.clients();
        let ghost views = record_views(clients@);
        let mut trusted: Vec<usize> = Vec::new();
        let mut untrusted: Vec<usize> = Vec::new();
        let mut i: usize = 0;
        while i < clients.len()
            invariant
                i <= clients.len(),
                views == record_views(clients@),
                as_positions(trusted@) == positions_with_trust(views.take(i as int), true),
                as_positions(untrusted@) == positions_with_trust(views.take(i as int), false),
            decreases clients.len() - i,
        {
            assert(views.take(i + 1).drop_last() =~= views.take(i as int));
            assert(views.take(i + 1).last() == clients@[i as int]@);
            let ghost t0 = as_positions(trusted@);
            let ghost u0 = as_positions(untrusted@);
            if clients[i].trusted {
                trusted.push(i);
                assert(as_positions(trusted@) =~= t0.push(i as int));
            } else {
                untrusted.push(i);
                assert(as_positions(untrusted@) =~= u0.push(i as int));
            }
            i += 1;
        }
        assert(views.take(i as int) =~= views);
        (trusted, untrusted)
    }

    /// The request that "Trust" stands for.
    pub fn trust_request(hostname: &String) -> (request: DashboardRequest)
        ensures
            request matches DashboardRequest::UpdateClientList { hostname: h, action } && h@
                == hostname@ && action == ClientListAction::Trust,
    {
        DashboardRequest::UpdateClientList {
            hostname: hostname.clone(),
            action: ClientListAction::Trust,
        }
    }

    /// The request that "Remove" stands for.
    pub fn remove_request(hostname: &String) -> (request: DashboardRequest)
        ensures
            request matches DashboardRequest::UpdateClientList { hostname: h, action } && h@
                == hostname@ && action == ClientListAction::RemoveEntry,
    {
        DashboardRequest::UpdateClientList {
            hostname: hostname.clone(),
            action: ClientListAction::RemoveEntry,
        }
    }

    /// Opens the popup on an existing client. `ips` are its manual
    /// addresses, written out.
    pub fn edit_client(&mut self, hostname: &String, ips: Vec<String>)
        ensures
            final(self)@ == Some(
                EditPopupView { new_client: false, hostname: hostname@, ips: ips.deep_view() },
            ),
    {
        self.edit_popup_state = Some(
            EditPopupState { new_client: false, hostname: hostname.clone(), ips },
        );
    }

    /// Opens the popup on a client that is to be added.
    pub fn add_client_manually(&mut self)
        ensures
            final(self)@ == Some(
                EditPopupView {
                    new_client: true,
                    hostname: hostname_template(),
                    ips: Seq::empty(),
                },
            ),
    {
        let ips: Vec<String> = Vec::new();
        assert(ips.deep_view() =~= Seq::<Seq<char>>::empty());
        self.edit_popup_state = Some(
            EditPopupState { hostname: "XXXX.client.alvr".to_string(), new_client: true, ips },
        );
    }

    /// Takes the popup's state out for the frame. What is not put back with
    /// `keep_popup` is gone, which is how "Ok" and "Cancel" close the popup.
    pub fn take_popup(&mut self) -> (state: Option<EditPopupState>)
        ensures
            final(self)@ is None,
            state is Some <==> old(self)@ is Some,
            state matches Some(s) ==> Some(s@) == old(self)@,
    {
        self.edit_popup_state.take()
    }

    /// Puts the popup's state back: the popup stays open.
    pub fn keep_popup(&mut self, state: EditPopupState)
        ensures
            final(self)@ == Some(state@),
    {
        self.edit_popup_state = Some(state);
    }
}

} // verus!
