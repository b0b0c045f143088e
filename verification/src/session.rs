//! The session document: the streamer's settings and the list of known
//! clients, as the local backend holds it in memory.

use vstd::prelude::*;
use crate::address::{distinct_addresses, first_occurrences, lemma_first_occurrences, IpAddress};

verus! {

/// What is known of one client device. `hostname` identifies it.
#[derive(Debug, PartialEq, Eq)]
pub struct ClientConnectionRecord {
    pub hostname: String,
    pub trusted: bool,
    pub current_ip: Option<IpAddress>,
    pub manual_ips: Vec<IpAddress>,
    pub display_name: String,
}

/// The mathematical content of a `ClientConnectionRecord`.
pub struct ClientRecordView {
    pub hostname: Seq<char>,
    pub trusted: bool,
    pub current_ip: Option<IpAddress>,
    pub manual_ips: Seq<IpAddress>,
    pub display_name: Seq<char>,
}

impl View for ClientConnectionRecord {
    type V = ClientRecordView;

    open spec fn view(&self) -> ClientRecordView {
        ClientRecordView {
            hostname: self.hostname@,
            trusted: self.trusted,
            current_ip: self.current_ip,
            manual_ips: self.manual_ips@,
            display_name: self.display_name@,
        }
    }
}

impl Clone for ClientConnectionRecord {
    fn clone(&self) -> (copy: Self)
        ensures
            copy@ == self@,
    {
        ClientConnectionRecord {
            hostname: self.hostname.clone(),
            trusted: self.trusted,
            current_ip: self.current_ip,
            manual_ips: self.manual_ips.clone(),
            display_name: self.display_name.clone(),
        }
    }
}

/// A change to the entry of one hostname in the client list.
#[derive(Debug, PartialEq, Eq)]
pub enum ClientListAction {
    /// Marks an existing entry as trusted.
    Trust,
    /// Deletes an existing entry.
    RemoveEntry,
    /// Creates the entry unless the hostname already has one.
    AddIfMissing { trusted: bool, manual_ips: Vec<IpAddress> },
    /// Replaces the manual addresses of an existing entry.
    SetManualIps(Vec<IpAddress>),
}

impl Clone for ClientListAction {
    fn clone(&self) -> (copy: Self)
        ensures
            same_action(copy, *self),
    {
        match self {
            ClientListAction::Trust => ClientListAction::Trust,
            ClientListAction::RemoveEntry => ClientListAction::RemoveEntry,
            ClientListAction::AddIfMissing { trusted, manual_ips } => ClientListAction::AddIfMissing {
                trusted: *trusted,
                manual_ips: manual_ips.clone(),
            },
            ClientListAction::SetManualIps(ips) => ClientListAction::SetManualIps(ips.clone()),
        }
    }
}

/// Two actions that ask for the same change.
pub open spec fn same_action(a: ClientListAction, b: ClientListAction) -> bool {
    match (a, b) {
        (ClientListAction::Trust, ClientListAction::Trust) => true,
        (ClientListAction::RemoveEntry, ClientListAction::RemoveEntry) => true,
        (
            ClientListAction::AddIfMissing { trusted: t1, manual_ips: m1 },
            ClientListAction::AddIfMissing { trusted: t2, manual_ips: m2 },
        ) => t1 == t2 && m1@ == m2@,
        (ClientListAction::SetManualIps(m1), ClientListAction::SetManualIps(m2)) => m1@ == m2@,
        _ => false,
    }
}

/// The display name given to an entry that is created without one.
pub open spec fn unnamed_client() -> Seq<char> {
    "Unknown"@
}

/// The views of a list of records, in order.
pub open spec fn record_views(records: Seq<ClientConnectionRecord>) -> Seq<ClientRecordView> {
    records.map_values(|r: ClientConnectionRecord| r@)
}

/// No two entries share a hostname.
pub open spec fn unique_hostnames(clients: Seq<ClientRecordView>) -> bool {
    forall|i: int, j: int|
        0 <= i < j < clients.len() ==> (#[trigger] clients[i]).hostname != (
        #[trigger] clients[j]).hostname
}

/// No entry lists a manual address twice.
pub open spec fn distinct_manual_ips(clients: Seq<ClientRecordView>) -> bool {
    forall|i: int| 0 <= i < clients.len() ==> (#[trigger] clients[i]).manual_ips.no_duplicates()
}

/// A client list as a session document may hold it.
pub open spec fn valid_clients(clients: Seq<ClientRecordView>) -> bool {
    unique_hostnames(clients) && distinct_manual_ips(clients)
}

/// Whether `hostname` has an entry.
pub open spec fn has_client(clients: Seq<ClientRecordView>, hostname: Seq<char>) -> bool {
    exists|i: int| 0 <= i < clients.len() && (#[trigger] clients[i]).hostname == hostname
}

/// The position of the entry of `hostname`, where it has one.
pub open spec fn client_index(clients: Seq<ClientRecordView>, hostname: Seq<char>) -> int {
    choose|i: int| 0 <= i < clients.len() && (#[trigger] clients[i]).hostname == hostname
}

/// How many entries `hostname` has.
pub open spec fn record_count(clients: Seq<ClientRecordView>, hostname: Seq<char>) -> nat
    decreases clients.len(),
{
    if clients.len() == 0 {
        0
    } else {
        let rest = record_count(clients.drop_last(), hostname);
        if clients.last().hostname == hostname {
            rest + 1
        } else {
            rest
        }
    }
}

/// The entry that `AddIfMissing` creates.
pub open spec fn new_client(hostname: Seq<char>, trusted: bool, manual_ips: Seq<IpAddress>) -> ClientRecordView {
    ClientRecordView {
        hostname,
        trusted,
        current_ip: None,
        manual_ips: first_occurrences(manual_ips),
        display_name: unnamed_client(),
    }
}

/// The client list after `action` was applied to the entry of `hostname`.
///
/// `Trust`, `RemoveEntry` and `SetManualIps` change an existing entry and
/// leave the list alone where there is none; `AddIfMissing` appends a new
/// entry and leaves the list alone where there is one already.
pub open spec fn updated_clients(
    clients: Seq<ClientRecordView>,
    hostname: Seq<char>,
    action: ClientListAction,
) -> Seq<ClientRecordView> {
    let present = has_client(clients, hostname);
    let at = client_index(clients, hostname);
    match action {
        ClientListAction::Trust => if present {
            clients.update(at, ClientRecordView { trusted: true, ..clients[at] })
        } else {
            clients
        },
        ClientListAction::RemoveEntry => if present {
            clients.remove(at)
        } else {
            clients
        },
        ClientListAction::AddIfMissing { trusted, manual_ips } => if present {
            clients
        } else {
            clients.push(new_client(hostname, trusted, manual_ips@))
        },
        ClientListAction::SetManualIps(ips) => if present {
            clients.update(
                at,
                ClientRecordView { manual_ips: first_occurrences(ips@), ..clients[at] },
            )
        } else {
            clients
        },
    }
}

/// The same entries, each with its manual addresses reduced to their first
/// occurrences.
pub open spec fn without_repeated_ips(clients: Seq<ClientRecordView>) -> Seq<ClientRecordView> {
    clients.map_values(
        |r: ClientRecordView|
            ClientRecordView { manual_ips: first_occurrences(r.manual_ips), ..r },
    )
}

/// Whether `action` finds the entry it is meant for: an existing one, or,
/// for `AddIfMissing`, none. An action that does not is without effect; one
/// that does is carried out and the session counts as changed, even where
/// the entry already was as asked.
pub open spec fn takes_effect(
    clients: Seq<ClientRecordView>,
    hostname: Seq<char>,
    action: ClientListAction,
) -> bool {
    match action {
        ClientListAction::AddIfMissing { .. } => !has_client(clients, hostname),
        _ => has_client(clients, hostname),
    }
}

/// The mathematical content of a `SessionDocument`.
pub struct SessionView {
    pub settings: Seq<char>,
    pub clients: Seq<ClientRecordView>,
}

/// The whole state that a backend owns: the settings, kept as the text they
/// are stored in, and the client list.
#[derive(Debug, PartialEq, Eq)]
pub struct SessionDocument {
    settings: String,
    clients: Vec<ClientConnectionRecord>,
}

impl View for SessionDocument {
    type V = SessionView;

    closed spec fn view(&self) -> SessionView {
        SessionView { settings: self.settings@, clients: record_views(self.clients@) }
    }
}

impl Clone for SessionDocument {
    fn clone(&self) -> (copy: Self)
        ensures
            copy@ == self@,
    {
        proof {
            use_type_invariant(self);
        }
        let copy = SessionDocument {
            settings: self.settings.clone(),
            clients: clone_records(&self.clients),
        };
        copy
    }
}

/// A copy of each record, in order.
fn clone_records(records: &Vec<ClientConnectionRecord>) -> (copy: Vec<ClientConnectionRecord>)
    ensures
        record_views(copy@) == record_views(records@),
{
    let mut copy: Vec<ClientConnectionRecord> = Vec::new();
    let mut i: usize = 0;
    while i < records.len()
        invariant
            i <= records.len(),
            copy.len() == i,
            forall|k: int| 0 <= k < i ==> (#[trigger] copy@[k])@ == records@[k]@,
        decreases records.len() - i,
    {
        copy.push(records[i].clone());
        i += 1;
    }
    assert(record_views(copy@) =~= record_views(records@));
    copy
}

/// The position of the record of `hostname`, if there is one.
fn find_record(records: &Vec<ClientConnectionRecord>, hostname: &String) -> (at: Option<usize>)
    ensures
        match at {
            Some(i) => i < records.len() && records@[i as int].hostname@ == hostname@,
            None => !has_client(record_views(records@), hostname@),
        },
{
    let mut i: usize = 0;
    while i < records.len()
        invariant
            i <= records.len(),
            forall|k: int| 0 <= k < i ==> (#[trigger] records@[k]).hostname@ != hostname@,
        decreases records.len() - i,
    {
        if records[i].hostname == *hostname {
            return Some(i);
        }
        i += 1;
    }
    assert(!has_client(record_views(records@), hostname@)) by {
        let views = record_views(records@);
        assert forall|k: int| 0 <= k < views.len() implies (#[trigger] views[k]).hostname
            != hostname@ by {
            assert(records@[k].hostname@ != hostname@);
        }
    }
    None
}

impl SessionDocument {
    /// What every document satisfies: hostnames are unique and no entry
    /// lists an address twice.
    #[verifier::type_invariant]
    pub closed spec fn well_formed(&self) -> bool {
        valid_clients(record_views(self.clients@))
    }

    /// A document with the given settings and no clients.
    pub fn new(settings: String) -> (doc: Self)
        ensures
            doc@.settings == settings@,
            doc@.clients.len() == 0,
            valid_clients(doc@.clients),
    {
        let doc = SessionDocument { settings, clients: Vec::new() };
        doc
    }

    /// A document with the given settings and client entries.
    ///
    /// Fails exactly when two records share a hostname. Addresses that a
    /// record lists more than once are kept once.
    pub fn from_records(settings: String, records: Vec<ClientConnectionRecord>) -> (made: Result<
        Self,
        SessionError,
    >)
        ensures
            made is Ok <==> unique_hostnames(record_views(records@)),
            made matches Ok(doc) ==> doc@.settings == settings@ && doc@.clients
                == without_repeated_ips(record_views(records@)) && valid_clients(doc@.clients),
            made matches Err(e) ==> e == SessionError::DuplicateHostname,
    {
        let ghost given = record_views(records@);
        let mut clients: Vec<ClientConnectionRecord> = Vec::new();
        let mut i: usize = 0;
        while i < records.len()
            invariant
                i <= records.len(),
                given == record_views(records@),
                record_views(clients@) == without_repeated_ips(given.take(i as int)),
                unique_hostnames(given.take(i as int)),
            decreases records.len() - i,
        {
            let ghost seen = given.take(i as int);
            let ghost next = given.take(i + 1);
            if let Some(k) = find_record(&clients, &records[i].hostname) {
                proof {
                    assert(record_views(clients@)[k as int].hostname == given[i as int].hostname);
                    assert(seen[k as int].hostname == given[i as int].hostname);
                    assert(given[k as int].hostname == given[i as int].hostname);
                }
                return Err(SessionError::DuplicateHostname);
            }
            proof {
                assert forall|a: int, b: int| 0 <= a < b < next.len() implies (#[trigger] next[a]).hostname
                    != (#[trigger] next[b]).hostname by {
                    if b < i {
                        assert(seen[a].hostname != seen[b].hostname);
                    } else {
                        assert(record_views(clients@)[a].hostname == seen[a].hostname);
                    }
                }
            }
            let mut record = records[i].clone();
            record.manual_ips = distinct_addresses(&records[i].manual_ips);
            let ghost before = record_views(clients@);
            clients.push(record);
            proof {
                let after = record_views(clients@);
                let want = without_repeated_ips(next);
                assert(given[i as int] == records@[i as int]@);
                assert(after.len() == want.len());
                assert forall|k: int| 0 <= k < after.len() implies after[k] == want[k] by {
                    if k < i {
                        assert(after[k] == before[k]);
                        assert(before[k] == without_repeated_ips(seen)[k]);
                        assert(seen[k] == next[k]);
                    } else {
                        assert(next[k] == given[i as int]);
                    }
                }
                assert(after =~= want);
            }
            i += 1;
        }
        assert(given.take(i as int) =~= given);
        proof {
            let out = record_views(clients@);
            assert forall|k: int| 0 <= k < out.len() implies (#[trigger] out[k]).manual_ips.no_duplicates() by {
                lemma_first_occurrences(given[k].manual_ips);
            }
            assert forall|a: int, b: int| 0 <= a < b < out.len() implies (#[trigger] out[a]).hostname
                != (#[trigger] out[b]).hostname by {
                assert(given[a].hostname != given[b].hostname);
            }
        }
        let doc = SessionDocument { settings, clients };
        Ok(doc)
    }

    /// The settings, as text.
    pub fn settings(&self) -> (text: &String)
        ensures
            text@ == self@.settings,
    {
        &self.settings
    }

    /// The client entries, oldest first.
    pub fn clients(&self) -> (list: &Vec<ClientConnectionRecord>)
        ensures
            record_views(list@) == self@.clients,
            valid_clients(self@.clients),
    {
        proof {
            use_type_invariant(self);
        }
        &self.clients
    }

    /// The entry of `hostname`, if it has one.
    pub fn client(&self, hostname: &String) -> (entry: Option<&ClientConnectionRecord>)
        ensures
            entry is Some <==> has_client(self@.clients, hostname@),
            entry matches Some(record) ==> record@ == self@.clients[client_index(
                self@.clients,
                hostname@,
            )],
    {
        proof {
            use_type_invariant(self);
        }
        match find_record(&self.clients, hostname) {
            Some(i) => {
                proof {
                    let views = record_views(self.clients@);
                    assert(views[i as int].hostname == hostname@);
                    lemma_client_index(views, i as int);
                }
                Some(&self.clients[i])
            },
            None => None,
        }
    }

    /// Applies `action` to the entry of `hostname`, and says whether it took
    /// effect.
    pub fn update_client_list(&mut self, hostname: String, action: ClientListAction) -> (updated:
        bool)
        ensures
            final(self)@.settings == old(self)@.settings,
            final(self)@.clients == updated_clients(old(self)@.clients, hostname@, action),
            valid_clients(final(self)@.clients),
            updated == takes_effect(old(self)@.clients, hostname@, action),
    {
        proof {
            use_type_invariant(&*self);
            lemma_update_keeps_valid(record_views(self.clients@), hostname@, action);
        }
        let ghost before = record_views(self.clients@);
        let found = find_record(&self.clients, &hostname);
        proof {
            if let Some(i) = found {
                assert(before[i as int].hostname == hostname@);
                lemma_client_index(before, i as int);
            }
        }
        let mut clients: Vec<ClientConnectionRecord> = Vec::new();
        std::mem::swap(&mut self.clients, &mut clients);
        let mut updated = false;
        match action {
            ClientListAction::Trust => {
                if let Some(i) = found {
                    clients[i].trusted = true;
                    updated = true;
                }
            },
            ClientListAction::RemoveEntry => {
                if let Some(i) = found {
                    clients.remove(i);
                    updated = true;
                }
            },
            ClientListAction::AddIfMissing { trusted, manual_ips } => {
                if found.is_none() {
                    updated = true;
                    clients.push(
                        ClientConnectionRecord {
                            hostname,
                            trusted,
                            current_ip: None,
                            manual_ips: distinct_addresses(&manual_ips),
                            display_name: "Unknown".to_string(),
                        },
                    );
                }
            },
            ClientListAction::SetManualIps(ips) => {
                if let Some(i) = found {
                    clients[i].manual_ips = distinct_addresses(&ips);
                    updated = true;
                }
            },
        }
        assert(record_views(clients@) =~= updated_clients(before, hostname@, action));
        self.clients = clients;
        updated
    }
}

/// Why a list of records is no client list.
#[derive(Clone, Copy, Debug, PartialEq, Eq, Structural)]
pub enum SessionError {
    /// Two records carry the same hostname.
    DuplicateHostname,
}

/// In a list with unique hostnames, the entry of a hostname is where any
/// entry with that hostname is.
pub proof fn lemma_client_index(clients: Seq<ClientRecordView>, i: int)
    requires
        unique_hostnames(clients),
        0 <= i < clients.len(),
    ensures
        has_client(clients, clients[i].hostname),
        client_index(clients, clients[i].hostname) == i,
{
    let h = clients[i].hostname;
    let at = client_index(clients, h);
    assert(0 <= at < clients.len() && clients[at].hostname == h);
    if at < i {
        assert(clients[at].hostname != clients[i].hostname);
    } else if i < at {
        assert(clients[i].hostname != clients[at].hostname);
    }
}

/// `record_count` is 0 for a hostname without an entry.
pub proof fn lemma_count_absent(clients: Seq<ClientRecordView>, hostname: Seq<char>)
    requires
        !has_client(clients, hostname),
    ensures
        record_count(clients, hostname) == 0,
    decreases clients.len(),
{
    if clients.len() > 0 {
        let init = clients.drop_last();
        assert(clients[clients.len() - 1].hostname != hostname);
        assert forall|i: int| 0 <= i < init.len() implies (#[trigger] init[i]).hostname
            != hostname by {
            assert(clients[i].hostname != hostname);
        }
        lemma_count_absent(init, hostname);
    }
}

/// With unique hostnames, a hostname that has an entry has exactly one.
pub proof fn lemma_count_present(clients: Seq<ClientRecordView>, hostname: Seq<char>)
    requires
        unique_hostnames(clients),
        has_client(clients, hostname),
    ensures
        record_count(clients, hostname) == 1,
    decreases clients.len(),
{
    let last = clients.len() - 1;
    let init = clients.drop_last();
    assert(unique_hostnames(init)) by {
        assert forall|i: int, j: int| 0 <= i < j < init.len() implies (#[trigger] init[i]).hostname
            != (#[trigger] init[j]).hostname by {
            assert(clients[i].hostname != clients[j].hostname);
        }
    }
    if clients[last].hostname == hostname {
        assert(!has_client(init, hostname)) by {
            if has_client(init, hostname) {
                let i = client_index(init, hostname);
                assert(init[i].hostname == hostname);
                assert(clients[i].hostname != clients[last].hostname);
            }
        }
        lemma_count_absent(init, hostname);
    } else {
        let i = client_index(clients, hostname);
        assert(clients[i].hostname == hostname);
        assert(i < last);
        assert(init[i].hostname == hostname);
        lemma_count_present(init, hostname);
    }
}

/// Every action keeps a valid client list valid.
pub proof fn lemma_update_keeps_valid(
    clients: Seq<ClientRecordView>,
    hostname: Seq<char>,
    action: ClientListAction,
)
    requires
        valid_clients(clients),
    ensures
        valid_clients(updated_clients(clients, hostname, action)),
{
    let out = updated_clients(clients, hostname, action);
    let present = has_client(clients, hostname);
    let at = client_index(clients, hostname);
    if present {
        assert(0 <= at < clients.len() && clients[at].hostname == hostname);
    }
    match action {
        ClientListAction::Trust => {
            if present {
                assert forall|i: int, j: int| 0 <= i < j < out.len() implies (#[trigger] out[i]).hostname
                    != (#[trigger] out[j]).hostname by {
                    assert(clients[i].hostname != clients[j].hostname);
                }
                assert forall|i: int| 0 <= i < out.len() implies (#[trigger] out[i]).manual_ips.no_duplicates() by {
                    assert(clients[i].manual_ips.no_duplicates());
                }
            }
        },
        ClientListAction::RemoveEntry => {
            if present {
                assert forall|i: int, j: int| 0 <= i < j < out.len() implies (#[trigger] out[i]).hostname
                    != (#[trigger] out[j]).hostname by {
                    let a = if i < at { i } else { i + 1 };
                    let b = if j < at { j } else { j + 1 };
                    assert(out[i] == clients[a]);
                    assert(out[j] == clients[b]);
                    assert(clients[a].hostname != clients[b].hostname);
                }
                assert forall|i: int| 0 <= i < out.len() implies (#[trigger] out[i]).manual_ips.no_duplicates() by {
                    let a = if i < at { i } else { i + 1 };
                    assert(out[i] == clients[a]);
                    assert(clients[a].manual_ips.no_duplicates());
                }
            }
        },
        ClientListAction::AddIfMissing { trusted, manual_ips } => {
            if !present {
                lemma_first_occurrences(manual_ips@);
                assert forall|i: int, j: int| 0 <= i < j < out.len() implies (#[trigger] out[i]).hostname
                    != (#[trigger] out[j]).hostname by {
                    if j < clients.len() {
                        assert(clients[i].hostname != clients[j].hostname);
                    } else {
                        assert(clients[i].hostname != hostname);
                    }
                }
                assert forall|i: int| 0 <= i < out.len() implies (#[trigger] out[i]).manual_ips.no_duplicates() by {
                    if i < clients.len() {
                        assert(clients[i].manual_ips.no_duplicates());
                    }
                }
            }
        },
        ClientListAction::SetManualIps(ips) => {
            if present {
                lemma_first_occurrences(ips@);
                assert forall|i: int, j: int| 0 <= i < j < out.len() implies (#[trigger] out[i]).hostname
                    != (#[trigger] out[j]).hostname by {
                    assert(clients[i].hostname != clients[j].hostname);
                }
                assert forall|i: int| 0 <= i < out.len() implies (#[trigger] out[i]).manual_ips.no_duplicates() by {
                    if i != at {
                        assert(clients[i].manual_ips.no_duplicates());
                    }
                }
            }
        },
    }
}


/// Trusting a hostname a second time changes nothing, whether or not the
/// hostname has an entry.
pub proof fn law_trust_is_idempotent(clients: Seq<ClientRecordView>, hostname: Seq<char>)
    requires
        valid_clients(clients),
    ensures
        updated_clients(
            updated_clients(clients, hostname, ClientListAction::Trust),
            hostname,
            ClientListAction::Trust,
        ) == updated_clients(clients, hostname, ClientListAction::Trust),
{
    let once = updated_clients(clients, hostname, ClientListAction::Trust);
    if has_client(clients, hostname) {
        let at = client_index(clients, hostname);
        assert(0 <= at < clients.len() && clients[at].hostname == hostname);
        lemma_update_keeps_valid(clients, hostname, ClientListAction::Trust);
        assert(once[at].hostname == hostname);
        lemma_client_index(once, at);
        assert(updated_clients(once, hostname, ClientListAction::Trust) =~= once);
    } else {
        assert(once == clients);
    }
}

/// After a hostname that has an entry was trusted twice in a row, the list
/// holds exactly one entry for it, and that entry is trusted. All other
/// entries, and everything else in that entry, are as before.
pub proof fn law_trust_twice(clients: Seq<ClientRecordView>, hostname: Seq<char>)
    requires
        valid_clients(clients),
        has_client(clients, hostname),
    ensures
        ({
            let twice = updated_clients(
                updated_clients(clients, hostname, ClientListAction::Trust),
                hostname,
                ClientListAction::Trust,
            );
            let at = client_index(clients, hostname);
            &&& valid_clients(twice)
            &&& record_count(twice, hostname) == 1
            &&& has_client(twice, hostname)
            &&& client_index(twice, hostname) == at
            &&& twice[at].trusted
            &&& twice == clients.update(at, ClientRecordView { trusted: true, ..clients[at] })
        }),
{
    let once = updated_clients(clients, hostname, ClientListAction::Trust);
    let at = client_index(clients, hostname);
    assert(0 <= at < clients.len() && clients[at].hostname == hostname);
    law_trust_is_idempotent(clients, hostname);
    lemma_update_keeps_valid(clients, hostname, ClientListAction::Trust);
    assert(once[at].hostname == hostname);
    lemma_client_index(once, at);
    lemma_count_present(once, hostname);
}

/// An entry that was removed is gone, and removing it again changes
/// nothing.
pub proof fn law_remove_is_final(clients: Seq<ClientRecordView>, hostname: Seq<char>)
    requires
        valid_clients(clients),
    ensures
        !has_client(updated_clients(clients, hostname, ClientListAction::RemoveEntry), hostname),
        record_count(updated_clients(clients, hostname, ClientListAction::RemoveEntry), hostname)
            == 0,
        updated_clients(
            updated_clients(clients, hostname, ClientListAction::RemoveEntry),
            hostname,
            ClientListAction::RemoveEntry,
        ) == updated_clients(clients, hostname, ClientListAction::RemoveEntry),
{
    let once = updated_clients(clients, hostname, ClientListAction::RemoveEntry);
    if has_client(clients, hostname) {
        let at = client_index(clients, hostname);
        assert(0 <= at < clients.len() && clients[at].hostname == hostname);
        if has_client(once, hostname) {
            let k = client_index(once, hostname);
            assert(0 <= k < once.len() && once[k].hostname == hostname);
            let j = if k < at { k } else { k + 1 };
            assert(once[k] == clients[j]);
            if j < at {
                assert(clients[j].hostname != clients[at].hostname);
            } else {
                assert(clients[at].hostname != clients[j].hostname);
            }
        }
    }
    lemma_count_absent(once, hostname);
}

/// After `AddIfMissing`, the hostname has exactly one entry, and a second
/// `AddIfMissing`, with whatever arguments, changes nothing.
pub proof fn law_add_if_missing(
    clients: Seq<ClientRecordView>,
    hostname: Seq<char>,
    first: ClientListAction,
    second: ClientListAction,
)
    requires
        valid_clients(clients),
        first is AddIfMissing,
        second is AddIfMissing,
    ensures
        record_count(updated_clients(clients, hostname, first), hostname) == 1,
        updated_clients(updated_clients(clients, hostname, first), hostname, second)
            == updated_clients(clients, hostname, first),
{
    let once = updated_clients(clients, hostname, first);
    lemma_update_keeps_valid(clients, hostname, first);
    if has_client(clients, hostname) {
        assert(once == clients);
    } else {
        assert(once[once.len() - 1].hostname == hostname);
        assert(has_client(once, hostname));
    }
    lemma_count_present(once, hostname);
}

} // verus!
