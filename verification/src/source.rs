//! The two backends and the cell that says which of them answers.

use vstd::prelude::*;
use crate::request::{locally_applied, writes_session, DashboardRequest};
use crate::session::{SessionDocument, SessionView};

verus! {

/// Which backend currently answers requests.
#[derive(Clone, Copy, Debug, PartialEq, Eq, Structural)]
pub enum BackendSelector {
    Local,
    Remote,
}

/// The local backend: the session as read from the store on disk, held in
/// memory. It can always be made, and is the fallback of last resort.
#[derive(Debug, PartialEq, Eq)]
pub struct LocalBackend {
    session: SessionDocument,
}

impl View for LocalBackend {
    type V = SessionView;

    closed spec fn view(&self) -> SessionView {
        self.session@
    }
}

impl LocalBackend {
    /// The backend over a session that was just loaded.
    pub fn new(session: SessionDocument) -> (backend: Self)
        ensures
            backend@ == session@,
    {
        LocalBackend { session }
    }

    /// The session as it stands.
    pub fn session(&self) -> (session: &SessionDocument)
        ensures
            session@ == self@,
    {
        &self.session
    }

    /// Serves a request that is a plain change of the session, and says
    /// whether the session is to be written to the store afterwards.
    pub fn apply(&mut self, request: DashboardRequest) -> (written: bool)
        ensures
            final(self)@ == locally_applied(old(self)@, request),
            written == writes_session(old(self)@, request),
    {
        match request {
            DashboardRequest::UpdateSession(replacement) => {
                self.session = *replacement;
                true
            },
            DashboardRequest::UpdateClientList { hostname, action } => {
                self.session.update_client_list(hostname, action)
            },
            _ => false,
        }
    }

    /// Takes over the session that a script left behind.
    pub fn replace_session(&mut self, session: SessionDocument)
        ensures
            final(self)@ == session@,
    {
        self.session = session;
    }
}

/// The backend selector state: the one place that says whether the local
/// backend or the server answers. While the local backend is active, the
/// cell owns it.
///
/// The program shares one cell between its loops behind a lock. Every
/// operation here is a plain read or write and never waits for anything.
#[derive(Debug, PartialEq, Eq)]
pub enum DataSource {
    Local(LocalBackend),
    /// The server answers; it most likely runs as another process on the
    /// same machine.
    Remote,
}

impl View for DataSource {
    type V = Option<SessionView>;

    /// The session of the local backend while that is active, `None` while
    /// the server is.
    open spec fn view(&self) -> Option<SessionView> {
        match self {
            DataSource::Local(backend) => Some(backend@),
            DataSource::Remote => None,
        }
    }
}

/// The selector that goes with a cell's content.
pub open spec fn selector_of(source: Option<SessionView>) -> BackendSelector {
    if source is Some {
        BackendSelector::Local
    } else {
        BackendSelector::Remote
    }
}

impl DataSource {
    /// A cell with the local backend active, as at startup.
    pub fn new(backend: LocalBackend) -> (source: Self)
        ensures
            source@ == Some(backend@),
    {
        DataSource::Local(backend)
    }

    /// Which backend is active.
    pub fn read(&self) -> (selector: BackendSelector)
        ensures
            selector == selector_of(self@),
    {
        match self {
            DataSource::Local(_) => BackendSelector::Local,
            DataSource::Remote => BackendSelector::Remote,
        }
    }

    /// Makes `backend` the active one. Whatever the cell held before is
    /// dropped: states are never merged.
    pub fn set_local(&mut self, backend: LocalBackend)
        ensures
            final(self)@ == Some(backend@),
    {
        *self = DataSource::Local(backend);
    }

    /// Hands over to the server. The local backend is dropped.
    pub fn set_remote(&mut self)
        ensures
            final(self)@ is None,
    {
        *self = DataSource::Remote;
    }

    /// The local backend, while it is active.
    pub fn local(&self) -> (backend: Option<&LocalBackend>)
        ensures
            backend is Some <==> self@ is Some,
            backend matches Some(b) ==> Some(b@) == self@,
    {
        match self {
            DataSource::Local(backend) => Some(backend),
            DataSource::Remote => None,
        }
    }

    /// Serves a plain session request from the local backend, if that is
    /// active, and says whether it did. Writing the session to the store is
    /// left to the caller.
    pub fn apply_locally(&mut self, request: DashboardRequest) -> (served: bool)
        ensures
            served == (old(self)@ is Some),
            final(self)@ == match old(self)@ {
                Some(session) => Some(locally_applied(session, request)),
                None => None,
            },
    {
        match self {
            DataSource::Local(backend) => {
                let _ = backend.apply(request);
                true
            },
            DataSource::Remote => false,
        }
    }
}

} // verus!
