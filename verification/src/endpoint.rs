use vstd::prelude::*;

verus! {

/// A network endpoint: host, optional port and scheme.
#[derive(Debug, Clone, PartialEq, Eq, Hash)]
pub struct Endpoint {
    host: String,
    port: Option<u16>,
    scheme: String,
}

impl Endpoint {
    pub closed spec fn host_view(&self) -> Seq<char> {
        self.host@
    }

    pub closed spec fn port_view(&self) -> Option<u16> {
        self.port
    }

    pub closed spec fn scheme_view(&self) -> Seq<char> {
        self.scheme@
    }

    pub fn new(host: &str, port: Option<u16>, scheme: &str) -> (e: Endpoint)
        ensures
            e.host_view() == host@,
            e.port_view() == port,
            e.scheme_view() == scheme@,
    {
        Endpoint { host: String::from_str(host), port, scheme: String::from_str(scheme) }
    }

    pub fn host(&self) -> (h: &str)
        ensures
            h@ == self.host_view(),
    {
        self.host.as_str()
    }

    pub fn port(&self) -> (p: Option<u16>)
        ensures
            p == self.port_view(),
    {
        self.port
    }

    pub fn scheme(&self) -> (s: &str)
        ensures
            s@ == self.scheme_view(),
    {
        self.scheme.as_str()
    }
}

/// An error as the user interface receives it: a type name and a message.
#[derive(Debug)]
pub struct SerializableError {
    error_type: &'static str,
    message: String,
}

impl SerializableError {
    pub closed spec fn error_type_view(&self) -> Seq<char> {
        self.error_type@
    }

    pub closed spec fn message_view(&self) -> Seq<char> {
        self.message@
    }

    /// Wraps an error given by its variant name and its rendered message.
    pub fn new(error_type: &'static str, message: String) -> (e: SerializableError)
        ensures
            e.error_type_view() == error_type@,
            e.message_view() == message@,
    {
        SerializableError { error_type, message }
    }

    pub fn error_type(&self) -> (t: &'static str)
        ensures
            t@ == self.error_type_view(),
    {
        self.error_type
    }

    pub fn message(&self) -> (m: &str)
        ensures
            m@ == self.message_view(),
    {
        self.message.as_str()
    }
}

} // verus!
