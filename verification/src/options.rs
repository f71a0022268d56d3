//! How a client is configured.
use crate::time::Duration;
use vstd::prelude::*;

verus! {

/// Builder options for creating a client.
#[derive(Debug, Clone)]
pub struct ClientHandleOptions {
    url: String,
    timeout: Option<Duration>,
    name: Option<String>,
}

/// What the options say.
pub struct OptionsView {
    pub url: Seq<char>,
    pub timeout: Option<Duration>,
    pub name: Option<Seq<char>>,
}

impl OptionsView {
    /// The deadline of each operation: the timeout, unless none or a zero one is configured.
    pub open spec fn deadline(self) -> Option<Duration> {
        match self.timeout {
            Some(limit) => if limit.nanos == 0 {
                None
            } else {
                Some(limit)
            },
            None => None,
        }
    }
}

impl View for ClientHandleOptions {
    type V = OptionsView;

    closed spec fn view(&self) -> OptionsView {
        OptionsView {
            url: self.url@,
            timeout: self.timeout,
            name: match self.name {
                Some(name) => Some(name@),
                None => None,
            },
        }
    }
}

impl ClientHandleOptions {
    /// Expects a fully described websocket url, e.g. 'ws://localhost:9090'.
    pub fn new(url: &str) -> (options: ClientHandleOptions)
        ensures
            options@ == (OptionsView { url: url@, timeout: None, name: None }),
    {
        ClientHandleOptions { url: url.to_owned(), timeout: None, name: None }
    }

    /// Names this connection in the log.
    ///
    /// Applications routinely hold several clients pointed at the same url, and a name tells
    /// their connection messages apart.
    pub fn name(self, name: &str) -> (options: ClientHandleOptions)
        ensures
            options@ == (OptionsView { name: Some(name@), ..self@ }),
    {
        ClientHandleOptions { url: self.url, timeout: self.timeout, name: Some(name.to_owned()) }
    }

    /// Configures a default timeout for all operations.
    pub fn timeout(self, duration: Duration) -> (options: ClientHandleOptions)
        ensures
            options@ == (OptionsView { timeout: Some(duration), ..self@ }),
    {
        ClientHandleOptions { url: self.url, timeout: Some(duration), name: self.name }
    }

    /// The url to connect to.
    pub fn url(&self) -> (url: &str)
        ensures
            url@ == self@.url,
    {
        self.url.as_str()
    }

    /// The name that the connection carries in the log.
    pub(crate) fn label_name(&self) -> (name: Option<&String>)
        ensures
            match name {
                Some(name) => self@.name == Some(name@),
                None => self@.name is None,
            },
    {
        self.name.as_ref()
    }

    /// The deadline to wait under for each operation, if there is one.
    ///
    /// A timeout of zero is no deadline.
    pub fn deadline(&self) -> (limit: Option<Duration>)
        ensures
            limit == self@.deadline(),
    {
        match self.timeout {
            Some(limit) => if limit.nanos == 0 {
                None
            } else {
                Some(limit)
            },
            None => None,
        }
    }
}

/// The deadline is the configured timeout. There is none if none or a zero one is configured.
pub proof fn deadline_is_the_timeout(options: OptionsView)
    ensures
        options.timeout is None ==> options.deadline() is None,
        options.timeout is Some && options.timeout->0.nanos == 0 ==> options.deadline() is None,
        options.timeout is Some && options.timeout->0.nanos > 0 ==> options.deadline()
            == options.timeout,
{
}

} // verus!
