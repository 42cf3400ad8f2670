//! The Discord Rich Presence session: whether it is connected, what each
//! request does in either state, the activity it publishes and the error
//! messages it reports.
use vstd::prelude::*;

verus! {

/// The Discord application the presence is published under.
pub const DISCORD_APP_ID: &'static str = "1452620752263319665";

/// Large image used when the caller gives none: the Stremio logo.
pub open spec fn default_large_image() -> Seq<char> {
    "stremio_logo"@
}

/// Hover text of the large image.
pub open spec fn large_image_text() -> Seq<char> {
    "Stremio"@
}

/// Error returned when an activity is set without a connection.
pub open spec fn not_connected_error() -> Seq<char> {
    "Discord not connected"@
}

/// The activity to publish, with every field as it is sent.
pub struct ActivityRequest {
    pub state: String,
    pub details: String,
    pub large_image: String,
    pub large_text: String,
    pub start_timestamp: Option<i64>,
}

/// What `connect` asks the caller to do.
#[derive(Clone, Copy, Debug, PartialEq, Eq, Structural)]
pub enum ConnectStep {
    /// A connection exists already; nothing to do.
    AlreadyConnected,
    /// Open a new connection, then report its outcome to `finish_connect`.
    Open,
}

/// Whether a presence connection is open.
pub struct DiscordRpc {
    connected: bool,
}

/// `prefix` followed by `detail`.
pub fn prefixed(prefix: &str, detail: &str) -> (s: String)
    ensures
        s@ == prefix@ + detail@,
{
    let mut s = String::from_str(prefix);
    s.append(detail);
    s
}

/// An outcome with its error message prefixed by `prefix`.
pub open spec fn spec_with_prefix(outcome: Result<(), String>, prefix: Seq<char>) -> Result<
    (),
    Seq<char>,
> {
    match outcome {
        Ok(()) => Ok(()),
        Err(e) => Err(prefix + e@),
    }
}

/// The outcome with its error message prefixed by `prefix`.
fn with_prefix(outcome: Result<(), String>, prefix: &str) -> (r: Result<(), String>)
    ensures
        match r {
            Ok(()) => spec_with_prefix(outcome, prefix@) == Ok::<(), Seq<char>>(()),
            Err(e) => spec_with_prefix(outcome, prefix@) == Err::<(), Seq<char>>(e@),
        },
{
    match outcome {
        Ok(()) => Ok(()),
        Err(e) => Err(prefixed(prefix, e.as_str())),
    }
}

impl DiscordRpc {
    pub closed spec fn is_open(self) -> bool {
        self.connected
    }

    /// A session without a connection.
    pub fn new() -> (s: Self)
        ensures
            !s.is_open(),
    {
        DiscordRpc { connected: false }
    }

    /// Whether a connection is open.
    pub fn is_connected(&self) -> (b: bool)
        ensures
            b == self.is_open(),
    {
        self.connected
    }

    /// Connecting is idempotent: with a connection open there is nothing to do.
    pub fn connect(&self) -> (step: ConnectStep)
        ensures
            step == (if self.is_open() {
                ConnectStep::AlreadyConnected
            } else {
                ConnectStep::Open
            }),
    {
        if self.connected {
            ConnectStep::AlreadyConnected
        } else {
            ConnectStep::Open
        }
    }

    /// Records the outcome of opening a connection: on success the session is
    /// connected; a failure is reported as
    /// "Failed to connect to Discord: <error>" and the session stays closed.
    pub fn finish_connect(&mut self, outcome: Result<(), String>) -> (r: Result<(), String>)
        ensures
            final(self).is_open() == (old(self).is_open() || outcome is Ok),
            match r {
                Ok(()) => outcome is Ok,
                Err(e) => outcome is Err && e@ == "Failed to connect to Discord: "@ + outcome->Err_0@,
            },
    {
        match outcome {
            Ok(()) => {
                self.connected = true;
                Ok(())
            },
            Err(e) => Err(prefixed("Failed to connect to Discord: ", e.as_str())),
        }
    }

    /// Drops the connection. Returns whether one was open, in which case the
    /// caller closes it and reports the outcome to `finish_disconnect`; the
    /// session is closed either way.
    pub fn disconnect(&mut self) -> (was_open: bool)
        ensures
            was_open == old(self).is_open(),
            !final(self).is_open(),
    {
        let was_open = self.connected;
        self.connected = false;
        was_open
    }

    /// The outcome of closing a connection, a failure reported as
    /// "Failed to close Discord connection: <error>".
    pub fn finish_disconnect(outcome: Result<(), String>) -> (r: Result<(), String>)
        ensures
            match r {
                Ok(()) => spec_with_prefix(outcome, "Failed to close Discord connection: "@)
                    == Ok::<(), Seq<char>>(()),
                Err(e) => spec_with_prefix(outcome, "Failed to close Discord connection: "@)
                    == Err::<(), Seq<char>>(e@),
            },
    {
        with_prefix(outcome, "Failed to close Discord connection: ")
    }

    /// The activity to publish: the given state and details, the given large
    /// image or the Stremio logo, the "Stremio" hover text and the optional
    /// start time. Without a connection this is the error "Discord not connected".
    pub fn set_activity(
        &self,
        state: &str,
        details: &str,
        large_image: Option<&str>,
        start_timestamp: Option<i64>,
    ) -> (r: Result<ActivityRequest, String>)
        ensures
            match r {
                Ok(a) => {
                    &&& self.is_open()
                    &&& a.state@ == state@
                    &&& a.details@ == details@
                    &&& a.large_image@ == match large_image {
                        Some(image) => image@,
                        None => default_large_image(),
                    }
                    &&& a.large_text@ == large_image_text()
                    &&& a.start_timestamp == start_timestamp
                },
                Err(e) => !self.is_open() && e@ == not_connected_error(),
            },
    {
        if !self.connected {
            return Err(String::from_str("Discord not connected"));
        }
        let image = match large_image {
            Some(image) => String::from_str(image),
            None => String::from_str("stremio_logo"),
        };
        Ok(
            ActivityRequest {
                state: String::from_str(state),
                details: String::from_str(details),
                large_image: image,
                large_text: String::from_str("Stremio"),
                start_timestamp,
            },
        )
    }

    /// The outcome of publishing an activity, a failure reported as
    /// "Failed to set activity: <error>".
    pub fn finish_set_activity(outcome: Result<(), String>) -> (r: Result<(), String>)
        ensures
            match r {
                Ok(()) => spec_with_prefix(outcome, "Failed to set activity: "@) == Ok::<
                    (),
                    Seq<char>,
                >(()),
                Err(e) => spec_with_prefix(outcome, "Failed to set activity: "@) == Err::<
                    (),
                    Seq<char>,
                >(e@),
            },
    {
        with_prefix(outcome, "Failed to set activity: ")
    }

    /// Whether clearing the activity needs a request: only with a connection
    /// open; otherwise clearing succeeds without one.
    pub fn clear_activity(&self) -> (send: bool)
        ensures
            send == self.is_open(),
    {
        self.connected
    }

    /// The outcome of clearing the activity, a failure reported as
    /// "Failed to clear activity: <error>".
    pub fn finish_clear_activity(outcome: Result<(), String>) -> (r: Result<(), String>)
        ensures
            match r {
                Ok(()) => spec_with_prefix(outcome, "Failed to clear activity: "@) == Ok::<
                    (),
                    Seq<char>,
                >(()),
                Err(e) => spec_with_prefix(outcome, "Failed to clear activity: "@) == Err::<
                    (),
                    Seq<char>,
                >(e@),
            },
    {
        with_prefix(outcome, "Failed to clear activity: ")
    }
}

} // verus!
