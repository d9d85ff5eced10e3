//! A relay as a client sees it: where it is, how the connection to it stands, what may be done
//! with it and what is asked of it.
use vstd::prelude::*;
use vstd::std_specs::cmp::PartialEqSpecImpl;

use crate::message::SubscriptionId;
use crate::wire::{generate_subscription_id, is_generated_id};

verus! {

/// The address of a relay, in the spelling that a parsed URL is written with.
#[derive(Debug)]
pub struct Url {
    text: String,
}

impl View for Url {
    type V = Seq<char>;

    closed spec fn view(&self) -> Seq<char> {
        self.text@
    }
}

impl Url {
    /// The address with this text.
    pub fn new(text: String) -> (url: Url)
        ensures
            url@ == text@,
    {
        Url { text }
    }

    /// The text of the address.
    pub fn as_str(&self) -> (text: &str)
        ensures
            text@ == self@,
    {
        self.text.as_str()
    }
}

impl Clone for Url {
    fn clone(&self) -> (copy: Url)
        ensures
            copy@ == self@,
    {
        Url { text: self.text.clone() }
    }
}

impl PartialEq for Url {
    fn eq(&self, other: &Url) -> (same: bool) {
        self.text == other.text
    }
}

impl PartialEqSpecImpl for Url {
    open spec fn obeys_eq_spec() -> bool {
        true
    }

    open spec fn eq_spec(&self, other: &Url) -> bool {
        self@ == other@
    }
}

/// How the connection to a relay stands.
#[derive(Clone, Copy, Debug, PartialEq, Eq, Structural)]
pub enum RelayStatus {
    /// Never asked to connect
    Initialized,
    /// Connected
    Connected,
    /// Connecting
    Connecting,
    /// Disconnected, to be connected again
    Disconnected,
    /// Disconnected for good, unless asked to connect again
    Terminated,
}

/// What may be done with a relay.
#[derive(Clone, Copy, Debug, PartialEq, Eq, Structural)]
pub struct RelayOptions {
    read: bool,
    write: bool,
}

impl RelayOptions {
    /// Whether subscriptions may be opened and closed.
    pub closed spec fn reads(self) -> bool {
        self.read
    }

    /// Whether events may be published.
    pub closed spec fn writes(self) -> bool {
        self.write
    }

    /// Options with these permissions.
    pub fn new(read: bool, write: bool) -> (opts: RelayOptions)
        ensures
            opts.reads() == read,
            opts.writes() == write,
    {
        RelayOptions { read, write }
    }

    /// Whether subscriptions may be opened and closed.
    pub fn read(&self) -> (read: bool)
        ensures
            read == self.reads(),
    {
        self.read
    }

    /// Whether events may be published.
    pub fn write(&self) -> (write: bool)
        ensures
            write == self.writes(),
    {
        self.write
    }
}

/// The subscription that a relay is asked to serve whenever it is connected.
#[derive(Debug)]
pub struct ActiveSubscription {
    /// The name of the subscription
    pub id: SubscriptionId,
    /// What is asked for
    pub filters: Vec<nostr::Filter>,
}

impl ActiveSubscription {
    /// A subscription under this id that asks for nothing.
    pub fn with_id(id: SubscriptionId) -> (subscription: ActiveSubscription)
        ensures
            subscription.id@ == id@,
            subscription.id.is_drawn() == id.is_drawn(),
            subscription.filters@ == Seq::<nostr::Filter>::empty(),
    {
        ActiveSubscription { id, filters: Vec::new() }
    }

    /// A subscription under a random id that asks for nothing.
    pub fn new() -> (subscription: ActiveSubscription)
        ensures
            is_generated_id(subscription.id@),
            subscription.id.is_drawn(),
            subscription.filters@ == Seq::<nostr::Filter>::empty(),
    {
        ActiveSubscription::with_id(SubscriptionId::of_draw(generate_subscription_id()))
    }
}

impl Clone for ActiveSubscription {
    fn clone(&self) -> (copy: ActiveSubscription)
        ensures
            copy.id@ == self.id@,
            copy.filters@ == self.filters@,
    {
        let filters = self.filters.clone();
        assert(filters@ =~= self.filters@);
        ActiveSubscription { id: self.id.clone(), filters }
    }
}

} // verus!
