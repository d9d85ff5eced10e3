//! The state that a client keeps of one relay.
use vstd::prelude::*;
use vstd::std_specs::cmp::PartialEqSpecImpl;

use crate::document::{RelayInformation, RelayInformationDocument};
use crate::message::SubscriptionId;
use crate::state::{ActiveSubscription, RelayOptions, RelayStatus, Url};
use crate::wire::is_generated_id;

verus! {

/// Relay
#[derive(Debug)]
pub struct Relay {
    url: Url,
    status: RelayStatus,
    document: RelayInformationDocument,
    opts: RelayOptions,
    scheduled_for_termination: bool,
    subscription: ActiveSubscription,
}

/// What is known of a [`Relay`].
pub struct RelayModel {
    /// Where the relay is
    pub url: Seq<char>,
    /// How the connection stands
    pub status: RelayStatus,
    /// What the relay told about itself
    pub document: RelayInformation,
    /// What may be done with the relay
    pub opts: RelayOptions,
    /// Whether the connection is to be ended for good
    pub scheduled_for_termination: bool,
    /// The id of the active subscription
    pub subscription_id: Seq<char>,
    /// Whether that id was drawn at random for the relay
    pub subscription_drawn: bool,
    /// The filters of the active subscription
    pub filters: Seq<nostr::Filter>,
}

impl View for Relay {
    type V = RelayModel;

    closed spec fn view(&self) -> RelayModel {
        RelayModel {
            url: self.url@,
            status: self.status,
            document: self.document@,
            opts: self.opts,
            scheduled_for_termination: self.scheduled_for_termination,
            subscription_id: self.subscription.id@,
            subscription_drawn: self.subscription.id.is_drawn(),
            filters: self.subscription.filters@,
        }
    }
}

impl PartialEq for Relay {
    fn eq(&self, other: &Relay) -> (same: bool) {
        self.url == other.url
    }
}

impl PartialEqSpecImpl for Relay {
    open spec fn obeys_eq_spec() -> bool {
        true
    }

    /// Two relays are the same when they are at the same address.
    open spec fn eq_spec(&self, other: &Relay) -> bool {
        self@.url == other@.url
    }
}

impl RelayModel {
    /// A relay that was just made.
    pub open spec fn fresh(
        url: Seq<char>,
        opts: RelayOptions,
        subscription_id: Seq<char>,
        subscription_drawn: bool,
    ) -> RelayModel {
        RelayModel {
            url,
            status: RelayStatus::Initialized,
            document: RelayInformation::empty(),
            opts,
            scheduled_for_termination: false,
            subscription_id,
            subscription_drawn,
            filters: Seq::empty(),
        }
    }
}

impl Relay {
    /// Create new `Relay` whose active subscription has this id
    pub fn with_subscription_id(url: Url, opts: RelayOptions, id: SubscriptionId) -> (relay: Relay)
        ensures
            relay@ == RelayModel::fresh(url@, opts, id@, id.is_drawn()),
    {
        Relay {
            url,
            status: RelayStatus::Initialized,
            document: RelayInformationDocument::new(),
            opts,
            scheduled_for_termination: false,
            subscription: ActiveSubscription::with_id(id),
        }
    }

    /// Create new `Relay`
    pub fn new(url: Url, opts: RelayOptions) -> (relay: Relay)
        ensures
            relay@ == RelayModel::fresh(url@, opts, relay@.subscription_id, true),
            is_generated_id(relay@.subscription_id),
    {
        let subscription = ActiveSubscription::new();
        Relay::with_subscription_id(url, opts, subscription.id)
    }

    /// Get relay url
    pub fn url(&self) -> (url: Url)
        ensures
            url@ == self@.url,
    {
        self.url.clone()
    }

    /// Get [`RelayStatus`]
    pub fn status(&self) -> (status: RelayStatus)
        ensures
            status == self@.status,
    {
        self.status
    }

    /// Set the status
    pub(crate) fn set_status(&mut self, status: RelayStatus)
        ensures
            final(self)@ == (RelayModel { status, ..old(self)@ }),
    {
        self.status = status;
    }

    /// Get [`RelayInformationDocument`]
    pub fn document(&self) -> (document: RelayInformationDocument)
        ensures
            document@ == self@.document,
    {
        self.document.clone()
    }

    /// Set the document that the relay answered with
    pub fn set_document(&mut self, document: RelayInformationDocument)
        ensures
            final(self)@ == (RelayModel { document: document@, ..old(self)@ }),
    {
        self.document = document;
    }

    /// Get [`ActiveSubscription`]
    pub fn subscription(&self) -> (subscription: ActiveSubscription)
        ensures
            subscription.id@ == self@.subscription_id,
            subscription.filters@ == self@.filters,
    {
        self.subscription.clone()
    }

    /// Update [`ActiveSubscription`]
    pub fn update_subscription_filters(&mut self, filters: Vec<nostr::Filter>)
        ensures
            final(self)@ == (RelayModel { filters: filters@, ..old(self)@ }),
    {
        self.subscription.filters = filters;
    }

    /// Get [`RelayOptions`]
    pub fn opts(&self) -> (opts: RelayOptions)
        ensures
            opts == self@.opts,
    {
        self.opts
    }

    /// Whether the connection is to be ended for good
    pub fn is_scheduled_for_termination(&self) -> (scheduled: bool)
        ensures
            scheduled == self@.scheduled_for_termination,
    {
        self.scheduled_for_termination
    }

    /// Set whether the connection is to be ended for good
    pub(crate) fn schedule_for_termination(&mut self, value: bool)
        ensures
            final(self)@ == (RelayModel { scheduled_for_termination: value, ..old(self)@ }),
    {
        self.scheduled_for_termination = value;
    }
}

} // verus!
