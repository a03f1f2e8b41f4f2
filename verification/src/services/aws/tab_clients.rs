//! The AWS clients of one tab: one per service, created on first use for the
//! tab's profile and region, and dropped when the profile changes.
//!
//! The client types are parameters: the library only stores, hands out and
//! forgets them; creating one is work for the caller.
use vstd::prelude::*;

verus! {

/// Manages AWS service clients for a specific tab
pub struct TabClients<S, D, W> {
    s3_client: Option<S>,
    dynamodb_client: Option<D>,
    cloudwatch_client: Option<W>,
    profile: String,
    region: String,
}

pub struct TabClientsView<S, D, W> {
    pub s3: Option<S>,
    pub dynamodb: Option<D>,
    pub cloudwatch: Option<W>,
    pub profile: Seq<char>,
    pub region: Seq<char>,
}

impl<S, D, W> View for TabClients<S, D, W> {
    type V = TabClientsView<S, D, W>;

    closed spec fn view(&self) -> TabClientsView<S, D, W> {
        TabClientsView {
            s3: self.s3_client,
            dynamodb: self.dynamodb_client,
            cloudwatch: self.cloudwatch_client,
            profile: self.profile@,
            region: self.region@,
        }
    }
}

impl<S, D, W> TabClientsView<S, D, W> {
    /// The clients after switching to a profile: a different profile drops them all.
    pub open spec fn with_profile(self, profile: Seq<char>) -> TabClientsView<S, D, W> {
        if self.profile != profile {
            TabClientsView { s3: None, dynamodb: None, cloudwatch: None, profile, ..self }
        } else {
            self
        }
    }
}

impl<S, D, W> TabClients<S, D, W> {
    /// Creates a new TabClients instance with the specified profile and region
    pub fn new(profile: String, region: String) -> (c: TabClients<S, D, W>)
        ensures
            c@ == (TabClientsView::<S, D, W> {
                s3: None,
                dynamodb: None,
                cloudwatch: None,
                profile: profile@,
                region: region@,
            }),
    {
        Self { s3_client: None, dynamodb_client: None, cloudwatch_client: None, profile, region }
    }

    /// Updates the profile and invalidates all existing clients
    ///
    /// This forces new clients to be created on next request with the new profile
    pub fn set_profile(&mut self, profile: String)
        ensures
            final(self)@ == old(self)@.with_profile(profile@),
    {
        if self.profile != profile {
            self.profile = profile;
            self.s3_client = None;
            self.dynamodb_client = None;
            self.cloudwatch_client = None;
        }
    }

    /// The profile the clients are created for.
    pub fn profile(&self) -> (s: String)
        ensures
            s@ == self@.profile,
    {
        self.profile.clone()
    }

    /// The region the clients are created for.
    pub fn region(&self) -> (s: String)
        ensures
            s@ == self@.region,
    {
        self.region.clone()
    }

    /// The cached S3 client, if one was created for the current profile.
    pub fn s3_client(&self) -> (c: Option<&S>)
        ensures
            match c {
                Some(x) => self@.s3 == Some(*x),
                None => self@.s3 is None,
            },
    {
        self.s3_client.as_ref()
    }

    /// The cached DynamoDB client, if one was created for the current profile.
    pub fn dynamodb_client(&self) -> (c: Option<&D>)
        ensures
            match c {
                Some(x) => self@.dynamodb == Some(*x),
                None => self@.dynamodb is None,
            },
    {
        self.dynamodb_client.as_ref()
    }

    /// The cached CloudWatch client, if one was created for the current profile.
    pub fn cloudwatch_client(&self) -> (c: Option<&W>)
        ensures
            match c {
                Some(x) => self@.cloudwatch == Some(*x),
                None => self@.cloudwatch is None,
            },
    {
        self.cloudwatch_client.as_ref()
    }

    /// Keeps a newly created S3 client.
    pub fn store_s3_client(&mut self, client: S)
        ensures
            final(self)@ == (TabClientsView { s3: Some(client), ..old(self)@ }),
    {
        self.s3_client = Some(client);
    }

    /// Keeps a newly created DynamoDB client.
    pub fn store_dynamodb_client(&mut self, client: D)
        ensures
            final(self)@ == (TabClientsView { dynamodb: Some(client), ..old(self)@ }),
    {
        self.dynamodb_client = Some(client);
    }

    /// Keeps a newly created CloudWatch client.
    pub fn store_cloudwatch_client(&mut self, client: W)
        ensures
            final(self)@ == (TabClientsView { cloudwatch: Some(client), ..old(self)@ }),
    {
        self.cloudwatch_client = Some(client);
    }
}

/// Switching to the profile already in use keeps every cached client.
pub proof fn lemma_same_profile_keeps_clients<S, D, W>(c: TabClientsView<S, D, W>)
    ensures
        c.with_profile(c.profile) == c,
{
}

/// After switching profiles the clients belong to the new profile: a second
/// switch to the same profile changes nothing more.
pub proof fn lemma_set_profile_idempotent<S, D, W>(c: TabClientsView<S, D, W>, p: Seq<char>)
    ensures
        c.with_profile(p).with_profile(p) == c.with_profile(p),
        c.with_profile(p).profile == p,
        c.profile != p ==> c.with_profile(p).s3 is None && c.with_profile(p).dynamodb is None
            && c.with_profile(p).cloudwatch is None,
{
}

} // verus!
