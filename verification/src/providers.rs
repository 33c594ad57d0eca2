//! The closed set of push vendors and their ready-to-use client instances.

use vstd::prelude::*;

verus! {

/// The vendor a client's notifications are routed to: two real vendors and a
/// no-op variant. Adding a vendor means adding a variant here and one
/// implementation behind it, never touching the orchestrator.
#[derive(Debug, Clone, Copy, PartialEq, Eq, Structural)]
pub enum ProviderKind {
    Apns,
    Fcm,
    Noop,
}

/// The wire name of each vendor kind.
pub open spec fn kind_name(k: ProviderKind) -> Seq<char> {
    match k {
        ProviderKind::Apns => "apns"@,
        ProviderKind::Fcm => "fcm"@,
        ProviderKind::Noop => "noop"@,
    }
}

impl ProviderKind {
    /// The wire name of the vendor kind.
    pub fn as_str(&self) -> (r: &'static str)
        ensures
            r@ == kind_name(*self),
    {
        match self {
            ProviderKind::Apns => "apns",
            ProviderKind::Fcm => "fcm",
            ProviderKind::Noop => "noop",
        }
    }

    /// The vendor kind a wire name stands for: the inverse of [`Self::as_str`],
    /// `None` exactly for names that are no vendor's.
    pub fn from_name(s: &str) -> (r: Option<ProviderKind>)
        ensures
            match r {
                Some(k) => kind_name(k) == s@,
                None => s@ != "apns"@ && s@ != "fcm"@ && s@ != "noop"@,
            },
    {
        if crate::text::str_eq(s, "apns") {
            Some(ProviderKind::Apns)
        } else if crate::text::str_eq(s, "fcm") {
            Some(ProviderKind::Fcm)
        } else if crate::text::str_eq(s, "noop") {
            Some(ProviderKind::Noop)
        } else {
            None
        }
    }
}

/// How a tenant authenticates against the APNs delivery API.
#[derive(Debug, Clone, Copy, PartialEq, Eq, Structural)]
pub enum ApnsType {
    Certificate,
    Token,
}

/// A live APNs client: the topic notifications are published under and the
/// tenant's credential material.
#[derive(Debug, Clone)]
pub struct ApnsProvider {
    pub topic: String,
    pub apns_type: ApnsType,
    pub certificate: String,
}

/// A live FCM client: the tenant's API key.
#[derive(Debug, Clone)]
pub struct FcmProvider {
    pub api_key: String,
}

/// A provider that accepts every send and forwards nothing; used for
/// registrations that want no real vendor behind them.
#[derive(Debug, Clone)]
pub struct NoopProvider {}

/// A ready-to-use vendor client scoped to one (tenant, vendor kind) pair.
/// Not part of persisted state; rebuilt from tenant credentials on demand.
#[derive(Debug, Clone)]
pub enum Provider {
    Fcm(FcmProvider),
    Apns(ApnsProvider),
    Noop(NoopProvider),
}

/// Mathematical image of a [`Provider`].
#[verifier::ext_equal]
pub ghost enum ProviderView {
    Fcm { api_key: Seq<char> },
    Apns { topic: Seq<char>, apns_type: ApnsType, certificate: Seq<char> },
    Noop,
}

impl View for Provider {
    type V = ProviderView;

    open spec fn view(&self) -> ProviderView {
        match self {
            Provider::Fcm(p) => ProviderView::Fcm { api_key: p.api_key@ },
            Provider::Apns(p) => ProviderView::Apns {
                topic: p.topic@,
                apns_type: p.apns_type,
                certificate: p.certificate@,
            },
            Provider::Noop(_) => ProviderView::Noop,
        }
    }
}

/// The vendor kind a provider instance belongs to.
pub open spec fn kind_of(p: ProviderView) -> ProviderKind {
    match p {
        ProviderView::Fcm { .. } => ProviderKind::Fcm,
        ProviderView::Apns { .. } => ProviderKind::Apns,
        ProviderView::Noop => ProviderKind::Noop,
    }
}

impl Provider {
    /// The vendor kind of this instance.
    pub fn kind(&self) -> (k: ProviderKind)
        ensures
            k == kind_of(self@),
    {
        match self {
            Provider::Fcm(_) => ProviderKind::Fcm,
            Provider::Apns(_) => ProviderKind::Apns,
            Provider::Noop(_) => ProviderKind::Noop,
        }
    }

    /// A copy of this instance with the same credentials.
    pub fn duplicate(&self) -> (r: Provider)
        ensures
            r@ == self@,
    {
        match self {
            Provider::Fcm(p) => Provider::Fcm(FcmProvider { api_key: p.api_key.clone() }),
            Provider::Apns(p) => Provider::Apns(
                ApnsProvider {
                    topic: p.topic.clone(),
                    apns_type: p.apns_type,
                    certificate: p.certificate.clone(),
                },
            ),
            Provider::Noop(_) => Provider::Noop(NoopProvider {}),
        }
    }
}

} // verus!
