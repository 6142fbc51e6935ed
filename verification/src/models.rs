//! The paste record and the expiration choices a caller can request.
//! Timestamps are seconds on an absolute timeline; whoever drives the
//! library supplies the current time.

use vstd::prelude::*;

verus! {

/// The expiration times a paste can be created with.
#[derive(Debug, Clone, Copy, PartialEq, Eq, Structural)]
pub enum ExpirationTime {
    FiveMinutes,
    TenMinutes,
    ThirtyMinutes,
    OneHour,
    TwelveHours,
    OneDay,
    OneWeek,
    TwoWeeks,
    OneMonth,
}

impl ExpirationTime {
    /// The requested lifetime in seconds; a month counts as 30 days.
    pub open spec fn duration_secs(self) -> int {
        match self {
            ExpirationTime::FiveMinutes => 300int,
            ExpirationTime::TenMinutes => 600int,
            ExpirationTime::ThirtyMinutes => 1800int,
            ExpirationTime::OneHour => 3600int,
            ExpirationTime::TwelveHours => 43200int,
            ExpirationTime::OneDay => 86400int,
            ExpirationTime::OneWeek => 604800int,
            ExpirationTime::TwoWeeks => 1209600int,
            ExpirationTime::OneMonth => 2592000int,
        }
    }

    /// The requested lifetime as a number of seconds.
    pub fn to_duration(&self) -> (r: i64)
        ensures
            r == self.duration_secs(),
            0 < r <= 2592000,
    {
        match self {
            ExpirationTime::FiveMinutes => 300,
            ExpirationTime::TenMinutes => 600,
            ExpirationTime::ThirtyMinutes => 1800,
            ExpirationTime::OneHour => 3600,
            ExpirationTime::TwelveHours => 43200,
            ExpirationTime::OneDay => 86400,
            ExpirationTime::OneWeek => 604800,
            ExpirationTime::TwoWeeks => 1209600,
            ExpirationTime::OneMonth => 2592000,
        }
    }
}

/// The mathematical shape of a stored paste record.
pub ghost struct PasteModel {
    pub id: Seq<char>,
    pub content: Seq<char>,
    pub created_at: int,
    pub expires_at: int,
    pub burn_after_read: bool,
    pub display_format: Seq<char>,
}

impl PasteModel {
    /// Every record the store holds keeps its expiry after its creation.
    pub open spec fn wf(self) -> bool {
        self.expires_at > self.created_at
    }
}

/// A stored paste record: an opaque id, the encoded ciphertext envelope
/// (the store never sees a plaintext or a key), two timestamps in seconds,
/// the burn-after-read flag, and a presentation hint that this library
/// passes through untouched.
#[derive(Debug)]
pub struct PasteData {
    pub id: String,
    pub content: String,
    pub created_at: i64,
    pub expires_at: i64,
    pub burn_after_read: bool,
    pub display_format: String,
}

impl PasteData {
    /// An identical copy of the record.
    pub fn duplicate(&self) -> (r: PasteData)
        ensures
            r@ == self@,
    {
        PasteData {
            id: self.id.clone(),
            content: self.content.clone(),
            created_at: self.created_at,
            expires_at: self.expires_at,
            burn_after_read: self.burn_after_read,
            display_format: self.display_format.clone(),
        }
    }
}

impl View for PasteData {
    type V = PasteModel;

    open spec fn view(&self) -> PasteModel {
        PasteModel {
            id: self.id@,
            content: self.content@,
            created_at: self.created_at as int,
            expires_at: self.expires_at as int,
            burn_after_read: self.burn_after_read,
            display_format: self.display_format@,
        }
    }
}

} // verus!
