//! The closed vocabularies that the services store as text: auction types
//! and states, auto-bid states, staff states and page states. Each has its
//! canonical name (`as_str`) and a parser that accepts that name with
//! surrounding white space (`try_from`).
use vstd::prelude::*;
use crate::text::{str_eq, trim, trim_seq};

verus! {

/// How bids are shown while an auction runs.
#[derive(Debug, Clone, Copy, PartialEq, Eq)]
pub enum AuctionType {
    Open,
    Sealed,
}

/// Where an auction stands in its life cycle.
#[derive(Debug, Clone, Copy, PartialEq, Eq)]
pub enum AuctionStatus {
    Draft,
    Scheduled,
    Running,
    Ended,
    AwaitingApproval,
    Approved,
}

/// Whether a customer's automatic bidding is on.
#[derive(Debug, Clone, Copy, PartialEq, Eq)]
pub enum AutoBidStatus {
    Active,
    Disabled,
}

/// Whether a staff member has accepted an invitation.
#[derive(Debug, Clone, Copy, PartialEq, Eq)]
pub enum StoreStaffStatus {
    Active,
    Invited,
}

/// Whether a content page is visible on the storefront.
#[derive(Debug, Clone, Copy, PartialEq, Eq)]
pub enum PageStatus {
    Draft,
    Published,
}

impl AuctionType {
    /// The stored name of the type.
    pub open spec fn name(self) -> Seq<char> {
        match self {
            AuctionType::Open => "open"@,
            AuctionType::Sealed => "sealed"@,
        }
    }

    /// The type named by `s` after trimming.
    pub open spec fn parse_spec(s: Seq<char>) -> Option<AuctionType> {
        let t = trim_seq(s);
        if t == "open"@ {
            Some(AuctionType::Open)
        } else if t == "sealed"@ {
            Some(AuctionType::Sealed)
        } else {
            None
        }
    }

    pub fn as_str(self) -> (r: &'static str)
        ensures
            r@ == self.name(),
    {
        match self {
            AuctionType::Open => "open",
            AuctionType::Sealed => "sealed",
        }
    }

    /// The name, as `Display` writes it.
    pub fn to_string(&self) -> (r: String)
        ensures
            r@ == self.name(),
    {
        self.as_str().to_owned()
    }

    pub fn try_from(value: &str) -> (r: Result<AuctionType, &'static str>)
        ensures
            match AuctionType::parse_spec(value@) {
                Some(t) => r == Ok::<AuctionType, &'static str>(t),
                None => r is Err && r->Err_0@ == "auction_type is invalid"@,
            },
    {
        let t = trim(value);
        if str_eq(t.as_str(), "open") {
            Ok(AuctionType::Open)
        } else if str_eq(t.as_str(), "sealed") {
            Ok(AuctionType::Sealed)
        } else {
            Err("auction_type is invalid")
        }
    }
}

impl AuctionStatus {
    /// The stored name of the state.
    pub open spec fn name(self) -> Seq<char> {
        match self {
            AuctionStatus::Draft => "draft"@,
            AuctionStatus::Scheduled => "scheduled"@,
            AuctionStatus::Running => "running"@,
            AuctionStatus::Ended => "ended"@,
            AuctionStatus::AwaitingApproval => "awaiting_approval"@,
            AuctionStatus::Approved => "approved"@,
        }
    }

    /// The state named by `s` after trimming.
    pub open spec fn parse_spec(s: Seq<char>) -> Option<AuctionStatus> {
        let t = trim_seq(s);
        if t == "draft"@ {
            Some(AuctionStatus::Draft)
        } else if t == "scheduled"@ {
            Some(AuctionStatus::Scheduled)
        } else if t == "running"@ {
            Some(AuctionStatus::Running)
        } else if t == "ended"@ {
            Some(AuctionStatus::Ended)
        } else if t == "awaiting_approval"@ {
            Some(AuctionStatus::AwaitingApproval)
        } else if t == "approved"@ {
            Some(AuctionStatus::Approved)
        } else {
            None
        }
    }

    pub fn as_str(self) -> (r: &'static str)
        ensures
            r@ == self.name(),
    {
        match self {
            AuctionStatus::Draft => "draft",
            AuctionStatus::Scheduled => "scheduled",
            AuctionStatus::Running => "running",
            AuctionStatus::Ended => "ended",
            AuctionStatus::AwaitingApproval => "awaiting_approval",
            AuctionStatus::Approved => "approved",
        }
    }

    /// The name, as `Display` writes it.
    pub fn to_string(&self) -> (r: String)
        ensures
            r@ == self.name(),
    {
        self.as_str().to_owned()
    }

    pub fn try_from(value: &str) -> (r: Result<AuctionStatus, &'static str>)
        ensures
            match AuctionStatus::parse_spec(value@) {
                Some(t) => r == Ok::<AuctionStatus, &'static str>(t),
                None => r is Err && r->Err_0@ == "status is invalid"@,
            },
    {
        let t = trim(value);
        let t = t.as_str();
        if str_eq(t, "draft") {
            Ok(AuctionStatus::Draft)
        } else if str_eq(t, "scheduled") {
            Ok(AuctionStatus::Scheduled)
        } else if str_eq(t, "running") {
            Ok(AuctionStatus::Running)
        } else if str_eq(t, "ended") {
            Ok(AuctionStatus::Ended)
        } else if str_eq(t, "awaiting_approval") {
            Ok(AuctionStatus::AwaitingApproval)
        } else if str_eq(t, "approved") {
            Ok(AuctionStatus::Approved)
        } else {
            Err("status is invalid")
        }
    }
}

impl AutoBidStatus {
    /// The stored name of the state.
    pub open spec fn name(self) -> Seq<char> {
        match self {
            AutoBidStatus::Active => "active"@,
            AutoBidStatus::Disabled => "disabled"@,
        }
    }

    /// The state named by `s` after trimming.
    pub open spec fn parse_spec(s: Seq<char>) -> Option<AutoBidStatus> {
        let t = trim_seq(s);
        if t == "active"@ {
            Some(AutoBidStatus::Active)
        } else if t == "disabled"@ {
            Some(AutoBidStatus::Disabled)
        } else {
            None
        }
    }

    pub fn as_str(self) -> (r: &'static str)
        ensures
            r@ == self.name(),
    {
        match self {
            AutoBidStatus::Active => "active",
            AutoBidStatus::Disabled => "disabled",
        }
    }

    /// The name, as `Display` writes it.
    pub fn to_string(&self) -> (r: String)
        ensures
            r@ == self.name(),
    {
        self.as_str().to_owned()
    }

    pub fn try_from(value: &str) -> (r: Result<AutoBidStatus, &'static str>)
        ensures
            match AutoBidStatus::parse_spec(value@) {
                Some(t) => r == Ok::<AutoBidStatus, &'static str>(t),
                None => r is Err && r->Err_0@ == "auto_bid status is invalid"@,
            },
    {
        let t = trim(value);
        if str_eq(t.as_str(), "active") {
            Ok(AutoBidStatus::Active)
        } else if str_eq(t.as_str(), "disabled") {
            Ok(AutoBidStatus::Disabled)
        } else {
            Err("auto_bid status is invalid")
        }
    }
}

impl StoreStaffStatus {
    /// The stored name of the state.
    pub open spec fn name(self) -> Seq<char> {
        match self {
            StoreStaffStatus::Active => "active"@,
            StoreStaffStatus::Invited => "invited"@,
        }
    }

    /// The state named by `s` after trimming.
    pub open spec fn parse_spec(s: Seq<char>) -> Option<StoreStaffStatus> {
        let t = trim_seq(s);
        if t == "active"@ {
            Some(StoreStaffStatus::Active)
        } else if t == "invited"@ {
            Some(StoreStaffStatus::Invited)
        } else {
            None
        }
    }

    pub fn as_str(self) -> (r: &'static str)
        ensures
            r@ == self.name(),
    {
        match self {
            StoreStaffStatus::Active => "active",
            StoreStaffStatus::Invited => "invited",
        }
    }

    /// The name, as `Display` writes it.
    pub fn to_string(&self) -> (r: String)
        ensures
            r@ == self.name(),
    {
        self.as_str().to_owned()
    }

    pub fn try_from(value: &str) -> (r: Result<StoreStaffStatus, &'static str>)
        ensures
            match StoreStaffStatus::parse_spec(value@) {
                Some(t) => r == Ok::<StoreStaffStatus, &'static str>(t),
                None => r is Err && r->Err_0@ == "status must be active or invited"@,
            },
    {
        let t = trim(value);
        if str_eq(t.as_str(), "active") {
            Ok(StoreStaffStatus::Active)
        } else if str_eq(t.as_str(), "invited") {
            Ok(StoreStaffStatus::Invited)
        } else {
            Err("status must be active or invited")
        }
    }
}

impl PageStatus {
    /// The stored name of the state.
    pub open spec fn name(self) -> Seq<char> {
        match self {
            PageStatus::Draft => "draft"@,
            PageStatus::Published => "published"@,
        }
    }

    /// The state named by `s` after trimming; blank text means a draft.
    pub open spec fn parse_spec(s: Seq<char>) -> Option<PageStatus> {
        let t = trim_seq(s);
        if t.len() == 0 {
            Some(PageStatus::Draft)
        } else if t == "draft"@ {
            Some(PageStatus::Draft)
        } else if t == "published"@ {
            Some(PageStatus::Published)
        } else {
            None
        }
    }

    pub fn as_str(self) -> (r: &'static str)
        ensures
            r@ == self.name(),
    {
        match self {
            PageStatus::Draft => "draft",
            PageStatus::Published => "published",
        }
    }

    /// The name, as `Display` writes it.
    pub fn to_string(&self) -> (r: String)
        ensures
            r@ == self.name(),
    {
        self.as_str().to_owned()
    }

    pub fn try_from(value: &str) -> (r: Result<PageStatus, &'static str>)
        ensures
            match PageStatus::parse_spec(value@) {
                Some(t) => r == Ok::<PageStatus, &'static str>(t),
                None => r is Err && r->Err_0@ == "status must be draft or published"@,
            },
    {
        let t = trim(value);
        if t.as_str().is_empty() {
            Ok(PageStatus::Draft)
        } else if str_eq(t.as_str(), "draft") {
            Ok(PageStatus::Draft)
        } else if str_eq(t.as_str(), "published") {
            Ok(PageStatus::Published)
        } else {
            Err("status must be draft or published")
        }
    }
}


/// Parsing the stored name of an auction type gives the type back.
pub proof fn lemma_auction_type_roundtrip(t: AuctionType)
    ensures
        AuctionType::parse_spec(t.name()) == Some(t),
{
    reveal_strlit("open");
    reveal_strlit("sealed");
    crate::text::lemma_trim_of_trimmed(t.name());
}

/// Parsing the stored name of an auction state gives the state back.
pub proof fn lemma_auction_status_roundtrip(t: AuctionStatus)
    ensures
        AuctionStatus::parse_spec(t.name()) == Some(t),
{
    reveal_strlit("draft");
    reveal_strlit("scheduled");
    reveal_strlit("running");
    reveal_strlit("ended");
    reveal_strlit("awaiting_approval");
    reveal_strlit("approved");
    crate::text::lemma_trim_of_trimmed(t.name());
}

/// Parsing the stored name of an auto-bid state gives the state back.
pub proof fn lemma_auto_bid_status_roundtrip(t: AutoBidStatus)
    ensures
        AutoBidStatus::parse_spec(t.name()) == Some(t),
{
    reveal_strlit("active");
    reveal_strlit("disabled");
    crate::text::lemma_trim_of_trimmed(t.name());
}

/// Parsing the stored name of a staff state gives the state back.
pub proof fn lemma_store_staff_status_roundtrip(t: StoreStaffStatus)
    ensures
        StoreStaffStatus::parse_spec(t.name()) == Some(t),
{
    reveal_strlit("active");
    reveal_strlit("invited");
    crate::text::lemma_trim_of_trimmed(t.name());
}

/// Parsing the stored name of a page state gives the state back.
pub proof fn lemma_page_status_roundtrip(t: PageStatus)
    ensures
        PageStatus::parse_spec(t.name()) == Some(t),
{
    reveal_strlit("draft");
    reveal_strlit("published");
    crate::text::lemma_trim_of_trimmed(t.name());
}

} // verus!
