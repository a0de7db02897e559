use vstd::prelude::*;

verus! {

pub const NANOS_PER_SECOND: u64 = 1_000_000_000;

/// A point in time, in nanoseconds since the Unix epoch.
#[derive(Clone, Copy, Debug, PartialEq, Eq, Structural)]
pub struct Timestamp {
    pub nanos: u64,
}

impl Timestamp {
    pub open spec fn spec_seconds(self) -> u64 {
        self.nanos / NANOS_PER_SECOND
    }

    /// The whole seconds of this point in time.
    #[verifier::when_used_as_spec(spec_seconds)]
    pub fn seconds(self) -> (s: u64)
        ensures
            s == self.spec_seconds(),
    {
        self.nanos / NANOS_PER_SECOND
    }

    /// The point in time that lies `seconds` whole seconds after the epoch.
    pub fn from_seconds(seconds: u64) -> (t: Timestamp)
        requires
            seconds * NANOS_PER_SECOND <= u64::MAX,
        ensures
            t.nanos == seconds * NANOS_PER_SECOND,
            t.spec_seconds() == seconds,
    {
        let t = Timestamp { nanos: seconds * NANOS_PER_SECOND };
        assert(t.nanos / NANOS_PER_SECOND == seconds) by (nonlinear_arith)
            requires
                t.nanos == seconds * NANOS_PER_SECOND,
                NANOS_PER_SECOND == 1_000_000_000,
        ;
        t
    }
}

/// What a call knows of the block it runs in.
#[derive(Clone, Copy, Debug, PartialEq, Eq, Structural)]
pub struct BlockInfo {
    pub height: u64,
    pub time: Timestamp,
}

/// Who may act as the registry's owner.
#[derive(Clone, Debug, PartialEq, Eq)]
pub enum Owner {
    /// This address, and no other.
    Address(String),
    /// Whoever the access-control service at this address lets through.
    Acl(String),
}

pub enum OwnerView {
    Address(Seq<char>),
    Acl(Seq<char>),
}

impl View for Owner {
    type V = OwnerView;

    open spec fn view(&self) -> OwnerView {
        match *self {
            Owner::Address(a) => OwnerView::Address(a@),
            Owner::Acl(a) => OwnerView::Acl(a@),
        }
    }
}

/// The characters of a text that may be missing.
pub open spec fn text(s: Option<String>) -> Option<Seq<char>> {
    match s {
        Some(t) => Some(t@),
        None => None,
    }
}

#[derive(Clone, Debug, PartialEq, Eq)]
pub struct UserLocation {
    pub address_line_1: Option<String>,
    pub address_line_2: Option<String>,
    pub postal_code: Option<String>,
    pub country: Option<String>,
    pub region: Option<String>,
    pub city: Option<String>,
}

pub struct UserLocationView {
    pub address_line_1: Option<Seq<char>>,
    pub address_line_2: Option<Seq<char>>,
    pub postal_code: Option<Seq<char>>,
    pub country: Option<Seq<char>>,
    pub region: Option<Seq<char>>,
    pub city: Option<Seq<char>>,
}

impl View for UserLocation {
    type V = UserLocationView;

    open spec fn view(&self) -> UserLocationView {
        UserLocationView {
            address_line_1: text(self.address_line_1),
            address_line_2: text(self.address_line_2),
            postal_code: text(self.postal_code),
            country: text(self.country),
            region: text(self.region),
            city: text(self.city),
        }
    }
}

#[derive(Clone, Debug, PartialEq, Eq)]
pub enum SocialMediaId {
    Linkedin(String),
    Twitter(String),
    Instagram(String),
    Telegram(String),
    Discord(String),
    Facebook(String),
    Tiktok(String),
}

pub enum SocialMediaIdView {
    Linkedin(Seq<char>),
    Twitter(Seq<char>),
    Instagram(Seq<char>),
    Telegram(Seq<char>),
    Discord(Seq<char>),
    Facebook(Seq<char>),
    Tiktok(Seq<char>),
}

impl View for SocialMediaId {
    type V = SocialMediaIdView;

    open spec fn view(&self) -> SocialMediaIdView {
        match *self {
            SocialMediaId::Linkedin(h) => SocialMediaIdView::Linkedin(h@),
            SocialMediaId::Twitter(h) => SocialMediaIdView::Twitter(h@),
            SocialMediaId::Instagram(h) => SocialMediaIdView::Instagram(h@),
            SocialMediaId::Telegram(h) => SocialMediaIdView::Telegram(h@),
            SocialMediaId::Discord(h) => SocialMediaIdView::Discord(h@),
            SocialMediaId::Facebook(h) => SocialMediaIdView::Facebook(h@),
            SocialMediaId::Tiktok(h) => SocialMediaIdView::Tiktok(h@),
        }
    }
}

/// What a user tells of themself. No field is required, and a missing one
/// stays missing.
#[derive(Clone, Debug, PartialEq, Eq)]
pub struct UserProfile {
    pub username: Option<String>,
    pub description: Option<String>,
    pub location: Option<UserLocation>,
    pub image_url: Option<String>,
    pub cover_image_url: Option<String>,
    pub title: Option<String>,
    pub first_name: Option<String>,
    pub last_name: Option<String>,
    pub email: Option<String>,
    pub phone: Option<String>,
    pub website: Option<String>,
    pub color: Option<String>,
    pub socials: Option<Vec<SocialMediaId>>,
}

pub struct UserProfileView {
    pub username: Option<Seq<char>>,
    pub description: Option<Seq<char>>,
    pub location: Option<UserLocationView>,
    pub image_url: Option<Seq<char>>,
    pub cover_image_url: Option<Seq<char>>,
    pub title: Option<Seq<char>>,
    pub first_name: Option<Seq<char>>,
    pub last_name: Option<Seq<char>>,
    pub email: Option<Seq<char>>,
    pub phone: Option<Seq<char>>,
    pub website: Option<Seq<char>>,
    pub color: Option<Seq<char>>,
    pub socials: Option<Seq<SocialMediaIdView>>,
}

impl View for UserProfile {
    type V = UserProfileView;

    open spec fn view(&self) -> UserProfileView {
        UserProfileView {
            username: text(self.username),
            description: text(self.description),
            location: match self.location {
                Some(l) => Some(l@),
                None => None,
            },
            image_url: text(self.image_url),
            cover_image_url: text(self.cover_image_url),
            title: text(self.title),
            first_name: text(self.first_name),
            last_name: text(self.last_name),
            email: text(self.email),
            phone: text(self.phone),
            website: text(self.website),
            color: text(self.color),
            socials: match self.socials {
                Some(v) => Some(v@.map_values(|s: SocialMediaId| s@)),
                None => None,
            },
        }
    }
}

/// When a user was registered. Nothing moves `updated_at` afterwards.
#[derive(Clone, Copy, Debug, PartialEq, Eq, Structural)]
pub struct UserMetadata {
    pub created_at: Timestamp,
    pub updated_at: Timestamp,
}

#[derive(Clone, Copy, Debug, PartialEq, Eq, Structural)]
pub struct UserConfig {
    pub session_timeout_seconds: u64,
}

/// One session, as it is filed under its key.
#[derive(Clone, Debug, PartialEq, Eq)]
pub struct UserSession {
    pub user_id: u64,
    pub address: String,
    pub time: Timestamp,
    pub height: u64,
    pub refresh_time: Timestamp,
    pub refresh_height: u64,
}

pub struct UserSessionView {
    pub user_id: u64,
    pub address: Seq<char>,
    pub time: Timestamp,
    pub height: u64,
    pub refresh_time: Timestamp,
    pub refresh_height: u64,
}

impl View for UserSession {
    type V = UserSessionView;

    open spec fn view(&self) -> UserSessionView {
        UserSessionView {
            user_id: self.user_id,
            address: self.address@,
            time: self.time,
            height: self.height,
            refresh_time: self.refresh_time,
            refresh_height: self.refresh_height,
        }
    }
}

/// All that is known of one user.
#[derive(Clone, Debug, PartialEq, Eq)]
pub struct User {
    pub id: u64,
    pub metadata: UserMetadata,
    pub profile: UserProfile,
    pub wallets: Vec<String>,
    pub config: UserConfig,
}

pub struct UserView {
    pub id: u64,
    pub metadata: UserMetadata,
    pub profile: UserProfileView,
    pub wallets: Seq<Seq<char>>,
    pub config: UserConfig,
}

/// The characters of each text of a list.
pub open spec fn texts(v: Seq<String>) -> Seq<Seq<char>> {
    v.map_values(|s: String| s@)
}

impl View for User {
    type V = UserView;

    open spec fn view(&self) -> UserView {
        UserView {
            id: self.id,
            metadata: self.metadata,
            profile: self.profile@,
            wallets: texts(self.wallets@),
            config: self.config,
        }
    }
}

/// Figures on the registry as a whole.
#[derive(Clone, Copy, Debug, PartialEq, Eq, Structural)]
pub struct ContractMetadata {
    pub n_users: u32,
}

} // verus!
