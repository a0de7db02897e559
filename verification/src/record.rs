//! The shapes in which values are handed to the store, and what each
//! stands for. Every stored shape is made of integers, texts, options,
//! lists, tuples and `Result`, so that each value of a shape stands for
//! exactly one value of the type it is kept for.

use crate::models::{
    text, Owner, OwnerView, SocialMediaId, SocialMediaIdView, Timestamp, UserLocation,
    UserLocationView, UserMetadata, UserProfile, UserProfileView, UserSession, UserSessionView,
};
use vstd::prelude::*;

verus! {

/// `Ok` holds a direct owner, `Err` the address of an access-control service.
pub type OwnerRecord = Result<String, String>;

/// Creation and update time, in nanoseconds.
pub type MetadataRecord = (u64, u64);

/// User id, address, creation time and height, refresh time and height.
pub type SessionRecord = (u64, String, u64, u64, u64, u64);

/// The six lines of a location, in the order of its fields.
pub type LocationRecord = (
    Option<String>,
    Option<String>,
    Option<String>,
    Option<String>,
    Option<String>,
    Option<String>,
);

/// A handle on one of the seven networks: the n-th network lies behind
/// n `Err`s, the last one behind six.
pub type SocialRecord = Result<
    String,
    Result<String, Result<String, Result<String, Result<String, Result<String, String>>>>>,
>;

/// The thirteen fields of a profile, in their order.
pub type ProfileRecord = (
    Option<String>,
    Option<String>,
    Option<LocationRecord>,
    Option<String>,
    Option<String>,
    Option<String>,
    Option<String>,
    Option<String>,
    Option<String>,
    Option<String>,
    Option<String>,
    Option<String>,
    Option<Vec<SocialRecord>>,
);

pub open spec fn owner_of(r: OwnerRecord) -> OwnerView {
    match r {
        Ok(a) => OwnerView::Address(a@),
        Err(a) => OwnerView::Acl(a@),
    }
}

pub open spec fn metadata_of(r: MetadataRecord) -> UserMetadata {
    UserMetadata {
        created_at: Timestamp { nanos: r.0 },
        updated_at: Timestamp { nanos: r.1 },
    }
}

pub open spec fn session_of(r: SessionRecord) -> UserSessionView {
    UserSessionView {
        user_id: r.0,
        address: r.1@,
        time: Timestamp { nanos: r.2 },
        height: r.3,
        refresh_time: Timestamp { nanos: r.4 },
        refresh_height: r.5,
    }
}

pub open spec fn location_of(r: LocationRecord) -> UserLocationView {
    UserLocationView {
        address_line_1: text(r.0),
        address_line_2: text(r.1),
        postal_code: text(r.2),
        country: text(r.3),
        region: text(r.4),
        city: text(r.5),
    }
}

pub open spec fn social_of(r: SocialRecord) -> SocialMediaIdView {
    match r {
        Ok(h) => SocialMediaIdView::Linkedin(h@),
        Err(Ok(h)) => SocialMediaIdView::Twitter(h@),
        Err(Err(Ok(h))) => SocialMediaIdView::Instagram(h@),
        Err(Err(Err(Ok(h)))) => SocialMediaIdView::Telegram(h@),
        Err(Err(Err(Err(Ok(h))))) => SocialMediaIdView::Discord(h@),
        Err(Err(Err(Err(Err(Ok(h)))))) => SocialMediaIdView::Facebook(h@),
        Err(Err(Err(Err(Err(Err(h)))))) => SocialMediaIdView::Tiktok(h@),
    }
}

pub open spec fn profile_of(r: ProfileRecord) -> UserProfileView {
    UserProfileView {
        username: text(r.0),
        description: text(r.1),
        location: match r.2 {
            Some(l) => Some(location_of(l)),
            None => None,
        },
        image_url: text(r.3),
        cover_image_url: text(r.4),
        title: text(r.5),
        first_name: text(r.6),
        last_name: text(r.7),
        email: text(r.8),
        phone: text(r.9),
        website: text(r.10),
        color: text(r.11),
        socials: match r.12 {
            Some(v) => Some(v@.map_values(|s: SocialRecord| social_of(s))),
            None => None,
        },
    }
}

/// The shape in which a session is stored.
pub fn session_to_record(session: &UserSession) -> (r: SessionRecord)
    ensures
        session_of(r) == session@,
{
    (
        session.user_id,
        session.address.clone(),
        session.time.nanos,
        session.height,
        session.refresh_time.nanos,
        session.refresh_height,
    )
}

/// The session that a stored shape stands for.
pub fn session_from_record(r: SessionRecord) -> (session: UserSession)
    ensures
        session@ == session_of(r),
{
    UserSession {
        user_id: r.0,
        address: r.1,
        time: Timestamp { nanos: r.2 },
        height: r.3,
        refresh_time: Timestamp { nanos: r.4 },
        refresh_height: r.5,
    }
}

/// The shape in which metadata is stored.
pub fn metadata_to_record(metadata: &UserMetadata) -> (r: MetadataRecord)
    ensures
        metadata_of(r) == *metadata,
{
    (metadata.created_at.nanos, metadata.updated_at.nanos)
}

/// The metadata that a stored shape stands for.
pub fn metadata_from_record(r: MetadataRecord) -> (metadata: UserMetadata)
    ensures
        metadata == metadata_of(r),
{
    UserMetadata {
        created_at: Timestamp { nanos: r.0 },
        updated_at: Timestamp { nanos: r.1 },
    }
}

/// A copy of a text that may be missing.
pub fn clone_text(t: &Option<String>) -> (r: Option<String>)
    ensures
        text(r) == text(*t),
{
    match t {
        Some(s) => Some(s.clone()),
        None => None,
    }
}

/// The shape in which a location is stored.
pub fn location_to_record(location: &UserLocation) -> (r: LocationRecord)
    ensures
        location_of(r) == location@,
{
    (
        clone_text(&location.address_line_1),
        clone_text(&location.address_line_2),
        clone_text(&location.postal_code),
        clone_text(&location.country),
        clone_text(&location.region),
        clone_text(&location.city),
    )
}

/// The location that a stored shape stands for.
pub fn location_from_record(r: LocationRecord) -> (location: UserLocation)
    ensures
        location@ == location_of(r),
{
    UserLocation {
        address_line_1: r.0,
        address_line_2: r.1,
        postal_code: r.2,
        country: r.3,
        region: r.4,
        city: r.5,
    }
}

/// The shape in which a handle on a network is stored.
pub fn social_to_record(social: &SocialMediaId) -> (r: SocialRecord)
    ensures
        social_of(r) == social@,
{
    match social {
        SocialMediaId::Linkedin(h) => Ok(h.clone()),
        SocialMediaId::Twitter(h) => Err(Ok(h.clone())),
        SocialMediaId::Instagram(h) => Err(Err(Ok(h.clone()))),
        SocialMediaId::Telegram(h) => Err(Err(Err(Ok(h.clone())))),
        SocialMediaId::Discord(h) => Err(Err(Err(Err(Ok(h.clone()))))),
        SocialMediaId::Facebook(h) => Err(Err(Err(Err(Err(Ok(h.clone())))))),
        SocialMediaId::Tiktok(h) => Err(Err(Err(Err(Err(Err(h.clone())))))),
    }
}

/// The handle that a stored shape stands for.
pub fn social_from_record(r: &SocialRecord) -> (social: SocialMediaId)
    ensures
        social@ == social_of(*r),
{
    match r {
        Ok(h) => SocialMediaId::Linkedin(h.clone()),
        Err(Ok(h)) => SocialMediaId::Twitter(h.clone()),
        Err(Err(Ok(h))) => SocialMediaId::Instagram(h.clone()),
        Err(Err(Err(Ok(h)))) => SocialMediaId::Telegram(h.clone()),
        Err(Err(Err(Err(Ok(h))))) => SocialMediaId::Discord(h.clone()),
        Err(Err(Err(Err(Err(Ok(h)))))) => SocialMediaId::Facebook(h.clone()),
        Err(Err(Err(Err(Err(Err(h)))))) => SocialMediaId::Tiktok(h.clone()),
    }
}

/// The shapes in which a list of handles is stored, in its order.
pub fn socials_to_records(socials: &Vec<SocialMediaId>) -> (r: Vec<SocialRecord>)
    ensures
        r@.map_values(|s: SocialRecord| social_of(s)) == socials@.map_values(
            |s: SocialMediaId| s@,
        ),
{
    let mut out: Vec<SocialRecord> = Vec::new();
    let mut i: usize = 0;
    while i < socials.len()
        invariant
            i <= socials.len(),
            out@.len() == i,
            forall|j: int| 0 <= j < i ==> social_of(#[trigger] out@[j]) == socials@[j]@,
        decreases socials.len() - i,
    {
        out.push(social_to_record(&socials[i]));
        i += 1;
    }
    assert(out@.map_values(|s: SocialRecord| social_of(s)) =~= socials@.map_values(
        |s: SocialMediaId| s@,
    ));
    out
}

/// The handles that a list of stored shapes stands for, in its order.
pub fn socials_from_records(records: &Vec<SocialRecord>) -> (r: Vec<SocialMediaId>)
    ensures
        r@.map_values(|s: SocialMediaId| s@) == records@.map_values(
            |s: SocialRecord| social_of(s),
        ),
{
    let mut out: Vec<SocialMediaId> = Vec::new();
    let mut i: usize = 0;
    while i < records.len()
        invariant
            i <= records.len(),
            out@.len() == i,
            forall|j: int| 0 <= j < i ==> (#[trigger] out@[j])@ == social_of(records@[j]),
        decreases records.len() - i,
    {
        out.push(social_from_record(&records[i]));
        i += 1;
    }
    assert(out@.map_values(|s: SocialMediaId| s@) =~= records@.map_values(
        |s: SocialRecord| social_of(s),
    ));
    out
}

/// The shape in which a profile is stored.
pub fn profile_to_record(profile: &UserProfile) -> (r: ProfileRecord)
    ensures
        profile_of(r) == profile@,
{
    (
        clone_text(&profile.username),
        clone_text(&profile.description),
        match &profile.location {
            Some(l) => Some(location_to_record(l)),
            None => None,
        },
        clone_text(&profile.image_url),
        clone_text(&profile.cover_image_url),
        clone_text(&profile.title),
        clone_text(&profile.first_name),
        clone_text(&profile.last_name),
        clone_text(&profile.email),
        clone_text(&profile.phone),
        clone_text(&profile.website),
        clone_text(&profile.color),
        match &profile.socials {
            Some(v) => Some(socials_to_records(v)),
            None => None,
        },
    )
}

/// The profile that a stored shape stands for.
pub fn profile_from_record(r: ProfileRecord) -> (profile: UserProfile)
    ensures
        profile@ == profile_of(r),
{
    UserProfile {
        username: r.0,
        description: r.1,
        location: match r.2 {
            Some(l) => Some(location_from_record(l)),
            None => None,
        },
        image_url: r.3,
        cover_image_url: r.4,
        title: r.5,
        first_name: r.6,
        last_name: r.7,
        email: r.8,
        phone: r.9,
        website: r.10,
        color: r.11,
        socials: match r.12 {
            Some(v) => Some(socials_from_records(&v)),
            None => None,
        },
    }
}

/// The shape in which an owner is stored.
pub fn owner_to_record(owner: &Owner) -> (r: OwnerRecord)
    ensures
        owner_of(r) == owner@,
{
    match owner {
        Owner::Address(a) => Ok(a.clone()),
        Owner::Acl(a) => Err(a.clone()),
    }
}

/// The owner that a stored shape stands for.
pub fn owner_from_record(r: OwnerRecord) -> (owner: Owner)
    ensures
        owner@ == owner_of(r),
{
    match r {
        Ok(a) => Owner::Address(a),
        Err(a) => Owner::Acl(a),
    }
}

} // verus!
