use vstd::prelude::*;
use crate::tg_structs::{opt_str, ParticipantItemView, TgParticipantOutputItem};

verus! {

/// The standing of a member within a group or channel.
#[derive(Debug, Clone, PartialEq, Eq)]
pub enum ParticipantRole {
    User,
    Creator,
    Admin,
    Banned,
    Left,
    /// A standing that Telegram reports and that this server does not name.
    Unknown,
}

/// The word by which each standing is reported.
pub open spec fn role_word(r: ParticipantRole) -> Seq<char> {
    match r {
        ParticipantRole::User => "user"@,
        ParticipantRole::Creator => "creator"@,
        ParticipantRole::Admin => "admin"@,
        ParticipantRole::Banned => "banned"@,
        ParticipantRole::Left => "left"@,
        ParticipantRole::Unknown => "unknown"@,
    }
}

/// The word by which standing `r` is reported.
pub fn role_name(r: &ParticipantRole) -> (s: String)
    ensures
        s@ == role_word(*r),
{
    match r {
        ParticipantRole::User => String::from_str("user"),
        ParticipantRole::Creator => String::from_str("creator"),
        ParticipantRole::Admin => String::from_str("admin"),
        ParticipantRole::Banned => String::from_str("banned"),
        ParticipantRole::Left => String::from_str("left"),
        ParticipantRole::Unknown => String::from_str("unknown"),
    }
}

/// What the server reads of one member of a group or channel.
#[derive(Debug, Clone, PartialEq, Eq)]
pub struct ParticipantInfo {
    pub id: i64,
    pub full_name: String,
    pub username: Option<String>,
    pub is_bot: bool,
    pub is_premium: bool,
    pub phone_number: Option<String>,
    pub role: ParticipantRole,
}

/// The output entry of a member.
pub open spec fn participant_view(p: ParticipantInfo) -> ParticipantItemView {
    ParticipantItemView {
        id: p.id,
        full_name: p.full_name@,
        username: opt_str(p.username),
        is_bot: p.is_bot,
        is_premium: p.is_premium,
        phone_number: opt_str(p.phone_number),
        role: role_word(p.role),
    }
}

/// The output entry of member `p`.
pub fn participant_item(p: ParticipantInfo) -> (r: TgParticipantOutputItem)
    ensures
        r@ == participant_view(p),
{
    let role = role_name(&p.role);
    TgParticipantOutputItem {
        id: p.id,
        full_name: p.full_name,
        username: p.username,
        is_bot: p.is_bot,
        is_premium: p.is_premium,
        phone_number: p.phone_number,
        role,
    }
}

} // verus!
