//! Invites: codes that let someone join a space or a channel, limited in
//! uses and time.

use vstd::prelude::*;
use vstd::string::StringSliceAdditionalSpecFns;
use crate::error::{AppError, ErrorView};
use crate::ids::{hyphenated, simple, version_of};
use crate::text::{hex_fixed, push_hex_fixed};
use sha2::Digest;

verus! {

// ---------------------------------------------------------------------------
// Codes

/// What SHA-256 makes of a byte string.
pub uninterp spec fn sha256_digest(data: Seq<u8>) -> Seq<u8>;

/// `sha2::Sha256`'s digest of `data` (one `update`, then `finalize`), as
/// its 32 bytes.
#[verifier::external_body]
fn sha256(data: &[u8]) -> (r: Vec<u8>)
    ensures
        r@ == sha256_digest(data@),
        r@.len() == 32,
{
    let mut hasher = sha2::Sha256::new();
    hasher.update(data);
    hasher.finalize().to_vec()
}

/// Bytes written as lowercase hex, two digits each.
pub open spec fn hex_bytes(b: Seq<u8>) -> Seq<char>
    decreases b.len(),
{
    if b.len() == 0 {
        seq![]
    } else {
        hex_bytes(b.drop_last()) + hex_fixed(b.last() as nat, 2)
    }
}

/// The stored form of an invite code: the hex of its SHA-256 digest.
pub fn hash_code(code: &str) -> (h: String)
    ensures
        h@ == hex_bytes(sha256_digest(code.spec_bytes())),
{
    let digest = sha256(code.as_bytes());
    let mut h = String::new();
    let n = digest.len();
    let mut i: usize = 0;
    while i < n
        invariant
            n == digest@.len(),
            i <= n,
            h@ == hex_bytes(digest@.subrange(0, i as int)),
        decreases n - i,
    {
        push_hex_fixed(&mut h, digest[i] as u128, 2);
        assert(digest@.subrange(0, (i + 1) as int).drop_last() =~= digest@.subrange(0, i as int));
        i += 1;
    }
    assert(digest@.subrange(0, n as int) =~= digest@);
    h
}

/// A fresh invite code: the compact form of a random UUID.
pub fn generate_code() -> (c: String)
    ensures
        exists|u: u128| c@ == #[trigger] simple(u) && version_of(u) == 4,
{
    let u = crate::ids::new_v4();
    crate::ids::uuid_to_simple_string(u)
}

// ---------------------------------------------------------------------------
// Validity

/// An invite can be used while it has uses left and has not expired; times
/// are nanoseconds since the epoch.
pub open spec fn usable(max_uses: Option<i32>, used_count: i32, expires_at: Option<i128>, now: i128) -> bool {
    &&& (max_uses matches Some(m) ==> used_count < m)
    &&& (expires_at matches Some(e) ==> e >= now)
}

/// An invite whose uses are exhausted is never usable, whatever its expiry;
/// an expired one is never usable, whatever its uses; one with uses left
/// that has not expired is. A use more or a later time never makes an
/// unusable invite usable again.
pub proof fn lemma_usable_laws(
    max_uses: Option<i32>,
    used_count: i32,
    more_uses: i32,
    expires_at: Option<i128>,
    now: i128,
    later: i128,
)
    requires
        used_count <= more_uses,
        now <= later,
    ensures
        max_uses matches Some(m) && used_count >= m ==> !usable(max_uses, used_count, expires_at, now),
        expires_at matches Some(e) && e < now ==> !usable(max_uses, used_count, expires_at, now),
        (max_uses is None || used_count < max_uses->0) && (expires_at is None || now <= expires_at->0) ==> usable(
            max_uses,
            used_count,
            expires_at,
            now,
        ),
        usable(max_uses, more_uses, expires_at, later) ==> usable(max_uses, used_count, expires_at, now),
{
}

/// Whether an invite can be used at `now`.
pub fn is_usable(max_uses: Option<i32>, used_count: i32, expires_at: Option<i128>, now: i128) -> (b: bool)
    ensures
        b == usable(max_uses, used_count, expires_at, now),
{
    if let Some(m) = max_uses {
        if used_count >= m {
            return false;
        }
    }
    if let Some(e) = expires_at {
        if e < now {
            return false;
        }
    }
    true
}

/// `time::OffsetDateTime::now_utc()`, in nanoseconds since the epoch.
#[verifier::external_body]
pub(crate) fn now_nanos() -> (t: i128) {
    time::OffsetDateTime::now_utc().unix_timestamp_nanos()
}

/// Whether an invite can be used now.
pub fn is_usable_now(max_uses: Option<i32>, used_count: i32, expires_at: Option<i128>) -> (b: bool)
    ensures
        exists|now: i128| b == usable(max_uses, used_count, expires_at, now),
{
    let now = now_nanos();
    is_usable(max_uses, used_count, expires_at, now)
}

/// Validating a code refuses an invite that cannot be used as an invalid
/// code: not found.
pub fn check_usable(usable_now: bool) -> (r: Result<(), AppError>)
    ensures
        r is Ok <==> usable_now,
        !usable_now ==> r->Err_0@ == ErrorView::NotFound("Invalid invite code"@),
{
    if !usable_now {
        return Err(crate::error::not_found("Invalid invite code"));
    }
    Ok(())
}

/// A new invite may not expire in the past.
pub fn check_new_expiry(expires_at: Option<i128>, now: i128) -> (r: Result<(), AppError>)
    ensures
        r is Ok <==> !(expires_at matches Some(e) && e < now),
        r is Err ==> r->Err_0@ == ErrorView::BadRequest("Expiration must be in the future"@),
{
    if let Some(e) = expires_at {
        if e < now {
            return Err(crate::error::bad_request("Expiration must be in the future"));
        }
    }
    Ok(())
}

/// A new invite may not expire before now.
pub fn check_new_expiry_now(expires_at: Option<i128>) -> (r: Result<(), AppError>)
    ensures
        exists|now: i128| #![trigger usable(None, 0i32, expires_at, now)]
            (r is Ok <==> usable(None, 0i32, expires_at, now)),
        r is Err ==> r->Err_0@ == ErrorView::BadRequest("Expiration must be in the future"@),
{
    let now = now_nanos();
    let r = check_new_expiry(expires_at, now);
    assert(r is Ok <==> usable(None, 0i32, expires_at, now));
    r
}

// ---------------------------------------------------------------------------
// Targets

/// How the space of a new invite is found.
#[derive(Debug)]
pub enum SpaceOfInvite {
    /// The invite names its space.
    Known(u128),
    /// The space is that of the invite's channel, which must be looked up.
    OfChannel(u128),
}

/// The space of a new invite: its own, else its channel's; an invite with
/// neither is refused.
pub fn resolve_space_id(space_id: Option<u128>, channel_id: Option<u128>) -> (r: Result<SpaceOfInvite, AppError>)
    ensures
        space_id matches Some(s) ==> r matches Ok(SpaceOfInvite::Known(k)) && k == s,
        (space_id is None && channel_id is Some) ==> (r matches Ok(SpaceOfInvite::OfChannel(k)) && k == channel_id->0),
        space_id is None && channel_id is None ==> r is Err && r->Err_0@ == ErrorView::BadRequest(
            "Invite must target a space or channel"@,
        ),
{
    if let Some(sid) = space_id {
        return Ok(SpaceOfInvite::Known(sid));
    }
    if let Some(cid) = channel_id {
        return Ok(SpaceOfInvite::OfChannel(cid));
    }
    Err(crate::error::bad_request("Invite must target a space or channel"))
}

/// What accepting an invite does.
#[derive(Debug)]
pub enum InviteTarget {
    /// Join the space (and take its default role).
    Space(u128),
    /// Join the channel.
    Channel(u128),
}

/// The target of an accepted invite: its space if it has one, else its
/// channel; an invite with neither is refused.
pub fn accept_target(space_id: Option<u128>, channel_id: Option<u128>) -> (r: Result<InviteTarget, AppError>)
    ensures
        space_id matches Some(s) ==> r matches Ok(InviteTarget::Space(k)) && k == s,
        (space_id is None && channel_id is Some) ==> (r matches Ok(InviteTarget::Channel(k)) && k == channel_id->0),
        space_id is None && channel_id is None ==> r is Err && r->Err_0@ == ErrorView::BadRequest(
            "Invite has no target"@,
        ),
{
    if let Some(sid) = space_id {
        Ok(InviteTarget::Space(sid))
    } else if let Some(cid) = channel_id {
        Ok(InviteTarget::Channel(cid))
    } else {
        Err(crate::error::bad_request("Invite has no target"))
    }
}

/// What an accepted invite answers: the joined space's or channel's id.
pub fn accepted_id(target: &InviteTarget) -> (s: String)
    ensures
        s@ == hyphenated(
            match target {
                InviteTarget::Space(id) => *id,
                InviteTarget::Channel(id) => *id,
            },
        ),
{
    match target {
        InviteTarget::Space(id) => crate::ids::uuid_to_string(*id),
        InviteTarget::Channel(id) => crate::ids::uuid_to_string(*id),
    }
}

/// A role of a space, as far as joining it needs to know.
#[derive(Debug, Clone, Copy)]
pub struct RoleEntry {
    pub id: u128,
    pub is_default: bool,
}

/// The first default role of a space, which a new member receives.
pub fn find_default_role(roles: &Vec<RoleEntry>) -> (r: Option<u128>)
    ensures
        r is None <==> forall|i: int| 0 <= i < roles@.len() ==> !roles@[i].is_default,
        r matches Some(id) ==> exists|i: int|
            0 <= i < roles@.len() && roles@[i].is_default && roles@[i].id == id
                && forall|j: int| 0 <= j < i ==> !roles@[j].is_default,
{
    let n = roles.len();
    let mut i: usize = 0;
    while i < n
        invariant
            n == roles@.len(),
            i <= n,
            forall|j: int| 0 <= j < i ==> !roles@[j].is_default,
        decreases n - i,
    {
        if roles[i].is_default {
            return Some(roles[i].id);
        }
        i += 1;
    }
    None
}

} // verus!
