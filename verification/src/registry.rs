//! The tag registry: admin-gated registration, anti-replay validation,
//! and the admin query, over an in-memory model of the persisted state.
//!
//! The registry holds the singleton admin record and the collection of
//! registered tags. Registration requires the caller to be the admin and
//! the id to be absent; validation requires the id to be present, the
//! submitted counter to be in range and strictly above the stored one,
//! and the signature to match the recomputed MAC chain, and then advances
//! the stored counter. Every failure leaves the registry unchanged.

use vstd::prelude::*;
use crate::errors::Error;
use crate::msg::{AdminResponse, ExecuteMsg, QueryMsg};
use crate::state::{le3_of, le3_value, lemma_le3_roundtrip, be7_of, u32_to_u8_3_lsb, u64_to_u8_7, State, Tag};
use crate::validate::{sun_signature, verify_sun};

verus! {

/// The index of the first tag whose id bytes are `id`, if any.
pub open spec fn find_tag(tags: Seq<Tag>, id: Seq<u8>) -> Option<int>
    decreases tags.len(),
{
    if tags.len() == 0 {
        None
    } else if tags[0].id@ == id {
        Some(0int)
    } else {
        match find_tag(tags.subrange(1, tags.len() as int), id) {
            Some(i) => Some(i + 1),
            None => None,
        }
    }
}

/// What `find_tag` returns is a match, and the first one; a `None` means
/// no tag matches.
pub proof fn lemma_find_tag_properties(tags: Seq<Tag>, id: Seq<u8>)
    ensures
        match find_tag(tags, id) {
            Some(i) => 0 <= i < tags.len() && tags[i].id@ == id && (forall|j: int|
                0 <= j < i ==> tags[j].id@ != id),
            None => forall|j: int| 0 <= j < tags.len() ==> tags[j].id@ != id,
        },
    decreases tags.len(),
{
    if tags.len() > 0 && tags[0].id@ != id {
        let rest = tags.subrange(1, tags.len() as int);
        lemma_find_tag_properties(rest, id);
        assert forall|j: int| 1 <= j < tags.len() implies tags[j] == rest[j - 1] by {}
        match find_tag(rest, id) {
            Some(i) => {
                assert(tags[i + 1] == rest[i]);
            },
            None => {
                assert forall|j: int| 0 <= j < tags.len() implies tags[j].id@ != id by {
                    if j >= 1 {
                        assert(tags[j] == rest[j - 1]);
                    }
                }
            },
        }
    }
}

/// If `tags[k]` matches `id` and no earlier tag does, `find_tag` finds `k`.
pub proof fn lemma_find_tag_at(tags: Seq<Tag>, id: Seq<u8>, k: int)
    requires
        0 <= k < tags.len(),
        tags[k].id@ == id,
        forall|j: int| 0 <= j < k ==> tags[j].id@ != id,
    ensures
        find_tag(tags, id) == Some(k),
    decreases tags.len(),
{
    if k > 0 {
        let rest = tags.subrange(1, tags.len() as int);
        assert forall|j: int| 0 <= j < rest.len() implies rest[j] == tags[j + 1] by {}
        lemma_find_tag_at(rest, id, k - 1);
    }
}

/// If no tag matches `id`, `find_tag` finds nothing.
pub proof fn lemma_find_tag_absent(tags: Seq<Tag>, id: Seq<u8>)
    requires
        forall|j: int| 0 <= j < tags.len() ==> tags[j].id@ != id,
    ensures
        find_tag(tags, id) is None,
    decreases tags.len(),
{
    if tags.len() > 0 {
        let rest = tags.subrange(1, tags.len() as int);
        assert forall|j: int| 0 <= j < rest.len() implies rest[j] == tags[j + 1] by {}
        lemma_find_tag_absent(rest, id);
    }
}

/// The registry: the admin singleton and the registered tags.
pub struct Registry {
    pub state: State,
    pub tags: Vec<Tag>,
}

/// What registration leaves behind: the admin is untouched; with the
/// admin as caller and a fresh id the tag is appended verbatim (its
/// caller-supplied initial counter included); a foreign caller fails with
/// `Authorization`, a taken id with `Conflict`, and every failure leaves
/// the tags unchanged.
pub open spec fn register_post(
    pre: Registry,
    caller: Seq<char>,
    tag: Tag,
    post: Registry,
    r: Result<(), Error>,
) -> bool {
    &&& post.state == pre.state
    &&& match r {
        Ok(()) => caller == pre.state.admin@ && find_tag(pre.tags@, tag.id@) is None
            && post.tags@ == pre.tags@.push(tag),
        Err(Error::Authorization) => caller != pre.state.admin@ && post.tags@ == pre.tags@,
        Err(Error::Conflict) => caller == pre.state.admin@ && find_tag(pre.tags@, tag.id@) is Some
            && post.tags@ == pre.tags@,
        Err(_) => false,
    }
}

/// What validation leaves behind. Success requires, all at once: the id
/// is registered, the counter is below 2^24 and strictly above the
/// stored one, and the signature equals the recomputed MAC chain; the
/// stored counter then advances to the submitted value and every other
/// field and tag is untouched. Each failure names the first violated
/// check, in the order not-found, range, replay, signature, and leaves
/// the tags unchanged.
pub open spec fn validate_post(
    pre: Registry,
    id: Seq<u8>,
    count: u32,
    signature: [u8; 8],
    post: Registry,
    r: Result<(), Error>,
) -> bool {
    &&& post.state == pre.state
    &&& match r {
        Ok(()) => (find_tag(pre.tags@, id) matches Some(i) && count < 0x100_0000
            && le3_value(pre.tags@[i].count@) < count
            && sun_signature(pre.tags@[i].mac_read_key.value@, id, le3_of(count as int))
            == signature@ && post.tags@.len() == pre.tags@.len() && (forall|j: int|
            0 <= j < pre.tags@.len() && j != i ==> post.tags@[j] == pre.tags@[j])
            && post.tags@[i].id == pre.tags@[i].id && post.tags@[i].change_key == pre.tags@[i].change_key
            && post.tags@[i].mac_read_key == pre.tags@[i].mac_read_key
            && post.tags@[i].count@ == le3_of(count as int)),
        Err(Error::NotFound) => find_tag(pre.tags@, id) is None && post.tags@ == pre.tags@,
        Err(Error::Range) => find_tag(pre.tags@, id) is Some && count >= 0x100_0000
            && post.tags@ == pre.tags@,
        Err(Error::Replay) => (find_tag(pre.tags@, id) matches Some(i) && count < 0x100_0000
            && le3_value(pre.tags@[i].count@) >= count && post.tags@ == pre.tags@),
        Err(Error::SignatureInvalid) => (find_tag(pre.tags@, id) matches Some(i)
            && count < 0x100_0000 && le3_value(pre.tags@[i].count@) < count
            && sun_signature(pre.tags@[i].mac_read_key.value@, id, le3_of(count as int))
            != signature@ && post.tags@ == pre.tags@),
        Err(_) => false,
    }
}

/// Compare two 7-byte identifiers.
fn id_eq(a: &[u8; 7], b: &[u8; 7]) -> (r: bool)
    ensures
        r == (a@ == b@),
{
    let r = a[0] == b[0] && a[1] == b[1] && a[2] == b[2] && a[3] == b[3] && a[4] == b[4]
        && a[5] == b[5] && a[6] == b[6];
    proof {
        if r {
            assert(a@ =~= b@);
        }
    }
    r
}

/// Decide a registration from the admin record, the caller, and whether
/// the id is already taken: admin-only, first-come-only.
pub fn register_decision(state: &State, caller: &String, id_taken: bool) -> (r: Result<(), Error>)
    ensures
        match r {
            Ok(()) => caller@ == state.admin@ && !id_taken,
            Err(Error::Authorization) => caller@ != state.admin@,
            Err(Error::Conflict) => caller@ == state.admin@ && id_taken,
            Err(_) => false,
        },
{
    if !(*caller).eq(&state.admin) {
        return Err(Error::Authorization);
    }
    if id_taken {
        return Err(Error::Conflict);
    }
    Ok(())
}

/// Decide a validation from the stored tag (if any) and the submission,
/// and produce the updated tag to persist on success. The checks run in
/// the order not-found, range, replay, signature.
pub fn validate_decision(found: Option<Tag>, id: [u8; 7], count: u32, signature: [u8; 8]) -> (r:
    Result<Tag, Error>)
    ensures
        match r {
            Ok(t) => (found matches Some(t0) && count < 0x100_0000 && le3_value(t0.count@) < count
                && sun_signature(t0.mac_read_key.value@, id@, le3_of(count as int)) == signature@
                && t.id == t0.id && t.change_key == t0.change_key
                && t.mac_read_key == t0.mac_read_key && t.count@ == le3_of(count as int)),
            Err(Error::NotFound) => found is None,
            Err(Error::Range) => found is Some && count >= 0x100_0000,
            Err(Error::Replay) => (found matches Some(t0) && count < 0x100_0000 && le3_value(
                t0.count@,
            ) >= count),
            Err(Error::SignatureInvalid) => (found matches Some(t0) && count < 0x100_0000
                && le3_value(t0.count@) < count && sun_signature(
                t0.mac_read_key.value@,
                id@,
                le3_of(count as int),
            ) != signature@),
            Err(_) => false,
        },
{
    let tag = match found {
        Some(t) => t,
        None => {
            return Err(Error::NotFound);
        },
    };
    if count >= 0x100_0000 {
        return Err(Error::Range);
    }
    let last_tag_count = tag.count();
    if last_tag_count >= count {
        return Err(Error::Replay);
    }
    let count_lsb = u32_to_u8_3_lsb(count);
    match verify_sun(tag.mac_read_key.value, id, count_lsb, signature) {
        Ok(()) => {},
        Err(_) => {
            return Err(Error::SignatureInvalid);
        },
    }
    Ok(Tag { id: tag.id, change_key: tag.change_key, mac_read_key: tag.mac_read_key, count: count_lsb })
}

impl Registry {
    /// No two registered tags share an id.
    pub open spec fn wf(self) -> bool {
        forall|i: int, j: int|
            0 <= i < j < self.tags@.len() ==> self.tags@[i].id@ != self.tags@[j].id@
    }

    /// Initialize the registry: the given identity becomes the admin and
    /// no tag is registered.
    pub fn new(admin: String) -> (r: Registry)
        ensures
            r.wf(),
            r.state.admin == admin,
            r.tags@.len() == 0,
    {
        Registry { state: State { admin }, tags: Vec::new() }
    }

    /// The index of the tag with the given id, if it is registered.
    fn find_index(&self, id: &[u8; 7]) -> (r: Option<usize>)
        ensures
            match r {
                Some(i) => find_tag(self.tags@, id@) == Some(i as int),
                None => find_tag(self.tags@, id@) is None,
            },
    {
        let n = self.tags.len();
        let mut k: usize = 0;
        while k < n
            invariant
                n == self.tags@.len(),
                k <= n,
                forall|j: int| 0 <= j < k ==> self.tags@[j].id@ != id@,
            decreases n - k,
        {
            if id_eq(&self.tags[k].id, id) {
                proof {
                    lemma_find_tag_at(self.tags@, id@, k as int);
                }
                return Some(k);
            }
            k += 1;
        }
        proof {
            lemma_find_tag_absent(self.tags@, id@);
        }
        None
    }

    /// Register a new tag: the caller must be the admin and the id must
    /// be absent; the record is stored verbatim, its initial counter
    /// included.
    pub fn try_register(&mut self, caller: &String, tag: Tag) -> (r: Result<(), Error>)
        requires
            old(self).wf(),
        ensures
            final(self).wf(),
            register_post(*old(self), caller@, tag, *final(self), r),
    {
        let id_taken = self.find_index(&tag.id).is_some();
        match register_decision(&self.state, caller, id_taken) {
            Ok(()) => {
                proof {
                    lemma_find_tag_properties(self.tags@, tag.id@);
                }
                self.tags.push(tag);
                Ok(())
            },
            Err(e) => Err(e),
        }
    }

    /// Validate a reader submission for the tag with the given id and,
    /// on success, advance its stored counter to the submitted value.
    pub fn try_validate(&mut self, tag_id: [u8; 7], count: u32, signature: [u8; 8]) -> (r: Result<
        (),
        Error,
    >)
        requires
            old(self).wf(),
        ensures
            final(self).wf(),
            validate_post(*old(self), tag_id@, count, signature, *final(self), r),
    {
        let found = match self.find_index(&tag_id) {
            Some(i) => i,
            None => {
                return Err(Error::NotFound);
            },
        };
        proof {
            lemma_find_tag_properties(self.tags@, tag_id@);
        }
        let stored: Tag = self.tags[found];
        match validate_decision(Some(stored), tag_id, count, signature) {
            Ok(updated) => {
                self.tags[found] = updated;
                Ok(())
            },
            Err(e) => Err(e),
        }
    }

    /// Report the administrator's identity.
    pub fn query_admin(&self) -> (r: AdminResponse)
        ensures
            r.admin@ == self.state.admin@,
    {
        AdminResponse { admin: self.state.admin.clone() }
    }

    /// Dispatch a read-only operation.
    pub fn query(&self, msg: QueryMsg) -> (r: AdminResponse)
        ensures
            match msg {
                QueryMsg::GetAdmin => r.admin@ == self.state.admin@,
            },
    {
        match msg {
            QueryMsg::GetAdmin => self.query_admin(),
        }
    }

    /// Dispatch a state-changing operation. An identifier at or above
    /// 2^56 names no 7-byte id and fails as not found.
    pub fn execute(&mut self, caller: &String, msg: ExecuteMsg) -> (r: Result<(), Error>)
        requires
            old(self).wf(),
        ensures
            final(self).wf(),
            match msg {
                ExecuteMsg::Register { tag } => register_post(*old(self), caller@, tag, *final(self), r),
                ExecuteMsg::Validate { id, count, signature } => if id < 0x100_0000_0000_0000 {
                    validate_post(*old(self), be7_of(id as int), count, signature, *final(self), r)
                } else {
                    r == Result::<(), Error>::Err(Error::NotFound) && *final(self) == *old(self)
                },
            },
    {
        match msg {
            ExecuteMsg::Register { tag } => self.try_register(caller, tag),
            ExecuteMsg::Validate { id, count, signature } => {
                if id >= 0x100_0000_0000_0000 {
                    return Err(Error::NotFound);
                }
                let id_bytes = u64_to_u8_7(id);
                self.try_validate(id_bytes, count, signature)
            },
        }
    }
}

/// Law: a counter at or below the stored one is rejected as a replay and
/// changes nothing, whatever the signature; and since nothing changed, an
/// identical second call is rejected the same way.
pub proof fn lemma_replay_rejection_idempotent(
    pre: Registry,
    id: Seq<u8>,
    count: u32,
    sig1: [u8; 8],
    sig2: [u8; 8],
    mid: Registry,
    r1: Result<(), Error>,
    post: Registry,
    r2: Result<(), Error>,
)
    requires
        find_tag(pre.tags@, id) matches Some(i) && le3_value(pre.tags@[i].count@) >= count,
        count < 0x100_0000,
        validate_post(pre, id, count, sig1, mid, r1),
        validate_post(mid, id, count, sig2, post, r2),
    ensures
        r1 == Result::<(), Error>::Err(Error::Replay),
        r2 == Result::<(), Error>::Err(Error::Replay),
        mid.tags@ == pre.tags@ && mid.state == pre.state,
        post.tags@ == pre.tags@ && post.state == pre.state,
{
}

/// Law: after an id is registered, registering it again fails with
/// `Conflict` and leaves the registry exactly as the first registration
/// left it.
pub proof fn lemma_registration_unique(
    pre: Registry,
    caller1: Seq<char>,
    caller2: Seq<char>,
    tag1: Tag,
    tag2: Tag,
    mid: Registry,
    post: Registry,
    r2: Result<(), Error>,
)
    requires
        register_post(pre, caller1, tag1, mid, Ok(())),
        tag2.id@ == tag1.id@,
        caller2 == pre.state.admin@,
        register_post(mid, caller2, tag2, post, r2),
    ensures
        r2 == Result::<(), Error>::Err(Error::Conflict),
        post.tags@ == mid.tags@ && post.state == mid.state,
{
    assert(mid.tags@[mid.tags@.len() - 1].id@ == tag2.id@);
    if find_tag(mid.tags@, tag2.id@) is None {
        lemma_find_tag_properties(mid.tags@, tag2.id@);
    }
}

/// Law: a successful validation strictly advances the stored counter to
/// the submitted value.
pub proof fn lemma_validation_advances_counter(
    pre: Registry,
    id: Seq<u8>,
    count: u32,
    sig: [u8; 8],
    post: Registry,
)
    requires
        validate_post(pre, id, count, sig, post, Ok(())),
    ensures
        find_tag(pre.tags@, id) matches Some(i) && le3_value(post.tags@[i].count@) == count
            && le3_value(pre.tags@[i].count@) < le3_value(post.tags@[i].count@),
{
    lemma_le3_roundtrip(count as int);
}

} // verus!
