//! The saved server profiles: their metadata, and which one was last active.
use vstd::prelude::*;
use crate::models::auth::AuthKind;
use crate::models::session::{CapabilityMatrix, LastConnectionState, SavedProfileSummary};
use crate::text::same_text;

verus! {

/// The name of the file that holds the saved profiles.
pub const PROFILES_FILENAME: &'static str = "profiles-v1.json";

/// What a server said of itself at the last connection.
#[derive(Debug, Clone, PartialEq, Eq)]
pub struct StoredServerInfo {
    pub api_version: String,
    pub server_type: Option<String>,
    pub server_version: Option<String>,
}

/// A saved server profile.
#[derive(Debug, Clone, PartialEq, Eq)]
pub struct StoredProfileMetadata {
    pub profile_id: String,
    pub display_name: String,
    pub normalized_server_url: String,
    pub auth_kind: AuthKind,
    pub username: String,
    pub last_connection_state: LastConnectionState,
    pub last_capability_snapshot: Option<CapabilityMatrix>,
    pub last_server_info: Option<StoredServerInfo>,
    pub last_connected_at: Option<u64>,
    pub is_last_active: bool,
}

/// The summary of a saved profile shown in the profile list.
pub open spec fn summary_of(p: StoredProfileMetadata) -> SavedProfileSummary {
    SavedProfileSummary {
        profile_id: p.profile_id,
        display_name: p.display_name,
        normalized_server_url: p.normalized_server_url,
        auth_kind: p.auth_kind,
        username: p.username,
        last_connection_state: p.last_connection_state,
        is_active: p.is_last_active,
    }
}

/// The summary of a saved profile carries that profile's own id, display name, server,
/// way of signing in, user name and connection state, and marks it active exactly when it
/// was the last one active.
pub proof fn law_summary_copies_profile(p: StoredProfileMetadata)
    ensures
        summary_of(p).profile_id == p.profile_id,
        summary_of(p).display_name == p.display_name,
        summary_of(p).normalized_server_url == p.normalized_server_url,
        summary_of(p).auth_kind == p.auth_kind,
        summary_of(p).username == p.username,
        summary_of(p).last_connection_state == p.last_connection_state,
        summary_of(p).is_active == p.is_last_active,
{
}

impl StoredProfileMetadata {
    /// The summary of this profile shown in the profile list.
    pub fn to_summary(&self) -> (r: SavedProfileSummary)
        ensures
            r == summary_of(*self),
    {
        SavedProfileSummary {
            profile_id: self.profile_id.clone(),
            display_name: self.display_name.clone(),
            normalized_server_url: self.normalized_server_url.clone(),
            auth_kind: self.auth_kind,
            username: self.username.clone(),
            last_connection_state: self.last_connection_state,
            is_active: self.is_last_active,
        }
    }
}

/// The version written into a new profiles file.
pub fn default_version() -> (r: u32)
    ensures
        r == 1,
{
    1
}

/// Position `i` holds the first profile of `profiles` with the id `id`.
pub open spec fn is_first_with_id(profiles: Seq<StoredProfileMetadata>, id: Seq<char>, i: int) -> bool {
    &&& 0 <= i < profiles.len()
    &&& profiles[i].profile_id@ == id
    &&& forall|j: int| 0 <= j < i ==> profiles[j].profile_id@ != id
}

/// The first position in `profiles` whose profile has the id `id`, where there is one.
pub open spec fn first_with_id(profiles: Seq<StoredProfileMetadata>, id: Seq<char>) -> Option<int> {
    if exists|i: int| is_first_with_id(profiles, id, i) {
        Some(choose|i: int| is_first_with_id(profiles, id, i))
    } else {
        None
    }
}

/// The profiles of `profiles` whose id is not `id`, in order.
pub open spec fn without_id(profiles: Seq<StoredProfileMetadata>, id: Seq<char>) -> Seq<
    StoredProfileMetadata,
> {
    profiles.filter(other_id(id))
}

/// Whether a profile's id is not `id`.
pub open spec fn other_id(id: Seq<char>) -> spec_fn(StoredProfileMetadata) -> bool {
    |p: StoredProfileMetadata| p.profile_id@ != id
}

/// `p` marked last active exactly when its id is `id`.
pub open spec fn marked_active(p: StoredProfileMetadata, id: Option<Seq<char>>) -> StoredProfileMetadata {
    StoredProfileMetadata { is_last_active: id == Some(p.profile_id@), ..p }
}

/// The saved profiles file.
#[derive(Debug, Clone, PartialEq, Eq)]
pub struct ProfilesFile {
    pub version: u32,
    pub profiles: Vec<StoredProfileMetadata>,
}

impl Default for ProfilesFile {
    fn default() -> (r: Self)
        ensures
            r.version == 1,
            r.profiles@.len() == 0,
    {
        ProfilesFile { version: default_version(), profiles: Vec::new() }
    }
}

impl ProfilesFile {
    /// The summaries of the saved profiles, in order.
    pub fn summaries(&self) -> (r: Vec<SavedProfileSummary>)
        ensures
            r@.len() == self.profiles@.len(),
            forall|i: int| 0 <= i < r@.len() ==> r@[i] == summary_of(#[trigger] self.profiles@[i]),
    {
        let mut out: Vec<SavedProfileSummary> = Vec::new();
        let mut i: usize = 0;
        while i < self.profiles.len()
            invariant
                i <= self.profiles@.len(),
                out@.len() == i,
                forall|k: int| 0 <= k < i ==> out@[k] == summary_of(#[trigger] self.profiles@[k]),
            decreases self.profiles@.len() - i,
        {
            out.push(self.profiles[i].to_summary());
            i = i + 1;
        }
        out
    }

    /// The position of the first profile with id `profile_id`.
    fn position_of(&self, profile_id: &str) -> (r: Option<usize>)
        ensures
            match r {
                Some(i) => first_with_id(self.profiles@, profile_id@) == Some(i as int) && i
                    < self.profiles@.len(),
                None => first_with_id(self.profiles@, profile_id@) is None,
            },
    {
        let mut i: usize = 0;
        while i < self.profiles.len()
            invariant
                i <= self.profiles@.len(),
                forall|j: int| 0 <= j < i ==> self.profiles@[j].profile_id@ != profile_id@,
            decreases self.profiles@.len() - i,
        {
            if same_text(self.profiles[i].profile_id.as_str(), profile_id) {
                proof {
                    assert(is_first_with_id(self.profiles@, profile_id@, i as int));
                    let w = choose|k: int| is_first_with_id(self.profiles@, profile_id@, k);
                    if w < i {
                        assert(self.profiles@[w].profile_id@ != profile_id@);
                    }
                    if w > i {
                        assert(self.profiles@[i as int].profile_id@ != profile_id@);
                    }
                }
                return Some(i);
            }
            i = i + 1;
        }
        None
    }

    /// The first profile with id `profile_id`.
    pub fn find_profile(&self, profile_id: &str) -> (r: Option<&StoredProfileMetadata>)
        ensures
            match first_with_id(self.profiles@, profile_id@) {
                Some(i) => r == Some(&self.profiles@[i]),
                None => r is None,
            },
    {
        match self.position_of(profile_id) {
            Some(i) => Some(&self.profiles[i]),
            None => None,
        }
    }

    /// The first profile with id `profile_id`, to change it in place.
    pub fn find_profile_mut(&mut self, profile_id: &str) -> (r: Option<&mut StoredProfileMetadata>)
        ensures
            final(self).version == old(self).version,
            match first_with_id(old(self).profiles@, profile_id@) {
                Some(i) => r matches Some(p) && *p == old(self).profiles@[i] && final(self).profiles@
                    == old(self).profiles@.update(i, *final(p)),
                None => r is None && final(self).profiles@ == old(self).profiles@,
            },
    {
        match self.position_of(profile_id) {
            Some(i) => Some(&mut self.profiles[i]),
            None => None,
        }
    }

    /// Marks `profile_id` as the last active profile, and every other one as not.
    pub fn set_last_active(&mut self, profile_id: Option<&str>)
        ensures
            final(self).version == old(self).version,
            final(self).profiles@.len() == old(self).profiles@.len(),
            forall|i: int|
                0 <= i < final(self).profiles@.len() ==> final(self).profiles@[i] == marked_active(
                    #[trigger] old(self).profiles@[i],
                    match profile_id {
                        Some(p) => Some(p@),
                        None => None,
                    },
                ),
    {
        let ghost target = match profile_id {
            Some(p) => Some(p@),
            None => None,
        };
        let mut i: usize = 0;
        while i < self.profiles.len()
            invariant
                i <= self.profiles@.len(),
                self.version == old(self).version,
                self.profiles@.len() == old(self).profiles@.len(),
                target == match profile_id {
                    Some(p) => Some(p@),
                    None => None,
                },
                forall|k: int| 0 <= k < i ==> self.profiles@[k] == marked_active(
                    #[trigger] old(self).profiles@[k],
                    target,
                ),
                forall|k: int| i <= k < self.profiles@.len() ==> self.profiles@[k]
                    == #[trigger] old(self).profiles@[k],
            decreases self.profiles@.len() - i,
        {
            let active = match profile_id {
                Some(p) => same_text(self.profiles[i].profile_id.as_str(), p),
                None => false,
            };
            self.profiles[i].is_last_active = active;
            i = i + 1;
        }
    }

    /// Saves `profile`: it replaces the first profile with its id, or is added at the end.
    pub fn upsert_profile(&mut self, profile: StoredProfileMetadata)
        ensures
            final(self).version == old(self).version,
            match first_with_id(old(self).profiles@, profile.profile_id@) {
                Some(i) => final(self).profiles@ == old(self).profiles@.update(i, profile),
                None => final(self).profiles@ == old(self).profiles@.push(profile),
            },
    {
        match self.position_of(profile.profile_id.as_str()) {
            Some(i) => {
                self.profiles.set(i, profile);
            },
            None => {
                self.profiles.push(profile);
            },
        }
    }

    /// Forgets every profile with id `profile_id`.
    pub fn remove_profile(&mut self, profile_id: &str)
        ensures
            final(self).version == old(self).version,
            final(self).profiles@ == without_id(old(self).profiles@, profile_id@),
    {
        let mut kept: Vec<StoredProfileMetadata> = Vec::new();
        let mut rest: Vec<StoredProfileMetadata> = Vec::new();
        std::mem::swap(&mut rest, &mut self.profiles);
        let ghost all = rest@;
        let mut i: usize = 0;
        assert(all.len() == rest.len());
        while rest.len() > 0
            invariant
                all.len() <= usize::MAX,
                all.len() == i + rest@.len(),
                rest@ == all.subrange(i as int, all.len() as int),
                kept@ == without_id(all.subrange(0, i as int), profile_id@),
            decreases rest@.len(),
        {
            let p = rest.remove(0);
            proof {
                assert(all.subrange(0, i + 1) =~= all.subrange(0, i as int).push(p));
                assert(without_id(all.subrange(0, i + 1), profile_id@) =~= if p.profile_id@
                    != profile_id@ {
                    without_id(all.subrange(0, i as int), profile_id@).push(p)
                } else {
                    without_id(all.subrange(0, i as int), profile_id@)
                }) by {
                    all.subrange(0, i as int).lemma_filter_push(p, other_id(profile_id@));
                }
            }
            if !same_text(p.profile_id.as_str(), profile_id) {
                kept.push(p);
            }
            i = i + 1;
            assert(rest@ =~= all.subrange(i as int, all.len() as int));
        }
        assert(all.subrange(0, all.len() as int) =~= all);
        self.profiles = kept;
    }
}

/// After a profile is saved, looking its id up finds that profile.
pub proof fn law_find_after_upsert(profiles: Seq<StoredProfileMetadata>, profile: StoredProfileMetadata)
    ensures
        ({
            let saved = match first_with_id(profiles, profile.profile_id@) {
                Some(i) => profiles.update(i, profile),
                None => profiles.push(profile),
            };
            first_with_id(saved, profile.profile_id@) matches Some(j) && saved[j] == profile
        }),
{
    let id = profile.profile_id@;
    match first_with_id(profiles, id) {
        Some(i) => {
            let w = choose|k: int| is_first_with_id(profiles, id, k);
            assert(is_first_with_id(profiles, id, w));
            let saved = profiles.update(i, profile);
            assert(is_first_with_id(saved, id, i));
            let v = choose|k: int| is_first_with_id(saved, id, k);
            if v < i {
                assert(saved[v] == profiles[v]);
            }
            if v > i {
                assert(saved[i].profile_id@ == id);
            }
        },
        None => {
            let saved = profiles.push(profile);
            let n = profiles.len() as int;
            assert forall|j: int| 0 <= j < n implies saved[j].profile_id@ != id by {
                assert(saved[j] == profiles[j]);
                if profiles[j].profile_id@ == id {
                    lemma_some_first(profiles, id, j);
                }
            }
            assert(is_first_with_id(saved, id, n));
            let v = choose|k: int| is_first_with_id(saved, id, k);
            if v < n {
                assert(saved[v].profile_id@ != id);
            }
        },
    }
}

/// Where some profile has the id, a first one does.
proof fn lemma_some_first(profiles: Seq<StoredProfileMetadata>, id: Seq<char>, j: int)
    requires
        0 <= j < profiles.len(),
        profiles[j].profile_id@ == id,
    ensures
        first_with_id(profiles, id) is Some,
    decreases j,
{
    if forall|k: int| 0 <= k < j ==> profiles[k].profile_id@ != id {
        assert(is_first_with_id(profiles, id, j));
    } else {
        let k = choose|k: int| 0 <= k < j && profiles[k].profile_id@ != id == false;
        lemma_some_first(profiles, id, k);
    }
}

/// After a profile id is removed, looking it up finds nothing, and the other profiles stay
/// in order.
pub proof fn law_find_after_remove(profiles: Seq<StoredProfileMetadata>, id: Seq<char>)
    ensures
        first_with_id(without_id(profiles, id), id) is None,
        forall|p: StoredProfileMetadata|
            p.profile_id@ != id ==> (profiles.contains(p) <==> without_id(profiles, id).contains(p)),
{
    let rest = without_id(profiles, id);
    assert forall|k: int| 0 <= k < rest.len() implies rest[k].profile_id@ != id by {
        assert(rest.contains(rest[k]));
    }
    if first_with_id(rest, id) is Some {
        let w = choose|k: int| is_first_with_id(rest, id, k);
        assert(rest[w].profile_id@ != id);
    }
    assert forall|p: StoredProfileMetadata| p.profile_id@ != id implies (profiles.contains(p)
        <==> rest.contains(p)) by {
        if profiles.contains(p) {
            let i = choose|i: int| 0 <= i < profiles.len() && profiles[i] == p;
            broadcast use vstd::seq_lib::group_filter_ensures;

        }
        if rest.contains(p) {
            profiles.lemma_filter_contains_rev(other_id(id), p);
        }
    }
}

/// Marking a profile last active leaves exactly the profiles with its id marked.
pub proof fn law_set_last_active_marks_only_selected(
    profiles: Seq<StoredProfileMetadata>,
    id: Seq<char>,
)
    ensures
        forall|i: int|
            0 <= i < profiles.len() ==> (#[trigger] marked_active(profiles[i], Some(id)).is_last_active
                <==> profiles[i].profile_id@ == id),
{
}

} // verus!
