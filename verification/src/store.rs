//! The in-memory model of the persistence gateway.
//!
//! The task layer treats durable storage as a collaborator; this store is
//! its verified model: one table per entity, uniqueness invariants on
//! record keys, and a counter-based identifier allocator whose freshness
//! is proved from the injectivity of decimal rendering.

use vstd::prelude::*;
use vstd::string::StringExecFns;
use crate::model::{
    AppSettings, CreateCreatorRequest, CreateCredentialRequest, CreateFeedItemRequest,
    CreateSourceRequest, CreateWarehouseItemRequest, Creator, CreatorView, Credential,
    DownloadStatus, FeedItem, FeedItemCounts, FeedItemView, Source, SourceStatus, SourceView,
    UpdateAppSettingsRequest, UpdateCreatorRequest, UpdateCredentialRequest, UpdateFeedItemRequest,
    UpdateSourceRequest, WarehouseItem, WarehouseItemView, clone_opt_string, opt_str_view,
};
use crate::events::CoreError;
use crate::numbers::{dec_digits, lemma_dec_injective, u64_to_string};
use crate::text::str_eq;

verus! {

/// The persistence gateway model.
pub struct Store {
    pub next_id: u64,
    pub settings: Option<AppSettings>,
    pub creators: Vec<Creator>,
    pub sources: Vec<Source>,
    pub credentials: Vec<Credential>,
    pub feed_items: Vec<FeedItem>,
    pub warehouse_items: Vec<WarehouseItem>,
}

impl Store {
    /// An identifier the allocator has already handed out.
    pub open spec fn id_allocated(self, id: Seq<char>) -> bool {
        exists|n: nat| n < self.next_id && id == dec_digits(n)
    }

    /// Every record identifier in every table came from the allocator.
    pub open spec fn ids_allocated(self) -> bool {
        &&& forall|i: int|
            0 <= i < self.creators@.len() ==> self.id_allocated(#[trigger] self.creators@[i].id@)
        &&& forall|i: int|
            0 <= i < self.sources@.len() ==> self.id_allocated(#[trigger] self.sources@[i].id@)
        &&& forall|i: int|
            0 <= i < self.credentials@.len() ==> self.id_allocated(
                #[trigger] self.credentials@[i].id@,
            )
        &&& forall|i: int|
            0 <= i < self.feed_items@.len() ==> self.id_allocated(
                #[trigger] self.feed_items@[i].id@,
            )
        &&& forall|i: int|
            0 <= i < self.warehouse_items@.len() ==> self.id_allocated(
                #[trigger] self.warehouse_items@[i].id@,
            )
    }

    /// Record identifiers are unique within each table, and feed items
    /// are additionally unique on `(source_id, external_id)`.
    pub open spec fn keys_unique(self) -> bool {
        &&& forall|i: int, j: int|
            0 <= i < j < self.creators@.len() ==> self.creators@[i].id@ != self.creators@[j].id@
        &&& forall|i: int, j: int|
            0 <= i < j < self.sources@.len() ==> self.sources@[i].id@ != self.sources@[j].id@
        &&& forall|i: int, j: int|
            0 <= i < j < self.credentials@.len() ==> self.credentials@[i].id@
                != self.credentials@[j].id@
        &&& forall|i: int, j: int|
            0 <= i < j < self.feed_items@.len() ==> self.feed_items@[i].id@
                != self.feed_items@[j].id@
        &&& forall|i: int, j: int|
            0 <= i < j < self.feed_items@.len() ==> !(self.feed_items@[i].source_id@
                == self.feed_items@[j].source_id@ && self.feed_items@[i].external_id@
                == self.feed_items@[j].external_id@)
        &&& forall|i: int, j: int|
            0 <= i < j < self.warehouse_items@.len() ==> self.warehouse_items@[i].id@
                != self.warehouse_items@[j].id@
    }

    /// Well-formedness of the store.
    pub open spec fn wf(self) -> bool {
        self.ids_allocated() && self.keys_unique()
    }

    /// Whether the allocator can still hand out an identifier.
    pub open spec fn can_alloc(self) -> bool {
        self.next_id < u64::MAX
    }

    /// An empty store.
    pub fn new() -> (r: Store)
        ensures
            r.wf(),
            r.next_id == 0,
            r.settings is None,
            r.creators@.len() == 0,
            r.sources@.len() == 0,
            r.credentials@.len() == 0,
            r.feed_items@.len() == 0,
            r.warehouse_items@.len() == 0,
    {
        Store {
            next_id: 0,
            settings: None,
            creators: Vec::new(),
            sources: Vec::new(),
            credentials: Vec::new(),
            feed_items: Vec::new(),
            warehouse_items: Vec::new(),
        }
    }

    /// A freshly allocated identifier differs from every identifier the
    /// allocator handed out earlier.
    pub proof fn lemma_fresh_id(self, k: nat)
        requires
            self.next_id <= k,
        ensures
            !self.id_allocated(dec_digits(k)),
    {
        if self.id_allocated(dec_digits(k)) {
            let n = choose|n: nat| n < self.next_id && dec_digits(k) == dec_digits(n);
            lemma_dec_injective(n, k);
        }
    }

    /// Hands out the next record identifier. The result is distinct from
    /// every identifier already present in any table.
    fn alloc_id(&mut self) -> (id: String)
        requires
            old(self).can_alloc(),
    ensures
            final(self).next_id == old(self).next_id + 1,
            final(self).settings == old(self).settings,
            final(self).creators == old(self).creators,
            final(self).sources == old(self).sources,
            final(self).credentials == old(self).credentials,
            final(self).feed_items == old(self).feed_items,
            final(self).warehouse_items == old(self).warehouse_items,
            id@ == dec_digits(old(self).next_id as nat),
            !old(self).id_allocated(id@),
            final(self).id_allocated(id@),
    {
        let n = self.next_id;
        self.next_id = n + 1;
        proof {
            old(self).lemma_fresh_id(n as nat);
            assert(n < self.next_id && dec_digits(n as nat) == dec_digits(n as nat));
        }
        u64_to_string(n)
    }

    /// Inserts the default settings record if none exists, with the
    /// given library path; an existing record is left untouched.
    pub fn initialize_settings(&mut self, library_path: String)
        ensures
            final(self).settings is Some,
            old(self).settings is Some ==> final(self).settings == old(self).settings,
            old(self).settings is None ==> {
                let s = final(self).settings->0@;
                &&& s.library_path == library_path@
                &&& s.default_quality == "best"@
                &&& s.sync_interval_seconds == 300
                &&& s.theme == "dark"@
                &&& s.first_run_completed == false
                &&& s.notifications_enabled == true
                &&& s.bass_boost_preset == "Default"@
                &&& s.bass_boost_custom_gain == 5
            },
            final(self).next_id == old(self).next_id,
            final(self).creators == old(self).creators,
            final(self).sources == old(self).sources,
            final(self).credentials == old(self).credentials,
            final(self).feed_items == old(self).feed_items,
            final(self).warehouse_items == old(self).warehouse_items,
            old(self).wf() ==> final(self).wf(),
    {
        if self.settings.is_none() {
            self.settings = Some(
                AppSettings {
                    library_path,
                    default_quality: String::from_str("best"),
                    sync_interval_seconds: 300,
                    theme: String::from_str("dark"),
                    first_run_completed: false,
                    notifications_enabled: true,
                    bass_boost_preset: String::from_str("Default"),
                    bass_boost_custom_gain: 5,
                },
            );
        }
    }

    /// The settings record, if initialized.
    pub fn get_app_settings(&self) -> (r: Option<AppSettings>)
        ensures
            r == self.settings,
    {
        match &self.settings {
            Some(s) => Some(s.clone()),
            None => None,
        }
    }

    /// Applies a partial settings update: each present field replaces
    /// the stored one, absent fields are kept. Returns the merged
    /// record, or `None` when settings were never initialized.
    pub fn update_app_settings(&mut self, request: UpdateAppSettingsRequest) -> (r: Option<
        AppSettings,
    >)
        ensures
            (r is Some) == (old(self).settings is Some),
            old(self).settings is None ==> *final(self) == *old(self),
            old(self).settings is Some ==> {
                let prev = old(self).settings->0@;
                let merged = final(self).settings->0@;
                &&& final(self).settings is Some
                &&& r->0@ == merged
                &&& merged.library_path == if request.library_path is Some {
                    request.library_path->0@
                } else {
                    prev.library_path
                }
                &&& merged.default_quality == if request.default_quality is Some {
                    request.default_quality->0@
                } else {
                    prev.default_quality
                }
                &&& merged.sync_interval_seconds == if request.sync_interval_seconds is Some {
                    request.sync_interval_seconds->0
                } else {
                    prev.sync_interval_seconds
                }
                &&& merged.theme == if request.theme is Some {
                    request.theme->0@
                } else {
                    prev.theme
                }
                &&& merged.first_run_completed == if request.first_run_completed is Some {
                    request.first_run_completed->0
                } else {
                    prev.first_run_completed
                }
                &&& merged.notifications_enabled == if request.notifications_enabled is Some {
                    request.notifications_enabled->0
                } else {
                    prev.notifications_enabled
                }
                &&& merged.bass_boost_preset == if request.bass_boost_preset is Some {
                    request.bass_boost_preset->0@
                } else {
                    prev.bass_boost_preset
                }
                &&& merged.bass_boost_custom_gain == if request.bass_boost_custom_gain is Some {
                    request.bass_boost_custom_gain->0
                } else {
                    prev.bass_boost_custom_gain
                }
            },
            final(self).next_id == old(self).next_id,
            final(self).creators == old(self).creators,
            final(self).sources == old(self).sources,
            final(self).credentials == old(self).credentials,
            final(self).feed_items == old(self).feed_items,
            final(self).warehouse_items == old(self).warehouse_items,
            old(self).wf() ==> final(self).wf(),
    {
        let settings = match &self.settings {
            Some(s) => s.clone(),
            None => {
                return None;
            },
        };
        let mut merged = settings;
        if let Some(library_path) = request.library_path {
            merged.library_path = library_path;
        }
        if let Some(default_quality) = request.default_quality {
            merged.default_quality = default_quality;
        }
        if let Some(sync_interval_seconds) = request.sync_interval_seconds {
            merged.sync_interval_seconds = sync_interval_seconds;
        }
        if let Some(theme) = request.theme {
            merged.theme = theme;
        }
        if let Some(first_run_completed) = request.first_run_completed {
            merged.first_run_completed = first_run_completed;
        }
        if let Some(notifications_enabled) = request.notifications_enabled {
            merged.notifications_enabled = notifications_enabled;
        }
        if let Some(bass_boost_preset) = request.bass_boost_preset {
            merged.bass_boost_preset = bass_boost_preset;
        }
        if let Some(bass_boost_custom_gain) = request.bass_boost_custom_gain {
            merged.bass_boost_custom_gain = bass_boost_custom_gain;
        }
        self.settings = Some(merged.clone());
        Some(merged)
    }

    /// Whether some creator carries this identifier.
    pub open spec fn has_creator(self, id: Seq<char>) -> bool {
        exists|i: int| 0 <= i < self.creators@.len() && self.creators@[i].id@ == id
    }

    /// Creates a creator with a fresh identifier; both timestamps are
    /// set to `now`.
    pub fn create_creator(&mut self, request: CreateCreatorRequest, now: &str) -> (r: Creator)
        requires
            old(self).wf(),
            old(self).can_alloc(),
        ensures
            final(self).wf(),
            final(self).creators@ == old(self).creators@.push(r),
            r@.name == request.name@,
            r@.photo_path == opt_str_view(request.photo_path),
            r@.created_at == now@,
            r@.updated_at == now@,
            !old(self).has_creator(r@.id),
            final(self).settings == old(self).settings,
            final(self).sources == old(self).sources,
            final(self).credentials == old(self).credentials,
            final(self).feed_items == old(self).feed_items,
            final(self).warehouse_items == old(self).warehouse_items,
    {
        let id = self.alloc_id();
        let creator = Creator {
            id,
            name: request.name,
            photo_path: request.photo_path,
            created_at: now.to_owned(),
            updated_at: now.to_owned(),
        };
        proof {
            assert forall|i: int| 0 <= i < self.creators@.len() implies self.creators@[i].id@
                != creator.id@ by {
                assert(self.id_allocated(self.creators@[i].id@));
            }
        }
        self.creators.push(creator.clone());
        creator
    }

    /// Whether some credential carries this identifier.
    pub open spec fn has_credential(self, id: Seq<char>) -> bool {
        exists|i: int| 0 <= i < self.credentials@.len() && self.credentials@[i].id@ == id
    }

    /// Whether the credential at this index is the default for `platform`.
    pub open spec fn is_default_for(c: Credential, platform: Seq<char>) -> bool {
        c.platform@ == platform && c.is_default
    }

    /// How many credentials are marked default for `platform`.
    pub open spec fn count_defaults(s: Seq<Credential>, platform: Seq<char>) -> int
        decreases s.len(),
    {
        if s.len() == 0 {
            0
        } else {
            Self::count_defaults(s.drop_last(), platform) + if Self::is_default_for(
                s.last(),
                platform,
            ) {
                1int
            } else {
                0int
            }
        }
    }

    /// A sequence with no default for `platform` counts zero.
    pub proof fn lemma_count_defaults_zero(s: Seq<Credential>, platform: Seq<char>)
        requires
            forall|i: int| 0 <= i < s.len() ==> !Self::is_default_for(#[trigger] s[i], platform),
        ensures
            Self::count_defaults(s, platform) == 0,
        decreases s.len(),
    {
        if s.len() > 0 {
            Self::lemma_count_defaults_zero(s.drop_last(), platform);
        }
    }

    /// When exactly the last entry of a sequence is a default for
    /// `platform`, the platform has exactly one default.
    ///
    /// This is the shape every default-setting operation establishes:
    /// clearing the flag on all other credentials of the platform and
    /// setting it on one leaves that one as the platform's only default.
    pub proof fn lemma_single_default(s: Seq<Credential>, platform: Seq<char>)
        requires
            s.len() >= 1,
            Self::is_default_for(s.last(), platform),
            forall|i: int|
                0 <= i < s.len() - 1 ==> !Self::is_default_for(#[trigger] s[i], platform),
        ensures
            Self::count_defaults(s, platform) == 1,
    {
        Self::lemma_count_defaults_zero(s.drop_last(), platform);
    }

    /// Clears the default flag of every credential of `platform`.
    fn clear_defaults(&mut self, platform: &str)
        ensures
            final(self).credentials@.len() == old(self).credentials@.len(),
            forall|i: int|
                0 <= i < old(self).credentials@.len() ==> {
                    let o = #[trigger] old(self).credentials@[i];
                    let n = final(self).credentials@[i];
                    if o.platform@ == platform@ {
                        n == Credential { is_default: false, ..o }
                    } else {
                        n == o
                    }
                },
            forall|i: int|
                0 <= i < final(self).credentials@.len() ==> !Self::is_default_for(
                    #[trigger] final(self).credentials@[i],
                    platform@,
                ),
            final(self).next_id == old(self).next_id,
            final(self).settings == old(self).settings,
            final(self).creators == old(self).creators,
            final(self).sources == old(self).sources,
            final(self).feed_items == old(self).feed_items,
            final(self).warehouse_items == old(self).warehouse_items,
            old(self).wf() ==> final(self).wf(),
    {
        let n = self.credentials.len();
        let mut updated: Vec<Credential> = Vec::new();
        let mut i: usize = 0;
        while i < n
            invariant
                n == self.credentials@.len(),
                i <= n,
                updated@.len() == i,
                forall|j: int|
                    0 <= j < i ==> {
                        let o = #[trigger] self.credentials@[j];
                        let u = updated@[j];
                        if o.platform@ == platform@ {
                            u == Credential { is_default: false, ..o }
                        } else {
                            u == o
                        }
                    },
            decreases n - i,
        {
            let c = self.credentials[i].clone();
            if str_eq(c.platform.as_str(), platform) {
                updated.push(Credential { is_default: false, ..c });
            } else {
                updated.push(c);
            }
            i += 1;
        }
        self.credentials = updated;
        proof {
            assert forall|i2: int|
                0 <= i2 < self.credentials@.len() implies !Self::is_default_for(
                #[trigger] self.credentials@[i2],
                platform@,
            ) by {
                let o = old(self).credentials@[i2];
                assert(self.credentials@[i2] == if o.platform@ == platform@ {
                    Credential { is_default: false, ..o }
                } else {
                    o
                });
            }
            if old(self).wf() {
                assert forall|i2: int|
                    0 <= i2 < self.credentials@.len() implies old(self).id_allocated(
                    #[trigger] self.credentials@[i2].id@,
                ) by {
                    assert(old(self).id_allocated(old(self).credentials@[i2].id@));
                    assert(self.credentials@[i2].id@ == old(self).credentials@[i2].id@);
                }
                assert forall|i2: int, j2: int|
                    0 <= i2 < j2 < self.credentials@.len() implies self.credentials@[i2].id@
                    != self.credentials@[j2].id@ by {
                    assert(self.credentials@[i2].id@ == old(self).credentials@[i2].id@);
                    assert(self.credentials@[j2].id@ == old(self).credentials@[j2].id@);
                }
            }
        }
    }

    /// Creates a credential with a fresh identifier. When the request
    /// marks it default, every other default for the same platform is
    /// cleared first, so the platform ends with exactly this default.
    pub fn create_credential(&mut self, request: CreateCredentialRequest, now: &str) -> (r:
        Credential)
        requires
            old(self).wf(),
            old(self).can_alloc(),
        ensures
            final(self).wf(),
            final(self).credentials@.len() == old(self).credentials@.len() + 1,
            final(self).credentials@.last() == r,
            r@.label == request.label@,
            r@.platform == request.platform@,
            r@.cookie_path == request.cookie_path@,
            r@.is_default == (request.is_default == Some(true)),
            r@.created_at == now@,
            r@.updated_at == now@,
            !old(self).has_credential(r@.id),
            forall|i: int|
                0 <= i < old(self).credentials@.len() ==> {
                    let o = #[trigger] old(self).credentials@[i];
                    let n = final(self).credentials@[i];
                    if request.is_default == Some(true) && o.platform@ == request.platform@ {
                        n == Credential { is_default: false, ..o }
                    } else {
                        n == o
                    }
                },
            request.is_default == Some(true) ==> Self::count_defaults(
                final(self).credentials@,
                request.platform@,
            ) == 1,
            final(self).settings == old(self).settings,
            final(self).creators == old(self).creators,
            final(self).sources == old(self).sources,
            final(self).feed_items == old(self).feed_items,
            final(self).warehouse_items == old(self).warehouse_items,
    {
        let is_default = match request.is_default {
            Some(true) => true,
            _ => false,
        };
        if is_default {
            let platform = request.platform.clone();
            self.clear_defaults(platform.as_str());
        }
        let id = self.alloc_id();
        let credential = Credential {
            id,
            label: request.label,
            platform: request.platform,
            cookie_path: request.cookie_path,
            is_default,
            created_at: now.to_owned(),
            updated_at: now.to_owned(),
        };
        proof {
            assert forall|i: int| 0 <= i < self.credentials@.len() implies self.credentials@[i].id@
                != credential.id@ by {
                assert(self.id_allocated(self.credentials@[i].id@));
            }
        }
        self.credentials.push(credential.clone());
        proof {
            if is_default {
                Self::lemma_single_default(self.credentials@, credential.platform@);
            }
        }
        credential
    }

    /// The credential with this identifier, if any.
    pub fn get_credential(&self, id: &str) -> (r: Option<Credential>)
        requires
            self.wf(),
        ensures
            (r is Some) == self.has_credential(id@),
            r is Some ==> exists|i: int|
                0 <= i < self.credentials@.len() && self.credentials@[i] == r->0 && (r->0).id@
                    == id@,
    {
        let n = self.credentials.len();
        let mut i: usize = 0;
        while i < n
            invariant
                n == self.credentials@.len(),
                i <= n,
                forall|j: int| 0 <= j < i ==> self.credentials@[j].id@ != id@,
            decreases n - i,
        {
            if str_eq(self.credentials[i].id.as_str(), id) {
                return Some(self.credentials[i].clone());
            }
            i += 1;
        }
        None
    }

    /// Whether some credential is the default for `platform`.
    pub open spec fn has_default_for(self, platform: Seq<char>) -> bool {
        exists|i: int|
            0 <= i < self.credentials@.len() && Self::is_default_for(
                self.credentials@[i],
                platform,
            )
    }

    /// The default credential for `platform`, if one is marked.
    pub fn get_default_credential(&self, platform: &str) -> (r: Option<Credential>)
        ensures
            (r is Some) == self.has_default_for(platform@),
            r is Some ==> exists|i: int|
                0 <= i < self.credentials@.len() && self.credentials@[i] == r->0
                    && Self::is_default_for(r->0, platform@),
    {
        let n = self.credentials.len();
        let mut i: usize = 0;
        while i < n
            invariant
                n == self.credentials@.len(),
                i <= n,
                forall|j: int|
                    0 <= j < i ==> !Self::is_default_for(
                        #[trigger] self.credentials@[j],
                        platform@,
                    ),
            decreases n - i,
        {
            let c = &self.credentials[i];
            if c.is_default && str_eq(c.platform.as_str(), platform) {
                return Some(self.credentials[i].clone());
            }
            i += 1;
        }
        None
    }

    /// Applies a partial credential update. When the update sets the
    /// default flag, every other default for the credential's platform
    /// is cleared, so the platform ends with exactly this default.
    pub fn update_credential(&mut self, id: &str, request: UpdateCredentialRequest, now: &str) -> (
        r: Option<Credential>)
        requires
            old(self).wf(),
        ensures
            final(self).wf(),
            (r is Some) == old(self).has_credential(id@),
            r is None ==> *final(self) == *old(self),
            r is Some ==> {
                let c = r->0;
                &&& final(self).credentials@.len() == old(self).credentials@.len()
                &&& exists|i: int|
                    {
                        &&& 0 <= i < old(self).credentials@.len()
                        &&& (#[trigger] old(self).credentials@[i]).id@ == id@
                        &&& final(self).credentials@[i] == c
                        &&& c@.label == if request.label is Some {
                            request.label->0@
                        } else {
                            old(self).credentials@[i].label@
                        }
                        &&& c@.cookie_path == if request.cookie_path is Some {
                            request.cookie_path->0@
                        } else {
                            old(self).credentials@[i].cookie_path@
                        }
                        &&& c@.is_default == if request.is_default is Some {
                            request.is_default->0
                        } else {
                            old(self).credentials@[i].is_default
                        }
                        &&& c@.platform == old(self).credentials@[i].platform@
                        &&& c@.id == id@
                        &&& c@.updated_at == now@
                    }
                &&& request.is_default == Some(true) ==> Self::count_defaults(
                    final(self).credentials@,
                    c@.platform,
                ) == 1
            },
            final(self).next_id == old(self).next_id,
            final(self).settings == old(self).settings,
            final(self).creators == old(self).creators,
            final(self).sources == old(self).sources,
            final(self).feed_items == old(self).feed_items,
            final(self).warehouse_items == old(self).warehouse_items,
    {
        let n = self.credentials.len();
        let mut idx: usize = 0;
        let mut found = false;
        while idx < n && !found
            invariant
                n == self.credentials@.len(),
                idx <= n,
                !found ==> forall|j: int| 0 <= j < idx ==> self.credentials@[j].id@ != id@,
                found ==> idx < n && self.credentials@[idx as int].id@ == id@,
            decreases n - idx, if found { 0int } else { 1int },
        {
            if str_eq(self.credentials[idx].id.as_str(), id) {
                found = true;
            } else {
                idx += 1;
            }
        }
        if !found {
            return None;
        }
        let mut merged = self.credentials[idx].clone();
        if let Some(label) = request.label {
            merged.label = label;
        }
        if let Some(cookie_path) = request.cookie_path {
            merged.cookie_path = cookie_path;
        }
        let set_default = request.is_default == Some(true);
        if set_default {
            let platform = merged.platform.clone();
            self.clear_defaults(platform.as_str());
        }
        if let Some(is_default) = request.is_default {
            merged.is_default = is_default;
        }
        merged.updated_at = now.to_owned();
        let ghost pre = self.credentials@;
        let n2 = self.credentials.len();
        let mut updated: Vec<Credential> = Vec::new();
        let mut i: usize = 0;
        while i < n2
            invariant
                n2 == self.credentials@.len(),
                idx < n2,
                i <= n2,
                updated@.len() == i,
                forall|j: int|
                    0 <= j < i && j != idx ==> updated@[j] == #[trigger] self.credentials@[j],
                idx < i ==> updated@[idx as int] == merged,
            decreases n2 - i,
        {
            if i == idx {
                updated.push(merged.clone());
            } else {
                updated.push(self.credentials[i].clone());
            }
            i += 1;
        }
        self.credentials = updated;
        proof {
            assert forall|i2: int, j2: int|
                0 <= i2 < j2 < self.credentials@.len() implies self.credentials@[i2].id@
                != self.credentials@[j2].id@ by {
                assert(old(self).credentials@[i2].id@ == pre[i2].id@);
                assert(old(self).credentials@[j2].id@ == pre[j2].id@);
            }
            assert forall|i2: int|
                0 <= i2 < self.credentials@.len() implies self.id_allocated(
                #[trigger] self.credentials@[i2].id@,
            ) by {
                assert(old(self).id_allocated(old(self).credentials@[i2].id@));
            }
            if set_default {
                assert forall|i2: int|
                    0 <= i2 < self.credentials@.len() && i2 != idx implies !Self::is_default_for(
                    #[trigger] self.credentials@[i2],
                    merged.platform@,
                ) by {
                    assert(self.credentials@[i2] == pre[i2]);
                }
                Self::lemma_count_defaults_one_at(self.credentials@, merged.platform@, idx as int);
            }
        }
        Some(merged)
    }

    /// When exactly the entry at `k` is a default for `platform`, the
    /// platform has exactly one default.
    pub proof fn lemma_count_defaults_one_at(s: Seq<Credential>, platform: Seq<char>, k: int)
        requires
            0 <= k < s.len(),
            Self::is_default_for(s[k], platform),
            forall|i: int|
                0 <= i < s.len() && i != k ==> !Self::is_default_for(#[trigger] s[i], platform),
        ensures
            Self::count_defaults(s, platform) == 1,
        decreases s.len(),
    {
        if k == s.len() - 1 {
            Self::lemma_count_defaults_zero(s.drop_last(), platform);
        } else {
            Self::lemma_count_defaults_one_at(s.drop_last(), platform, k);
        }
    }

    /// Replaces the source at `idx`.
    fn replace_source(&mut self, idx: usize, s: Source)
        requires
            idx < old(self).sources@.len(),
        ensures
            final(self).sources@ == old(self).sources@.update(idx as int, s),
            final(self).next_id == old(self).next_id,
            final(self).settings == old(self).settings,
            final(self).creators == old(self).creators,
            final(self).credentials == old(self).credentials,
            final(self).feed_items == old(self).feed_items,
            final(self).warehouse_items == old(self).warehouse_items,
    {
        let n = self.sources.len();
        let mut updated: Vec<Source> = Vec::new();
        let mut i: usize = 0;
        while i < n
            invariant
                n == self.sources@.len(),
                idx < n,
                i <= n,
                updated@.len() == i,
                forall|j: int| 0 <= j < i && j != idx ==> updated@[j] == #[trigger] self.sources@[j],
                idx < i ==> updated@[idx as int] == s,
            decreases n - i,
        {
            if i == idx {
                updated.push(s.clone());
            } else {
                updated.push(self.sources[i].clone());
            }
            i += 1;
        }
        self.sources = updated;
        proof {
            assert(self.sources@ =~= old(self).sources@.update(idx as int, s));
        }
    }

    /// Replaces the feed item at `idx`.
    fn replace_feed_item(&mut self, idx: usize, it: FeedItem)
        requires
            idx < old(self).feed_items@.len(),
        ensures
            final(self).feed_items@ == old(self).feed_items@.update(idx as int, it),
            final(self).next_id == old(self).next_id,
            final(self).settings == old(self).settings,
            final(self).creators == old(self).creators,
            final(self).sources == old(self).sources,
            final(self).credentials == old(self).credentials,
            final(self).warehouse_items == old(self).warehouse_items,
    {
        let n = self.feed_items.len();
        let mut updated: Vec<FeedItem> = Vec::new();
        let mut i: usize = 0;
        while i < n
            invariant
                n == self.feed_items@.len(),
                idx < n,
                i <= n,
                updated@.len() == i,
                forall|j: int|
                    0 <= j < i && j != idx ==> updated@[j] == #[trigger] self.feed_items@[j],
                idx < i ==> updated@[idx as int] == it,
            decreases n - i,
        {
            if i == idx {
                updated.push(it.clone());
            } else {
                updated.push(self.feed_items[i].clone());
            }
            i += 1;
        }
        self.feed_items = updated;
        proof {
            assert(self.feed_items@ =~= old(self).feed_items@.update(idx as int, it));
        }
    }

    /// Replaces the warehouse item at `idx`.
    fn replace_warehouse_item(&mut self, idx: usize, it: WarehouseItem)
        requires
            idx < old(self).warehouse_items@.len(),
        ensures
            final(self).warehouse_items@ == old(self).warehouse_items@.update(idx as int, it),
            final(self).next_id == old(self).next_id,
            final(self).settings == old(self).settings,
            final(self).creators == old(self).creators,
            final(self).sources == old(self).sources,
            final(self).credentials == old(self).credentials,
            final(self).feed_items == old(self).feed_items,
    {
        let n = self.warehouse_items.len();
        let mut updated: Vec<WarehouseItem> = Vec::new();
        let mut i: usize = 0;
        while i < n
            invariant
                n == self.warehouse_items@.len(),
                idx < n,
                i <= n,
                updated@.len() == i,
                forall|j: int|
                    0 <= j < i && j != idx ==> updated@[j] == #[trigger] self.warehouse_items@[j],
                idx < i ==> updated@[idx as int] == it,
            decreases n - i,
        {
            if i == idx {
                updated.push(it.clone());
            } else {
                updated.push(self.warehouse_items[i].clone());
            }
            i += 1;
        }
        self.warehouse_items = updated;
        proof {
            assert(self.warehouse_items@ =~= old(self).warehouse_items@.update(idx as int, it));
        }
    }

    /// Replaces the creator at `idx`.
    fn replace_creator(&mut self, idx: usize, c: Creator)
        requires
            idx < old(self).creators@.len(),
        ensures
            final(self).creators@ == old(self).creators@.update(idx as int, c),
            final(self).next_id == old(self).next_id,
            final(self).settings == old(self).settings,
            final(self).sources == old(self).sources,
            final(self).credentials == old(self).credentials,
            final(self).feed_items == old(self).feed_items,
            final(self).warehouse_items == old(self).warehouse_items,
    {
        let n = self.creators.len();
        let mut updated: Vec<Creator> = Vec::new();
        let mut i: usize = 0;
        while i < n
            invariant
                n == self.creators@.len(),
                idx < n,
                i <= n,
                updated@.len() == i,
                forall|j: int|
                    0 <= j < i && j != idx ==> updated@[j] == #[trigger] self.creators@[j],
                idx < i ==> updated@[idx as int] == c,
            decreases n - i,
        {
            if i == idx {
                updated.push(c.clone());
            } else {
                updated.push(self.creators[i].clone());
            }
            i += 1;
        }
        self.creators = updated;
        proof {
            assert(self.creators@ =~= old(self).creators@.update(idx as int, c));
        }
    }

    /// Applies a partial creator update: a present name or photo path
    /// replaces the stored one, and the update timestamp is set to
    /// `now`. Returns the merged record, or `None` when the creator
    /// does not exist.
    pub fn update_creator(&mut self, id: &str, request: UpdateCreatorRequest, now: &str) -> (r:
        Option<Creator>)
        requires
            old(self).wf(),
        ensures
            final(self).wf(),
            (r is Some) == old(self).has_creator(id@),
            r is None ==> *final(self) == *old(self),
            final(self).creators@.len() == old(self).creators@.len(),
            r is Some ==> exists|i: int|
                {
                    &&& 0 <= i < old(self).creators@.len()
                    &&& (#[trigger] old(self).creators@[i]).id@ == id@
                    &&& (forall|j: int|
                        0 <= j < old(self).creators@.len() && j != i ==> final(self).creators@[j]
                            == #[trigger] old(self).creators@[j])
                    &&& final(self).creators@[i] == r->0
                    &&& (r->0)@ == CreatorView {
                        name: (if request.name is Some {
                            request.name->0@
                        } else {
                            old(self).creators@[i]@.name
                        }),
                        photo_path: (match request.photo_path {
                            Some(p) => Some(p@),
                            None => old(self).creators@[i]@.photo_path,
                        }),
                        updated_at: now@,
                        ..old(self).creators@[i]@
                    }
                },
            final(self).next_id == old(self).next_id,
            final(self).settings == old(self).settings,
            final(self).sources == old(self).sources,
            final(self).credentials == old(self).credentials,
            final(self).feed_items == old(self).feed_items,
            final(self).warehouse_items == old(self).warehouse_items,
    {
        let n = self.creators.len();
        let mut idx: usize = 0;
        let mut found = false;
        while idx < n && !found
            invariant
                n == self.creators@.len(),
                idx <= n,
                !found ==> forall|j: int| 0 <= j < idx ==> self.creators@[j].id@ != id@,
                found ==> idx < n && self.creators@[idx as int].id@ == id@,
            decreases n - idx, if found { 0int } else { 1int },
        {
            if str_eq(self.creators[idx].id.as_str(), id) {
                found = true;
            } else {
                idx += 1;
            }
        }
        if !found {
            return None;
        }
        let mut merged = self.creators[idx].clone();
        if let Some(name) = request.name {
            merged.name = name;
        }
        if let Some(photo_path) = request.photo_path {
            merged.photo_path = Some(photo_path);
        }
        merged.updated_at = now.to_owned();
        self.replace_creator(idx, merged.clone());
        proof {
            assert forall|i2: int, j2: int|
                0 <= i2 < j2 < self.creators@.len() implies self.creators@[i2].id@
                != self.creators@[j2].id@ by {
                assert(old(self).creators@[i2].id@ != old(self).creators@[j2].id@);
            }
            assert forall|i2: int|
                0 <= i2 < self.creators@.len() implies self.id_allocated(
                #[trigger] self.creators@[i2].id@,
            ) by {
                assert(old(self).id_allocated(old(self).creators@[i2].id@));
            }
        }
        Some(merged)
    }

    /// Applies a partial source update: a present channel URL,
    /// credential reference, status or display name replaces the
    /// stored one. Returns the merged record, or `None` when the
    /// source does not exist.
    pub fn update_source(&mut self, id: &str, request: UpdateSourceRequest) -> (r: Option<Source>)
        requires
            old(self).wf(),
        ensures
            final(self).wf(),
            (r is Some) == old(self).has_source(id@),
            r is None ==> *final(self) == *old(self),
            final(self).sources@.len() == old(self).sources@.len(),
            r is Some ==> exists|i: int|
                {
                    &&& 0 <= i < old(self).sources@.len()
                    &&& (#[trigger] old(self).sources@[i]).id@ == id@
                    &&& (forall|j: int|
                        0 <= j < old(self).sources@.len() && j != i ==> final(self).sources@[j]
                            == #[trigger] old(self).sources@[j])
                    &&& final(self).sources@[i] == r->0
                    &&& (r->0)@ == SourceView {
                        channel_url: (if request.channel_url is Some {
                            request.channel_url->0@
                        } else {
                            old(self).sources@[i]@.channel_url
                        }),
                        credential_id: (match request.credential_id {
                            Some(c) => Some(c@),
                            None => old(self).sources@[i]@.credential_id,
                        }),
                        status: (if request.status is Some {
                            request.status->0
                        } else {
                            old(self).sources@[i]@.status
                        }),
                        channel_name: (match request.channel_name {
                            Some(nm) => Some(nm@),
                            None => old(self).sources@[i]@.channel_name
                        }),
                        ..old(self).sources@[i]@
                    }
                },
            final(self).next_id == old(self).next_id,
            final(self).settings == old(self).settings,
            final(self).creators == old(self).creators,
            final(self).credentials == old(self).credentials,
            final(self).feed_items == old(self).feed_items,
            final(self).warehouse_items == old(self).warehouse_items,
    {
        let idx = match self.find_source(id) {
            Some(idx) => idx,
            None => {
                return None;
            },
        };
        let mut merged = self.sources[idx].clone();
        if let Some(channel_url) = request.channel_url {
            merged.channel_url = channel_url;
        }
        if let Some(credential_id) = request.credential_id {
            merged.credential_id = Some(credential_id);
        }
        if let Some(status) = request.status {
            merged.status = status;
        }
        if let Some(channel_name) = request.channel_name {
            merged.channel_name = Some(channel_name);
        }
        self.replace_source(idx, merged.clone());
        proof {
            assert forall|i2: int, j2: int|
                0 <= i2 < j2 < self.sources@.len() implies self.sources@[i2].id@
                != self.sources@[j2].id@ by {
                assert(old(self).sources@[i2].id@ != old(self).sources@[j2].id@);
            }
            assert forall|i2: int|
                0 <= i2 < self.sources@.len() implies self.id_allocated(
                #[trigger] self.sources@[i2].id@,
            ) by {
                assert(old(self).id_allocated(old(self).sources@[i2].id@));
            }
        }
        Some(merged)
    }

    /// Whether some source carries this identifier.
    pub open spec fn has_source(self, id: Seq<char>) -> bool {
        exists|i: int| 0 <= i < self.sources@.len() && self.sources@[i].id@ == id
    }

    /// Creates a source with a fresh identifier, in `Pending` state and
    /// never synced.
    pub fn create_source(&mut self, request: CreateSourceRequest, now: &str) -> (r: Source)
        requires
            old(self).wf(),
            old(self).can_alloc(),
        ensures
            final(self).wf(),
            final(self).sources@ == old(self).sources@.push(r),
            r@.creator_id == request.creator_id@,
            r@.platform == request.platform@,
            r@.channel_url == request.channel_url@,
            r@.channel_name is None,
            r@.credential_id == opt_str_view(request.credential_id),
            r@.status == SourceStatus::Pending,
            r@.last_synced_at is None,
            r@.created_at == now@,
            !old(self).has_source(r@.id),
            final(self).settings == old(self).settings,
            final(self).creators == old(self).creators,
            final(self).credentials == old(self).credentials,
            final(self).feed_items == old(self).feed_items,
            final(self).warehouse_items == old(self).warehouse_items,
    {
        let id = self.alloc_id();
        let source = Source {
            id,
            creator_id: request.creator_id,
            platform: request.platform,
            channel_url: request.channel_url,
            channel_name: None,
            credential_id: request.credential_id,
            status: SourceStatus::Pending,
            last_synced_at: None,
            created_at: now.to_owned(),
        };
        proof {
            assert forall|i: int| 0 <= i < self.sources@.len() implies self.sources@[i].id@
                != source.id@ by {
                assert(self.id_allocated(self.sources@[i].id@));
            }
        }
        self.sources.push(source.clone());
        source
    }

    /// The source with this identifier, if any.
    pub fn get_source(&self, id: &str) -> (r: Option<Source>)
        requires
            self.wf(),
        ensures
            (r is Some) == self.has_source(id@),
            r is Some ==> exists|i: int|
                0 <= i < self.sources@.len() && self.sources@[i] == r->0 && (r->0).id@ == id@,
    {
        let n = self.sources.len();
        let mut i: usize = 0;
        while i < n
            invariant
                n == self.sources@.len(),
                i <= n,
                forall|j: int| 0 <= j < i ==> self.sources@[j].id@ != id@,
            decreases n - i,
        {
            if str_eq(self.sources[i].id.as_str(), id) {
                return Some(self.sources[i].clone());
            }
            i += 1;
        }
        None
    }

    /// The index of the source with this identifier, if any.
    fn find_source(&self, id: &str) -> (r: Option<usize>)
        ensures
            (r is Some) == self.has_source(id@),
            r is Some ==> 0 <= r->0 < self.sources@.len() && self.sources@[r->0 as int].id@ == id@,
    {
        let n = self.sources.len();
        let mut i: usize = 0;
        while i < n
            invariant
                n == self.sources@.len(),
                i <= n,
                forall|j: int| 0 <= j < i ==> self.sources@[j].id@ != id@,
            decreases n - i,
        {
            if str_eq(self.sources[i].id.as_str(), id) {
                return Some(i);
            }
            i += 1;
        }
        None
    }

    /// Records a successful sync: the source becomes `Validated` and its
    /// last-synced timestamp is set to `now`. Nothing else changes.
    /// Returns whether the source exists.
    pub fn mark_source_synced(&mut self, id: &str, now: &str) -> (r: bool)
        requires
            old(self).wf(),
        ensures
            final(self).wf(),
            r == old(self).has_source(id@),
            !r ==> *final(self) == *old(self),
            final(self).sources@.len() == old(self).sources@.len(),
            r ==> exists|i: int|
                {
                    &&& 0 <= i < old(self).sources@.len()
                    &&& (#[trigger] old(self).sources@[i]).id@ == id@
                    &&& (forall|j: int|
                        0 <= j < old(self).sources@.len() && j != i
                            ==> final(self).sources@[j] == #[trigger] old(self).sources@[j])
                    &&& final(self).sources@[i]@ == SourceView {
                        status: SourceStatus::Validated,
                        last_synced_at: Some(now@),
                        ..old(self).sources@[i]@
                    }
                },
            final(self).next_id == old(self).next_id,
            final(self).settings == old(self).settings,
            final(self).creators == old(self).creators,
            final(self).credentials == old(self).credentials,
            final(self).feed_items == old(self).feed_items,
            final(self).warehouse_items == old(self).warehouse_items,
    {
        let idx = match self.find_source(id) {
            Some(idx) => idx,
            None => {
                return false;
            },
        };
        let mut s = self.sources[idx].clone();
        s.status = SourceStatus::Validated;
        s.last_synced_at = Some(now.to_owned());
        let ghost pre = *self;
        self.replace_source(idx, s);
        proof {
            assert forall|i2: int, j2: int|
                0 <= i2 < j2 < self.sources@.len() implies self.sources@[i2].id@
                != self.sources@[j2].id@ by {
                assert(pre.sources@[i2].id@ == old(self).sources@[i2].id@);
            }
            assert forall|i2: int|
                0 <= i2 < self.sources@.len() implies self.id_allocated(
                #[trigger] self.sources@[i2].id@,
            ) by {
                assert(old(self).id_allocated(old(self).sources@[i2].id@));
            }
        }
        true
    }

    /// Records a failed sync: the source status becomes `Error`. The
    /// last-synced timestamp and everything else stay as they were.
    /// Returns whether the source exists.
    pub fn mark_source_error(&mut self, id: &str) -> (r: bool)
        requires
            old(self).wf(),
        ensures
            final(self).wf(),
            r == old(self).has_source(id@),
            !r ==> *final(self) == *old(self),
            final(self).sources@.len() == old(self).sources@.len(),
            r ==> exists|i: int|
                {
                    &&& 0 <= i < old(self).sources@.len()
                    &&& (#[trigger] old(self).sources@[i]).id@ == id@
                    &&& (forall|j: int|
                        0 <= j < old(self).sources@.len() && j != i
                            ==> final(self).sources@[j] == #[trigger] old(self).sources@[j])
                    &&& final(self).sources@[i]@ == SourceView {
                        status: SourceStatus::Error,
                        ..old(self).sources@[i]@
                    }
                },
            final(self).next_id == old(self).next_id,
            final(self).settings == old(self).settings,
            final(self).creators == old(self).creators,
            final(self).credentials == old(self).credentials,
            final(self).feed_items == old(self).feed_items,
            final(self).warehouse_items == old(self).warehouse_items,
    {
        let idx = match self.find_source(id) {
            Some(idx) => idx,
            None => {
                return false;
            },
        };
        let mut s = self.sources[idx].clone();
        s.status = SourceStatus::Error;
        self.replace_source(idx, s);
        proof {
            assert forall|i2: int, j2: int|
                0 <= i2 < j2 < self.sources@.len() implies self.sources@[i2].id@
                != self.sources@[j2].id@ by {
                assert(old(self).sources@[i2].id@ == old(self).sources@[i2].id@);
            }
            assert forall|i2: int|
                0 <= i2 < self.sources@.len() implies self.id_allocated(
                #[trigger] self.sources@[i2].id@,
            ) by {
                assert(old(self).id_allocated(old(self).sources@[i2].id@));
            }
        }
        true
    }

    /// The identifiers, in table order, of the sources a global sweep
    /// targets: those not currently in `Error` state.
    pub open spec fn sync_target_ids(s: Seq<Source>) -> Seq<Seq<char>>
        decreases s.len(),
    {
        if s.len() == 0 {
            Seq::empty()
        } else if s.last().status != SourceStatus::Error {
            Self::sync_target_ids(s.drop_last()).push(s.last().id@)
        } else {
            Self::sync_target_ids(s.drop_last())
        }
    }

    /// The identifiers, in table order, of the sources owned by a
    /// creator.
    pub open spec fn creator_source_ids(s: Seq<Source>, creator_id: Seq<char>) -> Seq<Seq<char>>
        decreases s.len(),
    {
        if s.len() == 0 {
            Seq::empty()
        } else if s.last().creator_id@ == creator_id {
            Self::creator_source_ids(s.drop_last(), creator_id).push(s.last().id@)
        } else {
            Self::creator_source_ids(s.drop_last(), creator_id)
        }
    }

    /// The identifiers of all sources not currently in `Error` state:
    /// the targets of a global sync sweep.
    pub fn source_ids_to_sync(&self) -> (r: Vec<String>)
        ensures
            r@.map_values(|x: String| x@) == Self::sync_target_ids(self.sources@),
    {
        let n = self.sources.len();
        let mut r: Vec<String> = Vec::new();
        let mut i: usize = 0;
        proof {
            assert(self.sources@.take(0) =~= Seq::<Source>::empty());
            assert(r@.map_values(|x: String| x@) =~= Seq::<Seq<char>>::empty());
        }
        while i < n
            invariant
                n == self.sources@.len(),
                i <= n,
                r@.map_values(|x: String| x@) == Self::sync_target_ids(self.sources@.take(i as int)),
            decreases n - i,
        {
            let ghost r_pre = r@;
            let keep = match self.sources[i].status {
                SourceStatus::Error => false,
                _ => true,
            };
            if keep {
                r.push(self.sources[i].id.clone());
            }
            proof {
                let t = self.sources@.take(i + 1);
                assert(t.drop_last() =~= self.sources@.take(i as int));
                assert(t.last() == self.sources@[i as int]);
                if keep {
                    assert(r@.map_values(|x: String| x@) =~= r_pre.map_values(
                        |x: String| x@,
                    ).push(self.sources@[i as int].id@));
                }
            }
            i += 1;
        }
        proof {
            assert(self.sources@.take(n as int) =~= self.sources@);
        }
        r
    }

    /// The identifiers of all sources belonging to `creator_id`.
    pub fn source_ids_for_creator(&self, creator_id: &str) -> (r: Vec<String>)
        ensures
            r@.map_values(|x: String| x@) == Self::creator_source_ids(self.sources@, creator_id@),
    {
        let n = self.sources.len();
        let mut r: Vec<String> = Vec::new();
        let mut i: usize = 0;
        proof {
            assert(self.sources@.take(0) =~= Seq::<Source>::empty());
            assert(r@.map_values(|x: String| x@) =~= Seq::<Seq<char>>::empty());
        }
        while i < n
            invariant
                n == self.sources@.len(),
                i <= n,
                r@.map_values(|x: String| x@) == Self::creator_source_ids(
                    self.sources@.take(i as int),
                    creator_id@,
                ),
            decreases n - i,
        {
            let ghost r_pre = r@;
            let keep = str_eq(self.sources[i].creator_id.as_str(), creator_id);
            if keep {
                r.push(self.sources[i].id.clone());
            }
            proof {
                let t = self.sources@.take(i + 1);
                assert(t.drop_last() =~= self.sources@.take(i as int));
                assert(t.last() == self.sources@[i as int]);
                if keep {
                    assert(r@.map_values(|x: String| x@) =~= r_pre.map_values(
                        |x: String| x@,
                    ).push(self.sources@[i as int].id@));
                }
            }
            i += 1;
        }
        proof {
            assert(self.sources@.take(n as int) =~= self.sources@);
        }
        r
    }

    /// Whether a feed item with this `(source, external)` key exists.
    pub open spec fn feed_key_present(items: Seq<FeedItemView>, src: Seq<char>, ext: Seq<char>) -> bool {
        exists|i: int|
            0 <= i < items.len() && items[i].source_id == src && items[i].external_id == ext
    }

    /// The views of a feed item table.
    pub open spec fn feed_items_view(items: Seq<FeedItem>) -> Seq<FeedItemView> {
        items.map_values(|it: FeedItem| it@)
    }

    /// The view of the feed item a creation request inserts: status
    /// `NotDownloaded`, metadata incomplete, no warehouse link.
    pub open spec fn new_feed_item_view(
        req: CreateFeedItemRequest,
        id: Seq<char>,
        now: Seq<char>,
    ) -> FeedItemView {
        FeedItemView {
            id,
            source_id: req.source_id@,
            external_id: req.external_id@,
            title: req.title@,
            thumbnail_url: opt_str_view(req.thumbnail_url),
            published_at: opt_str_view(req.published_at),
            duration: req.duration,
            download_status: DownloadStatus::NotDownloaded,
            warehouse_item_id: None,
            metadata_complete: false,
            created_at: now,
        }
    }

    /// The effect of inserting a batch of creation requests with the
    /// insert-or-ignore discipline keyed on `(source, external)`:
    /// requests whose key is already present leave the table unchanged,
    /// the rest are appended with consecutive fresh identifiers.
    pub open spec fn batch_insert_v(
        items: Seq<FeedItemView>,
        next: nat,
        reqs: Seq<CreateFeedItemRequest>,
        now: Seq<char>,
    ) -> (Seq<FeedItemView>, nat)
        decreases reqs.len(),
    {
        if reqs.len() == 0 {
            (items, next)
        } else {
            let req = reqs[0];
            if Self::feed_key_present(items, req.source_id@, req.external_id@) {
                Self::batch_insert_v(items, next, reqs.drop_first(), now)
            } else {
                Self::batch_insert_v(
                    items.push(Self::new_feed_item_view(req, dec_digits(next), now)),
                    next + 1,
                    reqs.drop_first(),
                    now,
                )
            }
        }
    }

    /// A batch insert only appends: the prior table is a prefix of the
    /// result.
    pub proof fn lemma_batch_insert_appends(
        items: Seq<FeedItemView>,
        next: nat,
        reqs: Seq<CreateFeedItemRequest>,
        now: Seq<char>,
    )
        ensures
            ({
                let (out, _) = Self::batch_insert_v(items, next, reqs, now);
                &&& out.len() >= items.len()
                &&& out.take(items.len() as int) == items
            }),
        decreases reqs.len(),
    {
        if reqs.len() > 0 {
            let req = reqs[0];
            if Self::feed_key_present(items, req.source_id@, req.external_id@) {
                Self::lemma_batch_insert_appends(items, next, reqs.drop_first(), now);
            } else {
                let pushed = items.push(
                    Self::new_feed_item_view(req, dec_digits(next), now),
                );
                Self::lemma_batch_insert_appends(pushed, next + 1, reqs.drop_first(), now);
                let (out, _) = Self::batch_insert_v(pushed, next + 1, reqs.drop_first(), now);
                assert(out.take(pushed.len() as int).take(items.len() as int) =~= out.take(
                    items.len() as int,
                ));
                assert(pushed.take(items.len() as int) =~= items);
            }
        } else {
            assert(Self::batch_insert_v(items, next, reqs, now).0.take(items.len() as int)
                =~= items);
        }
    }

    /// A key present before a batch insert is still present afterwards.
    pub proof fn lemma_batch_insert_keeps_key(
        items: Seq<FeedItemView>,
        next: nat,
        reqs: Seq<CreateFeedItemRequest>,
        now: Seq<char>,
        src: Seq<char>,
        ext: Seq<char>,
    )
        requires
            Self::feed_key_present(items, src, ext),
        ensures
            Self::feed_key_present(Self::batch_insert_v(items, next, reqs, now).0, src, ext),
    {
        Self::lemma_batch_insert_appends(items, next, reqs, now);
        let (out, _) = Self::batch_insert_v(items, next, reqs, now);
        let i = choose|i: int|
            0 <= i < items.len() && items[i].source_id == src && items[i].external_id == ext;
        assert(out.take(items.len() as int)[i] == out[i]);
    }

    /// After a batch insert, the key of every request of the batch is
    /// present.
    pub proof fn lemma_batch_insert_covers(
        items: Seq<FeedItemView>,
        next: nat,
        reqs: Seq<CreateFeedItemRequest>,
        now: Seq<char>,
    )
        ensures
            forall|k: int|
                0 <= k < reqs.len() ==> Self::feed_key_present(
                    Self::batch_insert_v(items, next, reqs, now).0,
                    (#[trigger] reqs[k]).source_id@,
                    reqs[k].external_id@,
                ),
        decreases reqs.len(),
    {
        if reqs.len() > 0 {
            let req = reqs[0];
            let rest = reqs.drop_first();
            if Self::feed_key_present(items, req.source_id@, req.external_id@) {
                Self::lemma_batch_insert_covers(items, next, rest, now);
                Self::lemma_batch_insert_keeps_key(
                    items,
                    next,
                    reqs,
                    now,
                    req.source_id@,
                    req.external_id@,
                );
                assert forall|k: int| 0 <= k < reqs.len() implies Self::feed_key_present(
                    Self::batch_insert_v(items, next, reqs, now).0,
                    (#[trigger] reqs[k]).source_id@,
                    reqs[k].external_id@,
                ) by {
                    if k > 0 {
                        assert(rest[k - 1] == reqs[k]);
                    }
                }
            } else {
                let pushed = items.push(
                    Self::new_feed_item_view(req, dec_digits(next), now),
                );
                Self::lemma_batch_insert_covers(pushed, next + 1, rest, now);
                assert(pushed[items.len() as int].source_id == req.source_id@
                    && pushed[items.len() as int].external_id == req.external_id@);
                assert(Self::feed_key_present(pushed, req.source_id@, req.external_id@));
                Self::lemma_batch_insert_keeps_key(
                    pushed,
                    next + 1,
                    rest,
                    now,
                    req.source_id@,
                    req.external_id@,
                );
                assert forall|k: int| 0 <= k < reqs.len() implies Self::feed_key_present(
                    Self::batch_insert_v(items, next, reqs, now).0,
                    (#[trigger] reqs[k]).source_id@,
                    reqs[k].external_id@,
                ) by {
                    if k > 0 {
                        assert(rest[k - 1] == reqs[k]);
                    }
                }
            }
        }
    }

    /// A batch whose keys are all present already changes nothing.
    pub proof fn lemma_batch_insert_noop(
        items: Seq<FeedItemView>,
        next: nat,
        reqs: Seq<CreateFeedItemRequest>,
        now: Seq<char>,
    )
        requires
            forall|k: int|
                0 <= k < reqs.len() ==> Self::feed_key_present(
                    items,
                    (#[trigger] reqs[k]).source_id@,
                    reqs[k].external_id@,
                ),
        ensures
            Self::batch_insert_v(items, next, reqs, now) == (items, next),
        decreases reqs.len(),
    {
        if reqs.len() > 0 {
            let rest = reqs.drop_first();
            assert(Self::feed_key_present(items, reqs[0].source_id@, reqs[0].external_id@));
            assert forall|k: int| 0 <= k < rest.len() implies Self::feed_key_present(
                items,
                (#[trigger] rest[k]).source_id@,
                rest[k].external_id@,
            ) by {
                assert(rest[k] == reqs[k + 1]);
            }
            Self::lemma_batch_insert_noop(items, next, rest, now);
        }
    }

    /// Re-applying the same batch of discovered rows is a no-op: the
    /// second application inserts nothing and leaves the table exactly
    /// as the first left it, whatever timestamps the two passes carry.
    pub proof fn lemma_batch_insert_idempotent(
        items: Seq<FeedItemView>,
        next: nat,
        reqs: Seq<CreateFeedItemRequest>,
        now1: Seq<char>,
        now2: Seq<char>,
    )
        ensures
            ({
                let (out1, next1) = Self::batch_insert_v(items, next, reqs, now1);
                Self::batch_insert_v(out1, next1, reqs, now2) == (out1, next1)
            }),
    {
        let (out1, next1) = Self::batch_insert_v(items, next, reqs, now1);
        Self::lemma_batch_insert_covers(items, next, reqs, now1);
        Self::lemma_batch_insert_noop(out1, next1, reqs, now2);
    }

    /// Whether a feed item with this `(source, external)` key exists.
    pub fn has_feed_key(&self, source_id: &str, external_id: &str) -> (r: bool)
        ensures
            r == Self::feed_key_present(
                Self::feed_items_view(self.feed_items@),
                source_id@,
                external_id@,
            ),
    {
        let ghost v = Self::feed_items_view(self.feed_items@);
        let n = self.feed_items.len();
        let mut i: usize = 0;
        while i < n
            invariant
                v == Self::feed_items_view(self.feed_items@),
                n == self.feed_items@.len(),
                i <= n,
                forall|j: int|
                    0 <= j < i ==> !((#[trigger] v[j]).source_id == source_id@ && v[j].external_id
                        == external_id@),
            decreases n - i,
        {
            let it = &self.feed_items[i];
            if str_eq(it.source_id.as_str(), source_id) && str_eq(
                it.external_id.as_str(),
                external_id,
            ) {
                proof {
                    assert(v[i as int] == self.feed_items@[i as int]@);
                }
                return true;
            }
            proof {
                assert(v[i as int] == self.feed_items@[i as int]@);
            }
            i += 1;
        }
        false
    }

    /// Whether some feed item carries this identifier.
    pub open spec fn has_feed_item(self, id: Seq<char>) -> bool {
        exists|i: int| 0 <= i < self.feed_items@.len() && self.feed_items@[i].id@ == id
    }

    /// The index of the feed item with this identifier, if any.
    fn find_feed_item(&self, id: &str) -> (r: Option<usize>)
        ensures
            (r is Some) == self.has_feed_item(id@),
            r is Some ==> 0 <= r->0 < self.feed_items@.len() && self.feed_items@[r->0 as int].id@
                == id@,
    {
        let n = self.feed_items.len();
        let mut i: usize = 0;
        while i < n
            invariant
                n == self.feed_items@.len(),
                i <= n,
                forall|j: int| 0 <= j < i ==> self.feed_items@[j].id@ != id@,
            decreases n - i,
        {
            if str_eq(self.feed_items[i].id.as_str(), id) {
                return Some(i);
            }
            i += 1;
        }
        None
    }

    /// The feed item with this identifier, if any.
    pub fn get_feed_item(&self, id: &str) -> (r: Option<FeedItem>)
        ensures
            (r is Some) == self.has_feed_item(id@),
            r is Some ==> exists|i: int|
                0 <= i < self.feed_items@.len() && self.feed_items@[i] == r->0 && (r->0).id@
                    == id@,
    {
        match self.find_feed_item(id) {
            Some(i) => Some(self.feed_items[i].clone()),
            None => None,
        }
    }

    /// Inserts one feed item with a fresh identifier, in state
    /// `NotDownloaded` with incomplete metadata. Returns `None`, leaving
    /// the store unchanged, when the `(source, external)` key is already
    /// taken.
    pub fn create_feed_item(&mut self, request: CreateFeedItemRequest, now: &str) -> (r: Option<
        FeedItem,
    >)
        requires
            old(self).wf(),
            old(self).can_alloc(),
        ensures
            final(self).wf(),
            (r is Some) == !Self::feed_key_present(
                Self::feed_items_view(old(self).feed_items@),
                request.source_id@,
                request.external_id@,
            ),
            r is None ==> *final(self) == *old(self),
            r is Some ==> {
                &&& final(self).feed_items@ == old(self).feed_items@.push(r->0)
                &&& (r->0)@ == Self::new_feed_item_view(
                    request,
                    dec_digits(old(self).next_id as nat),
                    now@,
                )
                &&& final(self).next_id == old(self).next_id + 1
            },
            final(self).settings == old(self).settings,
            final(self).creators == old(self).creators,
            final(self).sources == old(self).sources,
            final(self).credentials == old(self).credentials,
            final(self).warehouse_items == old(self).warehouse_items,
    {
        let ghost v = Self::feed_items_view(self.feed_items@);
        if self.has_feed_key(request.source_id.as_str(), request.external_id.as_str()) {
            return None;
        }
        let id = self.alloc_id();
        let item = FeedItem {
            id,
            source_id: request.source_id,
            external_id: request.external_id,
            title: request.title,
            thumbnail_url: request.thumbnail_url,
            published_at: request.published_at,
            duration: request.duration,
            download_status: DownloadStatus::NotDownloaded,
            warehouse_item_id: None,
            metadata_complete: false,
            created_at: now.to_owned(),
        };
        proof {
            assert forall|i: int| 0 <= i < self.feed_items@.len() implies self.feed_items@[i].id@
                != item.id@ by {
                assert(self.id_allocated(self.feed_items@[i].id@));
            }
            assert forall|i: int| 0 <= i < self.feed_items@.len() implies !(
            (#[trigger] self.feed_items@[i]).source_id@ == item.source_id@
                && self.feed_items@[i].external_id@ == item.external_id@) by {
                assert(v[i] == self.feed_items@[i]@);
            }
        }
        self.feed_items.push(item.clone());
        Some(item)
    }

    /// Inserts a batch of feed items with the insert-or-ignore
    /// discipline keyed on `(source, external)`: a request whose key is
    /// already present is skipped, the rest are appended. Returns how
    /// many items were actually inserted.
    pub fn create_feed_items_batch(&mut self, items: Vec<CreateFeedItemRequest>, now: &str) -> (
        count: usize)
        requires
            old(self).wf(),
            old(self).next_id + items@.len() <= u64::MAX,
        ensures
            final(self).wf(),
            ({
                let (out, nx) = Self::batch_insert_v(
                    Self::feed_items_view(old(self).feed_items@),
                    old(self).next_id as nat,
                    items@,
                    now@,
                );
                &&& Self::feed_items_view(final(self).feed_items@) == out
                &&& final(self).next_id as nat == nx
            }),
            count == final(self).feed_items@.len() - old(self).feed_items@.len(),
            count <= items@.len(),
            forall|j: int|
                0 <= j < old(self).feed_items@.len() ==> final(self).feed_items@[j]
                    == #[trigger] old(self).feed_items@[j],
            final(self).settings == old(self).settings,
            final(self).creators == old(self).creators,
            final(self).sources == old(self).sources,
            final(self).credentials == old(self).credentials,
            final(self).warehouse_items == old(self).warehouse_items,
    {
        let ghost v0 = Self::feed_items_view(old(self).feed_items@);
        let ghost n0 = old(self).next_id as nat;
        let base = self.feed_items.len();
        let n = items.len();
        let mut i: usize = 0;
        proof {
            assert(items@.skip(0) =~= items@);
        }
        while i < n
            invariant
                n == items@.len(),
                i <= n,
                self.wf(),
                self.next_id + (n - i) <= u64::MAX,
                base == old(self).feed_items@.len(),
                base <= self.feed_items@.len(),
                self.feed_items@.len() - base <= i,
                forall|j: int|
                    0 <= j < base ==> self.feed_items@[j] == #[trigger] old(self).feed_items@[j],
                Self::batch_insert_v(v0, n0, items@, now@) == Self::batch_insert_v(
                    Self::feed_items_view(self.feed_items@),
                    self.next_id as nat,
                    items@.skip(i as int),
                    now@,
                ),
                self.settings == old(self).settings,
                self.creators == old(self).creators,
                self.sources == old(self).sources,
                self.credentials == old(self).credentials,
                self.warehouse_items == old(self).warehouse_items,
            decreases n - i,
        {
            let ghost cur_v = Self::feed_items_view(self.feed_items@);
            let ghost rest = items@.skip(i as int);
            proof {
                assert(rest[0] == items@[i as int]);
                assert(rest.drop_first() =~= items@.skip(i as int + 1));
            }
            let req = &items[i];
            if self.has_feed_key(req.source_id.as_str(), req.external_id.as_str()) {
                i += 1;
                continue ;
            }
            let id = self.alloc_id();
            let item = FeedItem {
                id,
                source_id: req.source_id.clone(),
                external_id: req.external_id.clone(),
                title: req.title.clone(),
                thumbnail_url: clone_opt_string(&req.thumbnail_url),
                published_at: clone_opt_string(&req.published_at),
                duration: req.duration,
                download_status: DownloadStatus::NotDownloaded,
                warehouse_item_id: None,
                metadata_complete: false,
                created_at: now.to_owned(),
            };
            proof {
                assert forall|j: int|
                    0 <= j < self.feed_items@.len() implies self.feed_items@[j].id@ != item.id@ by {
                    assert(self.id_allocated(self.feed_items@[j].id@));
                }
                assert forall|j: int| 0 <= j < self.feed_items@.len() implies !(
                (#[trigger] self.feed_items@[j]).source_id@ == item.source_id@
                    && self.feed_items@[j].external_id@ == item.external_id@) by {
                    assert(cur_v[j] == self.feed_items@[j]@);
                }
            }
            self.feed_items.push(item);
            proof {
                assert(Self::feed_items_view(self.feed_items@) =~= cur_v.push(
                    Self::new_feed_item_view(items@[i as int], dec_digits((self.next_id - 1) as nat), now@),
                ));
            }
            i += 1;
        }
        proof {
            assert(items@.skip(n as int) =~= Seq::<CreateFeedItemRequest>::empty());
        }
        self.feed_items.len() - base
    }

    /// Sets the download status of a feed item, leaving every other
    /// field and record unchanged. Returns whether the item exists.
    pub fn update_feed_item_status(&mut self, id: &str, status: DownloadStatus) -> (r: bool)
        requires
            old(self).wf(),
        ensures
            final(self).wf(),
            r == old(self).has_feed_item(id@),
            !r ==> *final(self) == *old(self),
            final(self).feed_items@.len() == old(self).feed_items@.len(),
            r ==> exists|i: int|
                {
                    &&& 0 <= i < old(self).feed_items@.len()
                    &&& (#[trigger] old(self).feed_items@[i]).id@ == id@
                    &&& (forall|j: int|
                        0 <= j < old(self).feed_items@.len() && j != i
                            ==> final(self).feed_items@[j] == #[trigger] old(self).feed_items@[j])
                    &&& final(self).feed_items@[i]@ == FeedItemView {
                        download_status: status,
                        ..old(self).feed_items@[i]@
                    }
                },
            final(self).next_id == old(self).next_id,
            final(self).settings == old(self).settings,
            final(self).creators == old(self).creators,
            final(self).sources == old(self).sources,
            final(self).credentials == old(self).credentials,
            final(self).warehouse_items == old(self).warehouse_items,
    {
        let idx = match self.find_feed_item(id) {
            Some(idx) => idx,
            None => {
                return false;
            },
        };
        let mut it = self.feed_items[idx].clone();
        it.download_status = status;
        self.replace_feed_item(idx, it);
        proof {
            self.lemma_feed_wf_after_replace(*old(self), idx as int);
        }
        true
    }

    /// Restores well-formedness knowledge after a feed item was
    /// replaced by one with the same identifier and key.
    proof fn lemma_feed_wf_after_replace(self, pre: Store, idx: int)
        requires
            pre.wf(),
            0 <= idx < pre.feed_items@.len(),
            self.next_id == pre.next_id,
            self.creators == pre.creators,
            self.sources == pre.sources,
            self.credentials == pre.credentials,
            self.warehouse_items == pre.warehouse_items,
            self.feed_items@.len() == pre.feed_items@.len(),
            forall|j: int|
                0 <= j < pre.feed_items@.len() && j != idx ==> self.feed_items@[j]
                    == #[trigger] pre.feed_items@[j],
            self.feed_items@[idx].id@ == pre.feed_items@[idx].id@,
            self.feed_items@[idx].source_id@ == pre.feed_items@[idx].source_id@,
            self.feed_items@[idx].external_id@ == pre.feed_items@[idx].external_id@,
        ensures
            self.wf(),
    {
        assert forall|i: int|
            0 <= i < self.feed_items@.len() implies self.id_allocated(
            #[trigger] self.feed_items@[i].id@,
        ) by {
            assert(pre.id_allocated(pre.feed_items@[i].id@));
        }
        assert forall|i: int, j: int|
            0 <= i < j < self.feed_items@.len() implies self.feed_items@[i].id@
            != self.feed_items@[j].id@ by {
            assert(pre.feed_items@[i].id@ != pre.feed_items@[j].id@);
        }
        assert forall|i: int, j: int|
            0 <= i < j < self.feed_items@.len() implies !(self.feed_items@[i].source_id@
            == self.feed_items@[j].source_id@ && self.feed_items@[i].external_id@
            == self.feed_items@[j].external_id@) by {
            assert(!(pre.feed_items@[i].source_id@ == pre.feed_items@[j].source_id@
                && pre.feed_items@[i].external_id@ == pre.feed_items@[j].external_id@));
        }
    }

    /// Applies a partial feed item update: a present download status or
    /// warehouse link replaces the stored one. Returns the merged item,
    /// or `None` when the item does not exist.
    pub fn update_feed_item(&mut self, id: &str, request: UpdateFeedItemRequest) -> (r: Option<
        FeedItem,
    >)
        requires
            old(self).wf(),
        ensures
            final(self).wf(),
            (r is Some) == old(self).has_feed_item(id@),
            r is None ==> *final(self) == *old(self),
            final(self).feed_items@.len() == old(self).feed_items@.len(),
            r is Some ==> exists|i: int|
                {
                    &&& 0 <= i < old(self).feed_items@.len()
                    &&& (#[trigger] old(self).feed_items@[i]).id@ == id@
                    &&& (forall|j: int|
                        0 <= j < old(self).feed_items@.len() && j != i
                            ==> final(self).feed_items@[j] == #[trigger] old(self).feed_items@[j])
                    &&& final(self).feed_items@[i] == r->0
                    &&& (r->0)@ == FeedItemView {
                        download_status: if request.download_status is Some {
                            request.download_status->0
                        } else {
                            old(self).feed_items@[i]@.download_status
                        },
                        warehouse_item_id: if request.warehouse_item_id is Some {
                            Some(request.warehouse_item_id->0@)
                        } else {
                            old(self).feed_items@[i]@.warehouse_item_id
                        },
                        ..old(self).feed_items@[i]@
                    }
                },
            final(self).next_id == old(self).next_id,
            final(self).settings == old(self).settings,
            final(self).creators == old(self).creators,
            final(self).sources == old(self).sources,
            final(self).credentials == old(self).credentials,
            final(self).warehouse_items == old(self).warehouse_items,
    {
        let idx = match self.find_feed_item(id) {
            Some(idx) => idx,
            None => {
                return None;
            },
        };
        let mut it = self.feed_items[idx].clone();
        if let Some(download_status) = request.download_status {
            it.download_status = download_status;
        }
        if let Some(warehouse_item_id) = request.warehouse_item_id {
            it.warehouse_item_id = Some(warehouse_item_id);
        }
        self.replace_feed_item(idx, it.clone());
        proof {
            self.lemma_feed_wf_after_replace(*old(self), idx as int);
        }
        Some(it)
    }

    /// Merges freshly fetched metadata into a feed item: each value
    /// present replaces the stored one, absent values leave the stored
    /// ones as they were, and the item is marked metadata-complete.
    /// Returns whether the item exists.
    pub fn update_feed_item_metadata(
        &mut self,
        id: &str,
        published_at: Option<String>,
        duration: Option<i64>,
        thumbnail: Option<String>,
    ) -> (r: bool)
        requires
            old(self).wf(),
        ensures
            final(self).wf(),
            r == old(self).has_feed_item(id@),
            !r ==> *final(self) == *old(self),
            final(self).feed_items@.len() == old(self).feed_items@.len(),
            r ==> exists|i: int|
                {
                    &&& 0 <= i < old(self).feed_items@.len()
                    &&& (#[trigger] old(self).feed_items@[i]).id@ == id@
                    &&& (forall|j: int|
                        0 <= j < old(self).feed_items@.len() && j != i
                            ==> final(self).feed_items@[j] == #[trigger] old(self).feed_items@[j])
                    &&& final(self).feed_items@[i]@ == FeedItemView {
                        published_at: if published_at is Some {
                            Some(published_at->0@)
                        } else {
                            old(self).feed_items@[i]@.published_at
                        },
                        duration: if duration is Some {
                            duration
                        } else {
                            old(self).feed_items@[i]@.duration
                        },
                        thumbnail_url: if thumbnail is Some {
                            Some(thumbnail->0@)
                        } else {
                            old(self).feed_items@[i]@.thumbnail_url
                        },
                        metadata_complete: true,
                        ..old(self).feed_items@[i]@
                    }
                },
            final(self).next_id == old(self).next_id,
            final(self).settings == old(self).settings,
            final(self).creators == old(self).creators,
            final(self).sources == old(self).sources,
            final(self).credentials == old(self).credentials,
            final(self).warehouse_items == old(self).warehouse_items,
    {
        let idx = match self.find_feed_item(id) {
            Some(idx) => idx,
            None => {
                return false;
            },
        };
        let mut it = self.feed_items[idx].clone();
        if published_at.is_some() {
            it.published_at = published_at;
        }
        if duration.is_some() {
            it.duration = duration;
        }
        if thumbnail.is_some() {
            it.thumbnail_url = thumbnail;
        }
        it.metadata_complete = true;
        self.replace_feed_item(idx, it);
        proof {
            self.lemma_feed_wf_after_replace(*old(self), idx as int);
        }
        true
    }

    /// Whether some warehouse item carries this identifier.
    pub open spec fn has_warehouse_item(self, id: Seq<char>) -> bool {
        exists|i: int| 0 <= i < self.warehouse_items@.len() && self.warehouse_items@[i].id@ == id
    }

    /// Creates a warehouse item with a fresh identifier; the import
    /// timestamp is set to `now`.
    pub fn create_warehouse_item(&mut self, request: CreateWarehouseItemRequest, now: &str) -> (r:
        WarehouseItem)
        requires
            old(self).wf(),
            old(self).can_alloc(),
        ensures
            final(self).wf(),
            final(self).warehouse_items@ == old(self).warehouse_items@.push(r),
            r@ == (WarehouseItemView {
                id: r@.id,
                creator_id: request.creator_id@,
                feed_item_id: opt_str_view(request.feed_item_id),
                title: request.title@,
                file_path: request.file_path@,
                thumbnail_path: opt_str_view(request.thumbnail_path),
                platform: opt_str_view(request.platform),
                original_url: opt_str_view(request.original_url),
                published_at: opt_str_view(request.published_at),
                duration: request.duration,
                file_size: request.file_size,
                imported_at: now@,
                is_manual_import: request.is_manual_import,
            }),
            !old(self).has_warehouse_item(r@.id),
            final(self).settings == old(self).settings,
            final(self).creators == old(self).creators,
            final(self).sources == old(self).sources,
            final(self).credentials == old(self).credentials,
            final(self).feed_items == old(self).feed_items,
    {
        let id = self.alloc_id();
        let item = WarehouseItem {
            id,
            creator_id: request.creator_id,
            feed_item_id: request.feed_item_id,
            title: request.title,
            file_path: request.file_path,
            thumbnail_path: request.thumbnail_path,
            platform: request.platform,
            original_url: request.original_url,
            published_at: request.published_at,
            duration: request.duration,
            file_size: request.file_size,
            imported_at: now.to_owned(),
            is_manual_import: request.is_manual_import,
        };
        proof {
            assert forall|i: int|
                0 <= i < self.warehouse_items@.len() implies self.warehouse_items@[i].id@
                != item.id@ by {
                assert(self.id_allocated(self.warehouse_items@[i].id@));
            }
        }
        self.warehouse_items.push(item.clone());
        item
    }

    /// Deletes the warehouse item with this identifier, if present.
    /// Returns whether an item was removed.
    pub fn delete_warehouse_item(&mut self, id: &str) -> (r: bool)
        requires
            old(self).wf(),
        ensures
            final(self).wf(),
            r == old(self).has_warehouse_item(id@),
            !r ==> *final(self) == *old(self),
            r ==> exists|i: int|
                {
                    &&& 0 <= i < old(self).warehouse_items@.len()
                    &&& (#[trigger] old(self).warehouse_items@[i]).id@ == id@
                    &&& final(self).warehouse_items@ == old(self).warehouse_items@.remove(i)
                },
            final(self).next_id == old(self).next_id,
            final(self).settings == old(self).settings,
            final(self).creators == old(self).creators,
            final(self).sources == old(self).sources,
            final(self).credentials == old(self).credentials,
            final(self).feed_items == old(self).feed_items,
    {
        let n = self.warehouse_items.len();
        let mut i: usize = 0;
        while i < n
            invariant
                *self == *old(self),
                old(self).wf(),
                n == self.warehouse_items@.len(),
                i <= n,
                forall|j: int| 0 <= j < i ==> self.warehouse_items@[j].id@ != id@,
            decreases n - i,
        {
            if str_eq(self.warehouse_items[i].id.as_str(), id) {
                self.warehouse_items.remove(i);
                proof {
                    let pre = old(self).warehouse_items@;
                    assert(self.warehouse_items@ =~= pre.subrange(0, i as int) + pre.subrange(
                        i as int + 1,
                        pre.len() as int,
                    ));
                    assert forall|i2: int|
                        0 <= i2 < self.warehouse_items@.len() implies old(self).id_allocated(
                        #[trigger] self.warehouse_items@[i2].id@,
                    ) by {
                        if i2 < i {
                            assert(self.warehouse_items@[i2] == pre[i2]);
                            assert(old(self).id_allocated(pre[i2].id@));
                        } else {
                            assert(self.warehouse_items@[i2] == pre[i2 + 1]);
                            assert(old(self).id_allocated(pre[i2 + 1].id@));
                        }
                    }
                    assert forall|i2: int, j2: int|
                        0 <= i2 < j2 < self.warehouse_items@.len() implies self
                        .warehouse_items@[i2].id@ != self.warehouse_items@[j2].id@ by {
                        let a = if i2 < i {
                            i2
                        } else {
                            i2 + 1
                        };
                        let b = if j2 < i {
                            j2
                        } else {
                            j2 + 1
                        };
                        assert(self.warehouse_items@[i2] == pre[a]);
                        assert(self.warehouse_items@[j2] == pre[b]);
                        assert(pre[a].id@ != pre[b].id@);
                    }
                }
                return true;
            }
            i += 1;
        }
        false
    }

    /// Records a finished download: the feed item is set to
    /// `Downloaded` and linked to the warehouse item, and the warehouse
    /// item is back-linked to the feed item. Returns whether the feed
    /// item exists.
    pub fn update_feed_item_completed(&mut self, id: &str, warehouse_item_id: &str) -> (r: bool)
        requires
            old(self).wf(),
        ensures
            final(self).wf(),
            r == old(self).has_feed_item(id@),
            !r ==> *final(self) == *old(self),
            final(self).feed_items@.len() == old(self).feed_items@.len(),
            final(self).warehouse_items@.len() == old(self).warehouse_items@.len(),
            r ==> exists|i: int|
                {
                    &&& 0 <= i < old(self).feed_items@.len()
                    &&& (#[trigger] old(self).feed_items@[i]).id@ == id@
                    &&& (forall|j: int|
                        0 <= j < old(self).feed_items@.len() && j != i
                            ==> final(self).feed_items@[j] == #[trigger] old(self).feed_items@[j])
                    &&& final(self).feed_items@[i]@ == FeedItemView {
                        download_status: DownloadStatus::Downloaded,
                        warehouse_item_id: Some(warehouse_item_id@),
                        ..old(self).feed_items@[i]@
                    }
                },
            r && old(self).has_warehouse_item(warehouse_item_id@) ==> exists|i: int|
                {
                    &&& 0 <= i < old(self).warehouse_items@.len()
                    &&& (#[trigger] old(self).warehouse_items@[i]).id@ == warehouse_item_id@
                    &&& (forall|j: int|
                        0 <= j < old(self).warehouse_items@.len() && j != i
                            ==> final(self).warehouse_items@[j] == #[trigger] old(
                            self,
                        ).warehouse_items@[j])
                    &&& final(self).warehouse_items@[i]@ == WarehouseItemView {
                        feed_item_id: Some(id@),
                        ..old(self).warehouse_items@[i]@
                    }
                },
            r && !old(self).has_warehouse_item(warehouse_item_id@) ==> final(self)
                .warehouse_items == old(self).warehouse_items,
            final(self).next_id == old(self).next_id,
            final(self).settings == old(self).settings,
            final(self).creators == old(self).creators,
            final(self).sources == old(self).sources,
            final(self).credentials == old(self).credentials,
    {
        let idx = match self.find_feed_item(id) {
            Some(idx) => idx,
            None => {
                return false;
            },
        };
        let mut it = self.feed_items[idx].clone();
        it.download_status = DownloadStatus::Downloaded;
        it.warehouse_item_id = Some(warehouse_item_id.to_owned());
        self.replace_feed_item(idx, it);
        proof {
            self.lemma_feed_wf_after_replace(*old(self), idx as int);
        }
        let ghost snap = *self;
        let wn = self.warehouse_items.len();
        let mut w: usize = 0;
        while w < wn
            invariant
                *self == snap,
                snap.wf(),
                old(self).wf(),
                old(self).has_feed_item(id@),
                snap.next_id == old(self).next_id,
                snap.settings == old(self).settings,
                snap.creators == old(self).creators,
                snap.sources == old(self).sources,
                snap.credentials == old(self).credentials,
                snap.warehouse_items == old(self).warehouse_items,
                snap.feed_items@.len() == old(self).feed_items@.len(),
                exists|i: int|
                    {
                        &&& 0 <= i < old(self).feed_items@.len()
                        &&& (#[trigger] old(self).feed_items@[i]).id@ == id@
                        &&& (forall|j: int|
                            0 <= j < old(self).feed_items@.len() && j != i ==> snap.feed_items@[j]
                                == #[trigger] old(self).feed_items@[j])
                        &&& snap.feed_items@[i]@ == FeedItemView {
                            download_status: DownloadStatus::Downloaded,
                            warehouse_item_id: Some(warehouse_item_id@),
                            ..old(self).feed_items@[i]@
                        }
                    },
                wn == self.warehouse_items@.len(),
                w <= wn,
                forall|j: int| 0 <= j < w ==> self.warehouse_items@[j].id@ != warehouse_item_id@,
            decreases wn - w,
        {
            if str_eq(self.warehouse_items[w].id.as_str(), warehouse_item_id) {
                let mut wi = self.warehouse_items[w].clone();
                wi.feed_item_id = Some(id.to_owned());
                let ghost mid = *self;
                self.replace_warehouse_item(w, wi);
                proof {
                    assert forall|i2: int|
                        0 <= i2 < self.warehouse_items@.len() implies self.id_allocated(
                        #[trigger] self.warehouse_items@[i2].id@,
                    ) by {
                        assert(mid.id_allocated(mid.warehouse_items@[i2].id@));
                    }
                    assert forall|i2: int, j2: int|
                        0 <= i2 < j2 < self.warehouse_items@.len() implies self
                        .warehouse_items@[i2].id@ != self.warehouse_items@[j2].id@ by {
                        assert(mid.warehouse_items@[i2].id@ != mid.warehouse_items@[j2].id@);
                    }
                }
                return true;
            }
            w += 1;
        }
        true
    }

    /// The creator that owns a source, by first match in the table.
    pub open spec fn source_creator(sources: Seq<Source>, source_id: Seq<char>) -> Option<
        Seq<char>,
    >
        decreases sources.len(),
    {
        if sources.len() == 0 {
            None
        } else if sources[0].id@ == source_id {
            Some(sources[0].creator_id@)
        } else {
            Self::source_creator(sources.drop_first(), source_id)
        }
    }

    /// The identifiers of feed items with incomplete metadata, newest
    /// insertion first (selection follows creation-descending order).
    pub open spec fn incomplete_ids_rev(items: Seq<FeedItem>) -> Seq<Seq<char>>
        decreases items.len(),
    {
        if items.len() == 0 {
            Seq::empty()
        } else if !items.last().metadata_complete {
            seq![items.last().id@] + Self::incomplete_ids_rev(items.drop_last())
        } else {
            Self::incomplete_ids_rev(items.drop_last())
        }
    }

    /// The same selection restricted to items whose source belongs to
    /// `creator_id`.
    pub open spec fn incomplete_ids_rev_for_creator(
        items: Seq<FeedItem>,
        sources: Seq<Source>,
        creator_id: Seq<char>,
    ) -> Seq<Seq<char>>
        decreases items.len(),
    {
        if items.len() == 0 {
            Seq::empty()
        } else if !items.last().metadata_complete && Self::source_creator(
            sources,
            items.last().source_id@,
        ) == Some(creator_id) {
            seq![items.last().id@] + Self::incomplete_ids_rev_for_creator(
                items.drop_last(),
                sources,
                creator_id,
            )
        } else {
            Self::incomplete_ids_rev_for_creator(items.drop_last(), sources, creator_id)
        }
    }

    /// A prefix of `s` of at most `k` elements.
    pub open spec fn prefix_at_most(s: Seq<Seq<char>>, k: int) -> Seq<Seq<char>> {
        if k <= s.len() {
            s.take(k)
        } else {
            s
        }
    }

    /// The creator that owns this source, if the source exists.
    pub fn creator_of_source(&self, source_id: &str) -> (r: Option<String>)
        ensures
            opt_str_view(r) == Self::source_creator(self.sources@, source_id@),
    {
        let n = self.sources.len();
        let mut i: usize = 0;
        proof {
            assert(self.sources@.skip(0) =~= self.sources@);
        }
        while i < n
            invariant
                n == self.sources@.len(),
                i <= n,
                Self::source_creator(self.sources@, source_id@) == Self::source_creator(
                    self.sources@.skip(i as int),
                    source_id@,
                ),
            decreases n - i,
        {
            proof {
                assert(self.sources@.skip(i as int)[0] == self.sources@[i as int]);
                assert(self.sources@.skip(i as int).drop_first() =~= self.sources@.skip(
                    i as int + 1,
                ));
            }
            if str_eq(self.sources[i].id.as_str(), source_id) {
                return Some(self.sources[i].creator_id.clone());
            }
            i += 1;
        }
        None
    }

    /// Up to `limit` identifiers of feed items with incomplete
    /// metadata, newest insertion first.
    pub fn get_incomplete_items(&self, limit: usize) -> (r: Vec<String>)
        ensures
            r@.map_values(|x: String| x@) == Self::prefix_at_most(
                Self::incomplete_ids_rev(self.feed_items@),
                limit as int,
            ),
    {
        let ghost full = Self::incomplete_ids_rev(self.feed_items@);
        let n = self.feed_items.len();
        let mut r: Vec<String> = Vec::new();
        let mut j: usize = n;
        proof {
            assert(self.feed_items@.take(n as int) =~= self.feed_items@);
        }
        while j > 0 && r.len() < limit
            invariant
                n == self.feed_items@.len(),
                j <= n,
                r@.len() <= limit,
                full == Self::incomplete_ids_rev(self.feed_items@),
                full == r@.map_values(|x: String| x@) + Self::incomplete_ids_rev(
                    self.feed_items@.take(j as int),
                ),
            decreases j,
        {
            let ghost r_pre = r@;
            proof {
                let t = self.feed_items@.take(j as int);
                assert(t.drop_last() =~= self.feed_items@.take(j as int - 1));
                assert(t.last() == self.feed_items@[j as int - 1]);
            }
            let it = &self.feed_items[j - 1];
            if !it.metadata_complete {
                r.push(it.id.clone());
                proof {
                    assert(r@.map_values(|x: String| x@) =~= r_pre.map_values(|x: String| x@)
                        + seq![self.feed_items@[j as int - 1].id@]);
                }
            }
            j -= 1;
        }
        proof {
            if r@.len() == limit {
                assert(r@.map_values(|x: String| x@) =~= full.take(limit as int));
            } else {
                assert(j == 0);
                assert(Self::incomplete_ids_rev(self.feed_items@.take(0)) =~= Seq::<
                    Seq<char>,
                >::empty());
                assert(r@.map_values(|x: String| x@) =~= full);
            }
        }
        r
    }

    /// Up to `limit` identifiers of feed items with incomplete metadata
    /// belonging to `creator_id`, newest insertion first.
    pub fn get_incomplete_items_for_creator(&self, creator_id: &str, limit: usize) -> (r: Vec<
        String,
    >)
        ensures
            r@.map_values(|x: String| x@) == Self::prefix_at_most(
                Self::incomplete_ids_rev_for_creator(self.feed_items@, self.sources@, creator_id@),
                limit as int,
            ),
    {
        let ghost full = Self::incomplete_ids_rev_for_creator(
            self.feed_items@,
            self.sources@,
            creator_id@,
        );
        let n = self.feed_items.len();
        let mut r: Vec<String> = Vec::new();
        let mut j: usize = n;
        proof {
            assert(self.feed_items@.take(n as int) =~= self.feed_items@);
        }
        while j > 0 && r.len() < limit
            invariant
                n == self.feed_items@.len(),
                j <= n,
                r@.len() <= limit,
                full == Self::incomplete_ids_rev_for_creator(
                    self.feed_items@,
                    self.sources@,
                    creator_id@,
                ),
                full == r@.map_values(|x: String| x@)
                    + Self::incomplete_ids_rev_for_creator(
                    self.feed_items@.take(j as int),
                    self.sources@,
                    creator_id@,
                ),
            decreases j,
        {
            let ghost r_pre = r@;
            proof {
                let t = self.feed_items@.take(j as int);
                assert(t.drop_last() =~= self.feed_items@.take(j as int - 1));
                assert(t.last() == self.feed_items@[j as int - 1]);
            }
            let it = &self.feed_items[j - 1];
            let owned = match self.creator_of_source(it.source_id.as_str()) {
                Some(c) => str_eq(c.as_str(), creator_id),
                None => false,
            };
            if !it.metadata_complete && owned {
                r.push(it.id.clone());
                proof {
                    assert(r@.map_values(|x: String| x@) =~= r_pre.map_values(|x: String| x@)
                        + seq![self.feed_items@[j as int - 1].id@]);
                }
            }
            j -= 1;
        }
        proof {
            if r@.len() == limit {
                assert(r@.map_values(|x: String| x@) =~= full.take(limit as int));
            } else {
                assert(j == 0);
                assert(Self::incomplete_ids_rev_for_creator(
                    self.feed_items@.take(0),
                    self.sources@,
                    creator_id@,
                ) =~= Seq::<Seq<char>>::empty());
                assert(r@.map_values(|x: String| x@) =~= full);
            }
        }
        r
    }

    /// The index of the feed item with this identifier (meaningful when
    /// the item exists and the store is well formed).
    pub open spec fn feed_index_of(self, id: Seq<char>) -> int {
        choose|i: int| 0 <= i < self.feed_items@.len() && self.feed_items@[i].id@ == id
    }

    /// The index of the source with this identifier.
    pub open spec fn source_index_of(self, id: Seq<char>) -> int {
        choose|i: int| 0 <= i < self.sources@.len() && self.sources@[i].id@ == id
    }

    /// In a well-formed store an identifier pins its feed item.
    pub proof fn lemma_feed_index(self, id: Seq<char>)
        requires
            self.wf(),
            self.has_feed_item(id),
        ensures
            0 <= self.feed_index_of(id) < self.feed_items@.len(),
            self.feed_items@[self.feed_index_of(id)].id@ == id,
            forall|i: int|
                0 <= i < self.feed_items@.len() && (#[trigger] self.feed_items@[i]).id@ == id
                    ==> i == self.feed_index_of(id),
    {
        let idx = self.feed_index_of(id);
        assert(0 <= idx < self.feed_items@.len() && self.feed_items@[idx].id@ == id);
        assert forall|i: int|
            0 <= i < self.feed_items@.len() && (#[trigger] self.feed_items@[i]).id@ == id
                implies i == idx by {
            if i < idx {
                assert(self.feed_items@[i].id@ != self.feed_items@[idx].id@);
            } else if i > idx {
                assert(self.feed_items@[idx].id@ != self.feed_items@[i].id@);
            }
        }
    }

    /// In a well-formed store an identifier pins its source.
    pub proof fn lemma_source_index(self, id: Seq<char>)
        requires
            self.wf(),
            self.has_source(id),
        ensures
            0 <= self.source_index_of(id) < self.sources@.len(),
            self.sources@[self.source_index_of(id)].id@ == id,
            forall|i: int|
                0 <= i < self.sources@.len() && (#[trigger] self.sources@[i]).id@ == id ==> i
                    == self.source_index_of(id),
    {
        let idx = self.source_index_of(id);
        assert(0 <= idx < self.sources@.len() && self.sources@[idx].id@ == id);
        assert forall|i: int|
            0 <= i < self.sources@.len() && (#[trigger] self.sources@[i]).id@ == id implies i
            == idx by {
            if i < idx {
                assert(self.sources@[i].id@ != self.sources@[idx].id@);
            } else if i > idx {
                assert(self.sources@[idx].id@ != self.sources@[i].id@);
            }
        }
    }

    /// How many feed items belong to a creator, through the item's
    /// source.
    pub open spec fn count_for_creator(
        items: Seq<FeedItem>,
        sources: Seq<Source>,
        creator_id: Seq<char>,
    ) -> int
        decreases items.len(),
    {
        if items.len() == 0 {
            0
        } else {
            Self::count_for_creator(items.drop_last(), sources, creator_id) + if Self::source_creator(
                sources,
                items.last().source_id@,
            ) == Some(creator_id) {
                1int
            } else {
                0int
            }
        }
    }

    /// How many of a creator's feed items are downloaded.
    pub open spec fn count_downloaded_for_creator(
        items: Seq<FeedItem>,
        sources: Seq<Source>,
        creator_id: Seq<char>,
    ) -> int
        decreases items.len(),
    {
        if items.len() == 0 {
            0
        } else {
            Self::count_downloaded_for_creator(items.drop_last(), sources, creator_id)
                + if Self::source_creator(sources, items.last().source_id@) == Some(creator_id)
                && items.last().download_status == DownloadStatus::Downloaded {
                1int
            } else {
                0int
            }
        }
    }

    /// Per-creator totals over feed items: total, downloaded and the
    /// remainder.
    pub fn get_feed_item_counts(&self, creator_id: &str) -> (r: FeedItemCounts)
        requires
            self.feed_items@.len() <= i32::MAX,
        ensures
            r.total == Self::count_for_creator(self.feed_items@, self.sources@, creator_id@),
            r.downloaded == Self::count_downloaded_for_creator(
                self.feed_items@,
                self.sources@,
                creator_id@,
            ),
            r.not_downloaded == r.total - r.downloaded,
    {
        let n = self.feed_items.len();
        let mut total: i32 = 0;
        let mut downloaded: i32 = 0;
        let mut i: usize = 0;
        proof {
            assert(self.feed_items@.take(0) =~= Seq::<FeedItem>::empty());
        }
        while i < n
            invariant
                n == self.feed_items@.len(),
                n <= i32::MAX,
                i <= n,
                total == Self::count_for_creator(
                    self.feed_items@.take(i as int),
                    self.sources@,
                    creator_id@,
                ),
                downloaded == Self::count_downloaded_for_creator(
                    self.feed_items@.take(i as int),
                    self.sources@,
                    creator_id@,
                ),
                0 <= downloaded <= total <= i,
            decreases n - i,
        {
            proof {
                let t = self.feed_items@.take(i + 1);
                assert(t.drop_last() =~= self.feed_items@.take(i as int));
                assert(t.last() == self.feed_items@[i as int]);
            }
            let item = &self.feed_items[i];
            let owned = match self.creator_of_source(item.source_id.as_str()) {
                Some(c) => str_eq(c.as_str(), creator_id),
                None => false,
            };
            if owned {
                total = total + 1;
                let is_downloaded = match item.download_status {
                    DownloadStatus::Downloaded => true,
                    _ => false,
                };
                if is_downloaded {
                    downloaded = downloaded + 1;
                }
            }
            i += 1;
        }
        proof {
            assert(self.feed_items@.take(n as int) =~= self.feed_items@);
        }
        FeedItemCounts { total, downloaded, not_downloaded: total - downloaded }
    }

    /// The feed items of a source, in table order.
    pub open spec fn items_for_source(items: Seq<FeedItem>, source_id: Seq<char>) -> Seq<FeedItem>
        decreases items.len(),
    {
        if items.len() == 0 {
            Seq::empty()
        } else if items.last().source_id@ == source_id {
            Self::items_for_source(items.drop_last(), source_id).push(items.last())
        } else {
            Self::items_for_source(items.drop_last(), source_id)
        }
    }

    /// The feed items belonging to a source, in table order.
    pub fn get_feed_items_by_source(&self, source_id: &str) -> (r: Vec<FeedItem>)
        ensures
            r@ == Self::items_for_source(self.feed_items@, source_id@),
    {
        let n = self.feed_items.len();
        let mut r: Vec<FeedItem> = Vec::new();
        let mut i: usize = 0;
        proof {
            assert(self.feed_items@.take(0) =~= Seq::<FeedItem>::empty());
            assert(r@ =~= Self::items_for_source(self.feed_items@.take(0), source_id@));
        }
        while i < n
            invariant
                n == self.feed_items@.len(),
                i <= n,
                r@ == Self::items_for_source(self.feed_items@.take(i as int), source_id@),
            decreases n - i,
        {
            proof {
                let t = self.feed_items@.take(i + 1);
                assert(t.drop_last() =~= self.feed_items@.take(i as int));
                assert(t.last() == self.feed_items@[i as int]);
            }
            if str_eq(self.feed_items[i].source_id.as_str(), source_id) {
                r.push(self.feed_items[i].clone());
            }
            i += 1;
        }
        proof {
            assert(self.feed_items@.take(n as int) =~= self.feed_items@);
        }
        r
    }

    /// Plans a manual import: resolves the creator and the library
    /// root, and derives the destination path the file is to be copied
    /// to. The copy itself and the file's size are the caller's work;
    /// the copied file then enters the warehouse through
    /// [`Store::create_warehouse_item`] with manual provenance.
    pub fn plan_import(
        &self,
        creator_id: &str,
        title: &str,
        platform: Option<&str>,
        extension: &str,
    ) -> (r: Result<String, CoreError>)
        requires
            self.wf(),
        ensures
            (r is Ok) == (self.settings is Some && self.has_creator(creator_id@)),
            r is Ok ==> exists|c: int|
                0 <= c < self.creators@.len() && (#[trigger] self.creators@[c]).id@ == creator_id@
                    && (r->Ok_0)@ == crate::sanitize::import_path_spec(
                    self.settings->0@.library_path,
                    self.creators@[c].name@,
                    (match platform {
                        Some(p) => p@,
                        None => "other"@,
                    }),
                    title@,
                    extension@,
                ),
            r is Err ==> r->Err_0 == CoreError::ItemOrSourceNotFound,
    {
        let creator = match self.get_creator(creator_id) {
            Some(creator) => creator,
            None => {
                return Err(CoreError::ItemOrSourceNotFound);
            },
        };
        let settings = match self.get_app_settings() {
            Some(settings) => settings,
            None => {
                return Err(CoreError::ItemOrSourceNotFound);
            },
        };
        let platform_part = match platform {
            Some(p) => p,
            None => "other",
        };
        Ok(
            crate::sanitize::build_import_path(
                settings.library_path.as_str(),
                creator.name.as_str(),
                platform_part,
                title,
                extension,
            ),
        )
    }

    /// The creator with this identifier, if any.
    pub fn get_creator(&self, id: &str) -> (r: Option<Creator>)
        requires
            self.wf(),
        ensures
            (r is Some) == self.has_creator(id@),
            r is Some ==> exists|i: int|
                0 <= i < self.creators@.len() && self.creators@[i] == r->0 && (r->0).id@ == id@,
    {
        let n = self.creators.len();
        let mut i: usize = 0;
        while i < n
            invariant
                n == self.creators@.len(),
                i <= n,
                forall|j: int| 0 <= j < i ==> self.creators@[j].id@ != id@,
            decreases n - i,
        {
            if str_eq(self.creators[i].id.as_str(), id) {
                return Some(self.creators[i].clone());
            }
            i += 1;
        }
        None
    }
}

} // verus!
