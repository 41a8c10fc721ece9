//! Application settings and the stored connection profiles.

use crate::models::connection::ConnectionConfig;
use crate::models::terminal::TerminalConfig;
use crate::sequences::{
    first_hit,
    first_hit_in_range,
    first_match,
    remove_marked,
    unmarked_is_filter,
};
use crate::stamp::Timestamp;
use vstd::prelude::*;

verus! {

/// Colour scheme of the application.
#[derive(Debug, Clone, Copy, PartialEq, Eq, Structural)]
pub enum AppTheme {
    Light,
    Dark,
    System,
}

/// How much is logged.
#[derive(Debug, Clone, Copy, PartialEq, Eq, Structural)]
pub enum LogLevel {
    Error,
    Warn,
    Info,
    Debug,
    Trace,
}

/// Placement and look of the main window.
#[derive(Debug, Clone, Copy)]
pub struct WindowConfig {
    pub width: u32,
    pub height: u32,
    pub x: Option<i32>,
    pub y: Option<i32>,
    pub maximized: bool,
    pub always_on_top: bool,
    pub theme: AppTheme,
}

impl WindowConfig {
    /// The settings that a fresh installation starts with.
    pub open spec fn is_default(&self) -> bool {
        &&& self.width == 1200
        &&& self.height == 800
        &&& self.x.is_none()
        &&& self.y.is_none()
        &&& !self.maximized
        &&& !self.always_on_top
        &&& self.theme == AppTheme::System
    }
}

impl Default for WindowConfig {
    fn default() -> (r: Self)
        ensures
            r.is_default(),
    {
        WindowConfig {
            width: 1200,
            height: 800,
            x: None,
            y: None,
            maximized: false,
            always_on_top: false,
            theme: AppTheme::System,
        }
    }
}

/// What is logged and how long it is kept.
#[derive(Debug, Clone, Copy)]
pub struct LoggingConfig {
    pub enabled: bool,
    pub auto_save: bool,
    pub max_file_size_mb: u64,
    pub retention_days: u32,
    pub log_level: LogLevel,
    pub mask_sensitive_data: bool,
}

impl LoggingConfig {
    /// The settings that a fresh installation starts with.
    pub open spec fn is_default(&self) -> bool {
        &&& self.enabled
        &&& self.auto_save
        &&& self.max_file_size_mb == 100
        &&& self.retention_days == 30
        &&& self.log_level == LogLevel::Info
        &&& self.mask_sensitive_data
    }
}

impl Default for LoggingConfig {
    fn default() -> (r: Self)
        ensures
            r.is_default(),
    {
        LoggingConfig {
            enabled: true,
            auto_save: true,
            max_file_size_mb: 100,
            retention_days: 30,
            log_level: LogLevel::Info,
            mask_sensitive_data: true,
        }
    }
}

/// Safety switches of the application.
#[derive(Debug, Clone, Copy)]
pub struct SecurityConfig {
    pub encrypt_passwords: bool,
    pub require_confirmation_for_destructive_actions: bool,
    pub auto_lock_timeout_minutes: Option<u32>,
}

impl SecurityConfig {
    /// The settings that a fresh installation starts with.
    pub open spec fn is_default(&self) -> bool {
        &&& self.encrypt_passwords
        &&& self.require_confirmation_for_destructive_actions
        &&& self.auto_lock_timeout_minutes.is_none()
    }
}

impl Default for SecurityConfig {
    fn default() -> (r: Self)
        ensures
            r.is_default(),
    {
        SecurityConfig {
            encrypt_passwords: true,
            require_confirmation_for_destructive_actions: true,
            auto_lock_timeout_minutes: None,
        }
    }
}

/// All settings of the application.
#[derive(Debug, Clone)]
pub struct AppConfig {
    pub version: String,
    pub terminal: TerminalConfig,
    pub window: WindowConfig,
    pub logging: LoggingConfig,
    pub security: SecurityConfig,
    pub last_updated: Timestamp,
}

impl Default for AppConfig {
    fn default() -> (r: Self)
        ensures
            r.version@ == "0.1.0"@,
            r.terminal.is_default(),
            r.window.is_default(),
            r.logging.is_default(),
            r.security.is_default(),
    {
        AppConfig {
            version: String::from_str("0.1.0"),
            terminal: TerminalConfig::default(),
            window: WindowConfig::default(),
            logging: LoggingConfig::default(),
            security: SecurityConfig::default(),
            last_updated: Timestamp::now(),
        }
    }
}

/// The key bindings of the application.
#[derive(Debug, Clone)]
pub struct KeyboardShortcuts {
    pub send_command: String,
    pub clear_terminal: String,
    pub connect: String,
    pub disconnect: String,
    pub new_profile: String,
    pub save_log: String,
    pub toggle_timestamp: String,
    pub previous_command: String,
    pub next_command: String,
}

impl KeyboardShortcuts {
    /// The settings that a fresh installation starts with.
    pub open spec fn is_default(&self) -> bool {
        &&& self.send_command@ == "Enter"@
        &&& self.clear_terminal@ == "Ctrl+L"@
        &&& self.connect@ == "Ctrl+O"@
        &&& self.disconnect@ == "Ctrl+D"@
        &&& self.new_profile@ == "Ctrl+N"@
        &&& self.save_log@ == "Ctrl+S"@
        &&& self.toggle_timestamp@ == "Ctrl+T"@
        &&& self.previous_command@ == "ArrowUp"@
        &&& self.next_command@ == "ArrowDown"@
    }
}

impl Default for KeyboardShortcuts {
    fn default() -> (r: Self)
        ensures
            r.is_default(),
    {
        KeyboardShortcuts {
            send_command: String::from_str("Enter"),
            clear_terminal: String::from_str("Ctrl+L"),
            connect: String::from_str("Ctrl+O"),
            disconnect: String::from_str("Ctrl+D"),
            new_profile: String::from_str("Ctrl+N"),
            save_log: String::from_str("Ctrl+S"),
            toggle_timestamp: String::from_str("Ctrl+T"),
            previous_command: String::from_str("ArrowUp"),
            next_command: String::from_str("ArrowDown"),
        }
    }
}

/// A named set of profiles.
#[derive(Debug, Clone)]
pub struct ProfileGroup {
    pub id: String,
    pub name: String,
    pub description: Option<String>,
    pub profile_ids: Vec<String>,
    pub color: Option<String>,
}

/// The stored profiles, the active one, the ones used last (newest first,
/// ten at most once one is activated) and the groups. A group is found
/// by its identifier; adding a group replaces the one that had the same
/// identifier.
#[derive(Debug, Clone)]
pub struct ProfileManager {
    pub profiles: Vec<ConnectionConfig>,
    pub active_profile_id: Option<String>,
    pub last_used_profiles: Vec<String>,
    pub groups: Vec<ProfileGroup>,
}

impl Default for ProfileManager {
    fn default() -> (r: Self)
        ensures
            r.profiles@.len() == 0,
            r.active_profile_id.is_none(),
            r.last_used_profiles@.len() == 0,
            r.groups@.len() == 0,
            r.well_formed(),
    {
        ProfileManager {
            profiles: Vec::new(),
            active_profile_id: None,
            last_used_profiles: Vec::new(),
            groups: Vec::new(),
        }
    }
}

/// Accepts the profiles with the identifier `id`.
pub open spec fn profile_is(id: Seq<char>) -> spec_fn(ConnectionConfig) -> bool {
    |p: ConnectionConfig| p.id@ == id
}

/// Accepts the profiles with another identifier than `id`.
pub open spec fn profile_is_not(id: Seq<char>) -> spec_fn(ConnectionConfig) -> bool {
    |p: ConnectionConfig| p.id@ != id
}

/// Accepts the texts other than `id`.
pub open spec fn text_is_not(id: Seq<char>) -> spec_fn(String) -> bool {
    |s: String| s@ != id
}

/// Accepts the groups with the identifier `id`.
pub open spec fn group_is(id: Seq<char>) -> spec_fn(ProfileGroup) -> bool {
    |g: ProfileGroup| g.id@ == id
}

/// Accepts the groups with another identifier than `id`.
pub open spec fn group_is_not(id: Seq<char>) -> spec_fn(ProfileGroup) -> bool {
    |g: ProfileGroup| g.id@ != id
}

/// No two groups share an identifier.
pub open spec fn distinct_group_ids(groups: Seq<ProfileGroup>) -> bool {
    forall|i: int, j: int|
        0 <= i < j < groups.len() ==> (#[trigger] groups[i]).id@ != (#[trigger] groups[j]).id@
}

/// The groups after `group` was added: it stands in the place of every group
/// that had its identifier.
pub open spec fn groups_with(groups: Seq<ProfileGroup>, group: ProfileGroup) -> Seq<ProfileGroup> {
    groups.filter(group_is_not(group.id@)).push(group)
}

/// The groups after the ones with the identifier `id` were removed.
pub open spec fn groups_without(groups: Seq<ProfileGroup>, id: Seq<char>) -> Seq<ProfileGroup> {
    groups.filter(group_is_not(id))
}

/// Filtering groups leaves their identifiers distinct.
pub proof fn filter_keeps_distinct(groups: Seq<ProfileGroup>, keep: spec_fn(ProfileGroup) -> bool)
    requires
        distinct_group_ids(groups),
    ensures
        distinct_group_ids(groups.filter(keep)),
    decreases groups.len(),
{
    reveal(Seq::filter);
    if groups.len() > 0 {
        let rest = groups.drop_last();
        assert(distinct_group_ids(rest)) by {
            assert forall|i: int, j: int| 0 <= i < j < rest.len() implies (#[trigger] rest[i]).id@
                != (#[trigger] rest[j]).id@ by {
                assert(rest[i] == groups[i] && rest[j] == groups[j]);
            }
        }
        filter_keeps_distinct(rest, keep);
        let kept = rest.filter(keep);
        let out = groups.filter(keep);
        if keep(groups.last()) {
            assert(out == kept.push(groups.last()));
            assert forall|i: int, j: int| 0 <= i < j < out.len() implies (#[trigger] out[i]).id@
                != (#[trigger] out[j]).id@ by {
                if j < kept.len() {
                    assert(out[i] == kept[i] && out[j] == kept[j]);
                } else {
                    assert(kept.contains(kept[i]));
                    rest.lemma_filter_contains_rev(keep, kept[i]);
                    let k = choose|k: int| 0 <= k < rest.len() && rest[k] == kept[i];
                    assert(groups[k] == kept[i]);
                    assert(groups[groups.len() - 1] == out[j]);
                }
            }
        }
    }
}

/// Among groups with distinct identifiers, looking one up by its identifier
/// finds the one group that has it, wherever it stands, and finds nothing
/// exactly where no group has it.
pub proof fn group_lookup_is_membership(groups: Seq<ProfileGroup>, id: Seq<char>)
    requires
        distinct_group_ids(groups),
    ensures
        first_match(groups, group_is(id)) matches Some(g) ==> groups.contains(g) && g.id@ == id,
        first_match(groups, group_is(id)).is_none() ==> forall|k: int|
            0 <= k < groups.len() ==> (#[trigger] groups[k]).id@ != id,
        forall|k: int|
            0 <= k < groups.len() && (#[trigger] groups[k]).id@ == id ==> first_match(
                groups,
                group_is(id),
            ) == Some(groups[k]),
{
    first_hit_in_range(groups, group_is(id), 0);
    match first_hit(groups, group_is(id), 0) {
        Some(i) => {
            assert(groups[i].id@ == id);
            assert(groups.contains(groups[i]));
            assert forall|k: int| 0 <= k < groups.len() && (#[trigger] groups[k]).id@
                == id implies first_match(groups, group_is(id)) == Some(groups[k]) by {
                if k != i {
                    if k < i {
                        assert(groups[k].id@ != groups[i].id@);
                    } else {
                        assert(groups[i].id@ != groups[k].id@);
                    }
                }
            }
        },
        None => {
            assert forall|k: int| 0 <= k < groups.len() implies (#[trigger] groups[k]).id@
                != id by {
                assert(!group_is(id)(groups[k]));
            }
        },
    }
}

/// The groups behave as a map from identifiers to groups when one is added:
/// identifiers stay distinct, the added group is found by its identifier,
/// and every other identifier finds what it found before.
pub proof fn groups_after_add(before: Seq<ProfileGroup>, group: ProfileGroup, id: Seq<char>)
    requires
        distinct_group_ids(before),
    ensures
        distinct_group_ids(groups_with(before, group)),
        first_match(groups_with(before, group), group_is(group.id@)) == Some(group),
        id != group.id@ ==> first_match(groups_with(before, group), group_is(id)) == first_match(
            before,
            group_is(id),
        ),
{
    let keep = group_is_not(group.id@);
    let kept = before.filter(keep);
    let after = groups_with(before, group);
    filter_keeps_distinct(before, keep);
    assert(distinct_group_ids(after)) by {
        assert forall|i: int, j: int| 0 <= i < j < after.len() implies (#[trigger] after[i]).id@
            != (#[trigger] after[j]).id@ by {
            if j < kept.len() {
                assert(after[i] == kept[i] && after[j] == kept[j]);
            } else {
                before.lemma_filter_pred(keep, i);
                assert(after[i] == kept[i]);
                assert(after[j] == group);
            }
        }
    }
    group_lookup_is_membership(after, group.id@);
    assert(after[after.len() - 1] == group);
    if id != group.id@ {
        assert(after.drop_last() =~= kept);
        others_are_kept(before, keep, after, id);
    }
}

/// The groups behave as a map from identifiers to groups when one is
/// removed: identifiers stay distinct, the removed identifier finds nothing,
/// and every other identifier finds what it found before.
pub proof fn groups_after_remove(before: Seq<ProfileGroup>, removed: Seq<char>, id: Seq<char>)
    requires
        distinct_group_ids(before),
    ensures
        distinct_group_ids(groups_without(before, removed)),
        first_match(groups_without(before, removed), group_is(removed)).is_none(),
        id != removed ==> first_match(groups_without(before, removed), group_is(id))
            == first_match(before, group_is(id)),
{
    let keep = group_is_not(removed);
    let after = groups_without(before, removed);
    filter_keeps_distinct(before, keep);
    group_lookup_is_membership(after, removed);
    if first_match(after, group_is(removed)).is_some() {
        let g = first_match(after, group_is(removed)).unwrap();
        let k = choose|k: int| 0 <= k < after.len() && after[k] == g;
        before.lemma_filter_pred(keep, k);
    }
    if id != removed {
        others_are_kept(before, keep, after, id);
    }
}

/// Where `after` holds the groups of `before` that `keep` accepts, and
/// perhaps one more with another identifier than `id`, and `keep` accepts
/// every group with the identifier `id`, that identifier finds in `after`
/// what it finds in `before`.
proof fn others_are_kept(
    before: Seq<ProfileGroup>,
    keep: spec_fn(ProfileGroup) -> bool,
    after: Seq<ProfileGroup>,
    id: Seq<char>,
)
    requires
        distinct_group_ids(before),
        distinct_group_ids(after),
        forall|g: ProfileGroup| g.id@ == id ==> keep(g),
        after == before.filter(keep) || (after.len() > 0 && after.drop_last() == before.filter(keep)
            && after.last().id@ != id),
    ensures
        first_match(after, group_is(id)) == first_match(before, group_is(id)),
{
    let kept = before.filter(keep);
    group_lookup_is_membership(before, id);
    group_lookup_is_membership(after, id);
    match first_match(before, group_is(id)) {
        Some(g) => {
            let k = choose|k: int| 0 <= k < before.len() && before[k] == g;
            before.lemma_filter_contains(keep, k);
            let j = choose|j: int| 0 <= j < kept.len() && kept[j] == g;
            if after != kept {
                assert(after.drop_last()[j] == after[j]);
            }
            assert(after[j] == g);
        },
        None => {
            if first_match(after, group_is(id)).is_some() {
                let g = first_match(after, group_is(id)).unwrap();
                let j = choose|j: int| 0 <= j < after.len() && after[j] == g;
                if after != kept {
                    if j < after.len() - 1 {
                        assert(after.drop_last()[j] == after[j]);
                    }
                }
                assert(kept[j] == g);
                assert(kept.contains(g));
                before.lemma_filter_contains_rev(keep, g);
                let k = choose|k: int| 0 <= k < before.len() && before[k] == g;
                assert(before[k].id@ == id);
            }
        },
    }
}

/// The profiles that the identifiers name, in the order of the
/// identifiers; an identifier that names no profile is passed over.
pub open spec fn resolve(ids: Seq<String>, profiles: Seq<ConnectionConfig>) -> Seq<
    ConnectionConfig,
>
    decreases ids.len(),
{
    if ids.len() == 0 {
        Seq::empty()
    } else {
        let rest = resolve(ids.drop_last(), profiles);
        match first_match(profiles, profile_is(ids.last()@)) {
            Some(p) => rest.push(p),
            None => rest,
        }
    }
}

/// The first `limit` elements, or all where there are fewer.
pub open spec fn at_most<A>(s: Seq<A>, limit: int) -> Seq<A> {
    if s.len() > limit {
        s.subrange(0, limit)
    } else {
        s
    }
}

/// Once a profile was used, the identifiers used last are ten at most, and
/// the one used last stands in front.
pub proof fn used_after_is_short(manager: ProfileManager, id: String)
    ensures
        1 <= manager.used_after(id).len() <= 10,
        manager.used_after(id)[0] == id,
{
    let listed = manager.last_used_profiles@.filter(text_is_not(id@)).insert(0, id);
    assert(listed.len() >= 1);
    assert(listed[0] == id);
}

/// Removes the texts equal to `id` from `texts`.
fn remove_text(texts: &mut Vec<String>, id: &String)
    ensures
        final(texts)@ == old(texts)@.filter(text_is_not(id@)),
{
    let n = texts.len();
    let mut marks: Vec<bool> = Vec::new();
    let mut i: usize = 0;
    while i < n
        invariant
            i <= n,
            n == texts@.len(),
            marks@.len() == i,
            forall|k: int| 0 <= k < i ==> marks@[k] == (#[trigger] texts@[k]@ == id@),
        decreases n - i,
    {
        marks.push(texts[i] == *id);
        i = i + 1;
    }
    proof {
        unmarked_is_filter(texts@, marks@, text_is_not(id@));
    }
    remove_marked(texts, &marks);
}

impl ProfileManager {
    /// The groups are keyed by their identifiers: no two share one.
    pub open spec fn well_formed(&self) -> bool {
        distinct_group_ids(self.groups@)
    }

    /// Nothing but the stored profiles differs between `self` and `other`.
    pub open spec fn same_but_profiles(&self, other: &ProfileManager) -> bool {
        &&& self.active_profile_id == other.active_profile_id
        &&& self.last_used_profiles == other.last_used_profiles
        &&& self.groups == other.groups
    }

    /// Where the first profile with the identifier `id` stands.
    pub open spec fn profile_index(&self, id: Seq<char>) -> Option<int> {
        first_hit(self.profiles@, profile_is(id), 0)
    }

    /// The first profile with the identifier `id`.
    pub open spec fn profile(&self, id: Seq<char>) -> Option<ConnectionConfig> {
        first_match(self.profiles@, profile_is(id))
    }

    /// The first group with the identifier `id`.
    pub open spec fn group(&self, id: Seq<char>) -> Option<ProfileGroup> {
        first_match(self.groups@, group_is(id))
    }

    /// The profiles of the group `id`, in the order of the group; none where
    /// there is no such group.
    pub open spec fn group_profiles(&self, id: Seq<char>) -> Seq<ConnectionConfig> {
        match self.group(id) {
            Some(g) => resolve(g.profile_ids@, self.profiles@),
            None => Seq::empty(),
        }
    }

    /// The active identifier after the profiles named `id` were removed:
    /// none if that was the active one.
    pub open spec fn active_after_removal(&self, id: Seq<char>) -> Option<String> {
        match self.active_profile_id {
            Some(active) => if active@ == id {
                None
            } else {
                Some(active)
            },
            None => None,
        }
    }

    /// The identifiers used last after `id` was used: `id` first, then the
    /// others as they stood, ten in all at most.
    pub open spec fn used_after(&self, id: String) -> Seq<String> {
        at_most(self.last_used_profiles@.filter(text_is_not(id@)).insert(0, id), 10)
    }

    /// The active profile: the first profile with the active identifier.
    pub open spec fn active_profile(&self) -> Option<ConnectionConfig> {
        match self.active_profile_id {
            Some(id) => self.profile(id@),
            None => None,
        }
    }

    /// Stores a profile after the others.
    pub fn add_profile(&mut self, profile: ConnectionConfig)
        ensures
            final(self).profiles@ == old(self).profiles@.push(profile),
            final(self).active_profile_id == old(self).active_profile_id,
            final(self).last_used_profiles == old(self).last_used_profiles,
            final(self).groups == old(self).groups,
    {
        self.profiles.push(profile);
    }

    /// Where the first profile with the identifier `id` stands: at an index
    /// before which no profile has that identifier. Nowhere, if no profile
    /// has it.
    pub fn profile_position(&self, id: &String) -> (r: Option<usize>)
        ensures
            r matches Some(i) ==> i < self.profiles@.len() && first_hit(
                self.profiles@,
                profile_is(id@),
                0,
            ) == Some(i as int) && self.profiles@[i as int].id@ == id@ && forall|k: int|
                0 <= k < i ==> (#[trigger] self.profiles@[k]).id@ != id@,
            r.is_none() ==> first_hit(self.profiles@, profile_is(id@), 0).is_none() && forall|
                k: int,
            |
                0 <= k < self.profiles@.len() ==> (#[trigger] self.profiles@[k]).id@ != id@,
    {
        proof {
            first_hit_in_range(self.profiles@, profile_is(id@), 0);
        }
        let n = self.profiles.len();
        let mut i: usize = 0;
        while i < n
            invariant
                i <= n,
                n == self.profiles@.len(),
                first_hit(self.profiles@, profile_is(id@), 0) == first_hit(
                    self.profiles@,
                    profile_is(id@),
                    i as int,
                ),
                forall|k: int| 0 <= k < i ==> (#[trigger] self.profiles@[k]).id@ != id@,
            decreases n - i,
        {
            if self.profiles[i].id == *id {
                return Some(i);
            }
            i = i + 1;
        }
        None
    }

    /// Removes every profile with the identifier `id`, from the stored
    /// profiles and from the ones used last, and clears the active profile
    /// if it was this one. True when a profile was removed.
    pub fn remove_profile(&mut self, profile_id: &str) -> (r: bool)
        ensures
            final(self).profiles@ == old(self).profiles@.filter(profile_is_not(profile_id@)),
            final(self).last_used_profiles@ == old(self).last_used_profiles@.filter(
                text_is_not(profile_id@),
            ),
            final(self).active_profile_id == old(self).active_after_removal(profile_id@),
            final(self).groups == old(self).groups,
            r == (final(self).profiles@.len() < old(self).profiles@.len()),
    {
        let id = String::from_str(profile_id);
        let stored_before = self.profiles.len();
        let mut marks: Vec<bool> = Vec::new();
        let mut i: usize = 0;
        while i < stored_before
            invariant
                i <= stored_before,
                stored_before == self.profiles@.len(),
                marks@.len() == i,
                id@ == profile_id@,
                forall|k: int|
                    0 <= k < i ==> marks@[k] == ((#[trigger] self.profiles@[k]).id@ == id@),
            decreases stored_before - i,
        {
            marks.push(self.profiles[i].id == id);
            i = i + 1;
        }
        proof {
            unmarked_is_filter(self.profiles@, marks@, profile_is_not(profile_id@));
        }
        remove_marked(&mut self.profiles, &marks);
        let clear = match &self.active_profile_id {
            Some(active) => *active == id,
            None => false,
        };
        if clear {
            self.active_profile_id = None;
        }
        remove_text(&mut self.last_used_profiles, &id);
        self.profiles.len() < stored_before
    }

    /// The first profile with the identifier `id`.
    pub fn get_profile(&self, profile_id: &str) -> (r: Option<&ConnectionConfig>)
        ensures
            r.is_some() == self.profile(profile_id@).is_some(),
            r.is_some() ==> *r.unwrap() == self.profile(profile_id@).unwrap(),
    {
        let id = String::from_str(profile_id);
        match self.profile_position(&id) {
            Some(i) => Some(&self.profiles[i]),
            None => None,
        }
    }

    /// The first profile with the identifier `id`, to be changed in place.
    pub fn get_profile_mut(&mut self, profile_id: &str) -> (r: Option<&mut ConnectionConfig>)
        ensures
            r.is_some() == old(self).profile(profile_id@).is_some(),
            final(self).active_profile_id == old(self).active_profile_id,
            final(self).last_used_profiles == old(self).last_used_profiles,
            final(self).groups == old(self).groups,
            r matches Some(p) ==> *p == old(self).profile(profile_id@).unwrap() && final(
                self
            ).profiles@ == old(self).profiles@.update(
                first_hit(old(self).profiles@, profile_is(profile_id@), 0).unwrap(),
                *final(p),
            ),
            r.is_none() ==> final(self).profiles@ == old(self).profiles@,
    {
        let id = String::from_str(profile_id);
        match self.profile_position(&id) {
            Some(i) => Some(&mut self.profiles[i]),
            None => None,
        }
    }

    /// Makes `profile_id` the active profile and the newest of the ones
    /// used last, of which the ten newest are kept.
    pub fn set_active_profile(&mut self, profile_id: String)
        ensures
            final(self).active_profile_id == Some(profile_id),
            final(self).last_used_profiles@ == old(self).used_after(profile_id),
            final(self).profiles == old(self).profiles,
            final(self).groups == old(self).groups,
    {
        remove_text(&mut self.last_used_profiles, &profile_id);
        self.last_used_profiles.insert(0, profile_id.clone());
        if self.last_used_profiles.len() > 10 {
            self.last_used_profiles.truncate(10);
        }
        self.active_profile_id = Some(profile_id);
    }

    /// The active profile, if one is active and still stored.
    pub fn get_active_profile(&self) -> (r: Option<&ConnectionConfig>)
        ensures
            r.is_some() == self.active_profile().is_some(),
            r.is_some() ==> *r.unwrap() == self.active_profile().unwrap(),
    {
        match &self.active_profile_id {
            Some(id) => match self.profile_position(id) {
                Some(i) => Some(&self.profiles[i]),
                None => None,
            },
            None => None,
        }
    }

    /// Where the first group with the identifier `id` stands.
    pub fn group_position(&self, id: &String) -> (r: Option<usize>)
        ensures
            r matches Some(i) ==> i < self.groups@.len() && first_hit(
                self.groups@,
                group_is(id@),
                0,
            ) == Some(i as int),
            r.is_none() ==> first_hit(self.groups@, group_is(id@), 0).is_none(),
    {
        let n = self.groups.len();
        let mut i: usize = 0;
        while i < n
            invariant
                i <= n,
                n == self.groups@.len(),
                first_hit(self.groups@, group_is(id@), 0) == first_hit(
                    self.groups@,
                    group_is(id@),
                    i as int,
                ),
            decreases n - i,
        {
            if self.groups[i].id == *id {
                return Some(i);
            }
            i = i + 1;
        }
        None
    }

    /// The profiles of the group `group_id`, in the order in which the group
    /// names them. An identifier of the group that names no stored profile
    /// is passed over; a group that does not exist has no profiles.
    pub fn get_profiles_by_group(&self, group_id: &str) -> (r: Vec<&ConnectionConfig>)
        ensures
            r@.map_values(|p: &ConnectionConfig| *p) == self.group_profiles(group_id@),
    {
        let id = String::from_str(group_id);
        let mut found: Vec<&ConnectionConfig> = Vec::new();
        assert(found@.map_values(|p: &ConnectionConfig| *p) =~= Seq::<ConnectionConfig>::empty());
        match self.group_position(&id) {
            Some(g) => {
                let group = &self.groups[g];
                let n = group.profile_ids.len();
                let mut i: usize = 0;
                assert(group.profile_ids@.subrange(0, 0) =~= Seq::<String>::empty());
                while i < n
                    invariant
                        i <= n,
                        n == group.profile_ids@.len(),
                        found@.map_values(|p: &ConnectionConfig| *p) == resolve(
                            group.profile_ids@.subrange(0, i as int),
                            self.profiles@,
                        ),
                    decreases n - i,
                {
                    let ghost before = found@.map_values(|p: &ConnectionConfig| *p);
                    proof {
                        assert(group.profile_ids@.subrange(0, i + 1).drop_last()
                            =~= group.profile_ids@.subrange(0, i as int));
                    }
                    match self.profile_position(&group.profile_ids[i]) {
                        Some(k) => {
                            found.push(&self.profiles[k]);
                            assert(found@.map_values(|p: &ConnectionConfig| *p) =~= before.push(
                                self.profiles@[k as int],
                            ));
                        },
                        None => {},
                    }
                    i = i + 1;
                }
                assert(group.profile_ids@.subrange(0, n as int) =~= group.profile_ids@);
                found
            },
            None => found,
        }
    }

    /// Stores a group in the place of every group that had its identifier,
    /// under which it is then found.
    pub fn add_group(&mut self, group: ProfileGroup)
        ensures
            final(self).groups@ == groups_with(old(self).groups@, group),
            old(self).well_formed() ==> final(self).well_formed() && final(self).group(group.id@)
                == Some(group),
            final(self).profiles == old(self).profiles,
            final(self).active_profile_id == old(self).active_profile_id,
            final(self).last_used_profiles == old(self).last_used_profiles,
    {
        proof {
            if self.well_formed() {
                groups_after_add(self.groups@, group, group.id@);
            }
        }
        self.drop_groups(&group.id);
        self.groups.push(group);
    }

    /// Removes the groups with the identifier `id`.
    fn drop_groups(&mut self, id: &String)
        ensures
            final(self).groups@ == old(self).groups@.filter(group_is_not(id@)),
            final(self).profiles == old(self).profiles,
            final(self).active_profile_id == old(self).active_profile_id,
            final(self).last_used_profiles == old(self).last_used_profiles,
    {
        let n = self.groups.len();
        let mut marks: Vec<bool> = Vec::new();
        let mut i: usize = 0;
        while i < n
            invariant
                i <= n,
                n == self.groups@.len(),
                marks@.len() == i,
                forall|k: int| 0 <= k < i ==> marks@[k] == ((#[trigger] self.groups@[k]).id@ == id@),
            decreases n - i,
        {
            marks.push(self.groups[i].id == *id);
            i = i + 1;
        }
        proof {
            unmarked_is_filter(self.groups@, marks@, group_is_not(id@));
        }
        remove_marked(&mut self.groups, &marks);
    }

    /// Removes the group with the identifier `group_id`. True when there was
    /// one.
    pub fn remove_group(&mut self, group_id: &str) -> (r: bool)
        ensures
            final(self).groups@ == groups_without(old(self).groups@, group_id@),
            r == old(self).group(group_id@).is_some(),
            old(self).well_formed() ==> final(self).well_formed() && final(self).group(
                group_id@,
            ).is_none(),
            final(self).profiles == old(self).profiles,
            final(self).active_profile_id == old(self).active_profile_id,
            final(self).last_used_profiles == old(self).last_used_profiles,
    {
        let id = String::from_str(group_id);
        proof {
            if self.well_formed() {
                groups_after_remove(self.groups@, group_id@, group_id@);
            }
        }
        let existed = self.group_position(&id).is_some();
        self.drop_groups(&id);
        existed
    }
}

} // verus!
