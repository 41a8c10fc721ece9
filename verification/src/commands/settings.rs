//! Managing and checking the stored profiles.

use crate::commands::connection::ApiResponse;
use crate::models::connection::{ConnectionConfig, ConnectionType};
use crate::models::settings::{
    at_most,
    profile_is,
    profile_is_not,
    resolve,
    text_is_not,
    ProfileManager,
};
use crate::sequences::first_hit;
use crate::stamp::{fresh_id, Timestamp};
use crate::text::{decimal, decimal_string, is_blank, is_blank_text};
use vstd::prelude::*;

verus! {

/// What is wrong with the name of a profile.
pub open spec fn name_errors(profile: ConnectionConfig) -> Seq<Seq<char>> {
    if is_blank_text(profile.name@) {
        seq!["プロファイル名を入力してください"@]
    } else {
        Seq::empty()
    }
}

/// What is wrong with the settings that the tag of a profile selects.
pub open spec fn payload_errors(profile: ConnectionConfig) -> Seq<Seq<char>> {
    match profile.connection_type {
        ConnectionType::Serial => match profile.serial_config {
            Some(serial) => (if is_blank_text(serial.port@) {
                seq!["シリアルポートを選択してください"@]
            } else {
                Seq::empty()
            }) + (if serial.baud_rate == 0 {
                seq!["有効なボーレートを入力してください"@]
            } else {
                Seq::empty()
            }),
            None => seq!["シリアル設定が見つかりません"@],
        },
        ConnectionType::Tcp => match profile.tcp_config {
            Some(tcp) => (if is_blank_text(tcp.host@) {
                seq!["ホストアドレスを入力してください"@]
            } else {
                Seq::empty()
            }) + (if tcp.port == 0 {
                seq!["有効なポート番号（1-65535）を入力してください"@]
            } else {
                Seq::empty()
            }),
            None => seq!["TCP設定が見つかりません"@],
        },
    }
}

/// Everything that is wrong with a profile: first with its name, then with
/// its settings.
pub open spec fn validation_errors(profile: ConnectionConfig) -> Seq<Seq<char>> {
    name_errors(profile) + payload_errors(profile)
}

/// The texts of a list of strings.
pub open spec fn texts_of(list: Seq<String>) -> Seq<Seq<char>> {
    list.map_values(|s: String| s@)
}

/// Checks a profile: a name that is not blank, the settings that its tag
/// selects, a port or host that is not blank, and a baud rate or port number
/// that is not zero. The answer lists what is wrong, and is empty for a
/// profile that can be used.
pub fn validate_profile(profile: &ConnectionConfig) -> (r: ApiResponse<Vec<String>>)
    ensures
        r.is_success(),
        texts_of(r.data.unwrap()@) == validation_errors(*profile),
{
    let mut errors: Vec<String> = Vec::new();
    if is_blank(profile.name.as_str()) {
        errors.push(String::from_str("プロファイル名を入力してください"));
    }
    assert(texts_of(errors@) =~= name_errors(*profile));
    match profile.connection_type {
        ConnectionType::Serial => match &profile.serial_config {
            Some(serial_config) => {
                if is_blank(serial_config.port.as_str()) {
                    errors.push(String::from_str("シリアルポートを選択してください"));
                }
                if serial_config.baud_rate == 0 {
                    errors.push(String::from_str("有効なボーレートを入力してください"));
                }
            },
            None => {
                errors.push(String::from_str("シリアル設定が見つかりません"));
            },
        },
        ConnectionType::Tcp => match &profile.tcp_config {
            Some(tcp_config) => {
                if is_blank(tcp_config.host.as_str()) {
                    errors.push(String::from_str("ホストアドレスを入力してください"));
                }
                if tcp_config.port == 0 {
                    errors.push(
                        String::from_str("有効なポート番号（1-65535）を入力してください"),
                    );
                }
            },
            None => {
                errors.push(String::from_str("TCP設定が見つかりません"));
            },
        },
    }
    assert(texts_of(errors@) =~= validation_errors(*profile));
    ApiResponse::success(errors)
}

/// Puts `profile` in the place of the stored profile with its identifier.
/// Without such a profile nothing changes and the answer is an error.
pub fn update_profile(profile: ConnectionConfig, manager: &mut ProfileManager) -> (r: ApiResponse<
    String,
>)
    ensures
        old(manager).same_but_profiles(final(manager)),
        (match old(manager).profile_index(profile.id@) {
            Some(index) => {
                &&& final(manager).profiles@ == old(manager).profiles@.update(index, profile)
                &&& r.is_success_with_text("Profile updated"@)
            },
            None => {
                &&& final(manager).profiles@ == old(manager).profiles@
                &&& r.is_error_with("Profile not found"@)
            },
        }),
{
    match manager.get_profile_mut(profile.id.as_str()) {
        Some(existing) => {
            *existing = profile;
            ApiResponse::success(String::from_str("Profile updated"))
        },
        None => ApiResponse::error(String::from_str("Profile not found")),
    }
}

/// Deletes the stored profiles with the identifier `profile_id`; see
/// `ProfileManager::remove_profile`. Where there was none the answer is an
/// error.
pub fn delete_profile(profile_id: &str, manager: &mut ProfileManager) -> (r: ApiResponse<String>)
    ensures
        final(manager).profiles@ == old(manager).profiles@.filter(profile_is_not(profile_id@)),
        final(manager).last_used_profiles@ == old(manager).last_used_profiles@.filter(
            text_is_not(profile_id@),
        ),
        final(manager).active_profile_id == old(manager).active_after_removal(profile_id@),
        final(manager).groups == old(manager).groups,
        (if final(manager).profiles@.len() < old(manager).profiles@.len() {
            r.is_success_with_text("Profile deleted"@)
        } else {
            r.is_error_with("Profile not found"@)
        }),
{
    if manager.remove_profile(profile_id) {
        ApiResponse::success(String::from_str("Profile deleted"))
    } else {
        ApiResponse::error(String::from_str("Profile not found"))
    }
}

/// Makes a stored profile the active one; see
/// `ProfileManager::set_active_profile`. An identifier that names no stored
/// profile changes nothing and is answered with an error.
pub fn set_active_profile(profile_id: String, manager: &mut ProfileManager) -> (r: ApiResponse<
    String,
>)
    ensures
        final(manager).profiles == old(manager).profiles,
        final(manager).groups == old(manager).groups,
        (if old(manager).profile(profile_id@).is_some() {
            &&& final(manager).active_profile_id == Some(profile_id)
            &&& final(manager).last_used_profiles@ == old(manager).used_after(profile_id)
            &&& r.is_success_with_text("Active profile set"@)
        } else {
            &&& *final(manager) == *old(manager)
            &&& r.is_error_with("Profile not found"@)
        }),
{
    if manager.profile_position(&profile_id).is_some() {
        manager.set_active_profile(profile_id);
        ApiResponse::success(String::from_str("Active profile set"))
    } else {
        ApiResponse::error(String::from_str("Profile not found"))
    }
}

/// The limit that applies where a request for recent profiles names none.
pub open spec fn recent_limit(limit: Option<usize>) -> int {
    match limit {
        Some(n) => n as int,
        None => 5,
    }
}

/// The profiles that were used last, newest first: of the first `limit`
/// identifiers used last, five where no limit is named, those that still
/// name a stored profile.
pub fn get_recent_profiles(limit: Option<usize>, manager: &ProfileManager) -> (r: ApiResponse<
    Vec<ConnectionConfig>,
>)
    ensures
        r.is_success(),
        r.data.unwrap()@ == resolve(
            at_most(manager.last_used_profiles@, recent_limit(limit)),
            manager.profiles@,
        ),
{
    let limit: usize = match limit {
        Some(n) => n,
        None => 5,
    };
    let available = manager.last_used_profiles.len();
    let n: usize = if available > limit {
        limit
    } else {
        available
    };
    let ghost ids = at_most(manager.last_used_profiles@, limit as int);
    let mut recent: Vec<ConnectionConfig> = Vec::new();
    let mut i: usize = 0;
    proof {
        assert(ids.subrange(0, 0) =~= Seq::<String>::empty());
    }
    while i < n
        invariant
            i <= n,
            n == ids.len(),
            n <= manager.last_used_profiles@.len(),
            forall|k: int| 0 <= k < n ==> ids[k] == manager.last_used_profiles@[k],
            recent@ == resolve(ids.subrange(0, i as int), manager.profiles@),
        decreases n - i,
    {
        proof {
            assert(ids.subrange(0, i + 1).drop_last() =~= ids.subrange(0, i as int));
        }
        match manager.profile_position(&manager.last_used_profiles[i]) {
            Some(k) => {
                recent.push(manager.profiles[k].clone());
            },
            None => {},
        }
        i = i + 1;
    }
    assert(ids.subrange(0, n as int) =~= ids);
    ApiResponse::success(recent)
}

/// Stores a copy of the profile `profile_id` under a fresh identifier and
/// the name `new_name`, stamped now, and answers with the copy. Without such
/// a profile nothing changes and the answer is an error.
pub fn duplicate_profile(profile_id: &str, new_name: String, manager: &mut ProfileManager) -> (r:
    ApiResponse<ConnectionConfig>)
    ensures
        old(manager).same_but_profiles(final(manager)),
        (match old(manager).profile(profile_id@) {
            Some(source) => {
                &&& r.is_success()
                &&& final(manager).profiles@ == old(manager).profiles@.push(r.data.unwrap())
                &&& r.data.unwrap().name == new_name
                &&& r.data.unwrap().id@.len() == 36
                &&& r.data.unwrap().connection_type == source.connection_type
                &&& r.data.unwrap().serial_config == source.serial_config
                &&& r.data.unwrap().tcp_config == source.tcp_config
            },
            None => {
                &&& final(manager).profiles@ == old(manager).profiles@
                &&& r.is_error_with("Profile not found"@)
            },
        }),
{
    let id = String::from_str(profile_id);
    match manager.profile_position(&id) {
        Some(i) => {
            let mut new_profile = manager.profiles[i].clone();
            new_profile.id = fresh_id();
            new_profile.name = new_name;
            new_profile.created_at = Timestamp::now();
            new_profile.updated_at = Timestamp::now();
            manager.add_profile(new_profile.clone());
            ApiResponse::success(new_profile)
        },
        None => ApiResponse::error(String::from_str("Profile not found")),
    }
}

/// `stored` is the imported profile `given`: the same name, tag and
/// settings under a fresh identifier.
pub open spec fn imported_as(given: ConnectionConfig, stored: ConnectionConfig) -> bool {
    &&& stored.name == given.name
    &&& stored.connection_type == given.connection_type
    &&& stored.serial_config == given.serial_config
    &&& stored.tcp_config == given.tcp_config
    &&& stored.id@.len() == 36
}

/// The stored profiles that an import keeps: none where it replaces them.
pub open spec fn kept_on_import(stored: Seq<ConnectionConfig>, replace_existing: bool) -> Seq<
    ConnectionConfig,
> {
    if replace_existing {
        Seq::empty()
    } else {
        stored
    }
}

/// The text that reports an import of `count` profiles.
pub open spec fn import_report(count: nat) -> Seq<char> {
    "Imported "@ + decimal(count) + " profiles"@
}

/// Stores the imported profiles after the others, each under a fresh
/// identifier and stamped now. With `replace_existing` the stored profiles,
/// the active profile and the profiles used last are dropped first. The
/// answer tells how many profiles were imported.
pub fn import_profiles(
    imported: Vec<ConnectionConfig>,
    replace_existing: bool,
    manager: &mut ProfileManager,
) -> (r: ApiResponse<String>)
    ensures
        final(manager).groups == old(manager).groups,
        final(manager).profiles@.len() == kept_on_import(old(manager).profiles@, replace_existing).len()
            + imported@.len(),
        final(manager).profiles@.subrange(
            0,
            kept_on_import(old(manager).profiles@, replace_existing).len() as int,
        ) == kept_on_import(old(manager).profiles@, replace_existing),
        forall|k: int|
            0 <= k < imported@.len() ==> imported_as(
                imported@[k],
                #[trigger] final(manager).profiles@[kept_on_import(
                    old(manager).profiles@,
                    replace_existing,
                ).len() + k],
            ),
        (if replace_existing {
            &&& final(manager).active_profile_id.is_none()
            &&& final(manager).last_used_profiles@.len() == 0
        } else {
            &&& final(manager).active_profile_id == old(manager).active_profile_id
            &&& final(manager).last_used_profiles == old(manager).last_used_profiles
        }),
        r.is_success_with_text(import_report(imported@.len())),
{
    if replace_existing {
        manager.profiles.clear();
        manager.active_profile_id = None;
        manager.last_used_profiles.clear();
    }
    let ghost base = manager.profiles@;
    assert(base =~= kept_on_import(old(manager).profiles@, replace_existing));
    let n = imported.len();
    let mut i: usize = 0;
    while i < n
        invariant
            i <= n,
            n == imported@.len(),
            manager.profiles@.len() == base.len() + i,
            manager.profiles@.subrange(0, base.len() as int) == base,
            manager.groups == old(manager).groups,
            manager.active_profile_id == (if replace_existing {
                None
            } else {
                old(manager).active_profile_id
            }),
            !replace_existing ==> manager.last_used_profiles == old(manager).last_used_profiles,
            replace_existing ==> manager.last_used_profiles@.len() == 0,
            forall|k: int|
                0 <= k < i ==> imported_as(
                    imported@[k],
                    #[trigger] manager.profiles@[base.len() + k],
                ),
        decreases n - i,
    {
        let mut profile = imported[i].clone();
        profile.id = fresh_id();
        profile.created_at = Timestamp::now();
        profile.updated_at = Timestamp::now();
        let ghost before = manager.profiles@;
        manager.add_profile(profile);
        proof {
            assert(manager.profiles@.subrange(0, base.len() as int) =~= before.subrange(
                0,
                base.len() as int,
            ));
            assert forall|k: int| 0 <= k < i + 1 implies imported_as(
                imported@[k],
                #[trigger] manager.profiles@[base.len() + k],
            ) by {
                if k < i {
                    assert(manager.profiles@[base.len() + k] == before[base.len() + k]);
                }
            }
        }
        i = i + 1;
    }
    let mut report = String::from_str("Imported ");
    let count = decimal_string(n as u64);
    report.append(count.as_str());
    report.append(" profiles");
    ApiResponse::success(report)
}

/// The answer to an import whose text could not be read as profiles.
pub fn import_refused(detail: &str) -> (r: ApiResponse<String>)
    ensures
        r.is_error_with("Invalid JSON: "@ + detail@),
{
    ApiResponse::error(String::from_str("Invalid JSON: ").concat(detail))
}

/// The answer to an export of the profiles, once the caller has serialised
/// them: the text, or the text of the failure.
pub fn export_profiles(serialised: Result<String, String>) -> (r: ApiResponse<String>)
    ensures
        serialised.is_ok() ==> r.is_success_with(serialised.unwrap()),
        serialised.is_err() ==> r.is_error_with("Export failed: "@ + serialised.unwrap_err()@),
{
    match serialised {
        Ok(json) => ApiResponse::success(json),
        Err(detail) => ApiResponse::error(
            String::from_str("Export failed: ").concat(detail.as_str()),
        ),
    }
}

} // verus!
