//! Stored records and the rules by which jobs, installations and refreshes are read from them.
use crate::github::RepositoryRef;
use crate::ipa::UploadMetadata;
use crate::number;
use crate::record::RecordId;
use crate::sorting;
use crate::sorting::Ranked;
use crate::sources::SourceRecord;
use crate::text;
use vstd::prelude::*;
use vstd::string::*;

verus! {

pub const DEFAULT_REFRESH_AFTER_DAYS: u8 = 6;

pub const MIN_REFRESH_AFTER_DAYS: u8 = 1;

pub const MAX_REFRESH_AFTER_DAYS: u8 = 6;

pub const MILLISECONDS_PER_HOUR: i64 = 3_600_000;

pub const MILLISECONDS_PER_DAY: i64 = 86_400_000;

/// A signature is valid for seven days; a part of a day counts as long as it is more than one
/// hour.
pub const VALIDITY_MILLISECONDS: i64 = 687_600_000;

#[derive(Debug)]
pub struct StoredJob {
    pub id: RecordId,
    pub app_id: RecordId,
    pub device_id: RecordId,
    pub phase: String,
    pub progress_percent: Option<u8>,
    pub device_label: String,
    pub created_at: String,
    pub completed_at: Option<String>,
    pub failure_code: Option<String>,
    pub app_display_name: String,
    pub app_version: Option<String>,
}

#[derive(Debug)]
pub struct StoredApp {
    pub id: RecordId,
    pub sha256: String,
    pub size_bytes: u64,
    pub display_name: String,
    pub app_version: Option<String>,
    pub bundle_id: Option<String>,
    pub storage_path: String,
}

#[derive(Debug)]
pub struct ManagedInstallation {
    pub app_id: RecordId,
    pub device_id: RecordId,
    pub app_display_name: String,
    pub app_version: Option<String>,
    pub device_label: String,
}

#[derive(Debug)]
pub struct GitHubSource {
    pub id: RecordId,
    pub app_id: Option<RecordId>,
    pub owner: String,
    pub repo: String,
    pub asset_pattern: String,
    pub include_prereleases: bool,
    pub auto_download: bool,
    pub auto_acknowledged_at: Option<String>,
    pub last_checked_at: Option<String>,
    pub last_release_id: Option<i64>,
    pub last_release_tag: Option<String>,
    pub last_asset_id: Option<i64>,
    pub last_asset_name: Option<String>,
    pub last_download_sha256: Option<String>,
    pub last_status: Option<String>,
    pub last_error_code: Option<String>,
    pub created_at: String,
    pub updated_at: String,
}

/// How an installed app is known: by the identifier it was installed under, or by that of its
/// IPA.
#[derive(Debug)]
pub struct ManagedAppIdentity {
    pub installed_bundle_id: Option<String>,
    pub source_bundle_id: Option<String>,
}

#[derive(Debug)]
pub struct RefreshAttention {
    pub app_id: RecordId,
    pub device_label: String,
    pub age_hours: i64,
    pub retry_failed: bool,
}

#[derive(Debug)]
pub struct InstallationValidity {
    pub app_id: RecordId,
    pub device_label: String,
    pub remaining_days: i64,
    pub completed_at: String,
}

/// An installation whose refresh is due, with the IPA to install again.
#[derive(Debug)]
pub struct RefreshTarget {
    pub app_id: RecordId,
    pub device_id: RecordId,
    pub storage_path: String,
}

/// What removing an app comes to.
#[derive(Debug)]
pub enum AppDeletion {
    Ready { storage_path: String },
    ActiveJob,
    NotFound,
}

/// An app on a device.
#[derive(Debug, Clone, Copy, PartialEq, Eq, Structural)]
pub struct Installation {
    pub app_id: RecordId,
    pub device_id: RecordId,
}

/// A job together with the app that it installs. `age` is the time in milliseconds since the job
/// was completed, where that is known.
#[derive(Debug)]
pub struct JobRow {
    pub target: Installation,
    pub phase: String,
    pub device_label: String,
    pub created_at: String,
    pub completed_at: Option<String>,
    pub age: Option<i64>,
    pub installed_bundle_id: Option<String>,
    pub app_bundle_id: Option<String>,
    pub app_display_name: String,
    pub app_version: Option<String>,
    pub storage_path: String,
    pub app_deleted: bool,
}

/// A job that has not come to its end.
pub open spec fn is_active_phase(phase: Seq<char>) -> bool {
    ||| phase == "queued"@
    ||| phase == "connecting"@
    ||| phase == "signing"@
    ||| phase == "transferring"@
    ||| phase == "installing"@
}

/// A job that has come to its end.
pub open spec fn is_final_phase(phase: Seq<char>) -> bool {
    phase == "succeeded"@ || phase == "failed"@
}

pub open spec fn succeeded(row: JobRow) -> bool {
    row.phase@ == "succeeded"@
}

/// No successful job of the same installation was completed later.
pub open spec fn is_latest_success(rows: Seq<JobRow>, at: int) -> bool {
    &&& succeeded(rows[at])
    &&& rows[at].completed_at is Some
    &&& forall|i: int|
        0 <= i < rows.len() && (#[trigger] rows[i]).target == rows[at].target && succeeded(rows[i])
            && rows[i].completed_at is Some ==> !text::text_less(
            rows[at].completed_at->0@,
            rows[i].completed_at->0@,
        )
}

/// The row stands for an installation that is managed now: its latest success, of an app that was
/// not removed, on a device where it was not taken out of management.
pub open spec fn is_current(rows: Seq<JobRow>, unmanaged: Seq<Installation>, at: int) -> bool {
    &&& 0 <= at < rows.len()
    &&& is_latest_success(rows, at)
    &&& !rows[at].app_deleted
    &&& !unmanaged.contains(rows[at].target)
}

/// The positions below `count` that are kept, in their order.
pub open spec fn kept(keep: spec_fn(int) -> bool, count: nat) -> Seq<int>
    decreases count,
{
    if count == 0 {
        Seq::empty()
    } else if keep(count - 1) {
        kept(keep, (count - 1) as nat).push(count - 1)
    } else {
        kept(keep, (count - 1) as nat)
    }
}

/// A position is kept if and only if it passes.
pub proof fn kept_holds_what_passes(keep: spec_fn(int) -> bool, count: nat, at: int)
    ensures
        kept(keep, count).contains(at) <==> 0 <= at < count && keep(at),
    decreases count,
{
    if count > 0 {
        let before = kept(keep, (count - 1) as nat);
        kept_holds_what_passes(keep, (count - 1) as nat, at);
        let now = kept(keep, count);
        if keep(count - 1) {
            assert(now[before.len() as int] == count - 1);
            if before.contains(at) {
                let k = choose|k: int| 0 <= k < before.len() && before[k] == at;
                assert(now[k] == at);
            }
            if now.contains(at) {
                let k = choose|k: int| 0 <= k < now.len() && now[k] == at;
                if k < before.len() {
                    assert(before[k] == at);
                }
            }
        }
    }
}

/// The refresh of a current installation is due after the given number of days.
pub open spec fn is_due(
    rows: Seq<JobRow>,
    unmanaged: Seq<Installation>,
    after_days: u8,
    at: int,
) -> bool {
    &&& is_current(rows, unmanaged, at)
    &&& rows[at].age matches Some(age) && age >= after_days * MILLISECONDS_PER_DAY
}

/// The age at which an installation is announced: a day before its refresh is due.
pub open spec fn attention_age(after_days: u8) -> int {
    (if after_days == 0 {
        0
    } else {
        after_days - 1
    }) * MILLISECONDS_PER_DAY
}

pub open spec fn needs_attention(
    rows: Seq<JobRow>,
    unmanaged: Seq<Installation>,
    after_days: u8,
    at: int,
) -> bool {
    &&& is_current(rows, unmanaged, at)
    &&& rows[at].age matches Some(age) && age >= attention_age(after_days)
}

/// A job for the same installation failed after the row was completed.
pub open spec fn failed_since(rows: Seq<JobRow>, at: int) -> bool {
    exists|i: int|
        {
            &&& 0 <= i < rows.len()
            &&& (#[trigger] rows[i]).target == rows[at].target
            &&& rows[i].phase@ == "failed"@
            &&& text::text_less(rows[at].completed_at->0@, rows[i].created_at@)
        }
}

/// The days that a signature of the given age is still valid, rounded up after one hour.
pub open spec fn remaining_days_of(age: int) -> int {
    if age >= VALIDITY_MILLISECONDS {
        0
    } else {
        (VALIDITY_MILLISECONDS - age) / MILLISECONDS_PER_DAY as int
    }
}

/// A successful job tells under which identifier its app stands on the device: the one it was
/// installed under, or, where no success of the installation tells that, the one of its IPA.
pub open spec fn tells_identity(
    rows: Seq<JobRow>,
    unmanaged: Seq<Installation>,
    device: RecordId,
    at: int,
) -> bool {
    &&& 0 <= at < rows.len()
    &&& rows[at].target.device_id == device
    &&& succeeded(rows[at])
    &&& !unmanaged.contains(rows[at].target)
    &&& rows[at].installed_bundle_id is Some || forall|i: int|
        0 <= i < rows.len() && (#[trigger] rows[i]).target == rows[at].target && succeeded(rows[i])
            ==> rows[i].installed_bundle_id is None
}

pub open spec fn identity_of(row: JobRow) -> (Option<Seq<char>>, Option<Seq<char>>) {
    (text::text_view(row.installed_bundle_id), text::text_view(row.app_bundle_id))
}

/// Some row of the device tells the identity.
pub open spec fn is_told(
    rows: Seq<JobRow>,
    unmanaged: Seq<Installation>,
    device: RecordId,
    identity: (Option<Seq<char>>, Option<Seq<char>>),
) -> bool {
    exists|i: int| #[trigger]
        tells_identity(rows, unmanaged, device, i) && identity == identity_of(rows[i])
}

impl View for ManagedAppIdentity {
    type V = (Option<Seq<char>>, Option<Seq<char>>);

    open spec fn view(&self) -> (Option<Seq<char>>, Option<Seq<char>>) {
        (text::text_view(self.installed_bundle_id), text::text_view(self.source_bundle_id))
    }
}

/// A job of the app, on the device where one is given, that has not come to its end.
pub open spec fn has_active_job(
    rows: Seq<JobRow>,
    app: RecordId,
    device: Option<RecordId>,
) -> bool {
    exists|i: int|
        {
            &&& 0 <= i < rows.len()
            &&& (#[trigger] rows[i]).target.app_id == app
            &&& device is Some ==> rows[i].target.device_id == device->0
            &&& is_active_phase(rows[i].phase@)
        }
}

// ---------------------------------------------------------------------------------------------
// What holds of every store.
// ---------------------------------------------------------------------------------------------

/// An installation that was taken out of management is neither listed nor refreshed nor
/// announced, and identifies no app.
pub proof fn unmanaged_installations_are_hidden(
    rows: Seq<JobRow>,
    unmanaged: Seq<Installation>,
    after_days: u8,
    at: int,
)
    requires
        0 <= at < rows.len(),
        unmanaged.contains(rows[at].target),
    ensures
        !is_current(rows, unmanaged, at),
        !is_due(rows, unmanaged, after_days, at),
        !needs_attention(rows, unmanaged, after_days, at),
        !tells_identity(rows, unmanaged, rows[at].target.device_id, at),
{
}

/// The installations out of management, once one more is taken out.
pub open spec fn forgotten(unmanaged: Seq<Installation>, target: Installation) -> Seq<
    Installation,
> {
    if unmanaged.contains(target) {
        unmanaged
    } else {
        unmanaged.push(target)
    }
}

/// The installations out of management, once one is put back.
pub open spec fn restored(unmanaged: Seq<Installation>, target: Installation) -> Seq<Installation> {
    unmanaged.filter(|installation: Installation| installation != target)
}

proof fn others_stay(unmanaged: Seq<Installation>, target: Installation)
    requires
        !unmanaged.contains(target),
    ensures
        restored(unmanaged, target) == unmanaged,
    decreases unmanaged.len(),
{
    reveal(Seq::filter);
    if unmanaged.len() > 0 {
        let before = unmanaged.drop_last();
        assert(unmanaged[unmanaged.len() - 1] == unmanaged.last());
        assert forall|k: int| 0 <= k < before.len() implies before[k] != target by {
            assert(before[k] == unmanaged[k]);
        }
        others_stay(before, target);
        assert(unmanaged == before.push(unmanaged.last()));
    }
}

/// Taking an installation out of management and putting it back changes nothing.
pub proof fn restoring_undoes_forgetting(unmanaged: Seq<Installation>, target: Installation)
    requires
        !unmanaged.contains(target),
    ensures
        restored(forgotten(unmanaged, target), target) == unmanaged,
{
    reveal(Seq::filter);
    others_stay(unmanaged, target);
    assert(unmanaged.push(target).drop_last() == unmanaged);
}

/// Every refresh that is due was announced.
pub proof fn due_refreshes_are_announced(
    rows: Seq<JobRow>,
    unmanaged: Seq<Installation>,
    after_days: u8,
    at: int,
)
    requires
        is_due(rows, unmanaged, after_days, at),
    ensures
        needs_attention(rows, unmanaged, after_days, at),
{
}

/// A refresh that is due after more days is due after fewer.
pub proof fn due_later_is_due_earlier(
    rows: Seq<JobRow>,
    unmanaged: Seq<Installation>,
    fewer: u8,
    more: u8,
    at: int,
)
    requires
        fewer <= more,
        is_due(rows, unmanaged, more, at),
    ensures
        is_due(rows, unmanaged, fewer, at),
{
}

/// An installation is due for a refresh before its signature runs out: with at most six days to
/// the refresh, one that is not due yet is valid for at least one day more.
pub proof fn signatures_outlast_the_refresh_day(after_days: u8, age: int)
    requires
        after_days <= MAX_REFRESH_AFTER_DAYS,
        age < after_days * MILLISECONDS_PER_DAY,
    ensures
        remaining_days_of(age) >= 1,
{
}

/// A success that was completed later supersedes an earlier one of the same installation: the
/// earlier one is no longer listed, refreshed or announced.
pub proof fn later_successes_supersede(
    rows: Seq<JobRow>,
    unmanaged: Seq<Installation>,
    after_days: u8,
    earlier: int,
    later: int,
)
    requires
        0 <= earlier < rows.len(),
        0 <= later < rows.len(),
        rows[earlier].target == rows[later].target,
        rows[earlier].phase@ == "succeeded"@,
        rows[later].phase@ == "succeeded"@,
        rows[earlier].completed_at is Some,
        rows[later].completed_at is Some,
        text::text_less(rows[earlier].completed_at->0@, rows[later].completed_at->0@),
    ensures
        !is_current(rows, unmanaged, earlier),
        !is_due(rows, unmanaged, after_days, earlier),
        !needs_attention(rows, unmanaged, after_days, earlier),
{
}

/// An installation whose last success is younger than the refresh day is not refreshed, however old
/// its other successes are. Jobs that were completed at the same time have the same age.
pub proof fn fresh_installations_are_not_refreshed(
    rows: Seq<JobRow>,
    unmanaged: Seq<Installation>,
    after_days: u8,
    last: int,
    targets: Seq<RefreshTarget>,
    k: int,
)
    requires
        0 <= last < rows.len(),
        rows[last].phase@ == "succeeded"@,
        rows[last].completed_at is Some,
        forall|i: int|
            0 <= i < rows.len() && (#[trigger] rows[i]).target == rows[last].target
                && rows[i].completed_at is Some && rows[i].phase@ == "succeeded"@ ==> {
                ||| text::text_less(rows[i].completed_at->0@, rows[last].completed_at->0@)
                ||| rows[i].completed_at->0@ == rows[last].completed_at->0@ && rows[i].age
                    == rows[last].age
            },
        rows[last].age is Some ==> rows[last].age->0 < after_days * 86_400_000,
        are_due_targets(targets, rows, unmanaged, after_days),
        0 <= k < targets.len(),
    ensures
        forall|i: int|
            0 <= i < rows.len() && (#[trigger] rows[i]).target == rows[last].target ==> !is_due(
                rows,
                unmanaged,
                after_days,
                i,
            ),
        targets[k].app_id != rows[last].target.app_id || targets[k].device_id
            != rows[last].target.device_id,
{
    assert forall|i: int|
        0 <= i < rows.len() && (#[trigger] rows[i]).target == rows[last].target implies !is_due(
        rows,
        unmanaged,
        after_days,
        i,
    ) by {
        if is_due(rows, unmanaged, after_days, i) {
            assert(rows[last].target == rows[i].target);
        }
    }
    let keep = |i: int| is_due(rows, unmanaged, after_days, i);
    let due = kept(keep, rows.len());
    kept_holds_what_passes(keep, rows.len(), due[k]);
    assert(due.contains(due[k]));
    assert(is_target_of(targets[k], rows[due[k]]));
}

/// The row stands for the last success of an installation that is managed: its job succeeded and no
/// other success of the installation was completed later, its app was not removed, and it was not
/// taken out of management.
pub open spec fn is_last_managed_success(
    rows: Seq<JobRow>,
    unmanaged: Seq<Installation>,
    at: int,
) -> bool {
    &&& 0 <= at < rows.len()
    &&& rows[at].phase@ == "succeeded"@
    &&& rows[at].completed_at is Some
    &&& !rows[at].app_deleted
    &&& forall|i: int| 0 <= i < unmanaged.len() ==> #[trigger] unmanaged[i] != rows[at].target
    &&& forall|i: int|
        0 <= i < rows.len() && (#[trigger] rows[i]).target == rows[at].target && rows[i].phase@
            == "succeeded"@ && rows[i].completed_at is Some ==> rows[i].completed_at->0@
            == rows[at].completed_at->0@ || text::text_less(
            rows[i].completed_at->0@,
            rows[at].completed_at->0@,
        )
}

proof fn lemma_last_success(rows: Seq<JobRow>, unmanaged: Seq<Installation>, at: int)
    ensures
        is_current(rows, unmanaged, at) <==> is_last_managed_success(rows, unmanaged, at),
{
    if is_last_managed_success(rows, unmanaged, at) {
        let own = rows[at].completed_at->0@;
        assert forall|i: int|
            0 <= i < rows.len() && (#[trigger] rows[i]).target == rows[at].target && succeeded(
                rows[i],
            ) && rows[i].completed_at is Some implies !text::text_less(
            own,
            rows[i].completed_at->0@,
        ) by {
            let other = rows[i].completed_at->0@;
            text::text_order_is_irreflexive(own);
            if text::text_less(other, own) {
                text::text_order_is_asymmetric(other, own);
            }
        }
    }
    if is_current(rows, unmanaged, at) {
        assert forall|i: int|
            0 <= i < rows.len() && (#[trigger] rows[i]).target == rows[at].target && rows[i].phase@
                == "succeeded"@ && rows[i].completed_at is Some implies rows[i].completed_at->0@
            == rows[at].completed_at->0@ || text::text_less(
            rows[i].completed_at->0@,
            rows[at].completed_at->0@,
        ) by {
            text::text_order_is_total(rows[i].completed_at->0@, rows[at].completed_at->0@);
        }
    }
}

/// A refresh is due for the last success of every managed installation that is at least so many days
/// old, and for nothing else; each becomes a target with its app, its device and its IPA.
pub proof fn refreshes_are_due_by_the_last_success(
    rows: Seq<JobRow>,
    unmanaged: Seq<Installation>,
    after_days: u8,
    targets: Seq<RefreshTarget>,
    at: int,
    k: int,
)
    requires
        are_due_targets(targets, rows, unmanaged, after_days),
    ensures
        is_last_managed_success(rows, unmanaged, at) && rows[at].age is Some && rows[at].age->0
            >= after_days * 86_400_000 ==> exists|t: int|
            0 <= t < targets.len() && (#[trigger] targets[t]).app_id == rows[at].target.app_id
                && targets[t].device_id == rows[at].target.device_id && targets[t].storage_path@
                == rows[at].storage_path@,
        0 <= k < targets.len() ==> exists|i: int| #[trigger]
            is_last_managed_success(rows, unmanaged, i) && rows[i].age is Some && rows[i].age->0
                >= after_days * 86_400_000 && targets[k].app_id == rows[i].target.app_id
                && targets[k].device_id == rows[i].target.device_id && targets[k].storage_path@
                == rows[i].storage_path@,
{
    let keep = |i: int| is_due(rows, unmanaged, after_days, i);
    let due = kept(keep, rows.len());
    lemma_last_success(rows, unmanaged, at);
    if is_last_managed_success(rows, unmanaged, at) && rows[at].age is Some && rows[at].age->0
        >= after_days * 86_400_000 {
        assert(keep(at));
        kept_holds_what_passes(keep, rows.len(), at);
        let t = choose|t: int| 0 <= t < due.len() && due[t] == at;
        assert(is_target_of(targets[t], rows[due[t]]));
    }
    if 0 <= k < targets.len() {
        kept_holds_what_passes(keep, rows.len(), due[k]);
        assert(due.contains(due[k]));
        lemma_last_success(rows, unmanaged, due[k]);
        assert(is_target_of(targets[k], rows[due[k]]));
    }
}

/// The managed installations are listed once for each last success, under its names, by the labels
/// of their devices and on one device by the names of their apps.
pub proof fn managed_installations_are_listed(
    rows: Seq<JobRow>,
    unmanaged: Seq<Installation>,
    listed: Seq<ManagedInstallation>,
    at: int,
    j: int,
    k: int,
)
    requires
        are_installations(listed, rows, unmanaged),
    ensures
        is_last_managed_success(rows, unmanaged, at) ==> exists|t: int|
            0 <= t < listed.len() && (#[trigger] listed[t]).app_id == rows[at].target.app_id
                && listed[t].device_id == rows[at].target.device_id && listed[t].device_label@
                == rows[at].device_label@ && listed[t].app_display_name@
                == rows[at].app_display_name@,
        0 <= k < listed.len() ==> exists|i: int| #[trigger]
            is_last_managed_success(rows, unmanaged, i) && listed[k].app_id
                == rows[i].target.app_id && listed[k].device_id == rows[i].target.device_id
                && text::text_view(listed[k].app_version) == text::text_view(rows[i].app_version),
        ({
            let items = sorting::stable_sorted(listed);
            0 <= j < k < items.len() ==> {
                &&& !text::text_less(items[k].device_label@, items[j].device_label@)
                &&& items[k].device_label@ == items[j].device_label@ ==> !text::text_less(
                    items[k].app_display_name@,
                    items[j].app_display_name@,
                )
            }
        }),
{
    let keep = |i: int| is_current(rows, unmanaged, i);
    let current = kept(keep, rows.len());
    lemma_last_success(rows, unmanaged, at);
    if is_last_managed_success(rows, unmanaged, at) {
        assert(keep(at));
        kept_holds_what_passes(keep, rows.len(), at);
        let t = choose|t: int| 0 <= t < current.len() && current[t] == at;
        assert(is_installation_of(listed[t], rows[current[t]]));
    }
    if 0 <= k < listed.len() {
        kept_holds_what_passes(keep, rows.len(), current[k]);
        assert(current.contains(current[k]));
        lemma_last_success(rows, unmanaged, current[k]);
        assert(is_installation_of(listed[k], rows[current[k]]));
    }
    sorting::sorting_orders(listed);
    let items = sorting::stable_sorted(listed);
    if 0 <= j < k < items.len() {
        assert(!items[k].precedes(items[j]));
    }
}

/// The validity of every last success of a managed installation is told by its own age, and what was
/// completed later comes first.
pub proof fn validities_are_told(
    rows: Seq<JobRow>,
    unmanaged: Seq<Installation>,
    listed: Seq<InstallationValidity>,
    at: int,
    j: int,
    k: int,
)
    requires
        are_validities(listed, rows, unmanaged),
    ensures
        is_last_managed_success(rows, unmanaged, at) ==> exists|t: int|
            0 <= t < listed.len() && (#[trigger] listed[t]).app_id == rows[at].target.app_id
                && listed[t].device_label@ == rows[at].device_label@ && listed[t].completed_at@
                == rows[at].completed_at->0@ && rows[at].age is Some && listed[t].remaining_days
                == remaining_days_of(rows[at].age->0 as int),
        0 <= k < listed.len() ==> exists|i: int| #[trigger]
            is_last_managed_success(rows, unmanaged, i) && listed[k].app_id
                == rows[i].target.app_id && listed[k].completed_at@ == rows[i].completed_at->0@,
        ({
            let items = sorting::stable_sorted(listed);
            0 <= j < k < items.len() ==> !text::text_less(
                items[j].completed_at@,
                items[k].completed_at@,
            )
        }),
{
    let keep = |i: int| is_current(rows, unmanaged, i);
    let current = kept(keep, rows.len());
    lemma_last_success(rows, unmanaged, at);
    if is_last_managed_success(rows, unmanaged, at) {
        assert(keep(at));
        kept_holds_what_passes(keep, rows.len(), at);
        let t = choose|t: int| 0 <= t < current.len() && current[t] == at;
        assert(is_validity_of(listed[t], rows[current[t]]));
    }
    if 0 <= k < listed.len() {
        kept_holds_what_passes(keep, rows.len(), current[k]);
        assert(current.contains(current[k]));
        lemma_last_success(rows, unmanaged, current[k]);
        assert(is_validity_of(listed[k], rows[current[k]]));
    }
    sorting::sorting_orders(listed);
    let items = sorting::stable_sorted(listed);
    if 0 <= j < k < items.len() {
        assert(!items[k].precedes(items[j]));
    }
}

/// An installation is announced one day before its refresh is due, with its age in whole hours. A
/// retry is told exactly where a job for it was created, and failed, after the success.
pub proof fn refreshes_are_announced_a_day_before(
    rows: Seq<JobRow>,
    unmanaged: Seq<Installation>,
    after_days: u8,
    items: Seq<RefreshAttention>,
    at: int,
)
    requires
        after_days >= 1,
        are_attentions(items, rows, unmanaged, after_days),
        is_last_managed_success(rows, unmanaged, at),
        rows[at].age is Some,
        rows[at].age->0 >= 0,
    ensures
        needs_attention(rows, unmanaged, after_days, at) <==> is_due(
            rows,
            unmanaged,
            (after_days - 1) as u8,
            at,
        ),
        rows[at].age->0 >= (after_days - 1) * 86_400_000 ==> exists|t: int|
            {
                let item = #[trigger] items[t];
                &&& 0 <= t < items.len()
                &&& item.app_id == rows[at].target.app_id
                &&& item.device_label@ == rows[at].device_label@
                &&& item.age_hours * 3_600_000 <= rows[at].age->0 < (item.age_hours + 1) * 3_600_000
                &&& item.retry_failed <==> exists|i: int|
                    0 <= i < rows.len() && (#[trigger] rows[i]).target == rows[at].target
                        && rows[i].phase@ == "failed"@ && text::text_less(
                        rows[at].completed_at->0@,
                        rows[i].created_at@,
                    )
            },
{
    lemma_last_success(rows, unmanaged, at);
    let keep = |i: int| needs_attention(rows, unmanaged, after_days, i);
    let close = kept(keep, rows.len());
    if rows[at].age->0 >= (after_days - 1) * 86_400_000 {
        assert(keep(at));
        kept_holds_what_passes(keep, rows.len(), at);
        let t = choose|t: int| 0 <= t < close.len() && close[t] == at;
        assert(is_attention_of(items[t], rows, close[t]));
        let item = items[t];
        let age = rows[at].age->0 as int;
        assert(item.age_hours == age / 3_600_000);
        assert(item.age_hours * 3_600_000 <= age < (item.age_hours + 1) * 3_600_000)
            by (nonlinear_arith)
            requires
                item.age_hours == age / 3_600_000,
                age >= 0,
        ;
    }
}

/// A signature is valid for seven days and loses one with every day: a day more of age is a day less
/// of validity, until none is left.
pub proof fn validity_counts_down(age: int)
    ensures
        remaining_days_of(0) == 7,
        remaining_days_of(age) >= 1 ==> remaining_days_of(age + 86_400_000) == remaining_days_of(
            age,
        ) - 1,
        remaining_days_of(age) == 0 ==> remaining_days_of(age + 86_400_000) == 0,
        remaining_days_of(age) >= 0,
        0 <= age <= 82_800_000 ==> remaining_days_of(age) == 7,
        82_800_000 < age <= 169_200_000 ==> remaining_days_of(age) == 6,
        age >= 604_800_000 ==> remaining_days_of(age) == 0,
{
}

/// An older signature is never valid for longer than a younger one.
pub proof fn validity_never_grows(younger: int, older: int)
    requires
        younger <= older,
    ensures
        remaining_days_of(older) <= remaining_days_of(younger),
{
}

/// A job is at work from the moment it is stored until it ends, and a job that has ended is not at
/// work: while one is, the installation counts as busy, on its device and for its app.
pub proof fn jobs_at_work_make_busy(rows: Seq<JobRow>, at: int)
    requires
        0 <= at < rows.len(),
    ensures
        rows[at].phase@ == "queued"@ || rows[at].phase@ == "connecting"@ || rows[at].phase@
            == "signing"@ || rows[at].phase@ == "transferring"@ || rows[at].phase@ == "installing"@
            ==> has_active_job(rows, rows[at].target.app_id, Some(rows[at].target.device_id))
            && has_active_job(rows, rows[at].target.app_id, None),
        !is_active_phase("succeeded"@),
        !is_active_phase("failed"@),
        is_final_phase("succeeded"@),
        is_final_phase("failed"@),
{
    reveal_strlit("queued");
    reveal_strlit("connecting");
    reveal_strlit("signing");
    reveal_strlit("transferring");
    reveal_strlit("installing");
    reveal_strlit("succeeded");
    reveal_strlit("failed");
    assert("queued"@.len() == 6 && "queued"@[0] == 'q');
    assert("failed"@.len() == 6 && "failed"@[0] == 'f');
    assert("succeeded"@.len() == 9);
    assert("connecting"@.len() == 10);
    assert("signing"@.len() == 7);
    assert("transferring"@.len() == 12);
    assert("installing"@.len() == 10);
}

/// Nothing is busy where every job has ended: jobs of other apps, and on other devices, count for
/// nothing.
pub proof fn ended_jobs_leave_nothing_busy(
    rows: Seq<JobRow>,
    app: RecordId,
    device: Option<RecordId>,
)
    requires
        forall|i: int|
            0 <= i < rows.len() ==> (#[trigger] rows[i]).target.app_id != app || (device is Some
                && rows[i].target.device_id != device->0) || rows[i].phase@ == "succeeded"@
                || rows[i].phase@ == "failed"@,
    ensures
        !has_active_job(rows, app, device),
{
    if has_active_job(rows, app, device) {
        let i = choose|i: int|
            {
                &&& 0 <= i < rows.len()
                &&& (#[trigger] rows[i]).target.app_id == app
                &&& device is Some ==> rows[i].target.device_id == device->0
                &&& is_active_phase(rows[i].phase@)
            };
        jobs_at_work_make_busy(rows, i);
    }
}

/// A success on a device that is managed tells under which identifier its app was installed, where
/// that is known; a job that did not succeed, or on another device, tells nothing.
pub proof fn successes_tell_identities(
    rows: Seq<JobRow>,
    unmanaged: Seq<Installation>,
    device: RecordId,
    at: int,
)
    requires
        0 <= at < rows.len(),
    ensures
        rows[at].phase@ == "succeeded"@ && rows[at].target.device_id == device
            && rows[at].installed_bundle_id is Some && (forall|i: int|
            0 <= i < unmanaged.len() ==> #[trigger] unmanaged[i] != rows[at].target) ==> is_told(
            rows,
            unmanaged,
            device,
            (Some(rows[at].installed_bundle_id->0@), text::text_view(rows[at].app_bundle_id)),
        ),
        rows[at].phase@ != "succeeded"@ || rows[at].target.device_id != device ==> !tells_identity(
            rows,
            unmanaged,
            device,
            at,
        ),
{
    if rows[at].phase@ == "succeeded"@ && rows[at].target.device_id == device
        && rows[at].installed_bundle_id is Some && (forall|i: int|
        0 <= i < unmanaged.len() ==> #[trigger] unmanaged[i] != rows[at].target) {
        assert(tells_identity(rows, unmanaged, device, at));
    }
}

// ---------------------------------------------------------------------------------------------
// Reading.
// ---------------------------------------------------------------------------------------------

/// Whether a phase is one of a job that has not come to its end.
pub fn active_phase(phase: &str) -> (active: bool)
    ensures
        active == is_active_phase(phase@),
{
    text::same_text(phase, "queued") || text::same_text(phase, "connecting") || text::same_text(
        phase,
        "signing",
    ) || text::same_text(phase, "transferring") || text::same_text(phase, "installing")
}

/// Whether a phase ends a job, so that its time of completion is recorded with it.
pub fn final_phase(phase: &str) -> (ends: bool)
    ensures
        ends == is_final_phase(phase@),
{
    text::same_text(phase, "succeeded") || text::same_text(phase, "failed")
}

fn is_unmanaged(unmanaged: &Vec<Installation>, target: Installation) -> (found: bool)
    ensures
        found == unmanaged@.contains(target),
{
    let mut i: usize = 0;
    while i < unmanaged.len()
        invariant
            i <= unmanaged.len(),
            forall|k: int| 0 <= k < i ==> unmanaged@[k] != target,
        decreases unmanaged.len() - i,
    {
        if unmanaged[i] == target {
            return true;
        }
        i = i + 1;
    }
    false
}

fn row_is_current(rows: &Vec<JobRow>, unmanaged: &Vec<Installation>, at: usize) -> (current: bool)
    requires
        at < rows.len(),
    ensures
        current == is_current(rows@, unmanaged@, at as int),
{
    if !text::same_text(rows[at].phase.as_str(), "succeeded") || rows[at].app_deleted {
        return false;
    }
    if is_unmanaged(unmanaged, rows[at].target) {
        return false;
    }
    let completed: &str = match &rows[at].completed_at {
        Some(completed) => completed.as_str(),
        None => {
            return false;
        },
    };
    let mut i: usize = 0;
    while i < rows.len()
        invariant
            i <= rows.len(),
            at < rows.len(),
            rows@[at as int].completed_at is Some,
            completed@ == rows@[at as int].completed_at->0@,
            forall|k: int|
                0 <= k < i && (#[trigger] rows@[k]).target == rows@[at as int].target && succeeded(
                    rows@[k],
                ) && rows@[k].completed_at is Some ==> !text::text_less(
                    completed@,
                    rows@[k].completed_at->0@,
                ),
        decreases rows.len() - i,
    {
        if rows[i].target == rows[at].target && text::same_text(
            rows[i].phase.as_str(),
            "succeeded",
        ) {
            if let Some(other) = &rows[i].completed_at {
                if text::comes_before(completed, other.as_str()) {
                    return false;
                }
            }
        }
        i = i + 1;
    }
    true
}

fn copy_text(text: &Option<String>) -> (copy: Option<String>)
    ensures
        text::text_view(copy) == text::text_view(*text),
{
    match text {
        Some(text) => Some(text.clone()),
        None => None,
    }
}

/// A target names the row's installation and IPA.
pub open spec fn is_target_of(target: RefreshTarget, row: JobRow) -> bool {
    &&& target.app_id == row.target.app_id
    &&& target.device_id == row.target.device_id
    &&& target.storage_path@ == row.storage_path@
}

/// The targets of the rows whose refresh is due, in the order of the rows.
pub open spec fn are_due_targets(
    targets: Seq<RefreshTarget>,
    rows: Seq<JobRow>,
    unmanaged: Seq<Installation>,
    after_days: u8,
) -> bool {
    let due = kept(|i: int| is_due(rows, unmanaged, after_days, i), rows.len());
    &&& targets.len() == due.len()
    &&& forall|k: int| 0 <= k < due.len() ==> is_target_of(#[trigger] targets[k], rows[due[k]])
}

/// The installations whose refresh is due, in the order of the rows.
pub fn refresh_due_targets(
    rows: &Vec<JobRow>,
    unmanaged: &Vec<Installation>,
    after_days: u8,
) -> (targets: Vec<RefreshTarget>)
    ensures
        are_due_targets(targets@, rows@, unmanaged@, after_days),
{
    let ghost keep = |i: int| is_due(rows@, unmanaged@, after_days, i);
    let mut targets: Vec<RefreshTarget> = Vec::new();
    let mut i: usize = 0;
    while i < rows.len()
        invariant
            i <= rows.len(),
            keep == (|i: int| is_due(rows@, unmanaged@, after_days, i)),
            targets@.len() == kept(keep, i as nat).len(),
            forall|k: int|
                0 <= k < targets@.len() ==> is_target_of(
                    #[trigger] targets@[k],
                    rows@[kept(keep, i as nat)[k]],
                ),
        decreases rows.len() - i,
    {
        let due: bool = row_is_current(rows, unmanaged, i) && match rows[i].age {
            Some(age) => age >= after_days as i64 * MILLISECONDS_PER_DAY,
            None => false,
        };
        proof {
            assert(due == keep(i as int));
        }
        if due {
            targets.push(
                RefreshTarget {
                    app_id: rows[i].target.app_id,
                    device_id: rows[i].target.device_id,
                    storage_path: rows[i].storage_path.clone(),
                },
            );
        }
        i = i + 1;
    }
    targets
}

pub open spec fn is_attention_of(item: RefreshAttention, rows: Seq<JobRow>, at: int) -> bool {
    &&& item.app_id == rows[at].target.app_id
    &&& item.device_label@ == rows[at].device_label@
    &&& item.age_hours == rows[at].age->0 / MILLISECONDS_PER_HOUR
    &&& item.retry_failed == failed_since(rows, at)
}

fn has_failed_since(rows: &Vec<JobRow>, at: usize) -> (failed: bool)
    requires
        at < rows.len(),
        rows@[at as int].completed_at is Some,
    ensures
        failed == failed_since(rows@, at as int),
{
    let completed: &str = match &rows[at].completed_at {
        Some(completed) => completed.as_str(),
        None => "",
    };
    let mut i: usize = 0;
    while i < rows.len()
        invariant
            i <= rows.len(),
            at < rows.len(),
            completed@ == rows@[at as int].completed_at->0@,
            forall|k: int|
                0 <= k < i ==> !((#[trigger] rows@[k]).target == rows@[at as int].target
                    && rows@[k].phase@ == "failed"@ && text::text_less(
                    completed@,
                    rows@[k].created_at@,
                )),
        decreases rows.len() - i,
    {
        if rows[i].target == rows[at].target && text::same_text(rows[i].phase.as_str(), "failed")
            && text::comes_before(completed, rows[i].created_at.as_str()) {
            return true;
        }
        i = i + 1;
    }
    false
}

/// The rows that come close to their refresh, in their order.
pub open spec fn are_attentions(
    items: Seq<RefreshAttention>,
    rows: Seq<JobRow>,
    unmanaged: Seq<Installation>,
    after_days: u8,
) -> bool {
    let close = kept(|i: int| needs_attention(rows, unmanaged, after_days, i), rows.len());
    &&& items.len() == close.len()
    &&& forall|k: int| 0 <= k < close.len() ==> is_attention_of(#[trigger] items[k], rows, close[k])
}

/// The installations that come close to their refresh, in the order of the rows.
pub fn refresh_attention(
    rows: &Vec<JobRow>,
    unmanaged: &Vec<Installation>,
    after_days: u8,
) -> (items: Vec<RefreshAttention>)
    ensures
        are_attentions(items@, rows@, unmanaged@, after_days),
{
    let ghost keep = |i: int| needs_attention(rows@, unmanaged@, after_days, i);
    let days: i64 = if after_days == 0 {
        0
    } else {
        after_days as i64 - 1
    };
    let mut items: Vec<RefreshAttention> = Vec::new();
    let mut i: usize = 0;
    while i < rows.len()
        invariant
            i <= rows.len(),
            0 <= days <= 255,
            days * MILLISECONDS_PER_DAY == attention_age(after_days),
            keep == (|i: int| needs_attention(rows@, unmanaged@, after_days, i)),
            items@.len() == kept(keep, i as nat).len(),
            forall|k: int|
                0 <= k < items@.len() ==> is_attention_of(
                    #[trigger] items@[k],
                    rows@,
                    kept(keep, i as nat)[k],
                ),
        decreases rows.len() - i,
    {
        let current: bool = row_is_current(rows, unmanaged, i);
        let age: Option<i64> = rows[i].age;
        match age {
            Some(age) => {
                proof {
                    assert(keep(i as int) == (current && age >= days * MILLISECONDS_PER_DAY));
                }
                if current && age >= days * MILLISECONDS_PER_DAY {
                    items.push(
                        RefreshAttention {
                            app_id: rows[i].target.app_id,
                            device_label: rows[i].device_label.clone(),
                            age_hours: age / MILLISECONDS_PER_HOUR,
                            retry_failed: has_failed_since(rows, i),
                        },
                    );
                }
            },
            None => {
                proof {
                    assert(!keep(i as int));
                }
            },
        }
        i = i + 1;
    }
    items
}

/// The days that a signature of the given age is still valid.
pub fn remaining_days(age: i64) -> (days: i64)
    ensures
        days == remaining_days_of(age as int),
{
    if age >= VALIDITY_MILLISECONDS {
        0
    } else {
        let left: i128 = VALIDITY_MILLISECONDS as i128 - age as i128;
        let days: i128 = left / MILLISECONDS_PER_DAY as i128;
        days as i64
    }
}

pub open spec fn is_validity_of(item: InstallationValidity, row: JobRow) -> bool {
    &&& row.age is Some
    &&& item.app_id == row.target.app_id
    &&& item.device_label@ == row.device_label@
    &&& item.remaining_days == remaining_days_of(row.age->0 as int)
    &&& item.completed_at@ == row.completed_at->0@
}

impl Ranked for InstallationValidity {
    /// What was completed later comes first.
    open spec fn precedes(self, other: Self) -> bool {
        text::text_less(other.completed_at@, self.completed_at@)
    }

    proof fn precedence_is_asymmetric(a: Self, b: Self) {
        text::text_order_is_asymmetric(b.completed_at@, a.completed_at@);
    }

    proof fn precedence_is_transitive(a: Self, b: Self, c: Self) {
        text::text_at_most_is_transitive(c.completed_at@, b.completed_at@, a.completed_at@);
    }

    fn comes_first(&self, other: &Self) -> (before: bool) {
        text::comes_before(other.completed_at.as_str(), self.completed_at.as_str())
    }
}

/// The validities of the current installations, in the order of the rows.
pub open spec fn are_validities(
    items: Seq<InstallationValidity>,
    rows: Seq<JobRow>,
    unmanaged: Seq<Installation>,
) -> bool {
    let current = kept(|i: int| is_current(rows, unmanaged, i), rows.len());
    &&& items.len() == current.len()
    &&& forall|k: int|
        0 <= k < current.len() ==> is_validity_of(#[trigger] items[k], rows[current[k]])
}

/// How long the current installations stay valid, those first that were completed last; nothing
/// where the age of one of them is not known.
pub fn installation_validity(rows: &Vec<JobRow>, unmanaged: &Vec<Installation>) -> (result: Option<
    Vec<InstallationValidity>,
>)
    ensures
        match result {
            Some(items) => exists|listed: Seq<InstallationValidity>| #[trigger]
                are_validities(listed, rows@, unmanaged@) && items@ == sorting::stable_sorted(
                    listed,
                ),
            None => exists|i: int| #[trigger]
                is_current(rows@, unmanaged@, i) && rows@[i].age is None,
        },
{
    let ghost keep = |i: int| is_current(rows@, unmanaged@, i);
    let mut items: Vec<InstallationValidity> = Vec::new();
    let mut i: usize = 0;
    while i < rows.len()
        invariant
            i <= rows.len(),
            keep == (|i: int| is_current(rows@, unmanaged@, i)),
            items@.len() == kept(keep, i as nat).len(),
            forall|k: int|
                0 <= k < items@.len() ==> is_validity_of(
                    #[trigger] items@[k],
                    rows@[kept(keep, i as nat)[k]],
                ),
        decreases rows.len() - i,
    {
        let current: bool = row_is_current(rows, unmanaged, i);
        proof {
            assert(current == keep(i as int));
        }
        if current {
            let age: i64 = match rows[i].age {
                Some(age) => age,
                None => {
                    proof {
                        assert(is_current(rows@, unmanaged@, i as int));
                    }
                    return None;
                },
            };
            if let Some(completed) = &rows[i].completed_at {
                items.push(
                    InstallationValidity {
                        app_id: rows[i].target.app_id,
                        device_label: rows[i].device_label.clone(),
                        remaining_days: remaining_days(age),
                        completed_at: completed.clone(),
                    },
                );
            }
        }
        i = i + 1;
    }
    proof {
        assert(are_validities(items@, rows@, unmanaged@));
    }
    Some(sorting::sort(items))
}

pub open spec fn is_installation_of(item: ManagedInstallation, row: JobRow) -> bool {
    &&& item.app_id == row.target.app_id
    &&& item.device_id == row.target.device_id
    &&& item.app_display_name@ == row.app_display_name@
    &&& text::text_view(item.app_version) == text::text_view(row.app_version)
    &&& item.device_label@ == row.device_label@
}

impl Ranked for ManagedInstallation {
    /// By the device, and on one device by the app.
    open spec fn precedes(self, other: Self) -> bool {
        ||| text::text_less(self.device_label@, other.device_label@)
        ||| self.device_label@ == other.device_label@ && text::text_less(
            self.app_display_name@,
            other.app_display_name@,
        )
    }

    proof fn precedence_is_asymmetric(a: Self, b: Self) {
        text::text_order_is_irreflexive(a.device_label@);
        if text::text_less(a.device_label@, b.device_label@) {
            text::text_order_is_asymmetric(a.device_label@, b.device_label@);
        } else {
            text::text_order_is_asymmetric(a.app_display_name@, b.app_display_name@);
        }
    }

    proof fn precedence_is_transitive(a: Self, b: Self, c: Self) {
        text::text_at_most_is_transitive(a.device_label@, b.device_label@, c.device_label@);
        if a.device_label@ == c.device_label@ {
            text::text_order_is_total(a.device_label@, b.device_label@);
            text::text_at_most_is_transitive(
                a.app_display_name@,
                b.app_display_name@,
                c.app_display_name@,
            );
        }
    }

    fn comes_first(&self, other: &Self) -> (before: bool) {
        if text::same_text(self.device_label.as_str(), other.device_label.as_str()) {
            proof {
                text::text_order_is_irreflexive(self.device_label@);
            }
            text::comes_before(self.app_display_name.as_str(), other.app_display_name.as_str())
        } else {
            text::comes_before(self.device_label.as_str(), other.device_label.as_str())
        }
    }
}

/// The current installations, in the order of the rows.
pub open spec fn are_installations(
    items: Seq<ManagedInstallation>,
    rows: Seq<JobRow>,
    unmanaged: Seq<Installation>,
) -> bool {
    let current = kept(|i: int| is_current(rows, unmanaged, i), rows.len());
    &&& items.len() == current.len()
    &&& forall|k: int|
        0 <= k < current.len() ==> is_installation_of(#[trigger] items[k], rows[current[k]])
}

/// The installations that are managed now, by their devices and apps.
pub fn list_managed_installations(rows: &Vec<JobRow>, unmanaged: &Vec<Installation>) -> (items: Vec<
    ManagedInstallation,
>)
    ensures
        exists|listed: Seq<ManagedInstallation>| #[trigger]
            are_installations(listed, rows@, unmanaged@) && items@ == sorting::stable_sorted(listed),
{
    let ghost keep = |i: int| is_current(rows@, unmanaged@, i);
    let mut items: Vec<ManagedInstallation> = Vec::new();
    let mut i: usize = 0;
    while i < rows.len()
        invariant
            i <= rows.len(),
            keep == (|i: int| is_current(rows@, unmanaged@, i)),
            items@.len() == kept(keep, i as nat).len(),
            forall|k: int|
                0 <= k < items@.len() ==> is_installation_of(
                    #[trigger] items@[k],
                    rows@[kept(keep, i as nat)[k]],
                ),
        decreases rows.len() - i,
    {
        let current: bool = row_is_current(rows, unmanaged, i);
        proof {
            assert(current == keep(i as int));
        }
        if current {
            items.push(
                ManagedInstallation {
                    app_id: rows[i].target.app_id,
                    device_id: rows[i].target.device_id,
                    app_display_name: rows[i].app_display_name.clone(),
                    app_version: copy_text(&rows[i].app_version),
                    device_label: rows[i].device_label.clone(),
                },
            );
        }
        i = i + 1;
    }
    proof {
        assert(are_installations(items@, rows@, unmanaged@));
    }
    sorting::sort(items)
}

fn same_optional(a: &Option<String>, b: &Option<String>) -> (same: bool)
    ensures
        same == (text::text_view(*a) == text::text_view(*b)),
{
    match (a, b) {
        (Some(a), Some(b)) => text::same_text(a.as_str(), b.as_str()),
        (None, None) => true,
        _ => false,
    }
}

fn row_tells_identity(
    rows: &Vec<JobRow>,
    unmanaged: &Vec<Installation>,
    device: RecordId,
    at: usize,
) -> (tells: bool)
    requires
        at < rows.len(),
    ensures
        tells == tells_identity(rows@, unmanaged@, device, at as int),
{
    if rows[at].target.device_id != device || !text::same_text(
        rows[at].phase.as_str(),
        "succeeded",
    ) || is_unmanaged(unmanaged, rows[at].target) {
        return false;
    }
    if rows[at].installed_bundle_id.is_some() {
        return true;
    }
    let mut i: usize = 0;
    while i < rows.len()
        invariant
            i <= rows.len(),
            at < rows.len(),
            rows@[at as int].installed_bundle_id is None,
            forall|k: int|
                0 <= k < i && (#[trigger] rows@[k]).target == rows@[at as int].target && succeeded(
                    rows@[k],
                ) ==> rows@[k].installed_bundle_id is None,
        decreases rows.len() - i,
    {
        if rows[i].target == rows[at].target && text::same_text(
            rows[i].phase.as_str(),
            "succeeded",
        ) && rows[i].installed_bundle_id.is_some() {
            proof {
                assert(rows@[i as int].target == rows@[at as int].target);
            }
            return false;
        }
        i = i + 1;
    }
    true
}

/// The identities under which this server's apps stand on a device, each once.
pub fn managed_app_identities(
    rows: &Vec<JobRow>,
    unmanaged: &Vec<Installation>,
    device: RecordId,
) -> (identities: Vec<ManagedAppIdentity>)
    ensures
        forall|i: int| #[trigger]
            tells_identity(rows@, unmanaged@, device, i) ==> exists|k: int|
                0 <= k < identities@.len() && (#[trigger] identities@[k])@ == identity_of(rows@[i]),
        forall|k: int|
            0 <= k < identities@.len() ==> is_told(
                rows@,
                unmanaged@,
                device,
                (#[trigger] identities@[k])@,
            ),
        forall|j: int, k: int|
            0 <= j < k < identities@.len() ==> (#[trigger] identities@[j])@ != (
            #[trigger] identities@[k])@,
{
    let mut identities: Vec<ManagedAppIdentity> = Vec::new();
    let mut i: usize = 0;
    while i < rows.len()
        invariant
            i <= rows.len(),
            forall|r: int|
                r < i && #[trigger] tells_identity(rows@, unmanaged@, device, r) ==> exists|k: int|
                    0 <= k < identities@.len() && (#[trigger] identities@[k])@ == identity_of(
                        rows@[r],
                    ),
            forall|k: int|
                0 <= k < identities@.len() ==> is_told(
                    rows@,
                    unmanaged@,
                    device,
                    (#[trigger] identities@[k])@,
                ),
            forall|j: int, k: int|
                0 <= j < k < identities@.len() ==> (#[trigger] identities@[j])@ != (
                #[trigger] identities@[k])@,
        decreases rows.len() - i,
    {
        if row_tells_identity(rows, unmanaged, device, i) {
            let ghost own = identity_of(rows@[i as int]);
            let mut known: bool = false;
            let mut k: usize = 0;
            while k < identities.len()
                invariant
                    k <= identities.len(),
                    i < rows.len(),
                    own == identity_of(rows@[i as int]),
                    known ==> exists|j: int| 0 <= j < k && (#[trigger] identities@[j])@ == own,
                    !known ==> forall|j: int| 0 <= j < k ==> (#[trigger] identities@[j])@ != own,
                decreases identities.len() - k,
            {
                if same_optional(&identities[k].installed_bundle_id, &rows[i].installed_bundle_id)
                    && same_optional(&identities[k].source_bundle_id, &rows[i].app_bundle_id) {
                    proof {
                        assert(identities@[k as int]@ == own);
                    }
                    known = true;
                }
                k = k + 1;
            }
            if !known {
                let ghost before = identities@;
                identities.push(
                    ManagedAppIdentity {
                        installed_bundle_id: copy_text(&rows[i].installed_bundle_id),
                        source_bundle_id: copy_text(&rows[i].app_bundle_id),
                    },
                );
                proof {
                    assert(identities@[before.len() as int]@ == own);
                    assert forall|r: int|
                        r < i + 1 && #[trigger] tells_identity(rows@, unmanaged@, device, r)
                        implies exists|k: int|
                        0 <= k < identities@.len() && (#[trigger] identities@[k])@ == identity_of(
                            rows@[r],
                        ) by {
                        if r < i {
                            let k = choose|k: int|
                                0 <= k < before.len() && (#[trigger] before[k])@ == identity_of(
                                    rows@[r],
                                );
                            assert(identities@[k]@ == identity_of(rows@[r]));
                        }
                    }
                    assert forall|k: int| 0 <= k < identities@.len() implies is_told(
                        rows@,
                        unmanaged@,
                        device,
                        (#[trigger] identities@[k])@,
                    ) by {
                        if k < before.len() {
                            assert(identities@[k] == before[k]);
                        } else {
                            assert(tells_identity(rows@, unmanaged@, device, i as int));
                        }
                    }
                }
            }
        }
        i = i + 1;
    }
    identities
}

/// Whether a job of the app on the device has not come to its end.
pub fn active_job_exists(rows: &Vec<JobRow>, app_id: RecordId, device_id: RecordId) -> (active:
    bool)
    ensures
        active == has_active_job(rows@, app_id, Some(device_id)),
{
    active_job(rows, app_id, Some(device_id))
}

/// Whether a job of the app, on any device, has not come to its end.
pub fn active_job_exists_for_app(rows: &Vec<JobRow>, app_id: RecordId) -> (active: bool)
    ensures
        active == has_active_job(rows@, app_id, None),
{
    active_job(rows, app_id, None)
}

fn active_job(rows: &Vec<JobRow>, app_id: RecordId, device_id: Option<RecordId>) -> (active: bool)
    ensures
        active == has_active_job(rows@, app_id, device_id),
{
    let mut i: usize = 0;
    while i < rows.len()
        invariant
            i <= rows.len(),
            forall|k: int|
                0 <= k < i ==> !((#[trigger] rows@[k]).target.app_id == app_id && (device_id is Some
                    ==> rows@[k].target.device_id == device_id->0) && is_active_phase(
                    rows@[k].phase@,
                )),
        decreases rows.len() - i,
    {
        let here: bool = match device_id {
            Some(device_id) => rows[i].target.device_id == device_id,
            None => true,
        };
        if rows[i].target.app_id == app_id && here && active_phase(rows[i].phase.as_str()) {
            return true;
        }
        i = i + 1;
    }
    false
}

/// Takes an installation out of management, unless a job for it is active.
pub fn forget_managed_installation(
    rows: &Vec<JobRow>,
    unmanaged: &mut Vec<Installation>,
    app_id: RecordId,
    device_id: RecordId,
) -> (done: bool)
    ensures
        done == !has_active_job(rows@, app_id, Some(device_id)),
        final(unmanaged)@ == if done {
            forgotten(old(unmanaged)@, Installation { app_id, device_id })
        } else {
            old(unmanaged)@
        },
{
    if active_job_exists(rows, app_id, device_id) {
        return false;
    }
    let target: Installation = Installation { app_id, device_id };
    if !is_unmanaged(unmanaged, target) {
        unmanaged.push(target);
    }
    true
}

/// Puts an installation back into management.
pub fn restore_managed_installation(
    unmanaged: &Vec<Installation>,
    app_id: RecordId,
    device_id: RecordId,
) -> (kept: Vec<Installation>)
    ensures
        kept@ == restored(unmanaged@, (Installation { app_id, device_id })),
{
    let target: Installation = Installation { app_id, device_id };
    let mut kept: Vec<Installation> = Vec::new();
    let mut i: usize = 0;
    proof {
        reveal(Seq::filter);
        assert(unmanaged@.take(0) == Seq::<Installation>::empty());
    }
    while i < unmanaged.len()
        invariant
            i <= unmanaged.len(),
            kept@ == restored(unmanaged@.take(i as int), target),
        decreases unmanaged.len() - i,
    {
        proof {
            reveal(Seq::filter);
            assert(unmanaged@.take(i + 1).drop_last() == unmanaged@.take(i as int));
            assert(unmanaged@.take(i + 1).last() == unmanaged@[i as int]);
        }
        if unmanaged[i] != target {
            kept.push(unmanaged[i]);
        }
        i = i + 1;
    }
    proof {
        assert(unmanaged@.take(i as int) == unmanaged@);
    }
    kept
}

/// Whether a job with one of these phases has not come to its end.
pub fn any_active_phase(phases: &Vec<String>) -> (active: bool)
    ensures
        active == exists|i: int| 0 <= i < phases@.len() && is_active_phase((#[trigger] phases@[i])@),
{
    let mut i: usize = 0;
    while i < phases.len()
        invariant
            i <= phases.len(),
            forall|k: int| 0 <= k < i ==> !is_active_phase((#[trigger] phases@[k])@),
        decreases phases.len() - i,
    {
        if active_phase(phases[i].as_str()) {
            return true;
        }
        i = i + 1;
    }
    false
}

/// A stored app with the time at which it was removed, where it was.
#[derive(Debug)]
pub struct AppRow {
    pub app: StoredApp,
    pub deleted_at: Option<String>,
}

/// The first app with an identifier that was not removed.
pub open spec fn app_with(rows: Seq<AppRow>, id: RecordId) -> Option<StoredApp>
    decreases rows.len(),
{
    if rows.len() == 0 {
        None
    } else if rows[0].app.id == id && rows[0].deleted_at is None {
        Some(rows[0].app)
    } else {
        app_with(rows.skip(1), id)
    }
}

/// The path of an app that was not removed.
pub fn app_path(rows: &Vec<AppRow>, id: RecordId) -> (path: Option<String>)
    ensures
        path == match app_with(rows@, id) {
            Some(app) => Some(app.storage_path),
            None => None,
        },
{
    let mut i: usize = 0;
    proof {
        assert(rows@.skip(0) == rows@);
    }
    while i < rows.len()
        invariant
            i <= rows@.len(),
            app_with(rows@, id) == app_with(rows@.skip(i as int), id),
        decreases rows@.len() - i,
    {
        proof {
            assert(rows@.skip(i as int).skip(1) == rows@.skip(i + 1));
        }
        if rows[i].app.id == id && rows[i].deleted_at.is_none() {
            return Some(rows[i].app.storage_path.clone());
        }
        i = i + 1;
    }
    None
}

/// The apps that were not removed, in their order.
pub open spec fn listed_apps(rows: Seq<AppRow>) -> Seq<StoredApp>
    decreases rows.len(),
{
    if rows.len() == 0 {
        Seq::empty()
    } else if rows[0].deleted_at is None {
        seq![rows[0].app] + listed_apps(rows.skip(1))
    } else {
        listed_apps(rows.skip(1))
    }
}

/// The apps that were not removed, in their order.
pub fn list_apps(rows: Vec<AppRow>) -> (apps: Vec<StoredApp>)
    ensures
        apps@ == listed_apps(rows@),
{
    let mut left: Vec<AppRow> = rows;
    let mut turned: Vec<StoredApp> = Vec::new();
    let ghost mut at: int = rows@.len() as int;
    proof {
        assert(rows@.take(at) == rows@);
        assert(listed_apps(rows@.skip(at)) == Seq::<StoredApp>::empty());
        assert(turned@.reverse() == Seq::<StoredApp>::empty());
    }
    while left.len() > 0
        invariant
            0 <= at <= rows@.len(),
            left@ == rows@.take(at),
            turned@.reverse() == listed_apps(rows@.skip(at)),
        decreases left@.len(),
    {
        let ghost before = turned@;
        match left.pop() {
            Some(row) => {
                proof {
                    at = at - 1;
                    assert(row == rows@[at]);
                    assert(rows@.skip(at)[0] == row);
                    assert(rows@.skip(at).skip(1) == rows@.skip(at + 1));
                    assert(left@ == rows@.take(at));
                }
                if row.deleted_at.is_none() {
                    turned.push(row.app);
                    proof {
                        assert(turned@.reverse() == seq![row.app] + before.reverse());
                    }
                }
            },
            None => {},
        }
    }
    proof {
        assert(rows@.skip(0) == rows@);
    }
    let mut apps: Vec<StoredApp> = Vec::new();
    let ghost all = turned@;
    while turned.len() > 0
        invariant
            apps@ + turned@.reverse() == all.reverse(),
        decreases turned@.len(),
    {
        let ghost done = apps@;
        let ghost rest = turned@;
        match turned.pop() {
            Some(app) => {
                apps.push(app);
                proof {
                    assert(rest == turned@.push(app));
                    assert(rest.reverse() == seq![app] + turned@.reverse());
                    assert(apps@ + turned@.reverse() == done + rest.reverse());
                }
            },
            None => {},
        }
    }
    proof {
        assert(apps@ == all.reverse());
    }
    apps
}

/// The row of an app after an app was removed at a time.
pub open spec fn removed_row(row: AppRow, app_id: RecordId, now: String) -> AppRow {
    if row.app.id == app_id && row.deleted_at is None {
        AppRow { deleted_at: Some(now), ..row }
    } else {
        row
    }
}

/// A source that downloads nothing by itself any more.
pub open spec fn without_automation(source: GitHubSource, now: String) -> GitHubSource {
    GitHubSource { auto_download: false, auto_acknowledged_at: None, updated_at: now, ..source }
}

/// A source after an app was removed.
pub open spec fn source_without_app(
    source: GitHubSource,
    app_id: RecordId,
    now: String,
) -> GitHubSource {
    if source.app_id == Some(app_id) {
        without_automation(source, now)
    } else {
        source
    }
}

fn remove_rows(rows: &mut Vec<AppRow>, app_id: RecordId, now: &String)
    ensures
        final(rows)@ == old(rows)@.map_values(|row: AppRow| removed_row(row, app_id, *now)),
{
    let ghost all = rows@;
    let mut i: usize = 0;
    while i < rows.len()
        invariant
            i <= rows@.len(),
            rows@.len() == all.len(),
            forall|k: int| 0 <= k < i ==> #[trigger] rows@[k] == removed_row(all[k], app_id, *now),
            forall|k: int| i <= k < all.len() ==> #[trigger] rows@[k] == all[k],
        decreases rows@.len() - i,
    {
        if rows[i].app.id == app_id && rows[i].deleted_at.is_none() {
            let row: &mut AppRow = &mut rows[i];
            row.deleted_at = Some(now.clone());
        }
        i = i + 1;
    }
    proof {
        assert(rows@ == all.map_values(|row: AppRow| removed_row(row, app_id, *now)));
    }
}

fn end_automation(sources: &mut Vec<GitHubSource>, app_id: RecordId, now: &String)
    ensures
        final(sources)@ == old(sources)@.map_values(
            |source: GitHubSource| source_without_app(source, app_id, *now),
        ),
{
    let ghost all = sources@;
    let mut i: usize = 0;
    while i < sources.len()
        invariant
            i <= sources@.len(),
            sources@.len() == all.len(),
            forall|k: int|
                0 <= k < i ==> #[trigger] sources@[k] == source_without_app(all[k], app_id, *now),
            forall|k: int| i <= k < all.len() ==> #[trigger] sources@[k] == all[k],
        decreases sources@.len() - i,
    {
        let linked: bool = match sources[i].app_id {
            Some(found) => found == app_id,
            None => false,
        };
        if linked {
            end_source_automation(&mut sources[i], now.clone());
        }
        i = i + 1;
    }
    proof {
        assert(sources@ == all.map_values(
            |source: GitHubSource| source_without_app(source, app_id, *now),
        ));
    }
}

/// Removes an app. One that is not stored, or was removed before, is not found, and one with an
/// active job stays; neither changes anything. Otherwise the app is marked as removed and its sources
/// download no more by themselves. All else stays as it is, and so do the jobs.
pub fn mark_app_deleted(
    jobs: &Vec<JobRow>,
    rows: &mut Vec<AppRow>,
    sources: &mut Vec<GitHubSource>,
    app_id: RecordId,
    now: String,
) -> (deletion: AppDeletion)
    ensures
        deletion == match app_with(old(rows)@, app_id) {
            None => AppDeletion::NotFound,
            Some(app) => if has_active_job(jobs@, app_id, None) {
                AppDeletion::ActiveJob
            } else {
                AppDeletion::Ready { storage_path: app.storage_path }
            },
        },
        deletion is Ready ==> {
            &&& final(rows)@ == old(rows)@.map_values(|row: AppRow| removed_row(row, app_id, now))
            &&& final(sources)@ == old(sources)@.map_values(
                |source: GitHubSource| source_without_app(source, app_id, now),
            )
        },
        !(deletion is Ready) ==> final(rows)@ == old(rows)@ && final(sources)@ == old(sources)@,
{
    match app_path(rows, app_id) {
        None => AppDeletion::NotFound,
        Some(storage_path) => if active_job_exists_for_app(jobs, app_id) {
            AppDeletion::ActiveJob
        } else {
            remove_rows(rows, app_id, &now);
            end_automation(sources, app_id, &now);
            AppDeletion::Ready { storage_path }
        },
    }
}

/// The row of an app after an app was restored.
pub open spec fn restored_row(row: AppRow, app_id: RecordId) -> AppRow {
    if row.app.id == app_id {
        AppRow { deleted_at: None, ..row }
    } else {
        row
    }
}

/// Restores an app whose file could not be removed.
pub fn restore_app(rows: &mut Vec<AppRow>, app_id: RecordId)
    ensures
        final(rows)@ == old(rows)@.map_values(|row: AppRow| restored_row(row, app_id)),
{
    let ghost all = rows@;
    let mut i: usize = 0;
    while i < rows.len()
        invariant
            i <= rows@.len(),
            rows@.len() == all.len(),
            forall|k: int| 0 <= k < i ==> #[trigger] rows@[k] == restored_row(all[k], app_id),
            forall|k: int| i <= k < all.len() ==> #[trigger] rows@[k] == all[k],
        decreases rows@.len() - i,
    {
        if rows[i].app.id == app_id {
            let row: &mut AppRow = &mut rows[i];
            row.deleted_at = None;
        }
        i = i + 1;
    }
    proof {
        assert(rows@ == all.map_values(|row: AppRow| restored_row(row, app_id)));
    }
}

/// The apps that were not removed, without one of them.
pub open spec fn other_apps(apps: Seq<StoredApp>, app_id: RecordId) -> Seq<StoredApp>
    decreases apps.len(),
{
    if apps.len() == 0 {
        Seq::empty()
    } else if apps[0].id == app_id {
        other_apps(apps.skip(1), app_id)
    } else {
        seq![apps[0]] + other_apps(apps.skip(1), app_id)
    }
}

/// An app that was removed is found no more and listed no more; every other app is found and listed
/// as before.
pub proof fn removed_apps_are_gone(
    rows: Seq<AppRow>,
    app_id: RecordId,
    now: String,
    other: RecordId,
)
    ensures
        ({
            let after = rows.map_values(|row: AppRow| removed_row(row, app_id, now));
            &&& app_with(after, app_id) is None
            &&& other != app_id ==> app_with(after, other) == app_with(rows, other)
            &&& listed_apps(after) == other_apps(listed_apps(rows), app_id)
        }),
    decreases rows.len(),
{
    let change = |row: AppRow| removed_row(row, app_id, now);
    if rows.len() > 0 {
        removed_apps_are_gone(rows.skip(1), app_id, now, other);
        assert(rows.map_values(change).skip(1) == rows.skip(1).map_values(change));
        let rest = listed_apps(rows.skip(1));
        if rows[0].deleted_at is None {
            let all = seq![rows[0].app] + rest;
            assert(all[0] == rows[0].app);
            assert(all.skip(1) == rest);
        }
    }
}

/// Where an app was removed, its sources download nothing by themselves and keep no acknowledgement;
/// a source of another app, or of none, stays as it was.
pub proof fn removed_apps_end_their_automation(
    sources: Seq<GitHubSource>,
    app_id: RecordId,
    now: String,
    at: int,
)
    requires
        0 <= at < sources.len(),
    ensures
        ({
            let after = sources.map_values(
                |source: GitHubSource| source_without_app(source, app_id, now),
            );
            &&& sources[at].app_id == Some(app_id) ==> !after[at].auto_download
                && after[at].auto_acknowledged_at is None
            &&& sources[at].app_id != Some(app_id) ==> after[at] == sources[at]
        }),
{
}

/// Restoring an app gives back what removing it took.
pub proof fn restoring_undoes_removing(rows: Seq<AppRow>, app_id: RecordId, now: String)
    requires
        forall|i: int|
            0 <= i < rows.len() && (#[trigger] rows[i]).app.id == app_id ==> rows[i].deleted_at
                is None,
    ensures
        rows.map_values(|row: AppRow| removed_row(row, app_id, now)).map_values(
            |row: AppRow| restored_row(row, app_id),
        ) == rows,
{
    let after = rows.map_values(|row: AppRow| removed_row(row, app_id, now)).map_values(
        |row: AppRow| restored_row(row, app_id),
    );
    assert forall|i: int| 0 <= i < rows.len() implies after[i] == rows[i] by {}
    assert(after == rows);
}

// ---------------------------------------------------------------------------------------------
// Changes.
// ---------------------------------------------------------------------------------------------

/// The row of a new app. A row has no version where its IPA tells none.
pub fn insert_app(
    id: RecordId,
    metadata: &UploadMetadata,
    display_name: &str,
    storage_path: &str,
) -> (app: StoredApp)
    ensures
        app.id == id,
        app.sha256@ == metadata.sha256@,
        app.size_bytes == metadata.size_bytes,
        app.display_name@ == display_name@,
        text::text_view(app.app_version) == text::text_view(metadata.app_version),
        text::text_view(app.bundle_id) == Some(metadata.bundle_id@),
        app.storage_path@ == storage_path@,
{
    StoredApp {
        id,
        sha256: metadata.sha256.clone(),
        size_bytes: metadata.size_bytes,
        display_name: display_name.to_owned(),
        app_version: copy_text(&metadata.app_version),
        bundle_id: Some(metadata.bundle_id.clone()),
        storage_path: storage_path.to_owned(),
    }
}

/// Replaces the IPA of an app. The app keeps its name.
pub fn replace_app_from_source(app: &mut StoredApp, metadata: &UploadMetadata, storage_path: &str)
    ensures
        final(app).id == old(app).id,
        final(app).display_name == old(app).display_name,
        final(app).sha256@ == metadata.sha256@,
        final(app).size_bytes == metadata.size_bytes,
        text::text_view(final(app).app_version) == text::text_view(metadata.app_version),
        text::text_view(final(app).bundle_id) == Some(metadata.bundle_id@),
        final(app).storage_path@ == storage_path@,
{
    app.sha256 = metadata.sha256.clone();
    app.size_bytes = metadata.size_bytes;
    app.app_version = copy_text(&metadata.app_version);
    app.bundle_id = Some(metadata.bundle_id.clone());
    app.storage_path = storage_path.to_owned();
}

/// A new job of an app on a device. It keeps the name and the version that the app has now.
pub open spec fn is_new_job(
    job: StoredJob,
    app: StoredApp,
    id: RecordId,
    device_id: RecordId,
    device_label: Seq<char>,
) -> bool {
    &&& job.id == id
    &&& job.app_id == app.id
    &&& job.device_id == device_id
    &&& job.phase@ == "queued"@
    &&& job.progress_percent is None
    &&& job.device_label@ == device_label
    &&& job.completed_at is None
    &&& job.failure_code is None
    &&& job.app_display_name@ == app.display_name@
    &&& text::text_view(job.app_version) == text::text_view(app.app_version)
}

/// The row of a new job. There is none for an app that is not stored or was removed.
pub fn insert_job(
    app: Option<&StoredApp>,
    removed: bool,
    id: RecordId,
    device_id: RecordId,
    device_label: &str,
    now: String,
) -> (job: Option<StoredJob>)
    ensures
        job is Some == (app is Some && !removed),
        job matches Some(job) ==> {
            &&& is_new_job(job, *app->0, id, device_id, device_label@)
            &&& job.created_at == now
        },
{
    match app {
        Some(app) if !removed => Some(
            StoredJob {
                id,
                app_id: app.id,
                device_id,
                phase: "queued".to_owned(),
                progress_percent: None,
                device_label: device_label.to_owned(),
                created_at: now,
                completed_at: None,
                failure_code: None,
                app_display_name: app.display_name.clone(),
                app_version: copy_text(&app.app_version),
            },
        ),
        _ => None,
    }
}

/// The first job with an identifier.
pub open spec fn job_with(jobs: Seq<StoredJob>, id: RecordId) -> Option<StoredJob>
    decreases jobs.len(),
{
    if jobs.len() == 0 {
        None
    } else if jobs[0].id == id {
        Some(jobs[0])
    } else {
        job_with(jobs.skip(1), id)
    }
}

/// The job with an identifier among the stored ones.
pub fn find_job(jobs: Vec<StoredJob>, id: RecordId) -> (job: Option<StoredJob>)
    ensures
        job == job_with(jobs@, id),
{
    let mut stored: Vec<StoredJob> = jobs;
    let mut i: usize = 0;
    proof {
        assert(jobs@.skip(0) == jobs@);
    }
    while i < stored.len()
        invariant
            stored == jobs,
            i <= jobs@.len(),
            job_with(jobs@, id) == job_with(jobs@.skip(i as int), id),
        decreases jobs@.len() - i,
    {
        proof {
            assert(jobs@.skip(i as int).skip(1) == jobs@.skip(i + 1));
        }
        if stored[i].id == id {
            return Some(stored.swap_remove(i));
        }
        i = i + 1;
    }
    None
}

/// The stored jobs with a row that may be new.
pub open spec fn jobs_with(jobs: Seq<StoredJob>, job: Option<StoredJob>) -> Seq<StoredJob> {
    match job {
        Some(job) => jobs.push(job),
        None => jobs,
    }
}

proof fn lemma_pushed_job(jobs: Seq<StoredJob>, job: StoredJob, id: RecordId)
    ensures
        job_with(jobs.push(job), id) == match job_with(jobs, id) {
            Some(found) => Some(found),
            None => if job.id == id {
                Some(job)
            } else {
                None
            },
        },
    decreases jobs.len(),
{
    if jobs.len() > 0 {
        lemma_pushed_job(jobs.skip(1), job, id);
        assert(jobs.push(job).skip(1) == jobs.skip(1).push(job));
    } else {
        assert(jobs.push(job).skip(1).len() == 0);
        reveal_with_fuel(job_with, 2);
    }
}

/// A job that was stored under a fresh identifier is found with what its app was then, whatever
/// becomes of the app, and beside it every other job as before. For an app that is not stored or was
/// removed there is no job to find.
pub proof fn inserted_jobs_are_found(
    jobs: Seq<StoredJob>,
    app: Option<StoredApp>,
    removed: bool,
    job: Option<StoredJob>,
    id: RecordId,
    device_id: RecordId,
    device_label: Seq<char>,
    other: RecordId,
)
    requires
        job_with(jobs, id) is None,
        job is Some == (app is Some && !removed),
        job is Some ==> is_new_job(job->0, app->0, id, device_id, device_label),
    ensures
        app is Some && !removed ==> {
            &&& job_with(jobs_with(jobs, job), id) matches Some(found)
            &&& is_new_job(found, app->0, id, device_id, device_label)
        },
        app is None || removed ==> job_with(jobs_with(jobs, job), id) is None,
        other != id ==> job_with(jobs_with(jobs, job), other) == job_with(jobs, other),
{
    if let Some(job) = job {
        lemma_pushed_job(jobs, job, id);
        lemma_pushed_job(jobs, job, other);
    }
}

/// The time of completion that a job has once its phase was recorded.
pub open spec fn completion(
    before: Option<String>,
    phase: Seq<char>,
    now: String,
) -> Option<String> {
    if is_final_phase(phase) {
        Some(now)
    } else {
        before
    }
}

/// Records the phase and the progress of a job. A phase that ends the job completes it.
pub fn update_job_status(
    job: &mut StoredJob,
    phase: &str,
    progress_percent: Option<u8>,
    now: String,
)
    ensures
        final(job).phase@ == phase@,
        *final(job) == (StoredJob {
            phase: final(job).phase,
            progress_percent,
            completed_at: completion(old(job).completed_at, phase@, now),
            ..*old(job)
        }),
{
    if final_phase(phase) {
        job.completed_at = Some(now);
    }
    job.phase = phase.to_owned();
    job.progress_percent = progress_percent;
}

/// Records why a job failed.
pub fn set_job_failure(job: &mut StoredJob, failure_code: &str)
    ensures
        text::text_view(final(job).failure_code) == Some(failure_code@),
        *final(job) == (StoredJob { failure_code: final(job).failure_code, ..*old(job) }),
{
    job.failure_code = Some(failure_code.to_owned());
}

/// What a source downloads by itself was acknowledged at some time.
pub open spec fn is_acknowledged(source: GitHubSource) -> bool {
    source.auto_download ==> source.auto_acknowledged_at is Some
}

/// The row of a new source: nothing is downloaded by itself, and nothing was found yet.
pub fn insert_github_source(
    id: RecordId,
    app_id: Option<RecordId>,
    repository: RepositoryRef,
    asset_pattern: String,
    include_prereleases: bool,
    now: String,
) -> (source: GitHubSource)
    ensures
        source == (GitHubSource {
            id,
            app_id,
            owner: repository.owner,
            repo: repository.repo,
            asset_pattern,
            include_prereleases,
            auto_download: false,
            auto_acknowledged_at: None,
            last_checked_at: None,
            last_release_id: None,
            last_release_tag: None,
            last_asset_id: None,
            last_asset_name: None,
            last_download_sha256: None,
            last_status: None,
            last_error_code: None,
            created_at: now,
            updated_at: now,
        }),
        is_acknowledged(source),
{
    GitHubSource {
        id,
        app_id,
        owner: repository.owner,
        repo: repository.repo,
        asset_pattern,
        include_prereleases,
        auto_download: false,
        auto_acknowledged_at: None,
        last_checked_at: None,
        last_release_id: None,
        last_release_tag: None,
        last_asset_id: None,
        last_asset_name: None,
        last_download_sha256: None,
        last_status: None,
        last_error_code: None,
        created_at: now.clone(),
        updated_at: now,
    }
}

/// The source with another configuration.
pub open spec fn reconfigured(
    source: GitHubSource,
    app_id: Option<RecordId>,
    repository: RepositoryRef,
    asset_pattern: String,
    include_prereleases: bool,
    now: String,
) -> GitHubSource {
    GitHubSource {
        app_id,
        owner: repository.owner,
        repo: repository.repo,
        asset_pattern,
        include_prereleases,
        auto_download: false,
        auto_acknowledged_at: None,
        updated_at: now,
        ..source
    }
}

/// Changes the configuration of a source. Its downloads are no longer automatic: what was
/// acknowledged was another configuration.
pub fn update_github_source(
    source: &mut GitHubSource,
    app_id: Option<RecordId>,
    repository: RepositoryRef,
    asset_pattern: String,
    include_prereleases: bool,
    now: String,
)
    ensures
        *final(source) == reconfigured(
            *old(source),
            app_id,
            repository,
            asset_pattern,
            include_prereleases,
            now,
        ),
        is_acknowledged(*final(source)),
{
    source.app_id = app_id;
    source.owner = repository.owner;
    source.repo = repository.repo;
    source.asset_pattern = asset_pattern;
    source.include_prereleases = include_prereleases;
    source.auto_download = false;
    source.auto_acknowledged_at = None;
    source.updated_at = now;
}

/// Links a source to the app that it has brought.
pub fn link_github_source_app(source: &mut GitHubSource, app_id: RecordId, now: String)
    ensures
        *final(source) == (GitHubSource {
            app_id: Some(app_id),
            updated_at: now,
            ..*old(source)
        }),
        is_acknowledged(*old(source)) ==> is_acknowledged(*final(source)),
{
    source.app_id = Some(app_id);
    source.updated_at = now;
}

/// The source once its automatic downloads were to be switched.
pub open spec fn automated(
    source: GitHubSource,
    enabled: bool,
    acknowledged: bool,
    now: String,
) -> GitHubSource {
    if !enabled || acknowledged {
        GitHubSource {
            auto_download: enabled,
            auto_acknowledged_at: if enabled {
                Some(now)
            } else {
                None
            },
            updated_at: now,
            ..source
        }
    } else {
        source
    }
}

/// Switches the automatic downloads of a source; they are never switched on without the
/// acknowledgement.
pub fn set_source_automation(
    source: &mut GitHubSource,
    enabled: bool,
    acknowledged: bool,
    now: String,
) -> (changed: bool)
    ensures
        changed == (!enabled || acknowledged),
        *final(source) == automated(*old(source), enabled, acknowledged, now),
        changed || is_acknowledged(*old(source)) ==> is_acknowledged(*final(source)),
{
    if enabled && !acknowledged {
        return false;
    }
    source.auto_download = enabled;
    source.auto_acknowledged_at = if enabled {
        Some(now.clone())
    } else {
        None
    };
    source.updated_at = now;
    true
}

/// Ends the automatic downloads of a source whose app is removed.
pub fn end_source_automation(source: &mut GitHubSource, now: String)
    ensures
        *final(source) == without_automation(*old(source), now),
        is_acknowledged(*final(source)),
{
    source.auto_download = false;
    source.auto_acknowledged_at = None;
    source.updated_at = now;
}

/// Records what a check or a download of a source came to.
pub fn record_source_check(source: &mut GitHubSource, record: SourceRecord, now: String)
    ensures
        text::text_view(final(source).last_status) == Some(record.status@),
        text::text_view(final(source).last_error_code) == text::str_view(record.error_code),
        *final(source) == (GitHubSource {
            last_checked_at: Some(now),
            last_release_id: record.release_id,
            last_release_tag: record.release_tag,
            last_asset_id: record.asset_id,
            last_asset_name: record.asset_name,
            last_download_sha256: record.sha256,
            last_status: final(source).last_status,
            last_error_code: final(source).last_error_code,
            updated_at: now,
            ..*old(source)
        }),
        is_acknowledged(*old(source)) ==> is_acknowledged(*final(source)),
{
    source.last_checked_at = Some(now.clone());
    source.last_release_id = record.release_id;
    source.last_release_tag = record.release_tag;
    source.last_asset_id = record.asset_id;
    source.last_asset_name = record.asset_name;
    source.last_download_sha256 = record.sha256;
    source.last_status = Some(record.status.to_owned());
    source.last_error_code = match record.error_code {
        Some(code) => Some(code.to_owned()),
        None => None,
    };
    source.updated_at = now;
}

// ---------------------------------------------------------------------------------------------
// Settings and columns.
// ---------------------------------------------------------------------------------------------

/// The day of the refresh that a stored setting gives: the default where there is none, or one
/// that is no day between the first and the last.
pub open spec fn refresh_day_of(setting: Option<Seq<char>>) -> int {
    match setting {
        Some(value) => match number::written_number(value) {
            Some(days) => if MIN_REFRESH_AFTER_DAYS <= days <= MAX_REFRESH_AFTER_DAYS {
                days
            } else {
                DEFAULT_REFRESH_AFTER_DAYS as int
            },
            None => DEFAULT_REFRESH_AFTER_DAYS as int,
        },
        None => DEFAULT_REFRESH_AFTER_DAYS as int,
    }
}

/// The day of the refresh that a stored setting gives.
pub fn refresh_after_days(setting: Option<&str>) -> (days: u8)
    ensures
        days == refresh_day_of(text::str_view(setting)),
        MIN_REFRESH_AFTER_DAYS <= days <= MAX_REFRESH_AFTER_DAYS,
{
    match setting {
        Some(value) => match number::parse_number(value, 255) {
            Some(days) => if MIN_REFRESH_AFTER_DAYS as u32 <= days && days
                <= MAX_REFRESH_AFTER_DAYS as u32 {
                days as u8
            } else {
                DEFAULT_REFRESH_AFTER_DAYS
            },
            None => DEFAULT_REFRESH_AFTER_DAYS,
        },
        None => DEFAULT_REFRESH_AFTER_DAYS,
    }
}

/// The text under which a day of the refresh is stored; none for a day that cannot be set.
pub open spec fn refresh_day_text(days: u8) -> Option<Seq<char>> {
    if MIN_REFRESH_AFTER_DAYS <= days <= MAX_REFRESH_AFTER_DAYS {
        Some(seq![(48 + days) as char])
    } else {
        None
    }
}

/// The text under which a day of the refresh is stored.
pub fn set_refresh_after_days(days: u8) -> (setting: Option<String>)
    ensures
        text::text_view(setting) == refresh_day_text(days),
{
    if MIN_REFRESH_AFTER_DAYS <= days && days <= MAX_REFRESH_AFTER_DAYS {
        let mut setting: String = String::new();
        setting.push((48 + days) as char);
        proof {
            assert(setting@ == seq![(48 + days) as char]);
        }
        Some(setting)
    } else {
        None
    }
}

/// A day that was stored is the day that is read.
pub proof fn a_stored_day_is_read_back(days: u8)
    requires
        MIN_REFRESH_AFTER_DAYS <= days <= MAX_REFRESH_AFTER_DAYS,
    ensures
        refresh_day_of(refresh_day_text(days)) == days,
{
    let text = seq![(48 + days) as char];
    assert(text[0] != '+');
    assert forall|i: int| 0 <= i < text.len() implies text::is_ascii_digit(#[trigger] text[i]) by {
    }
    assert(text.drop_last() == Seq::<char>::empty());
    assert(number::decimal(Seq::<char>::empty()) == 0);
    assert(number::decimal(text) == days);
}

/// Whatever is stored, the day of the refresh is one of the first six; without a setting, or with one
/// that is no such day, it is the sixth. Other days cannot be stored.
pub proof fn the_refresh_day_is_in_range(setting: Option<Seq<char>>, days: u8)
    ensures
        1 <= refresh_day_of(setting) <= 6,
        setting is None ==> refresh_day_of(setting) == 6,
        setting is Some && number::written_number(setting->0) is None ==> refresh_day_of(setting)
            == 6,
        setting is Some && number::written_number(setting->0) is Some && 1
            <= number::written_number(setting->0)->0 <= 6 ==> refresh_day_of(setting)
            == number::written_number(setting->0)->0,
        refresh_day_text(days) is Some <==> 1 <= days <= 6,
{
}

/// A column of a table with the statement that adds it.
#[derive(Debug, Clone, Copy)]
pub struct Column {
    pub name: &'static str,
    pub statement: &'static str,
}

/// The columns that older stores lack in the table of apps.
pub open spec fn later_app_columns() -> Seq<Column> {
    seq![
        Column { name: "deleted_at", statement: "ALTER TABLE apps ADD COLUMN deleted_at TEXT;" },
        Column { name: "bundle_id", statement: "ALTER TABLE apps ADD COLUMN bundle_id TEXT;" },
        Column { name: "display_name", statement: "ALTER TABLE apps ADD COLUMN display_name TEXT;" },
        Column { name: "app_version", statement: "ALTER TABLE apps ADD COLUMN app_version TEXT;" },
    ]
}

/// The columns that older stores lack in the table of jobs.
pub open spec fn later_job_columns() -> Seq<Column> {
    seq![
        Column { name: "completed_at", statement: "ALTER TABLE jobs ADD COLUMN completed_at TEXT;" },
        Column {
            name: "progress_percent",
            statement: "ALTER TABLE jobs ADD COLUMN progress_percent INTEGER;",
        },
        Column {
            name: "device_label",
            statement:
                "ALTER TABLE jobs ADD COLUMN device_label TEXT NOT NULL DEFAULT 'Trusted iPhone';",
        },
        Column { name: "failure_code", statement: "ALTER TABLE jobs ADD COLUMN failure_code TEXT;" },
        Column {
            name: "installed_bundle_id",
            statement: "ALTER TABLE jobs ADD COLUMN installed_bundle_id TEXT;",
        },
        Column {
            name: "app_display_name",
            statement: "ALTER TABLE jobs ADD COLUMN app_display_name TEXT;",
        },
        Column { name: "app_version", statement: "ALTER TABLE jobs ADD COLUMN app_version TEXT;" },
    ]
}

/// The statements for the columns that a table lacks, in their order.
pub open spec fn missing_statements(columns: Seq<Column>, present: Seq<Seq<char>>) -> Seq<
    &'static str,
>
    decreases columns.len(),
{
    if columns.len() == 0 {
        Seq::empty()
    } else {
        let before = missing_statements(columns.drop_last(), present);
        if present.contains(columns.last().name@) {
            before
        } else {
            before.push(columns.last().statement)
        }
    }
}

/// A column is added exactly where the table lacks it, so that a table that has them all is left
/// alone.
pub proof fn only_missing_columns_are_added(columns: Seq<Column>, present: Seq<Seq<char>>, at: int)
    requires
        0 <= at < columns.len(),
    ensures
        !present.contains(columns[at].name@) ==> missing_statements(columns, present).contains(
            columns[at].statement,
        ),
        (forall|i: int| 0 <= i < columns.len() ==> present.contains((#[trigger] columns[i]).name@))
            ==> missing_statements(columns, present).len() == 0,
    decreases columns.len(),
{
    let before = columns.drop_last();
    let known = missing_statements(before, present);
    let all = missing_statements(columns, present);
    assert(columns[columns.len() - 1] == columns.last());
    if at < before.len() {
        only_missing_columns_are_added(before, present, at);
        assert(before[at] == columns[at]);
        if known.contains(columns[at].statement) {
            let k = choose|k: int| 0 <= k < known.len() && known[k] == columns[at].statement;
            assert(all[k] == columns[at].statement);
        }
    } else if !present.contains(columns[at].name@) {
        assert(all[known.len() as int] == columns[at].statement);
    }
    if forall|i: int| 0 <= i < columns.len() ==> present.contains((#[trigger] columns[i]).name@) {
        assert forall|i: int| 0 <= i < before.len() implies present.contains(
            (#[trigger] before[i]).name@,
        ) by {
            assert(before[i] == columns[i]);
        }
        if before.len() > 0 {
            only_missing_columns_are_added(before, present, 0);
        }
    }
}

fn has_column(present: &Vec<String>, name: &str) -> (found: bool)
    ensures
        found == text::text_views(present@).contains(name@),
{
    let ghost names = text::text_views(present@);
    let mut i: usize = 0;
    while i < present.len()
        invariant
            i <= present.len(),
            names == text::text_views(present@),
            forall|k: int| 0 <= k < i ==> #[trigger] names[k] != name@,
        decreases present.len() - i,
    {
        proof {
            assert(names[i as int] == present@[i as int]@);
        }
        if text::same_text(present[i].as_str(), name) {
            return true;
        }
        i = i + 1;
    }
    false
}

fn statements_for(columns: Vec<Column>, present: &Vec<String>) -> (statements: Vec<&'static str>)
    ensures
        statements@ == missing_statements(columns@, text::text_views(present@)),
{
    let mut statements: Vec<&'static str> = Vec::new();
    let mut i: usize = 0;
    proof {
        assert(columns@.take(0) == Seq::<Column>::empty());
    }
    while i < columns.len()
        invariant
            i <= columns.len(),
            statements@ == missing_statements(
                columns@.take(i as int),
                text::text_views(present@),
            ),
        decreases columns.len() - i,
    {
        proof {
            assert(columns@.take(i + 1).drop_last() == columns@.take(i as int));
        }
        let column: Column = columns[i];
        if !has_column(present, column.name) {
            statements.push(column.statement);
        }
        i = i + 1;
    }
    proof {
        assert(columns@.take(i as int) == columns@);
    }
    statements
}

/// The statements that bring the table of apps up to date.
pub fn app_migrations(present: &Vec<String>) -> (statements: Vec<&'static str>)
    ensures
        statements@ == missing_statements(later_app_columns(), text::text_views(present@)),
{
    let columns: Vec<Column> = vec![
        Column { name: "deleted_at", statement: "ALTER TABLE apps ADD COLUMN deleted_at TEXT;" },
        Column { name: "bundle_id", statement: "ALTER TABLE apps ADD COLUMN bundle_id TEXT;" },
        Column { name: "display_name", statement: "ALTER TABLE apps ADD COLUMN display_name TEXT;" },
        Column { name: "app_version", statement: "ALTER TABLE apps ADD COLUMN app_version TEXT;" },
    ];
    proof {
        assert(columns@ == later_app_columns());
    }
    statements_for(columns, present)
}

/// The statements that bring the table of jobs up to date.
pub fn job_migrations(present: &Vec<String>) -> (statements: Vec<&'static str>)
    ensures
        statements@ == missing_statements(later_job_columns(), text::text_views(present@)),
{
    let columns: Vec<Column> = vec![
        Column { name: "completed_at", statement: "ALTER TABLE jobs ADD COLUMN completed_at TEXT;" },
        Column {
            name: "progress_percent",
            statement: "ALTER TABLE jobs ADD COLUMN progress_percent INTEGER;",
        },
        Column {
            name: "device_label",
            statement:
                "ALTER TABLE jobs ADD COLUMN device_label TEXT NOT NULL DEFAULT 'Trusted iPhone';",
        },
        Column { name: "failure_code", statement: "ALTER TABLE jobs ADD COLUMN failure_code TEXT;" },
        Column {
            name: "installed_bundle_id",
            statement: "ALTER TABLE jobs ADD COLUMN installed_bundle_id TEXT;",
        },
        Column {
            name: "app_display_name",
            statement: "ALTER TABLE jobs ADD COLUMN app_display_name TEXT;",
        },
        Column { name: "app_version", statement: "ALTER TABLE jobs ADD COLUMN app_version TEXT;" },
    ];
    proof {
        assert(columns@ == later_job_columns());
    }
    statements_for(columns, present)
}

/// Where no success of an installation tells under which identifier its app was installed, the
/// identifier of its IPA is told; where one does, the others that do not tell nothing.
pub proof fn identities_are_told_by_the_ipa_at_last(
    rows: Seq<JobRow>,
    unmanaged: Seq<Installation>,
    device: RecordId,
    at: int,
    other: int,
)
    requires
        0 <= at < rows.len(),
        0 <= other < rows.len(),
        rows[at].phase@ == "succeeded"@,
        rows[at].target.device_id == device,
        rows[at].installed_bundle_id is None,
        !unmanaged.contains(rows[at].target),
    ensures
        (forall|i: int|
            0 <= i < rows.len() && (#[trigger] rows[i]).target == rows[at].target && rows[i].phase@
                == "succeeded"@ ==> rows[i].installed_bundle_id is None) ==> is_told(
            rows,
            unmanaged,
            device,
            (None, text::text_view(rows[at].app_bundle_id)),
        ),
        rows[other].target == rows[at].target && rows[other].phase@ == "succeeded"@
            && rows[other].installed_bundle_id is Some ==> !tells_identity(
            rows,
            unmanaged,
            device,
            at,
        ),
{
    if forall|i: int|
        0 <= i < rows.len() && (#[trigger] rows[i]).target == rows[at].target && rows[i].phase@
            == "succeeded"@ ==> rows[i].installed_bundle_id is None {
        assert(tells_identity(rows, unmanaged, device, at));
        assert(identity_of(rows[at]) == (
            None::<Seq<char>>,
            text::text_view(rows[at].app_bundle_id),
        ));
    }
}

/// A new job waits, for its app as that is now and on its device.
pub proof fn new_jobs_are_queued(
    job: StoredJob,
    app: StoredApp,
    id: RecordId,
    device_id: RecordId,
    device_label: Seq<char>,
)
    requires
        is_new_job(job, app, id, device_id, device_label),
    ensures
        job.id == id,
        job.app_id == app.id,
        job.device_id == device_id,
        job.phase@ == "queued"@,
        is_active_phase(job.phase@),
        job.progress_percent is None,
        job.completed_at is None,
        job.failure_code is None,
        job.device_label@ == device_label,
        job.app_display_name@ == app.display_name@,
        text::text_view(job.app_version) == text::text_view(app.app_version),
{
}

/// The first job with an identifier is the one that is found, whatever stands behind it.
pub proof fn the_first_job_is_found(front: Seq<StoredJob>, job: StoredJob, back: Seq<StoredJob>)
    requires
        forall|i: int| 0 <= i < front.len() ==> (#[trigger] front[i]).id != job.id,
    ensures
        job_with(front + seq![job] + back, job.id) == Some(job),
        job_with(front, job.id) is None,
    decreases front.len(),
{
    let all = front + seq![job] + back;
    if front.len() > 0 {
        assert(all[0] == front[0]);
        assert(all.skip(1) =~= front.skip(1) + seq![job] + back);
        assert forall|i: int| 0 <= i < front.skip(1).len() implies (#[trigger] front.skip(1)[i]).id
            != job.id by {
            assert(front.skip(1)[i] == front[i + 1]);
        }
        the_first_job_is_found(front.skip(1), job, back);
    } else {
        assert(all[0] == job);
    }
}

/// The first app with an identifier that was not removed is the one that is found, and every app
/// that was not removed is listed, in its turn.
pub proof fn stored_apps_are_found_and_listed(
    front: Seq<AppRow>,
    row: AppRow,
    back: Seq<AppRow>,
)
    ensures
        row.deleted_at is None && (forall|i: int|
            0 <= i < front.len() ==> (#[trigger] front[i]).app.id != row.app.id
                || front[i].deleted_at is Some) ==> app_with(
            front + seq![row] + back,
            row.app.id,
        ) == Some(row.app),
        row.deleted_at is None ==> listed_apps(front + seq![row] + back) == listed_apps(front)
            + seq![row.app] + listed_apps(back),
        row.deleted_at is Some ==> listed_apps(front + seq![row] + back) == listed_apps(front)
            + listed_apps(back),
        listed_apps(Seq::empty()).len() == 0,
        app_with(Seq::empty(), row.app.id) is None,
    decreases front.len(),
{
    let all = front + seq![row] + back;
    if front.len() > 0 {
        assert(all[0] == front[0]);
        assert(all.skip(1) =~= front.skip(1) + seq![row] + back);
        stored_apps_are_found_and_listed(front.skip(1), row, back);
        if forall|i: int|
            0 <= i < front.len() ==> (#[trigger] front[i]).app.id != row.app.id
                || front[i].deleted_at is Some {
            assert(front[0].app.id != row.app.id || front[0].deleted_at is Some);
            assert forall|i: int| 0 <= i < front.skip(1).len() implies (
            #[trigger] front.skip(1)[i]).app.id != row.app.id || front.skip(1)[i].deleted_at
                is Some by {
                assert(front.skip(1)[i] == front[i + 1]);
            }
        }
        assert(row.deleted_at is None ==> listed_apps(all) =~= listed_apps(front) + seq![row.app]
            + listed_apps(back));
        assert(row.deleted_at is Some ==> listed_apps(all) =~= listed_apps(front) + listed_apps(
            back,
        ));
    } else {
        assert(all[0] == row);
        assert(all.skip(1) =~= back);
        assert(row.deleted_at is None ==> listed_apps(all) =~= listed_apps(front) + seq![row.app]
            + listed_apps(back));
        assert(row.deleted_at is Some ==> listed_apps(all) =~= listed_apps(front) + listed_apps(
            back,
        ));
    }
}

/// An app is removed at the time of its removal and stays what it was; one that was removed before
/// keeps its time, and no other app is touched.
pub proof fn removals_are_dated(row: AppRow, app_id: RecordId, now: String)
    ensures
        removed_row(row, app_id, now).app == row.app,
        row.app.id == app_id && row.deleted_at is None ==> removed_row(
            row,
            app_id,
            now,
        ).deleted_at == Some(now),
        row.app.id != app_id || row.deleted_at is Some ==> removed_row(row, app_id, now) == row,
        restored_row(row, app_id).app == row.app,
        row.app.id == app_id ==> restored_row(row, app_id).deleted_at is None,
        row.app.id != app_id ==> restored_row(row, app_id) == row,
{
}

/// A source whose app is removed keeps its repository, its pattern and what it has brought.
pub proof fn sources_without_app_keep_their_configuration(
    source: GitHubSource,
    app_id: RecordId,
    now: String,
)
    ensures
        ({
            let after = source_without_app(source, app_id, now);
            &&& after.id == source.id
            &&& after.app_id == source.app_id
            &&& after.owner == source.owner
            &&& after.repo == source.repo
            &&& after.asset_pattern == source.asset_pattern
            &&& after.include_prereleases == source.include_prereleases
            &&& after.last_release_id == source.last_release_id
            &&& after.last_asset_id == source.last_asset_id
            &&& after.last_download_sha256 == source.last_download_sha256
            &&& after.last_status == source.last_status
            &&& after.created_at == source.created_at
            &&& source.app_id == Some(app_id) ==> after.updated_at == now
        }),
{
}

/// An installation that is taken out of management is out of it, one that is put back is not, and
/// neither changes anything of the others.
pub proof fn management_changes_one_installation(
    unmanaged: Seq<Installation>,
    target: Installation,
    other: Installation,
)
    ensures
        forgotten(unmanaged, target).contains(target),
        other != target ==> (forgotten(unmanaged, target).contains(other) <==> unmanaged.contains(
            other,
        )),
        !restored(unmanaged, target).contains(target),
        other != target ==> (restored(unmanaged, target).contains(other) <==> unmanaged.contains(
            other,
        )),
    decreases unmanaged.len(),
{
    let pushed = unmanaged.push(target);
    assert(pushed[unmanaged.len() as int] == target);
    if unmanaged.contains(other) {
        let i = choose|i: int| 0 <= i < unmanaged.len() && unmanaged[i] == other;
        assert(pushed[i] == other);
    }
    reveal(Seq::filter);
    if unmanaged.len() > 0 {
        let before = unmanaged.drop_last();
        let last = unmanaged.last();
        management_changes_one_installation(before, target, other);
        assert(unmanaged =~= before.push(last));
        let left = restored(before, target);
        if restored(unmanaged, target).contains(other) && other != target {
            let k = choose|k: int|
                0 <= k < restored(unmanaged, target).len() && restored(unmanaged, target)[k]
                    == other;
            if k < left.len() {
                assert(left[k] == other);
                let i = choose|i: int| 0 <= i < before.len() && before[i] == other;
                assert(unmanaged[i] == other);
            } else {
                assert(unmanaged[unmanaged.len() - 1] == other);
            }
        }
        if unmanaged.contains(other) && other != target {
            let i = choose|i: int| 0 <= i < unmanaged.len() && unmanaged[i] == other;
            if i < before.len() {
                assert(before[i] == other);
                let k = choose|k: int| 0 <= k < left.len() && left[k] == other;
                assert(restored(unmanaged, target)[k] == other);
            } else {
                assert(restored(unmanaged, target).last() == other);
                assert(restored(unmanaged, target).contains(other));
            }
        }
        if restored(unmanaged, target).contains(target) {
            let k = choose|k: int|
                0 <= k < restored(unmanaged, target).len() && restored(unmanaged, target)[k]
                    == target;
            if k < left.len() {
                assert(left[k] == target);
            }
        }
    }
}

/// Every column that older stores lack is added by its own statement, and what is added for a column
/// is added only where the table lacks it.
pub proof fn older_stores_gain_every_column(present: Seq<Seq<char>>)
    ensures
        ({
            let apps = missing_statements(later_app_columns(), present);
            &&& present.contains("deleted_at"@) || apps.contains(
                "ALTER TABLE apps ADD COLUMN deleted_at TEXT;",
            )
            &&& present.contains("bundle_id"@) || apps.contains(
                "ALTER TABLE apps ADD COLUMN bundle_id TEXT;",
            )
            &&& present.contains("display_name"@) || apps.contains(
                "ALTER TABLE apps ADD COLUMN display_name TEXT;",
            )
            &&& present.contains("app_version"@) || apps.contains(
                "ALTER TABLE apps ADD COLUMN app_version TEXT;",
            )
        }),
        ({
            let jobs = missing_statements(later_job_columns(), present);
            &&& present.contains("completed_at"@) || jobs.contains(
                "ALTER TABLE jobs ADD COLUMN completed_at TEXT;",
            )
            &&& present.contains("progress_percent"@) || jobs.contains(
                "ALTER TABLE jobs ADD COLUMN progress_percent INTEGER;",
            )
            &&& present.contains("device_label"@) || jobs.contains(
                "ALTER TABLE jobs ADD COLUMN device_label TEXT NOT NULL DEFAULT 'Trusted iPhone';",
            )
            &&& present.contains("failure_code"@) || jobs.contains(
                "ALTER TABLE jobs ADD COLUMN failure_code TEXT;",
            )
            &&& present.contains("installed_bundle_id"@) || jobs.contains(
                "ALTER TABLE jobs ADD COLUMN installed_bundle_id TEXT;",
            )
            &&& present.contains("app_display_name"@) || jobs.contains(
                "ALTER TABLE jobs ADD COLUMN app_display_name TEXT;",
            )
            &&& present.contains("app_version"@) || jobs.contains(
                "ALTER TABLE jobs ADD COLUMN app_version TEXT;",
            )
        }),
{
    let apps = later_app_columns();
    only_missing_columns_are_added(apps, present, 0);
    only_missing_columns_are_added(apps, present, 1);
    only_missing_columns_are_added(apps, present, 2);
    only_missing_columns_are_added(apps, present, 3);
    let jobs = later_job_columns();
    only_missing_columns_are_added(jobs, present, 0);
    only_missing_columns_are_added(jobs, present, 1);
    only_missing_columns_are_added(jobs, present, 2);
    only_missing_columns_are_added(jobs, present, 3);
    only_missing_columns_are_added(jobs, present, 4);
    only_missing_columns_are_added(jobs, present, 5);
    only_missing_columns_are_added(jobs, present, 6);
}

/// A column that the table has is not added again.
pub proof fn present_columns_are_not_added(
    front: Seq<Column>,
    column: Column,
    present: Seq<Seq<char>>,
)
    requires
        present.contains(column.name@),
    ensures
        missing_statements(front.push(column), present) == missing_statements(front, present),
        missing_statements(front, present).len() <= front.len(),
    decreases front.len(),
{
    assert(front.push(column).drop_last() =~= front);
    if front.len() > 0 {
        present_columns_are_not_added(front.drop_last(), column, present);
    }
}

/// Automatic downloads are switched off at once, and on only with the acknowledgement, whose time is
/// then kept. Without it nothing changes, and nothing else of a source ever does.
pub proof fn automation_is_switched_by_acknowledgement(
    source: GitHubSource,
    enabled: bool,
    acknowledged: bool,
    now: String,
)
    ensures
        ({
            let after = automated(source, enabled, acknowledged, now);
            &&& enabled && acknowledged ==> after.auto_download && after.auto_acknowledged_at
                == Some(now) && after.updated_at == now
            &&& !enabled ==> !after.auto_download && after.auto_acknowledged_at is None
                && after.updated_at == now
            &&& enabled && !acknowledged ==> after == source
            &&& after.id == source.id
            &&& after.app_id == source.app_id
            &&& after.owner == source.owner
            &&& after.repo == source.repo
            &&& after.asset_pattern == source.asset_pattern
            &&& after.include_prereleases == source.include_prereleases
            &&& after.last_release_id == source.last_release_id
            &&& after.last_asset_id == source.last_asset_id
            &&& after.last_download_sha256 == source.last_download_sha256
            &&& after.last_status == source.last_status
            &&& after.created_at == source.created_at
        }),
{
}

/// A source that is configured anew has the new configuration and no automatic downloads; what it has
/// brought stays recorded.
pub proof fn changed_sources_need_another_acknowledgement(
    source: GitHubSource,
    app_id: Option<RecordId>,
    repository: RepositoryRef,
    asset_pattern: String,
    include_prereleases: bool,
    now: String,
)
    ensures
        ({
            let after = reconfigured(
                source,
                app_id,
                repository,
                asset_pattern,
                include_prereleases,
                now,
            );
            &&& !after.auto_download
            &&& after.auto_acknowledged_at is None
            &&& after.id == source.id
            &&& after.app_id == app_id
            &&& after.owner == repository.owner
            &&& after.repo == repository.repo
            &&& after.asset_pattern == asset_pattern
            &&& after.include_prereleases == include_prereleases
            &&& after.last_release_id == source.last_release_id
            &&& after.last_asset_id == source.last_asset_id
            &&& after.last_download_sha256 == source.last_download_sha256
            &&& after.last_status == source.last_status
            &&& after.created_at == source.created_at
            &&& after.updated_at == now
        }),
{
}

/// A job is completed when it succeeds or fails, at that time, and not before.
pub proof fn jobs_are_completed_when_they_end(
    before: Option<String>,
    phase: Seq<char>,
    now: String,
)
    ensures
        phase == "succeeded"@ || phase == "failed"@ ==> completion(before, phase, now) == Some(now),
        phase != "succeeded"@ && phase != "failed"@ ==> completion(before, phase, now) == before,
{
}

} // verus!
